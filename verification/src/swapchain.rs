//! The presentation surface: what kind of image chain a surface gets, and
//! whether the chain at hand still matches its window.
//!
//! The graphics driver is asked for the surface's properties and creates
//! the chain elsewhere; here the answers are plain values, and the result
//! is the description from which the chain is created.

use vstd::prelude::*;
use ash::vk::SurfaceTransformFlagsKHR;

verus! {

/// The bit of the transform that leaves the image as it is.
pub const TRANSFORM_IDENTITY: u32 = 1;

/// The width that a surface reports when its size is for the chain to decide.
pub const EXTENT_UNDEFINED: u32 = 0xFFFF_FFFF;

/// A size in physical pixels.
#[derive(Clone, Copy, Debug, PartialEq, Eq, Structural)]
pub struct Extent {
    pub width: u32,
    pub height: u32,
}

/// A pixel format with its colour space, both as the driver numbers them.
#[derive(Clone, Copy, Debug, PartialEq, Eq, Structural)]
pub struct SurfaceFormat {
    pub format: i32,
    pub color_space: i32,
}

/// How finished images are queued for display.
#[derive(Clone, Copy, Debug, PartialEq, Eq, Structural)]
pub enum PresentMode {
    Immediate,
    /// A newer image replaces one still waiting: low latency, no tearing.
    Mailbox,
    /// Images wait in line for the display; every surface offers it.
    Fifo,
    FifoRelaxed,
    /// A mode this library does not choose, by the driver's number.
    Other(i32),
}

/// What a surface can do, as the driver reports it.
#[derive(Clone, Copy, Debug, PartialEq, Eq, Structural)]
pub struct SurfaceCapabilities {
    pub min_image_count: u32,
    /// The largest chain the surface allows; zero if there is no limit.
    pub max_image_count: u32,
    /// The surface's size, or `EXTENT_UNDEFINED` in its width.
    pub current_extent: Extent,
    /// The set of transforms the surface supports, one bit each.
    pub supported_transforms: u32,
    pub current_transform: u32,
}

/// Why no chain could be described.
#[derive(Clone, Copy, Debug, PartialEq, Eq, Structural)]
pub enum BuildError {
    /// The surface's formats were not given.
    MissingFormats,
    /// The surface offers no format at all.
    NoSurfaceFormat,
    /// The surface's capabilities were not given.
    MissingCapabilities,
    /// The surface's present modes were not given.
    MissingPresentModes,
}

/// One image more than the surface needs at least, so that one can be drawn
/// while the others are shown or waiting, but no more than the surface
/// allows, and no more than the count can hold.
pub open spec fn image_count_for(caps: SurfaceCapabilities) -> u32 {
    if caps.max_image_count > 0 && caps.min_image_count + 1 > caps.max_image_count {
        caps.max_image_count
    } else if caps.min_image_count == u32::MAX {
        u32::MAX
    } else {
        (caps.min_image_count + 1) as u32
    }
}

/// The surface's own size, or the window's where the surface leaves it open.
pub open spec fn extent_for(caps: SurfaceCapabilities, window: Extent) -> Extent {
    if caps.current_extent.width == EXTENT_UNDEFINED {
        window
    } else {
        caps.current_extent
    }
}

/// Whether `supported` holds every bit of `wanted`.
pub open spec fn transforms_include(supported: u32, wanted: u32) -> bool {
    supported & wanted == wanted
}

/// No transform where the surface supports that, else the one it applies now.
pub open spec fn pre_transform_for(caps: SurfaceCapabilities) -> u32 {
    if transforms_include(caps.supported_transforms, TRANSFORM_IDENTITY) {
        TRANSFORM_IDENTITY
    } else {
        caps.current_transform
    }
}

/// Mailbox where the surface offers it, else the mode every surface offers.
pub open spec fn present_mode_for(modes: Seq<PresentMode>) -> PresentMode {
    if modes.contains(PresentMode::Mailbox) {
        PresentMode::Mailbox
    } else {
        PresentMode::Fifo
    }
}

/// `ash::vk::SurfaceTransformFlagsKHR::contains`, between two sets of
/// transform bits made with `from_raw`: true exactly when every bit of
/// `wanted` is set in `supported`.
#[verifier::external_body]
fn transforms_contain(supported: u32, wanted: u32) -> (r: bool)
    ensures
        r == transforms_include(supported, wanted),
{
    SurfaceTransformFlagsKHR::from_raw(supported).contains(
        SurfaceTransformFlagsKHR::from_raw(wanted),
    )
}

fn choose_image_count(caps: &SurfaceCapabilities) -> (n: u32)
    ensures
        n == image_count_for(*caps),
{
    if caps.max_image_count > 0 && caps.min_image_count >= caps.max_image_count {
        caps.max_image_count
    } else if caps.min_image_count == u32::MAX {
        u32::MAX
    } else {
        caps.min_image_count + 1
    }
}

fn choose_present_mode(modes: &Vec<PresentMode>) -> (m: PresentMode)
    ensures
        m == present_mode_for(modes@),
{
    let mut i: usize = 0;
    while i < modes.len()
        invariant
            i <= modes.len(),
            forall|j: int| 0 <= j < i ==> modes@[j] != PresentMode::Mailbox,
        decreases modes.len() - i,
    {
        if modes[i] == PresentMode::Mailbox {
            assert(modes@.contains(PresentMode::Mailbox));
            return PresentMode::Mailbox;
        }
        i = i + 1;
    }
    PresentMode::Fifo
}

/// What a `Swapchain` is, to its callers.
pub struct SwapchainView {
    pub image_count: u32,
    pub format: SurfaceFormat,
    pub extent: Extent,
    pub pre_transform: u32,
    pub present_mode: PresentMode,
    /// Whether the chain no longer matches its window and must be rebuilt.
    pub stale: bool,
}

impl SwapchainView {
    /// The chain for a surface with these properties under a window of this
    /// size, freshly built.
    pub open spec fn planned(
        caps: SurfaceCapabilities,
        formats: Seq<SurfaceFormat>,
        modes: Seq<PresentMode>,
        window: Extent,
    ) -> SwapchainView
        recommends
            formats.len() > 0,
    {
        SwapchainView {
            image_count: image_count_for(caps),
            format: formats[0],
            extent: extent_for(caps, window),
            pre_transform: pre_transform_for(caps),
            present_mode: present_mode_for(modes),
            stale: false,
        }
    }
}

/// The description of an image chain, and whether it is still good.
#[derive(Clone, Copy, Debug)]
pub struct Swapchain {
    image_count: u32,
    format: SurfaceFormat,
    extent: Extent,
    pre_transform: u32,
    present_mode: PresentMode,
    stale: bool,
}

impl View for Swapchain {
    type V = SwapchainView;

    closed spec fn view(&self) -> SwapchainView {
        SwapchainView {
            image_count: self.image_count,
            format: self.format,
            extent: self.extent,
            pre_transform: self.pre_transform,
            present_mode: self.present_mode,
            stale: self.stale,
        }
    }
}

impl Swapchain {
    /// A builder that has been given nothing yet.
    pub fn builder() -> (b: SwapchainBuilder)
        ensures
            b@ == SwapchainBuilderView::empty(),
    {
        SwapchainBuilder { capabilities: None, formats: None, present_modes: None }
    }

    /// The number of images asked for.
    pub fn image_count(&self) -> (n: u32)
        ensures
            n == self@.image_count,
    {
        self.image_count
    }

    /// The format of the images.
    pub fn format(&self) -> (f: SurfaceFormat)
        ensures
            f == self@.format,
    {
        self.format
    }

    /// The size of the images.
    pub fn extent(&self) -> (e: Extent)
        ensures
            e == self@.extent,
    {
        self.extent
    }

    /// The transform applied before display, as one bit.
    pub fn pre_transform(&self) -> (t: u32)
        ensures
            t == self@.pre_transform,
    {
        self.pre_transform
    }

    /// How finished images are queued.
    pub fn present_mode(&self) -> (m: PresentMode)
        ensures
            m == self@.present_mode,
    {
        self.present_mode
    }

    /// Whether the chain must be rebuilt before it is used again.
    pub fn is_stale(&self) -> (s: bool)
        ensures
            s == self@.stale,
    {
        self.stale
    }

    /// Notes that the chain no longer matches its window. Nothing is rebuilt
    /// here; however often this is called, one rebuild follows.
    pub fn mark_stale(&mut self)
        ensures
            final(self)@ == (SwapchainView { stale: true, ..old(self)@ }),
    {
        self.stale = true;
    }
}

/// What a `SwapchainBuilder` has been given so far.
pub struct SwapchainBuilderView {
    pub capabilities: Option<SurfaceCapabilities>,
    pub formats: Option<Seq<SurfaceFormat>>,
    pub present_modes: Option<Seq<PresentMode>>,
}

impl SwapchainBuilderView {
    /// Nothing given.
    pub open spec fn empty() -> SwapchainBuilderView {
        SwapchainBuilderView { capabilities: None, formats: None, present_modes: None }
    }

    /// What stands in the way of a chain, if anything: the formats are
    /// looked at first, then the capabilities, then the present modes.
    pub open spec fn missing(self) -> Option<BuildError> {
        if self.formats is None {
            Some(BuildError::MissingFormats)
        } else if self.formats->0.len() == 0 {
            Some(BuildError::NoSurfaceFormat)
        } else if self.capabilities is None {
            Some(BuildError::MissingCapabilities)
        } else if self.present_modes is None {
            Some(BuildError::MissingPresentModes)
        } else {
            None
        }
    }
}

/// Gathers a surface's properties and describes the chain that fits them.
pub struct SwapchainBuilder {
    capabilities: Option<SurfaceCapabilities>,
    formats: Option<Vec<SurfaceFormat>>,
    present_modes: Option<Vec<PresentMode>>,
}

impl View for SwapchainBuilder {
    type V = SwapchainBuilderView;

    closed spec fn view(&self) -> SwapchainBuilderView {
        SwapchainBuilderView {
            capabilities: self.capabilities,
            formats: match self.formats {
                Some(f) => Some(f@),
                None => None,
            },
            present_modes: match self.present_modes {
                Some(m) => Some(m@),
                None => None,
            },
        }
    }
}

impl Default for SwapchainBuilder {
    fn default() -> (b: Self)
        ensures
            b@ == SwapchainBuilderView::empty(),
    {
        Swapchain::builder()
    }
}

impl SwapchainBuilder {
    /// Gives the surface's capabilities, in place of any given before.
    pub fn capabilities(self, capabilities: SurfaceCapabilities) -> (b: Self)
        ensures
            b@ == (SwapchainBuilderView { capabilities: Some(capabilities), ..self@ }),
    {
        let mut b = self;
        b.capabilities = Some(capabilities);
        b
    }

    /// Gives the formats the surface offers, in the driver's order.
    pub fn formats(self, formats: Vec<SurfaceFormat>) -> (b: Self)
        ensures
            b@ == (SwapchainBuilderView { formats: Some(formats@), ..self@ }),
    {
        let mut b = self;
        b.formats = Some(formats);
        b
    }

    /// Gives the present modes the surface offers.
    pub fn present_modes(self, present_modes: Vec<PresentMode>) -> (b: Self)
        ensures
            b@ == (SwapchainBuilderView { present_modes: Some(present_modes@), ..self@ }),
    {
        let mut b = self;
        b.present_modes = Some(present_modes);
        b
    }

    /// Describes the chain for the surface under a window of size `window`.
    ///
    /// The chain takes the first format offered, one image more than the
    /// minimum within the surface's limit, the surface's size (the window's
    /// where the surface leaves it open), no transform if the surface can do
    /// without, and mailbox presentation if offered. On success the builder
    /// is used up; where something is missing it is left as it was.
    pub fn build(&mut self, window: &Extent) -> (r: Result<Swapchain, BuildError>)
        ensures
            match old(self)@.missing() {
                Some(e) => r == Err::<Swapchain, BuildError>(e) && final(self)@ == old(self)@,
                None => r is Ok && r->Ok_0@ == SwapchainView::planned(
                    old(self)@.capabilities->0,
                    old(self)@.formats->0,
                    old(self)@.present_modes->0,
                    *window,
                ) && final(self)@ == SwapchainBuilderView::empty(),
            },
    {
        let format = match &self.formats {
            None => {
                return Err(BuildError::MissingFormats);
            },
            Some(formats) => {
                if formats.len() == 0 {
                    return Err(BuildError::NoSurfaceFormat);
                }
                formats[0]
            },
        };
        let caps = match self.capabilities {
            None => {
                return Err(BuildError::MissingCapabilities);
            },
            Some(caps) => caps,
        };
        let present_mode = match &self.present_modes {
            None => {
                return Err(BuildError::MissingPresentModes);
            },
            Some(modes) => choose_present_mode(modes),
        };
        let extent = if caps.current_extent.width == EXTENT_UNDEFINED {
            *window
        } else {
            caps.current_extent
        };
        let pre_transform = if transforms_contain(caps.supported_transforms, TRANSFORM_IDENTITY) {
            TRANSFORM_IDENTITY
        } else {
            caps.current_transform
        };
        let image_count = choose_image_count(&caps);
        self.capabilities = None;
        self.formats = None;
        self.present_modes = None;
        Ok(Swapchain { image_count, format, extent, pre_transform, present_mode, stale: false })
    }
}

} // verus!
