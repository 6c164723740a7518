//! The render dispatcher: one frame at a time, from acquiring an image to
//! presenting it, with the surface rebuilt when it has gone stale.
//!
//! The dispatcher decides and its caller acts. Each call returns the next
//! `Action`; the caller carries it out on the graphics device and reports
//! what happened as an `Event`. A failure never ends the loop: the frame is
//! given up and the next cycle starts afresh.

use vstd::prelude::*;
use crate::device::{Device, DeviceView};
use crate::state::{FrameToken, State, StateView};
use crate::swapchain::{
    BuildError,
    Extent,
    SurfaceFormat,
    Swapchain,
    SwapchainBuilder,
    SwapchainBuilderView,
    SwapchainView,
};

verus! {

/// Where the dispatcher stands within a frame.
#[derive(Clone, Copy, Debug, PartialEq, Eq, Structural)]
pub enum Phase {
    /// Between frames.
    Idle,
    /// Waiting for the surface to be rebuilt, before an image is acquired.
    Rebuilding,
    /// Waiting for the next image of the chain.
    Acquiring,
    /// Waiting for the commands that draw to `image`.
    Recording { image: u32 },
    /// Waiting for frame `frame`, drawn to `image`, to be submitted.
    Submitting { image: u32, frame: u64 },
    /// Waiting for `image` to be handed to the display.
    Presenting { image: u32, frame: u64 },
}

/// What the graphics device did with the last action.
#[derive(Clone, Copy, Debug, PartialEq, Eq, Structural)]
pub enum Event {
    /// An image was acquired; `suboptimal` if the chain still works but no
    /// longer fits the surface well.
    Acquired { image: u32, suboptimal: bool },
    /// No image was acquired because the chain no longer fits the surface.
    AcquireOutOfDate,
    /// No image was acquired, for another reason; a wait that ran out is
    /// one.
    AcquireFailed,
    /// The commands of the frame are recorded.
    Recorded,
    /// The commands were submitted.
    Submitted,
    /// The commands could not be submitted.
    SubmitFailed,
    /// The image was queued for display.
    Presented { suboptimal: bool },
    /// The image was not queued because the chain no longer fits the surface.
    PresentOutOfDate,
    /// The image was not queued, for another reason.
    PresentFailed,
}

/// How a frame ended.
#[derive(Clone, Copy, Debug, PartialEq, Eq, Structural)]
pub enum Outcome {
    /// The frame is on its way to the display.
    Presented,
    /// The frame was given up because the surface must be rebuilt first.
    Invalidated,
    /// The frame was given up after an error that should be reported.
    Failed,
}

/// What the caller is to do next.
#[derive(Debug, PartialEq, Eq, Structural)]
pub enum Action {
    /// Wait until the device is idle, ask the surface for its properties
    /// and call `recreate_swapchain` with them.
    Rebuild,
    /// Acquire the next image of the chain, waiting for it no longer than
    /// `timeout` nanoseconds, or as long as it takes if there is none.
    Acquire { timeout: Option<u64> },
    /// Record the commands that draw to `image`.
    Record { image: u32 },
    /// Submit the commands as frame `frame`, to run once `wait_on` is
    /// complete and `image` is available.
    Submit { image: u32, frame: u64, wait_on: FrameToken },
    /// Hand `image` to the display.
    Present { image: u32 },
    /// The frame is over.
    Done(Outcome),
    /// Nothing: what was reported does not belong to this phase.
    Ignored,
}

/// The serial number after `serial`; the numbers start over after the last.
pub open spec fn next_serial(serial: u64) -> u64 {
    if serial == u64::MAX {
        0
    } else {
        (serial + 1) as u64
    }
}

/// What a `Vulkan` is, to its callers.
pub struct VulkanView {
    pub device: DeviceView,
    pub swapchain: SwapchainView,
    pub state: StateView,
    pub phase: Phase,
    /// The number of frames submitted so far, and so the serial number of
    /// the frame submitted next.
    pub submissions: u64,
    /// The longest wait for an image, in nanoseconds; none if unbounded.
    pub acquire_timeout: Option<u64>,
}

impl VulkanView {
    /// The dispatcher for a freshly built chain on `device`.
    pub open spec fn initial(device: DeviceView, swapchain: SwapchainView) -> VulkanView {
        VulkanView {
            device,
            swapchain,
            state: StateView::initial(swapchain.extent),
            phase: Phase::Idle,
            submissions: 0,
            acquire_timeout: None,
        }
    }

    /// The chain is marked for a rebuild; nothing else changes.
    pub open spec fn stale(self) -> VulkanView {
        VulkanView { swapchain: SwapchainView { stale: true, ..self.swapchain }, ..self }
    }

    /// The frame at hand is given up, and what is submitted next waits for
    /// nothing.
    pub open spec fn abandoned(self) -> VulkanView {
        VulkanView { state: self.state.idle(), phase: Phase::Idle, ..self }
    }

    /// The dispatcher after `prepare_render`.
    pub open spec fn prepared(self, finished: bool) -> VulkanView {
        if self.phase is Idle {
            VulkanView {
                state: self.state.cleaned(finished),
                phase: if self.swapchain.stale {
                    Phase::Rebuilding
                } else {
                    Phase::Acquiring
                },
                ..self
            }
        } else {
            self
        }
    }

    /// What `prepare_render` asks for.
    pub open spec fn prepare_action(self) -> Action {
        if !(self.phase is Idle) {
            Action::Ignored
        } else if self.swapchain.stale {
            Action::Rebuild
        } else {
            Action::Acquire { timeout: self.acquire_timeout }
        }
    }

    /// The dispatcher after `recreate_swapchain` with what `builder` holds.
    pub open spec fn rebuilt(self, builder: SwapchainBuilderView, window: Extent) -> VulkanView {
        if !(self.phase is Rebuilding) {
            self
        } else if builder.missing() is Some {
            self.abandoned()
        } else {
            let swapchain = SwapchainView::planned(
                builder.capabilities->0,
                builder.formats->0,
                builder.present_modes->0,
                window,
            );
            VulkanView {
                swapchain,
                state: StateView::initial(swapchain.extent),
                phase: Phase::Acquiring,
                ..self
            }
        }
    }

    /// What `recreate_swapchain` asks for.
    pub open spec fn rebuild_action(self, builder: SwapchainBuilderView) -> Action {
        if !(self.phase is Rebuilding) {
            Action::Ignored
        } else if builder.missing() is Some {
            Action::Done(Outcome::Failed)
        } else {
            Action::Acquire { timeout: self.acquire_timeout }
        }
    }

    /// The dispatcher after `event` has been reported.
    pub open spec fn after(self, event: Event) -> VulkanView {
        match (self.phase, event) {
            (Phase::Acquiring, Event::Acquired { image, suboptimal }) => VulkanView {
                swapchain: SwapchainView {
                    stale: self.swapchain.stale || suboptimal,
                    ..self.swapchain
                },
                phase: Phase::Recording { image },
                ..self
            },
            (Phase::Acquiring, Event::AcquireOutOfDate) => self.stale().abandoned(),
            (Phase::Acquiring, Event::AcquireFailed) => self.abandoned(),
            (Phase::Recording { image }, Event::Recorded) => VulkanView {
                state: self.state.idle(),
                phase: Phase::Submitting { image, frame: self.submissions },
                submissions: next_serial(self.submissions),
                ..self
            },
            (Phase::Submitting { image, frame }, Event::Submitted) => VulkanView {
                phase: Phase::Presenting { image, frame },
                ..self
            },
            (Phase::Submitting { .. }, Event::SubmitFailed) => self.abandoned(),
            (Phase::Presenting { image, frame }, Event::Presented { suboptimal }) => VulkanView {
                swapchain: SwapchainView {
                    stale: self.swapchain.stale || suboptimal,
                    ..self.swapchain
                },
                state: StateView { prev_frame: FrameToken::Frame(frame), ..self.state },
                phase: Phase::Idle,
                ..self
            },
            (Phase::Presenting { .. }, Event::PresentOutOfDate) => self.stale().abandoned(),
            (Phase::Presenting { .. }, Event::PresentFailed) => self.abandoned(),
            _ => self,
        }
    }

    /// What the dispatcher asks for once `event` has been reported.
    pub open spec fn reaction(self, event: Event) -> Action {
        match (self.phase, event) {
            (Phase::Acquiring, Event::Acquired { image, suboptimal }) => Action::Record { image },
            (Phase::Acquiring, Event::AcquireOutOfDate) => Action::Done(Outcome::Invalidated),
            (Phase::Acquiring, Event::AcquireFailed) => Action::Done(Outcome::Failed),
            (Phase::Recording { image }, Event::Recorded) => Action::Submit {
                image,
                frame: self.submissions,
                wait_on: self.state.prev_frame,
            },
            (Phase::Submitting { image, frame }, Event::Submitted) => Action::Present { image },
            (Phase::Submitting { .. }, Event::SubmitFailed) => Action::Done(Outcome::Failed),
            (Phase::Presenting { .. }, Event::Presented { .. }) => Action::Done(
                Outcome::Presented,
            ),
            (Phase::Presenting { .. }, Event::PresentOutOfDate) => Action::Done(
                Outcome::Invalidated,
            ),
            (Phase::Presenting { .. }, Event::PresentFailed) => Action::Done(Outcome::Failed),
            _ => Action::Ignored,
        }
    }
}

/// Drives the frames of one surface.
#[derive(Debug)]
pub struct Vulkan {
    device: Device,
    swapchain: Swapchain,
    state: State,
    phase: Phase,
    submissions: u64,
    acquire_timeout: Option<u64>,
}

impl View for Vulkan {
    type V = VulkanView;

    closed spec fn view(&self) -> VulkanView {
        VulkanView {
            device: self.device@,
            swapchain: self.swapchain@,
            state: self.state@,
            phase: self.phase,
            submissions: self.submissions,
            acquire_timeout: self.acquire_timeout,
        }
    }
}

impl Vulkan {
    /// Sets up the dispatcher on `device`, with the chain that `builder`
    /// describes for a window of size `window`, and with no limit on the
    /// wait for an image. Fails exactly where the builder does.
    pub fn new(device: Device, builder: &mut SwapchainBuilder, window: &Extent) -> (r: Result<
        Self,
        BuildError,
    >)
        ensures
            match old(builder)@.missing() {
                Some(e) => r == Err::<Self, BuildError>(e) && final(builder)@ == old(builder)@,
                None => r is Ok && r->Ok_0@ == VulkanView::initial(
                    device@,
                    SwapchainView::planned(
                        old(builder)@.capabilities->0,
                        old(builder)@.formats->0,
                        old(builder)@.present_modes->0,
                        *window,
                    ),
                ) && final(builder)@ == SwapchainBuilderView::empty(),
            },
    {
        match builder.build(window) {
            Err(e) => Err(e),
            Ok(swapchain) => {
                let state = State::new(&swapchain);
                Ok(
                    Self {
                        device,
                        swapchain,
                        state,
                        phase: Phase::Idle,
                        submissions: 0,
                        acquire_timeout: None,
                    },
                )
            },
        }
    }

    /// The device and queue family in use.
    pub fn device(&self) -> (d: &Device)
        ensures
            d@ == self@.device,
    {
        &self.device
    }

    /// The chain in use.
    pub fn swapchain(&self) -> (s: &Swapchain)
        ensures
            s@ == self@.swapchain,
    {
        &self.swapchain
    }

    /// The frame synchroniser.
    pub fn state(&self) -> (s: &State)
        ensures
            s@ == self@.state,
    {
        &self.state
    }

    /// Where the dispatcher stands.
    pub fn phase(&self) -> (p: Phase)
        ensures
            p == self@.phase,
    {
        self.phase
    }

    /// The number of frames submitted so far.
    pub fn submissions(&self) -> (n: u64)
        ensures
            n == self@.submissions,
    {
        self.submissions
    }

    /// The longest wait for an image, in nanoseconds; none if unbounded.
    pub fn acquire_timeout(&self) -> (t: Option<u64>)
        ensures
            t == self@.acquire_timeout,
    {
        self.acquire_timeout
    }

    /// Sets the longest wait for an image, from the next acquisition on.
    pub fn set_acquire_timeout(&mut self, timeout: Option<u64>)
        ensures
            final(self)@ == (VulkanView { acquire_timeout: timeout, ..old(self)@ }),
    {
        self.acquire_timeout = timeout;
    }

    /// The format of the images of the chain in use.
    pub fn surface_format(&self) -> (f: SurfaceFormat)
        ensures
            f == self@.swapchain.format,
    {
        self.swapchain.format()
    }

    /// Notes that the surface has changed, as after a resize. The rebuild
    /// waits for the start of the next frame.
    pub fn mark_stale(&mut self)
        ensures
            final(self)@ == old(self)@.stale(),
    {
        self.swapchain.mark_stale();
    }

    /// Starts a frame. What was held for the previous frame is let go if
    /// `finished` says that the graphics processor is done with it; then a
    /// stale chain is rebuilt before anything is acquired. In the middle of
    /// a frame nothing happens.
    pub fn prepare_render(&mut self, finished: bool) -> (action: Action)
        ensures
            final(self)@ == old(self)@.prepared(finished),
            action == old(self)@.prepare_action(),
    {
        match self.phase {
            Phase::Idle => {
                self.state.cleanup_frame(finished);
                if self.swapchain.is_stale() {
                    self.phase = Phase::Rebuilding;
                    Action::Rebuild
                } else {
                    self.phase = Phase::Acquiring;
                    Action::Acquire { timeout: self.acquire_timeout }
                }
            },
            _ => Action::Ignored,
        }
    }

    /// Replaces the chain by the one that `builder` describes for a window
    /// of size `window`, and goes on to acquire an image. To be called in
    /// answer to `Action::Rebuild`, once the device is idle: the frame
    /// synchroniser starts over with no work in flight. Where the builder
    /// lacks something the frame is given up and the chain stays stale. In
    /// any other phase nothing happens and the builder is left alone.
    pub fn recreate_swapchain(&mut self, builder: &mut SwapchainBuilder, window: &Extent) -> (action:
        Action)
        ensures
            final(self)@ == old(self)@.rebuilt(old(builder)@, *window),
            action == old(self)@.rebuild_action(old(builder)@),
            final(builder)@ == if old(self)@.phase is Rebuilding && old(builder)@.missing() is None {
                SwapchainBuilderView::empty()
            } else {
                old(builder)@
            },
    {
        match self.phase {
            Phase::Rebuilding => {
                match builder.build(window) {
                    Ok(swapchain) => {
                        self.state = State::new(&swapchain);
                        self.swapchain = swapchain;
                        self.phase = Phase::Acquiring;
                        Action::Acquire { timeout: self.acquire_timeout }
                    },
                    Err(_) => {
                        self.state.reset();
                        self.phase = Phase::Idle;
                        Action::Done(Outcome::Failed)
                    },
                }
            },
            _ => Action::Ignored,
        }
    }

    /// Takes the report of what the graphics device did and says what to
    /// do next.
    ///
    /// An acquired image is recorded to, then submitted behind the previous
    /// frame, then presented; a suboptimal chain is marked stale and still
    /// used for this frame. Where the chain is out of date the frame is
    /// given up and the chain marked stale; after any other failure the
    /// frame is given up. Whenever a frame is given up, what is submitted
    /// next waits for nothing. A report that does not belong to the phase
    /// at hand changes nothing.
    pub fn step(&mut self, event: Event) -> (action: Action)
        ensures
            final(self)@ == old(self)@.after(event),
            action == old(self)@.reaction(event),
    {
        match (self.phase, event) {
            (Phase::Acquiring, Event::Acquired { image, suboptimal }) => {
                if suboptimal {
                    self.swapchain.mark_stale();
                }
                self.phase = Phase::Recording { image };
                Action::Record { image }
            },
            (Phase::Acquiring, Event::AcquireOutOfDate) => {
                self.swapchain.mark_stale();
                self.abandon(Outcome::Invalidated)
            },
            (Phase::Acquiring, Event::AcquireFailed) => self.abandon(Outcome::Failed),
            (Phase::Recording { image }, Event::Recorded) => {
                let frame = self.submissions;
                let wait_on = self.state.take_prev_frame();
                self.submissions = if frame == u64::MAX {
                    0
                } else {
                    frame + 1
                };
                self.phase = Phase::Submitting { image, frame };
                Action::Submit { image, frame, wait_on }
            },
            (Phase::Submitting { image, frame }, Event::Submitted) => {
                self.phase = Phase::Presenting { image, frame };
                Action::Present { image }
            },
            (Phase::Submitting { .. }, Event::SubmitFailed) => self.abandon(Outcome::Failed),
            (Phase::Presenting { image, frame }, Event::Presented { suboptimal }) => {
                if suboptimal {
                    self.swapchain.mark_stale();
                }
                self.state.replace_frame(FrameToken::Frame(frame));
                self.phase = Phase::Idle;
                Action::Done(Outcome::Presented)
            },
            (Phase::Presenting { .. }, Event::PresentOutOfDate) => {
                self.swapchain.mark_stale();
                self.abandon(Outcome::Invalidated)
            },
            (Phase::Presenting { .. }, Event::PresentFailed) => self.abandon(Outcome::Failed),
            _ => Action::Ignored,
        }
    }

    fn abandon(&mut self, outcome: Outcome) -> (action: Action)
        ensures
            final(self)@ == old(self)@.abandoned(),
            action == Action::Done(outcome),
    {
        self.state.reset();
        self.phase = Phase::Idle;
        Action::Done(outcome)
    }
}

/// Commands are submitted in answer to one report only: that the frame's
/// commands are recorded, while the dispatcher waits for just that. No other
/// report, in no other phase, changes the number of frames submitted.
pub proof fn lemma_submit_only_after_recording(v: VulkanView, event: Event)
    ensures
        v.reaction(event) is Submit <==> v.phase is Recording && event is Recorded,
        !(v.phase is Recording && event is Recorded) ==> v.after(event).submissions
            == v.submissions,
{
}

/// Where the surface is out of date when an image is asked for, the frame
/// is given up without a submission: the chain is marked stale, the frame
/// synchroniser is left with an idle token, and the dispatcher is between
/// frames again. The next frame then starts with a rebuild, and acquires
/// only from the rebuilt chain, which is not stale.
pub proof fn lemma_out_of_date_acquire_defers_rebuild(
    v: VulkanView,
    finished: bool,
    builder: SwapchainBuilderView,
    window: Extent,
)
    requires
        v.phase is Acquiring,
    ensures
        v.reaction(Event::AcquireOutOfDate) == Action::Done(Outcome::Invalidated),
        v.after(Event::AcquireOutOfDate).swapchain.stale,
        v.after(Event::AcquireOutOfDate).submissions == v.submissions,
        v.after(Event::AcquireOutOfDate).phase is Idle,
        v.after(Event::AcquireOutOfDate).state.prev_frame is Idle,
        v.after(Event::AcquireOutOfDate).prepare_action() == Action::Rebuild,
        !(v.after(Event::AcquireOutOfDate).prepare_action() is Acquire),
        v.after(Event::AcquireOutOfDate).prepared(finished).phase is Rebuilding,
        builder.missing() is None ==> {
            let next = v.after(Event::AcquireOutOfDate).prepared(finished);
            &&& next.rebuild_action(builder) == Action::Acquire { timeout: v.acquire_timeout }
            &&& next.rebuilt(builder, window).phase is Acquiring
            &&& !next.rebuilt(builder, window).swapchain.stale
            &&& next.rebuilt(builder, window).state.prev_frame is Idle
        },
{
}

/// Where the chain is reported suboptimal when an image is acquired, the
/// frame goes on: it is recorded, submitted behind the previous frame and
/// presented, and its token becomes the one to wait for. The chain is
/// marked stale all the while, and it is the next frame that starts with
/// the rebuild.
pub proof fn lemma_suboptimal_acquire_still_presents(
    v: VulkanView,
    image: u32,
    suboptimal_again: bool,
)
    requires
        v.phase is Acquiring,
    ensures
        ({
            let acquired = v.after(Event::Acquired { image, suboptimal: true });
            let recorded = acquired.after(Event::Recorded);
            let submitted = recorded.after(Event::Submitted);
            let presented = submitted.after(Event::Presented { suboptimal: suboptimal_again });
            &&& v.reaction(Event::Acquired { image, suboptimal: true }) == Action::Record { image }
            &&& acquired.swapchain.stale
            &&& acquired.reaction(Event::Recorded) == Action::Submit {
                image,
                frame: v.submissions,
                wait_on: v.state.prev_frame,
            }
            &&& recorded.reaction(Event::Submitted) == Action::Present { image }
            &&& submitted.reaction(Event::Presented { suboptimal: suboptimal_again })
                == Action::Done(Outcome::Presented)
            &&& presented.phase is Idle
            &&& presented.swapchain.stale
            &&& presented.submissions == next_serial(v.submissions)
            &&& presented.state.prev_frame == FrameToken::Frame(v.submissions)
            &&& presented.prepare_action() == Action::Rebuild
        }),
{
}

/// A stale chain stays stale whatever is reported and however often a frame
/// is started or the chain is marked again: only a rebuild that succeeds
/// makes it good.
pub proof fn lemma_stale_until_rebuilt(
    v: VulkanView,
    event: Event,
    finished: bool,
    builder: SwapchainBuilderView,
    window: Extent,
)
    requires
        v.swapchain.stale,
    ensures
        v.stale() == v,
        v.after(event).swapchain.stale,
        v.prepared(finished).swapchain.stale,
        v.rebuilt(builder, window).swapchain.stale <==> !(v.phase is Rebuilding
            && builder.missing() is None),
{
}

/// Whenever a report ends the frame, the dispatcher is between frames and
/// the next frame can start; unless the frame was presented, what is
/// submitted next waits for nothing.
pub proof fn lemma_frame_end_leaves_loop_running(v: VulkanView, event: Event)
    requires
        v.reaction(event) is Done,
    ensures
        v.after(event).phase is Idle,
        !(v.after(event).prepare_action() is Ignored),
        v.reaction(event) != Action::Done(Outcome::Presented) ==> v.after(
            event,
        ).state.prev_frame is Idle,
        v.reaction(event) == Action::Done(Outcome::Invalidated) ==> v.after(event).swapchain.stale,
{
}

} // verus!
