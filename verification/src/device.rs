//! Choosing the physical device and the queue family that will draw and
//! present.
//!
//! The driver lists the devices and, for each, its queue families; here
//! that listing is a plain value, and the choice is the first family that
//! can both draw and show its images on the surface.

use vstd::prelude::*;
use ash::vk::QueueFlags;

verus! {

/// The bit of a queue family that can draw.
pub const QUEUE_GRAPHICS: u32 = 1;

/// One queue family of a physical device.
#[derive(Clone, Copy, Debug, PartialEq, Eq, Structural)]
pub struct QueueFamily {
    /// What the family's queues can do, one bit each.
    pub queue_flags: u32,
    /// Whether the family can present to the surface.
    pub supports_surface: bool,
}

/// Whether `flags` holds every bit of `wanted`.
pub open spec fn queue_flags_include(flags: u32, wanted: u32) -> bool {
    flags & wanted == wanted
}

impl QueueFamily {
    /// Whether the family can both draw and present.
    pub open spec fn suitable(self) -> bool {
        queue_flags_include(self.queue_flags, QUEUE_GRAPHICS) && self.supports_surface
    }
}

/// Whether family `family` of device `device` exists and is suitable.
pub open spec fn suitable_at(devices: Seq<Vec<QueueFamily>>, device: int, family: int) -> bool {
    &&& 0 <= device < devices.len()
    &&& 0 <= family < devices[device]@.len()
    &&& devices[device]@[family].suitable()
}

/// Whether device `device` has no suitable family.
pub open spec fn device_unsuitable(devices: Seq<Vec<QueueFamily>>, device: int) -> bool {
    forall|family: int| !suitable_at(devices, device, family)
}

/// `ash::vk::QueueFlags::contains`, between two sets of queue bits made
/// with `from_raw`: true exactly when every bit of `wanted` is set in
/// `flags`.
#[verifier::external_body]
fn queue_flags_contain(flags: u32, wanted: u32) -> (r: bool)
    ensures
        r == queue_flags_include(flags, wanted),
{
    QueueFlags::from_raw(flags).contains(QueueFlags::from_raw(wanted))
}

/// The first suitable family among `families`, by position.
fn first_suitable(families: &Vec<QueueFamily>) -> (r: Option<usize>)
    ensures
        match r {
            Some(q) => q < families.len() && families@[q as int].suitable() && forall|j: int|
                0 <= j < q ==> !families@[j].suitable(),
            None => forall|j: int| 0 <= j < families.len() ==> !families@[j].suitable(),
        },
{
    let mut q: usize = 0;
    while q < families.len()
        invariant
            q <= families.len(),
            forall|j: int| 0 <= j < q ==> !families@[j].suitable(),
        decreases families.len() - q,
    {
        let family = &families[q];
        if queue_flags_contain(family.queue_flags, QUEUE_GRAPHICS) && family.supports_surface {
            return Some(q);
        }
        q = q + 1;
    }
    None
}

/// What a `Device` is, to its callers.
pub struct DeviceView {
    /// The position of the chosen device in the driver's listing.
    pub physical_device: usize,
    /// The position of the chosen family among the device's families.
    pub queue_family_index: usize,
}

/// The device and queue family on which everything is drawn and presented.
#[derive(Clone, Copy, Debug)]
pub struct Device {
    physical_device: usize,
    queue_family_index: usize,
}

impl View for Device {
    type V = DeviceView;

    closed spec fn view(&self) -> DeviceView {
        DeviceView {
            physical_device: self.physical_device,
            queue_family_index: self.queue_family_index,
        }
    }
}

impl Device {
    /// Chooses the first device, in the driver's order, that has a suitable
    /// queue family, and the first such family of that device. There is no
    /// choice exactly when no family of any device is suitable.
    pub fn new(devices: &Vec<Vec<QueueFamily>>) -> (r: Option<Self>)
        ensures
            r is None <==> forall|d: int| device_unsuitable(devices@, d),
            r matches Some(chosen) ==> {
                &&& suitable_at(
                    devices@,
                    chosen@.physical_device as int,
                    chosen@.queue_family_index as int,
                )
                &&& forall|d: int|
                    0 <= d < chosen@.physical_device ==> device_unsuitable(devices@, d)
                &&& forall|q: int|
                    0 <= q < chosen@.queue_family_index ==> !suitable_at(
                        devices@,
                        chosen@.physical_device as int,
                        q,
                    )
            },
    {
        let mut d: usize = 0;
        while d < devices.len()
            invariant
                d <= devices.len(),
                forall|k: int| 0 <= k < d ==> device_unsuitable(devices@, k),
            decreases devices.len() - d,
        {
            match first_suitable(&devices[d]) {
                Some(q) => {
                    assert(suitable_at(devices@, d as int, q as int));
                    assert(!device_unsuitable(devices@, d as int));
                    return Some(Device { physical_device: d, queue_family_index: q });
                },
                None => {
                    assert(device_unsuitable(devices@, d as int));
                },
            }
            d = d + 1;
        }
        assert forall|k: int| device_unsuitable(devices@, k) by {
            if 0 <= k < devices.len() {
            } else {
                assert(forall|family: int| !suitable_at(devices@, k, family));
            }
        }
        None
    }

    /// The position of the chosen device in the driver's listing.
    pub fn physical_device(&self) -> (d: usize)
        ensures
            d == self@.physical_device,
    {
        self.physical_device
    }

    /// The position of the chosen family among the device's families.
    pub fn queue_family_index(&self) -> (q: usize)
        ensures
            q == self@.queue_family_index,
    {
        self.queue_family_index
    }
}

} // verus!
