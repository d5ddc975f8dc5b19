//! Choice of the physical device and of the queue family that renders and
//! presents to the window's surface.

use vstd::prelude::*;

verus! {

/// The kind of a physical device, as the driver reports it.
#[derive(Clone, Copy, Debug, PartialEq, Eq, Structural)]
pub enum DeviceKind {
    Other,
    IntegratedGpu,
    DiscreteGpu,
    VirtualGpu,
    Cpu,
}

/// What the selection reads of one queue family of a device.
#[derive(Clone, Copy, Debug, PartialEq, Eq, Structural)]
pub struct QueueFamily {
    /// The family's queues accept graphics commands.
    pub graphics: bool,
    /// The family can present to the window's surface.
    pub presents_to_surface: bool,
}

/// What the selection reads of one physical device.
#[derive(Clone, Debug)]
pub struct DeviceCandidate {
    pub kind: DeviceKind,
    /// The device supports every device extension the renderer enables
    /// (the swapchain extension).
    pub supports_required_extensions: bool,
    /// The device's queue families, in the order the driver lists them.
    pub queue_families: Vec<QueueFamily>,
}

/// Only real GPUs, discrete or integrated, are considered.
pub open spec fn kind_accepted(kind: DeviceKind) -> bool {
    kind == DeviceKind::DiscreteGpu || kind == DeviceKind::IntegratedGpu
}

/// A queue family that can both draw and present.
pub open spec fn family_eligible(family: QueueFamily) -> bool {
    family.graphics && family.presents_to_surface
}

/// `index` is the first family of `families` that can draw and present.
pub open spec fn is_first_eligible_family(families: Seq<QueueFamily>, index: int) -> bool {
    &&& 0 <= index < families.len()
    &&& family_eligible(families[index])
    &&& forall|k: int| 0 <= k < index ==> !family_eligible(#[trigger] families[k])
}

/// A device of an accepted kind, with the required extensions, and with a
/// family that can draw and present.
pub open spec fn device_usable(device: DeviceCandidate) -> bool {
    &&& kind_accepted(device.kind)
    &&& device.supports_required_extensions
    &&& exists|j: int| 0 <= j < device.queue_families@.len() && family_eligible(
        #[trigger] device.queue_families@[j],
    )
}

/// The result of the selection over `devices`, in enumeration order: the first
/// usable device and its first family that can draw and present.
pub open spec fn selection_correct(devices: Seq<DeviceCandidate>, r: Option<(usize, usize)>) -> bool {
    match r {
        None => forall|i: int| 0 <= i < devices.len() ==> !device_usable(#[trigger] devices[i]),
        Some((i, j)) => {
            &&& 0 <= i < devices.len()
            &&& device_usable(devices[i as int])
            &&& forall|k: int| 0 <= k < i ==> !device_usable(#[trigger] devices[k])
            &&& is_first_eligible_family(devices[i as int].queue_families@, j as int)
        },
    }
}

fn kind_is_accepted(kind: DeviceKind) -> (r: bool)
    ensures
        r == kind_accepted(kind),
{
    match kind {
        DeviceKind::DiscreteGpu => true,
        DeviceKind::IntegratedGpu => true,
        _ => false,
    }
}

/// The index of the first family of `families` that can draw and present.
pub fn first_eligible_family(families: &Vec<QueueFamily>) -> (r: Option<usize>)
    ensures
        r is None <==> forall|j: int| 0 <= j < families@.len() ==> !family_eligible(
            #[trigger] families@[j],
        ),
        r matches Some(j) ==> is_first_eligible_family(families@, j as int),
{
    let mut j: usize = 0;
    while j < families.len()
        invariant
            j <= families@.len(),
            forall|k: int| 0 <= k < j ==> !family_eligible(#[trigger] families@[k]),
        decreases families@.len() - j,
    {
        let family = families[j];
        if family.graphics && family.presents_to_surface {
            return Some(j);
        }
        j = j + 1;
    }
    None
}

/// Picks, in enumeration order, the first device of an accepted kind that
/// supports the required extensions and has a queue family that can draw and
/// present to the surface; returns its index and that family's index, or
/// `None` when no device qualifies.
pub fn select_device(devices: &Vec<DeviceCandidate>) -> (r: Option<(usize, usize)>)
    ensures
        selection_correct(devices@, r),
{
    let mut i: usize = 0;
    while i < devices.len()
        invariant
            i <= devices@.len(),
            forall|k: int| 0 <= k < i ==> !device_usable(#[trigger] devices@[k]),
        decreases devices@.len() - i,
    {
        let device = &devices[i];
        if kind_is_accepted(device.kind) && device.supports_required_extensions {
            match first_eligible_family(&device.queue_families) {
                Some(j) => {
                    return Some((i, j));
                },
                None => {},
            }
        }
        i = i + 1;
    }
    None
}

} // verus!

verus! {

/// The selection is determined by the devices: two results that both meet its
/// description are the same.
pub proof fn selection_is_unique(
    devices: Seq<DeviceCandidate>,
    r1: Option<(usize, usize)>,
    r2: Option<(usize, usize)>,
)
    requires
        selection_correct(devices, r1),
        selection_correct(devices, r2),
    ensures
        r1 == r2,
{
    match (r1, r2) {
        (Some((i1, j1)), Some((i2, j2))) => {
            if i1 < i2 {
                assert(!device_usable(devices[i1 as int]));
            } else if i2 < i1 {
                assert(!device_usable(devices[i2 as int]));
            }
            let fams = devices[i1 as int].queue_families@;
            if j1 < j2 {
                assert(!family_eligible(fams[j1 as int]));
            } else if j2 < j1 {
                assert(!family_eligible(fams[j2 as int]));
            }
        },
        (Some((i1, j1)), None) => {
            assert(!device_usable(devices[i1 as int]));
        },
        (None, Some((i2, j2))) => {
            assert(!device_usable(devices[i2 as int]));
        },
        (None, None) => {},
    }
}

/// Devices enumerated after the selected one do not change the selection.
pub proof fn later_devices_do_not_matter(
    devices: Seq<DeviceCandidate>,
    more: Seq<DeviceCandidate>,
    i: usize,
    j: usize,
)
    requires
        selection_correct(devices, Some((i, j))),
    ensures
        selection_correct(devices + more, Some((i, j))),
{
    let all = devices + more;
    assert(all[i as int] == devices[i as int]);
    assert forall|k: int| 0 <= k < i implies !device_usable(#[trigger] all[k]) by {
        assert(all[k] == devices[k]);
    }
}

} // verus!
