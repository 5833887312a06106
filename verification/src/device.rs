//! Physical-device selection for the renderer.
//!
//! The GPU context is created once per process: among the physical devices
//! that support the presentation extension and expose a queue family able
//! both to run graphics work and to present to the surface, the renderer
//! prefers a discrete GPU, then an integrated one, then a virtual one, then
//! a CPU fallback. Finding no such device is fatal at startup.

use vstd::prelude::*;

verus! {

/// The kind of a physical device, as the driver reports it.
#[derive(Clone, Copy, PartialEq, Eq, Structural, Debug)]
pub enum DeviceKind {
    Discrete,
    Integrated,
    Virtual,
    Cpu,
    Other,
}

/// The renderer's preference rank of a device kind: lower is better.
pub open spec fn kind_rank(kind: DeviceKind) -> int {
    match kind {
        DeviceKind::Discrete => 0,
        DeviceKind::Integrated => 1,
        DeviceKind::Virtual => 2,
        DeviceKind::Cpu => 3,
        DeviceKind::Other => 4,
    }
}

/// One queue family of a physical device: whether it accepts graphics work
/// and whether it can present to the target surface.
#[derive(Clone, Copy, PartialEq, Eq, Structural, Debug)]
pub struct QueueFamily {
    pub graphics: bool,
    pub present: bool,
}

/// What the renderer needs to know of one physical device.
#[derive(Clone, Debug)]
pub struct DeviceCandidate {
    pub kind: DeviceKind,
    pub supports_swapchain: bool,
    pub queue_families: Vec<QueueFamily>,
}

/// A family fit for the renderer: graphics and presentation on one queue.
pub open spec fn family_fit(f: QueueFamily) -> bool {
    f.graphics && f.present
}

/// A device qualifies when it has the presentation extension and at least
/// one queue family fit for both graphics and presentation.
pub open spec fn eligible(c: DeviceCandidate) -> bool {
    c.supports_swapchain && exists|i: int|
        0 <= i < c.queue_families@.len() && family_fit(#[trigger] c.queue_families@[i])
}

impl DeviceCandidate {
    /// The preference rank of this device; lower is better.
    pub fn rank(&self) -> (r: u8)
        ensures
            r as int == kind_rank(self.kind),
    {
        match self.kind {
            DeviceKind::Discrete => 0,
            DeviceKind::Integrated => 1,
            DeviceKind::Virtual => 2,
            DeviceKind::Cpu => 3,
            DeviceKind::Other => 4,
        }
    }
}

/// The first queue family that accepts graphics work and can present to the
/// surface, or `None` when the device has no such family.
pub fn find_graphics_present_family(families: &Vec<QueueFamily>) -> (r: Option<usize>)
    ensures
        match r {
            Some(i) => {
                &&& i < families@.len()
                &&& family_fit(families@[i as int])
                &&& forall|j: int| 0 <= j < i ==> !family_fit(#[trigger] families@[j])
            },
            None => forall|j: int|
                0 <= j < families@.len() ==> !family_fit(#[trigger] families@[j]),
        },
{
    let mut i: usize = 0;
    while i < families.len()
        invariant
            i <= families@.len(),
            forall|j: int| 0 <= j < i ==> !family_fit(#[trigger] families@[j]),
        decreases families@.len() - i,
    {
        let f = families[i];
        if f.graphics && f.present {
            return Some(i);
        }
        i = i + 1;
    }
    None
}

/// Selects the physical device to render with: among the eligible devices
/// the one of best (lowest) rank, and of equally ranked devices the first
/// in enumeration order. `None` means no device qualifies, which is fatal
/// at startup.
pub fn select_physical_device(candidates: &Vec<DeviceCandidate>) -> (r: Option<usize>)
    ensures
        match r {
            Some(i) => {
                &&& i < candidates@.len()
                &&& eligible(candidates@[i as int])
                &&& forall|j: int|
                    0 <= j < candidates@.len() && eligible(#[trigger] candidates@[j])
                        ==> kind_rank(candidates@[i as int].kind) <= kind_rank(candidates@[j].kind)
                &&& forall|j: int|
                    0 <= j < i && eligible(#[trigger] candidates@[j])
                        ==> kind_rank(candidates@[i as int].kind) < kind_rank(candidates@[j].kind)
            },
            None => forall|j: int|
                0 <= j < candidates@.len() ==> !eligible(#[trigger] candidates@[j]),
        },
{
    let mut best: Option<usize> = None;
    let mut best_rank: u8 = 0;
    let mut i: usize = 0;
    while i < candidates.len()
        invariant
            i <= candidates@.len(),
            match best {
                Some(b) => {
                    &&& b < i
                    &&& eligible(candidates@[b as int])
                    &&& best_rank as int == kind_rank(candidates@[b as int].kind)
                    &&& forall|j: int|
                        0 <= j < i && eligible(#[trigger] candidates@[j])
                            ==> (best_rank as int) <= kind_rank(candidates@[j].kind)
                    &&& forall|j: int|
                        0 <= j < b && eligible(#[trigger] candidates@[j])
                            ==> (best_rank as int) < kind_rank(candidates@[j].kind)
                },
                None => forall|j: int| 0 <= j < i ==> !eligible(#[trigger] candidates@[j]),
            },
        decreases candidates@.len() - i,
    {
        let c = &candidates[i];
        let fit = if c.supports_swapchain {
            find_graphics_present_family(&c.queue_families)
        } else {
            None
        };
        if fit.is_some() {
            proof {
                assert(eligible(candidates@[i as int]));
            }
            let rank = c.rank();
            match best {
                Some(_) => {
                    if rank < best_rank {
                        best = Some(i);
                        best_rank = rank;
                    }
                },
                None => {
                    best = Some(i);
                    best_rank = rank;
                },
            }
        } else {
            proof {
                if candidates@[i as int].supports_swapchain {
                    assert(!eligible(candidates@[i as int]));
                }
            }
        }
        i = i + 1;
    }
    best
}

} // verus!
