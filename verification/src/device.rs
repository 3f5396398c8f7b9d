//! Choice of the GPU device and queue that every window of the process shares.
//!
//! The graphics driver is asked elsewhere; here a physical device is a plain
//! description of what the choice reads: its kind, whether it supports the
//! presentation extension, and what each of its queue families can do.

use vstd::prelude::*;

verus! {

/// The kind of a physical device, as the driver reports it.
#[derive(Clone, Copy, Debug, PartialEq, Eq, Structural)]
pub enum DeviceKind {
    DiscreteGpu,
    IntegratedGpu,
    VirtualGpu,
    Cpu,
    Other,
    /// A kind that the driver reports and this library does not know.
    Unknown,
}

impl DeviceKind {
    /// Preference of a kind: the lower, the better.
    pub open spec fn spec_rank(self) -> u8 {
        match self {
            DeviceKind::DiscreteGpu => 0,
            DeviceKind::IntegratedGpu => 1,
            DeviceKind::VirtualGpu => 2,
            DeviceKind::Cpu => 3,
            DeviceKind::Other => 4,
            DeviceKind::Unknown => 5,
        }
    }

    /// Preference of a kind: discrete before integrated before virtual before
    /// CPU before other before unknown.
    #[verifier::when_used_as_spec(spec_rank)]
    pub fn rank(self) -> (res: u8)
        ensures
            res == self.spec_rank(),
    {
        match self {
            DeviceKind::DiscreteGpu => 0,
            DeviceKind::IntegratedGpu => 1,
            DeviceKind::VirtualGpu => 2,
            DeviceKind::Cpu => 3,
            DeviceKind::Other => 4,
            DeviceKind::Unknown => 5,
        }
    }
}

/// What one queue family of a device can do for a given window surface.
#[derive(Clone, Copy, Debug, PartialEq, Eq, Structural)]
pub struct QueueFamily {
    /// The family accepts graphics commands.
    pub graphics: bool,
    /// The family can present to the window's surface.
    pub presents: bool,
}

impl QueueFamily {
    /// A family serves a window when it both draws and presents.
    pub open spec fn usable(self) -> bool {
        self.graphics && self.presents
    }
}

/// A physical device as the choice sees it.
#[derive(Clone, Debug, PartialEq, Eq)]
pub struct DeviceCandidate {
    pub kind: DeviceKind,
    /// The device supports the swapchain extension.
    pub swapchain_extension: bool,
    /// The queue families, in the driver's order.
    pub queue_families: Vec<QueueFamily>,
}

/// The device and queue family that were chosen.
#[derive(Clone, Copy, Debug, PartialEq, Eq, Structural)]
pub struct SharedQueue {
    /// Position of the device among the candidates.
    pub device_index: usize,
    /// Index of the queue family on that device.
    pub queue_family_index: u32,
}

/// Index `i` names a usable family of `families`. A queue family index is a
/// 32-bit number, so entries past that range cannot be named.
pub open spec fn is_usable_family(families: Seq<QueueFamily>, i: int) -> bool {
    0 <= i < families.len() && i <= u32::MAX && families[i].usable()
}

/// Index `i` is the first usable family of `families`.
pub open spec fn is_first_usable_family(families: Seq<QueueFamily>, i: int) -> bool {
    is_usable_family(families, i) && forall|j: int| 0 <= j < i ==> !is_usable_family(families, j)
}

/// No family of `families` is usable.
pub open spec fn no_usable_family(families: Seq<QueueFamily>) -> bool {
    forall|j: int| !is_usable_family(families, j)
}

impl DeviceCandidate {
    /// The device can serve the window at all: it has the swapchain extension
    /// and a usable queue family.
    pub open spec fn qualifies(self) -> bool {
        self.swapchain_extension && !no_usable_family(self.queue_families@)
    }

    /// The first queue family that both draws and presents, if there is one.
    pub fn first_usable_family(&self) -> (res: Option<u32>)
        ensures
            match res {
                Some(i) => is_first_usable_family(self.queue_families@, i as int),
                None => no_usable_family(self.queue_families@),
            },
    {
        let n = self.queue_families.len();
        let mut i: usize = 0;
        while i < n && i <= u32::MAX as usize
            invariant
                n == self.queue_families@.len(),
                i <= n,
                i <= u32::MAX + 1,
                forall|j: int| 0 <= j < i ==> !is_usable_family(self.queue_families@, j),
            decreases n - i,
        {
            let family = self.queue_families[i];
            if family.graphics && family.presents {
                return Some(i as u32);
            }
            i += 1;
        }
        None
    }
}

/// Device `d` qualifies among `candidates`.
pub open spec fn qualifies_at(candidates: Seq<DeviceCandidate>, d: int) -> bool {
    0 <= d < candidates.len() && candidates[d].qualifies()
}

/// Device `d` is the one to choose: it qualifies, no qualifying device ranks
/// better, and among the equally ranked it comes first.
pub open spec fn is_best_device(candidates: Seq<DeviceCandidate>, d: int) -> bool {
    &&& qualifies_at(candidates, d)
    &&& forall|j: int| #[trigger]
        qualifies_at(candidates, j) ==> candidates[d].kind.spec_rank() <= candidates[j].kind.spec_rank()
    &&& forall|j: int|
        0 <= j < d && #[trigger] qualifies_at(candidates, j) ==> candidates[d].kind.spec_rank()
            < candidates[j].kind.spec_rank()
}

/// `queue` is the choice that `candidates` determine.
pub open spec fn is_selection(candidates: Seq<DeviceCandidate>, queue: SharedQueue) -> bool {
    &&& is_best_device(candidates, queue.device_index as int)
    &&& is_first_usable_family(
        candidates[queue.device_index as int].queue_families@,
        queue.queue_family_index as int,
    )
}

/// The selection leaves no choice: two that meet the definition are one.
pub proof fn lemma_selection_unique(candidates: Seq<DeviceCandidate>, p: SharedQueue, q: SharedQueue)
    requires
        is_selection(candidates, p),
        is_selection(candidates, q),
    ensures
        p == q,
{
}

/// The choice that `candidates` determine, if any device qualifies.
pub open spec fn spec_select_device(candidates: Seq<DeviceCandidate>) -> Option<SharedQueue> {
    if exists|queue: SharedQueue| is_selection(candidates, queue) {
        Some(choose|queue: SharedQueue| is_selection(candidates, queue))
    } else {
        None
    }
}

/// Picks the device and queue family for the process: among the devices that
/// have the swapchain extension and a family that draws and presents, the
/// best ranked, the first of them where several rank alike; on it, the first
/// such family. `None` exactly when no device qualifies.
pub fn select_device(candidates: &Vec<DeviceCandidate>) -> (res: Option<SharedQueue>)
    ensures
        match res {
            Some(queue) => is_selection(candidates@, queue),
            None => forall|d: int| !qualifies_at(candidates@, d),
        },
        res == spec_select_device(candidates@),
{
    let mut best: Option<SharedQueue> = None;
    let mut i: usize = 0;
    while i < candidates.len()
        invariant
            i <= candidates@.len(),
            match best {
                Some(queue) => queue.device_index < i && is_selection(candidates@.take(i as int), queue),
                None => forall|d: int| !qualifies_at(candidates@.take(i as int), d),
            },
        decreases candidates@.len() - i,
    {
        let ghost before = candidates@.take(i as int);
        let ghost after = candidates@.take(i + 1);
        assert(forall|d: int| qualifies_at(before, d) <==> (qualifies_at(after, d) && d != i));
        let candidate = &candidates[i];
        let family = candidate.first_usable_family();
        if candidate.swapchain_extension && family.is_some() {
            let found = SharedQueue { device_index: i, queue_family_index: family.unwrap() };
            match best {
                Some(queue) => {
                    if candidate.kind.rank() < candidates[queue.device_index].kind.rank() {
                        best = Some(found);
                    }
                },
                None => {
                    best = Some(found);
                },
            }
        }
        i += 1;
    }
    assert(candidates@.take(i as int) =~= candidates@);
    proof {
        match best {
            Some(queue) => {
                lemma_selection_unique(candidates@, queue, spec_select_device(candidates@).unwrap());
            },
            None => {
                assert forall|queue: SharedQueue| !is_selection(candidates@, queue) by {
                }
            },
        }
    }
    best
}

} // verus!
