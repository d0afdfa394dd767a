//! Choosing the physical device and queue family to render with.
//!
//! The renderer enumerates the machine's physical devices and hands their
//! traits over as plain values: the device's kind, whether it offers the
//! required extensions, and for each of its queue families whether it can
//! draw and whether it can present to the window's surface. The functions
//! here pick the device to use: among the devices that qualify, the first
//! one of the best kind, paired with its first queue family that can both
//! draw and present.

use vstd::prelude::*;

verus! {

/// The kind of a physical device, from most to least preferred.
#[derive(Clone, Copy, PartialEq, Eq, Structural, Debug)]
pub enum DeviceKind {
    Discrete,
    Integrated,
    Virtual,
    Cpu,
    Other,
}

impl DeviceKind {
    /// Preference of a device kind: a dedicated card first, a CPU
    /// implementation close to last, anything unrecognised last.
    pub open spec fn rank_spec(self) -> int {
        match self {
            DeviceKind::Discrete => 0,
            DeviceKind::Integrated => 1,
            DeviceKind::Virtual => 2,
            DeviceKind::Cpu => 3,
            DeviceKind::Other => 4,
        }
    }

    /// The preference of this kind; smaller is better.
    pub fn rank(&self) -> (r: u32)
        ensures
            r as int == self.rank_spec(),
    {
        match *self {
            DeviceKind::Discrete => 0,
            DeviceKind::Integrated => 1,
            DeviceKind::Virtual => 2,
            DeviceKind::Cpu => 3,
            DeviceKind::Other => 4,
        }
    }
}

/// What the renderer needs to know of one queue family.
#[derive(Clone, Copy, PartialEq, Eq, Structural, Debug)]
pub struct QueueFamilyTraits {
    /// The family accepts graphics commands.
    pub supports_graphics: bool,
    /// The family can present to the window's surface.
    pub supports_surface: bool,
}

impl QueueFamilyTraits {
    /// A family the renderer can use must both draw and present.
    pub open spec fn usable_spec(self) -> bool {
        self.supports_graphics && self.supports_surface
    }

    /// Whether the renderer can use this family.
    pub fn usable(&self) -> (b: bool)
        ensures
            b == self.usable_spec(),
    {
        self.supports_graphics && self.supports_surface
    }
}

/// What the renderer needs to know of one physical device.
pub struct DeviceTraits {
    pub kind: DeviceKind,
    /// The device offers every extension the renderer requires
    /// (the swapchain extension).
    pub has_required_extensions: bool,
    /// The device's queue families, in the order the driver reports them.
    pub queue_families: Vec<QueueFamilyTraits>,
}

impl DeviceTraits {
    /// A device qualifies when it has the required extensions and some queue
    /// family that can both draw and present.
    pub open spec fn eligible_spec(self) -> bool {
        &&& self.has_required_extensions
        &&& exists|j: int|
            0 <= j < self.queue_families@.len() && self.queue_families@[j].usable_spec()
    }
}

/// The first queue family that can both draw and present, if any.
pub fn pick_queue_family(families: &Vec<QueueFamilyTraits>) -> (r: Option<usize>)
    ensures
        match r {
            Some(i) => {
                &&& i < families@.len()
                &&& families@[i as int].usable_spec()
                &&& forall|j: int| 0 <= j < i ==> !families@[j].usable_spec()
            },
            None => forall|j: int| 0 <= j < families@.len() ==> !families@[j].usable_spec(),
        },
{
    let mut i: usize = 0;
    while i < families.len()
        invariant
            i <= families@.len(),
            forall|j: int| 0 <= j < i ==> !families@[j].usable_spec(),
        decreases families@.len() - i,
    {
        if families[i].usable() {
            return Some(i);
        }
        i += 1;
    }
    None
}

/// The device and queue family the renderer settles on.
#[derive(Clone, Copy, PartialEq, Eq, Structural, Debug)]
pub struct DeviceChoice {
    /// Index of the chosen device among those handed in.
    pub device_index: usize,
    /// Index of the chosen queue family among the chosen device's families.
    pub queue_family_index: usize,
}

/// What `pick_device` promises of a choice it returns.
pub open spec fn choice_valid(devices: Seq<DeviceTraits>, c: DeviceChoice) -> bool {
    &&& c.device_index < devices.len()
    &&& devices[c.device_index as int].eligible_spec()
    &&& c.queue_family_index < devices[c.device_index as int].queue_families@.len()
    &&& devices[c.device_index as int].queue_families@[c.queue_family_index as int].usable_spec()
    &&& forall|j: int|
        0 <= j < c.queue_family_index
            ==> !devices[c.device_index as int].queue_families@[j].usable_spec()
    &&& forall|j: int|
        0 <= j < devices.len() && devices[j].eligible_spec()
            ==> devices[c.device_index as int].kind.rank_spec() <= devices[j].kind.rank_spec()
    &&& forall|j: int|
        0 <= j < c.device_index && devices[j].eligible_spec()
            ==> devices[c.device_index as int].kind.rank_spec() < devices[j].kind.rank_spec()
}

/// Pick the device to render with: among the devices that qualify, the
/// first one whose kind ranks best, paired with its first usable queue
/// family. `None` exactly when no device qualifies.
pub fn pick_device(devices: &Vec<DeviceTraits>) -> (r: Option<DeviceChoice>)
    ensures
        match r {
            Some(c) => choice_valid(devices@, c),
            None => forall|j: int| 0 <= j < devices@.len() ==> !devices@[j].eligible_spec(),
        },
{
    let mut best: Option<DeviceChoice> = None;
    let mut best_rank: u32 = 0;
    let mut i: usize = 0;
    while i < devices.len()
        invariant
            i <= devices@.len(),
            match best {
                Some(c) => {
                    &&& c.device_index < i
                    &&& devices@[c.device_index as int].eligible_spec()
                    &&& c.queue_family_index
                        < devices@[c.device_index as int].queue_families@.len()
                    &&& devices@[c.device_index as int]
                        .queue_families@[c.queue_family_index as int].usable_spec()
                    &&& forall|j: int|
                        0 <= j < c.queue_family_index
                            ==> !devices@[c.device_index as int].queue_families@[j].usable_spec()
                    &&& best_rank as int == devices@[c.device_index as int].kind.rank_spec()
                    &&& forall|j: int|
                        0 <= j < i && devices@[j].eligible_spec()
                            ==> best_rank as int <= devices@[j].kind.rank_spec()
                    &&& forall|j: int|
                        0 <= j < c.device_index && devices@[j].eligible_spec()
                            ==> (best_rank as int) < devices@[j].kind.rank_spec()
                },
                None => forall|j: int| 0 <= j < i ==> !devices@[j].eligible_spec(),
            },
        decreases devices@.len() - i,
    {
        let d = &devices[i];
        if d.has_required_extensions {
            match pick_queue_family(&d.queue_families) {
                Some(f) => {
                    proof {
                        assert(devices@[i as int].queue_families@[f as int].usable_spec());
                        assert(devices@[i as int].eligible_spec());
                    }
                    let r = d.kind.rank();
                    let better: bool = match best {
                        None => true,
                        Some(_) => r < best_rank,
                    };
                    if better {
                        best = Some(DeviceChoice { device_index: i, queue_family_index: f });
                        best_rank = r;
                    }
                },
                None => {
                    proof {
                        assert(!devices@[i as int].eligible_spec());
                    }
                },
            }
        }
        i += 1;
    }
    best
}

} // verus!
