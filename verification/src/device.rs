//! Physical-device selection: filter the enumerated devices down to those
//! that can drive the target surface, then pick the most preferred class.

use vstd::prelude::*;

verus! {

/// The class tag the driver reports for a physical device.
#[derive(Clone, Copy, PartialEq, Eq, Structural, Debug)]
pub enum DeviceClass {
    DiscreteGpu,
    IntegratedGpu,
    VirtualGpu,
    Cpu,
    Other,
    Unknown,
}

/// Preference rank of a device class: lower ranks are preferred.
/// Discrete GPUs come first, then integrated, virtual, CPU, and finally
/// devices the driver could not classify.
pub open spec fn class_rank_spec(c: DeviceClass) -> int {
    match c {
        DeviceClass::DiscreteGpu => 0,
        DeviceClass::IntegratedGpu => 1,
        DeviceClass::VirtualGpu => 2,
        DeviceClass::Cpu => 3,
        DeviceClass::Other => 4,
        DeviceClass::Unknown => 5,
    }
}

/// Executable preference rank, equal to `class_rank_spec` on every class.
pub fn class_rank(c: DeviceClass) -> (r: u32)
    ensures
        r == class_rank_spec(c),
{
    match c {
        DeviceClass::DiscreteGpu => 0,
        DeviceClass::IntegratedGpu => 1,
        DeviceClass::VirtualGpu => 2,
        DeviceClass::Cpu => 3,
        DeviceClass::Other => 4,
        DeviceClass::Unknown => 5,
    }
}

/// What the selector reads of one queue family: its graphics capability
/// flag and whether the target surface reports presentation support for it.
#[derive(Clone, Copy, PartialEq, Eq, Structural, Debug)]
pub struct QueueFamily {
    pub supports_graphics: bool,
    pub supports_present: bool,
}

/// A queue family is usable when it can both run graphics commands and
/// present to the target surface.
pub open spec fn family_usable(f: QueueFamily) -> bool {
    f.supports_graphics && f.supports_present
}

/// Some queue family in the list is usable.
pub open spec fn has_usable_family(fams: Seq<QueueFamily>) -> bool {
    exists|i: int| 0 <= i < fams.len() && family_usable(fams[i])
}

/// `i` is the first usable queue family in the list.
pub open spec fn first_usable_family(fams: Seq<QueueFamily>, i: int) -> bool {
    &&& 0 <= i < fams.len()
    &&& family_usable(fams[i])
    &&& forall|j: int| 0 <= j < i ==> !family_usable(fams[j])
}

/// One enumerated physical device, reduced to what the selector reads:
/// whether its extension set covers the required one, its queue families'
/// capabilities against the target surface, and its class tag.
#[derive(Clone, Debug)]
pub struct DeviceCandidate {
    pub supports_required_extensions: bool,
    pub queue_families: Vec<QueueFamily>,
    pub class: DeviceClass,
}

/// A candidate survives the filter when its extension set covers the
/// required one and some queue family is usable.
pub open spec fn suitable(c: DeviceCandidate) -> bool {
    c.supports_required_extensions && has_usable_family(c.queue_families@)
}

/// The chosen device and the queue family the application will submit to.
#[derive(Clone, Copy, PartialEq, Eq, Structural, Debug)]
pub struct Selection {
    /// Index of the chosen device in the enumerated list.
    pub device_index: usize,
    /// Index of the first usable queue family of that device.
    pub queue_family_index: usize,
}

/// Selection failed: no enumerated device was suitable.
#[derive(Clone, Copy, PartialEq, Eq, Structural, Debug)]
pub struct NoSuitableDeviceError;

/// `(di, qi)` is the selection the algorithm makes on `devices`: `di` is
/// the first suitable device of minimal class rank, and `qi` its first
/// usable queue family.
pub open spec fn selected(devices: Seq<DeviceCandidate>, di: int, qi: int) -> bool {
    &&& 0 <= di < devices.len()
    &&& suitable(devices[di])
    &&& first_usable_family(devices[di].queue_families@, qi)
    &&& forall|j: int|
        0 <= j < devices.len() && suitable(devices[j])
            ==> class_rank_spec(devices[di].class) <= class_rank_spec(devices[j].class)
    &&& forall|j: int|
        0 <= j < di && suitable(devices[j])
            ==> class_rank_spec(devices[di].class) < class_rank_spec(devices[j].class)
}

/// The class preference is total: any two classes are comparable by rank.
pub proof fn lemma_rank_total(c1: DeviceClass, c2: DeviceClass)
    ensures
        class_rank_spec(c1) <= class_rank_spec(c2) || class_rank_spec(c2) <= class_rank_spec(c1),
{
}

/// The selection is deterministic: a device list admits at most one
/// selection.
pub proof fn lemma_selection_deterministic(
    devices: Seq<DeviceCandidate>,
    di1: int,
    qi1: int,
    di2: int,
    qi2: int,
)
    requires
        selected(devices, di1, qi1),
        selected(devices, di2, qi2),
    ensures
        di1 == di2,
        qi1 == qi2,
{
}

/// Given two candidates differing only in class, the one whose class has
/// the lower rank is always the one chosen, whichever of the two is
/// enumerated first.
pub proof fn lemma_lower_class_wins(
    first: DeviceCandidate,
    second: DeviceCandidate,
    di: int,
    qi: int,
)
    requires
        first.supports_required_extensions == second.supports_required_extensions,
        first.queue_families == second.queue_families,
        class_rank_spec(first.class) != class_rank_spec(second.class),
        selected(seq![first, second], di, qi),
    ensures
        0 <= di < 2,
        class_rank_spec(seq![first, second][di].class) < class_rank_spec(
            seq![first, second][1 - di].class,
        ),
{
}

/// Scan the queue families in index order and return the first usable one,
/// or `None` when no family can both draw and present.
pub fn find_queue_family(families: &Vec<QueueFamily>) -> (r: Option<usize>)
    ensures
        match r {
            Some(i) => first_usable_family(families@, i as int),
            None => !has_usable_family(families@),
        },
{
    let mut i: usize = 0;
    while i < families.len()
        invariant
            0 <= i <= families@.len(),
            forall|j: int| 0 <= j < i ==> !family_usable(families@[j]),
        decreases families@.len() - i,
    {
        let f = families[i];
        if f.supports_graphics && f.supports_present {
            return Some(i);
        }
        i = i + 1;
    }
    None
}

/// Pick exactly one device and queue family for the target surface.
///
/// Candidates lacking the required extensions or a usable queue family are
/// dropped; among the survivors the one with the lowest class rank wins,
/// ties broken by enumeration order. With no survivor the selection fails,
/// with no fallback of any kind.
pub fn select(devices: &Vec<DeviceCandidate>) -> (r: Result<
    Selection,
    NoSuitableDeviceError,
>)
    ensures
        match r {
            Ok(sel) => selected(devices@, sel.device_index as int, sel.queue_family_index as int),
            Err(_) => forall|j: int| 0 <= j < devices@.len() ==> !suitable(devices@[j]),
        },
{
    let mut best: Option<Selection> = None;
    let mut best_rank: u32 = 0;
    let mut i: usize = 0;
    while i < devices.len()
        invariant
            0 <= i <= devices@.len(),
            match best {
                Some(sel) => {
                    &&& 0 <= sel.device_index < i
                    &&& suitable(devices@[sel.device_index as int])
                    &&& first_usable_family(
                        devices@[sel.device_index as int].queue_families@,
                        sel.queue_family_index as int,
                    )
                    &&& best_rank == class_rank_spec(devices@[sel.device_index as int].class)
                    &&& forall|j: int|
                        0 <= j < i && suitable(devices@[j])
                            ==> best_rank <= class_rank_spec(devices@[j].class)
                    &&& forall|j: int|
                        0 <= j < sel.device_index && suitable(devices@[j])
                            ==> best_rank < class_rank_spec(devices@[j].class)
                },
                None => forall|j: int| 0 <= j < i ==> !suitable(devices@[j]),
            },
        decreases devices@.len() - i,
    {
        let c = &devices[i];
        if c.supports_required_extensions {
            if let Some(qi) = find_queue_family(&c.queue_families) {
                let rank = class_rank(c.class);
                let replace = match best {
                    Some(_) => rank < best_rank,
                    None => true,
                };
                if replace {
                    best = Some(Selection { device_index: i, queue_family_index: qi });
                    best_rank = rank;
                }
            }
        }
        i = i + 1;
    }
    match best {
        Some(sel) => Ok(sel),
        None => Err(NoSuitableDeviceError),
    }
}

} // verus!
