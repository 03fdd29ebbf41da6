//! Choosing the physical device and queue family to render and present with.
use vstd::prelude::*;

use crate::catalog::{is_superset, supports_extensions};
use crate::errors::NoSuitableDeviceError;

verus! {

/// The kind of hardware adapter a physical device is.
#[derive(Clone, Copy, Debug, PartialEq, Eq, Structural)]
pub enum DeviceType {
    DiscreteGpu,
    IntegratedGpu,
    VirtualGpu,
    Cpu,
    Other,
}

/// Preference of a device type: lower is better.
pub open spec fn score_of(t: DeviceType) -> nat {
    match t {
        DeviceType::DiscreteGpu => 0,
        DeviceType::IntegratedGpu => 1,
        DeviceType::VirtualGpu => 2,
        DeviceType::Cpu => 3,
        DeviceType::Other => 4,
    }
}

/// What a queue family on a physical device reports, together with whether
/// it can present to the surface at hand.
#[derive(Clone, Copy, Debug, PartialEq, Eq, Structural)]
pub struct QueueFamilyInfo {
    pub queues_count: u32,
    pub supports_compute: bool,
    pub supports_graphics: bool,
    pub supports_sparse_binding: bool,
    pub explicitly_supports_transfers: bool,
    pub supports_present: bool,
}

/// A read-only snapshot of one enumerated physical device.
#[derive(Clone, Debug)]
pub struct PhysicalDeviceInfo {
    pub name: String,
    pub device_type: DeviceType,
    pub supported_extensions: Vec<String>,
    pub queue_families: Vec<QueueFamilyInfo>,
}

/// The chosen device (its position in the enumeration) and the chosen queue
/// family (its position among that device's families).
#[derive(Clone, Copy, Debug, PartialEq, Eq, Structural)]
pub struct DeviceSelection {
    pub device_index: usize,
    pub queue_family_index: usize,
}

/// The family can run graphics work and present to the surface.
pub open spec fn is_presentable(f: QueueFamilyInfo) -> bool {
    f.supports_graphics && f.supports_present
}

pub open spec fn has_presentable(fams: Seq<QueueFamilyInfo>) -> bool {
    exists|k: int| 0 <= k < fams.len() && #[trigger] is_presentable(fams[k])
}

/// `k` is the first presentable family in enumeration order.
pub open spec fn is_first_presentable(fams: Seq<QueueFamilyInfo>, k: int) -> bool {
    &&& 0 <= k < fams.len()
    &&& is_presentable(fams[k])
    &&& forall|j: int| 0 <= j < k ==> !#[trigger] is_presentable(fams[j])
}

/// The device has every required extension and a presentable queue family.
pub open spec fn is_suitable(d: PhysicalDeviceInfo, required: Seq<String>) -> bool {
    is_superset(d.supported_extensions@, required) && has_presentable(d.queue_families@)
}

pub open spec fn any_suitable(devs: Seq<PhysicalDeviceInfo>, required: Seq<String>) -> bool {
    exists|j: int| 0 <= j < devs.len() && #[trigger] is_suitable(devs[j], required)
}

/// Device `i` is suitable, no suitable device scores lower, and every
/// suitable device before it scores strictly higher (first seen wins ties).
pub open spec fn is_best(devs: Seq<PhysicalDeviceInfo>, required: Seq<String>, i: int) -> bool {
    &&& 0 <= i < devs.len()
    &&& is_suitable(devs[i], required)
    &&& forall|j: int|
        0 <= j < devs.len() && #[trigger] is_suitable(devs[j], required) ==> score_of(
            devs[i].device_type,
        ) <= score_of(devs[j].device_type)
    &&& forall|j: int|
        0 <= j < i && #[trigger] is_suitable(devs[j], required) ==> score_of(devs[i].device_type)
            < score_of(devs[j].device_type)
}

/// What device selection owes on a snapshot: the best device and its first
/// presentable family, or the error exactly when no device is suitable.
pub open spec fn selects(
    devs: Seq<PhysicalDeviceInfo>,
    required: Seq<String>,
    r: Result<DeviceSelection, NoSuitableDeviceError>,
) -> bool {
    match r {
        Ok(s) => is_best(devs, required, s.device_index as int) && is_first_presentable(
            devs[s.device_index as int].queue_families@,
            s.queue_family_index as int,
        ),
        Err(_) => !any_suitable(devs, required),
    }
}

/// The preference score of a device type: discrete 0, integrated 1,
/// virtual 2, CPU 3, other 4.
pub fn device_score(t: DeviceType) -> (r: u32)
    ensures
        r == score_of(t),
{
    match t {
        DeviceType::DiscreteGpu => 0,
        DeviceType::IntegratedGpu => 1,
        DeviceType::VirtualGpu => 2,
        DeviceType::Cpu => 3,
        DeviceType::Other => 4,
    }
}

/// The first queue family, in enumeration order, that supports graphics and
/// presentation.
pub fn first_presentable_family(families: &Vec<QueueFamilyInfo>) -> (r: Option<usize>)
    ensures
        match r {
            Some(k) => is_first_presentable(families@, k as int),
            None => !has_presentable(families@),
        },
{
    let mut k: usize = 0;
    while k < families.len()
        invariant
            k <= families@.len(),
            forall|j: int| 0 <= j < k ==> !#[trigger] is_presentable(families@[j]),
        decreases families@.len() - k,
    {
        if families[k].supports_graphics && families[k].supports_present {
            return Some(k);
        }
        k = k + 1;
    }
    None
}

/// Picks the device to render with: among the devices that support every
/// required extension and have a presentable queue family, the one with the
/// lowest type score, the first enumerated on a tie, with its first
/// presentable queue family.
pub fn select_device(devices: &Vec<PhysicalDeviceInfo>, required: &Vec<String>) -> (r: Result<
    DeviceSelection,
    NoSuitableDeviceError,
>)
    ensures
        selects(devices@, required@, r),
        r is Ok <==> any_suitable(devices@, required@),
        r matches Ok(s) ==> is_superset(
            devices@[s.device_index as int].supported_extensions@,
            required@,
        ),
{
    let mut best: Option<DeviceSelection> = None;
    let mut best_score: u32 = 0;
    let mut i: usize = 0;
    while i < devices.len()
        invariant
            i <= devices@.len(),
            match best {
                None => forall|j: int|
                    0 <= j < i ==> !#[trigger] is_suitable(devices@[j], required@),
                Some(s) => {
                    &&& s.device_index < i
                    &&& is_suitable(devices@[s.device_index as int], required@)
                    &&& best_score == score_of(devices@[s.device_index as int].device_type)
                    &&& is_first_presentable(
                        devices@[s.device_index as int].queue_families@,
                        s.queue_family_index as int,
                    )
                    &&& forall|j: int|
                        0 <= j < i && #[trigger] is_suitable(devices@[j], required@)
                            ==> best_score <= score_of(devices@[j].device_type)
                    &&& forall|j: int|
                        0 <= j < s.device_index && #[trigger] is_suitable(devices@[j], required@)
                            ==> best_score < score_of(devices@[j].device_type)
                },
            },
        decreases devices@.len() - i,
    {
        let dev = &devices[i];
        if supports_extensions(&dev.supported_extensions, required) {
            match first_presentable_family(&dev.queue_families) {
                Some(q) => {
                    let score = device_score(dev.device_type);
                    let better = match best {
                        None => true,
                        Some(_) => score < best_score,
                    };
                    if better {
                        best = Some(DeviceSelection { device_index: i, queue_family_index: q });
                        best_score = score;
                    }
                },
                None => {},
            }
        }
        i = i + 1;
    }
    match best {
        Some(s) => Ok(s),
        None => Err(NoSuitableDeviceError),
    }
}

/// Device selection is a function of the snapshot: two outcomes that both
/// meet what selection owes on the same devices and required extensions are
/// the same device and queue family.
pub proof fn lemma_selection_deterministic(
    devs: Seq<PhysicalDeviceInfo>,
    required: Seq<String>,
    r1: Result<DeviceSelection, NoSuitableDeviceError>,
    r2: Result<DeviceSelection, NoSuitableDeviceError>,
)
    requires
        selects(devs, required, r1),
        selects(devs, required, r2),
    ensures
        r1 == r2,
{
    match (r1, r2) {
        (Ok(s1), Ok(s2)) => {
            let i1 = s1.device_index as int;
            let i2 = s2.device_index as int;
            assert(is_suitable(devs[i1], required));
            assert(is_suitable(devs[i2], required));
            assert(i1 == i2);
            let fams = devs[i1].queue_families@;
            let q1 = s1.queue_family_index as int;
            let q2 = s2.queue_family_index as int;
            if q1 < q2 {
                assert(!is_presentable(fams[q1]));
            } else if q2 < q1 {
                assert(!is_presentable(fams[q2]));
            }
        },
        (Ok(s1), Err(_)) => {
            assert(is_suitable(devs[s1.device_index as int], required));
        },
        (Err(_), Ok(s2)) => {
            assert(is_suitable(devs[s2.device_index as int], required));
        },
        (Err(e1), Err(e2)) => {
            assert(e1 == e2);
        },
    }
}

/// Reordering the enumeration changes neither whether a device is found nor
/// the type of the device chosen; and among suitable devices of the best
/// score the one enumerated first is chosen.
pub proof fn lemma_selection_order_independent(
    devs1: Seq<PhysicalDeviceInfo>,
    devs2: Seq<PhysicalDeviceInfo>,
    required: Seq<String>,
    r1: Result<DeviceSelection, NoSuitableDeviceError>,
    r2: Result<DeviceSelection, NoSuitableDeviceError>,
)
    requires
        devs1.to_multiset() == devs2.to_multiset(),
        selects(devs1, required, r1),
        selects(devs2, required, r2),
    ensures
        r1 is Ok <==> r2 is Ok,
        (r1 is Ok && r2 is Ok) ==> devs1[r1->Ok_0.device_index as int].device_type
            == devs2[r2->Ok_0.device_index as int].device_type,
        r1 matches Ok(s1) ==> forall|j: int|
            0 <= j < devs1.len() && #[trigger] is_suitable(devs1[j], required) && score_of(
                devs1[j].device_type,
            ) == score_of(devs1[s1.device_index as int].device_type) ==> s1.device_index <= j,
{
    if let Ok(s1) = r1 {
        let c1 = devs1[s1.device_index as int];
        assert(devs1.contains(c1));
        vstd::seq_lib::to_multiset_contains(devs1, c1);
        vstd::seq_lib::to_multiset_contains(devs2, c1);
        let j2 = choose|j: int| 0 <= j < devs2.len() && devs2[j] == c1;
        assert(is_suitable(devs2[j2], required));
        if let Ok(s2) = r2 {
            let c2 = devs2[s2.device_index as int];
            assert(devs2.contains(c2));
            vstd::seq_lib::to_multiset_contains(devs2, c2);
            vstd::seq_lib::to_multiset_contains(devs1, c2);
            let j1 = choose|j: int| 0 <= j < devs1.len() && devs1[j] == c2;
            assert(is_suitable(devs1[j1], required));
            assert(score_of(c1.device_type) == score_of(c2.device_type));
        }
    }
    if let Ok(s2) = r2 {
        let c2 = devs2[s2.device_index as int];
        assert(devs2.contains(c2));
        vstd::seq_lib::to_multiset_contains(devs2, c2);
        vstd::seq_lib::to_multiset_contains(devs1, c2);
        let j1 = choose|j: int| 0 <= j < devs1.len() && devs1[j] == c2;
        assert(is_suitable(devs1[j1], required));
    }
}

} // verus!
