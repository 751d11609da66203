//! Choosing a physical device and a queue family on it.

use vstd::prelude::*;

verus! {

/// `VK_QUEUE_GRAPHICS_BIT`.
pub const QUEUE_GRAPHICS: u32 = 0x1;

/// `VK_PHYSICAL_DEVICE_TYPE_OTHER`.
pub const DEVICE_TYPE_OTHER: i32 = 0;

/// `VK_PHYSICAL_DEVICE_TYPE_INTEGRATED_GPU`.
pub const DEVICE_TYPE_INTEGRATED_GPU: i32 = 1;

/// `VK_PHYSICAL_DEVICE_TYPE_DISCRETE_GPU`.
pub const DEVICE_TYPE_DISCRETE_GPU: i32 = 2;

/// `VK_PHYSICAL_DEVICE_TYPE_VIRTUAL_GPU`.
pub const DEVICE_TYPE_VIRTUAL_GPU: i32 = 3;

/// `VK_PHYSICAL_DEVICE_TYPE_CPU`.
pub const DEVICE_TYPE_CPU: i32 = 4;

/// What is known of one queue family of a device.
#[derive(Clone, Copy, Debug, PartialEq, Eq)]
pub struct QueueFamily {
    pub queue_flags: u32,
    /// Whether the family can present to the window surface; `None` when
    /// the query failed (or was not made).
    pub present_support: Option<bool>,
}

/// How presentation support enters the choice of a queue family.
#[derive(Clone, Copy, Debug, PartialEq, Eq)]
pub enum PresentPolicy {
    /// Only graphics support matters.
    Ignore,
    /// The family must present; a failed query counts as "cannot present".
    SkipOnError,
    /// The family must present; a failed query aborts the search.
    FailOnError,
}

/// The outcome of scanning the queue families of one device.
#[derive(Clone, Copy, Debug, PartialEq, Eq)]
pub enum FamilyScan {
    /// The first family that qualifies.
    Found(usize),
    /// No family qualifies.
    NotFound,
    /// The presentation query of this graphics family failed.
    QueryFailed(usize),
}

pub open spec fn supports_graphics(family: QueueFamily) -> bool {
    family.queue_flags & QUEUE_GRAPHICS == QUEUE_GRAPHICS
}

/// The scan of `families`, starting at index `start`, in order.
pub open spec fn scan_from(families: Seq<QueueFamily>, policy: PresentPolicy, start: int) -> FamilyScan
    decreases families.len() - start,
{
    if start < 0 || start >= families.len() {
        FamilyScan::NotFound
    } else {
        let f = families[start];
        if supports_graphics(f) && (policy == PresentPolicy::Ignore || f.present_support == Some(
            true,
        )) {
            FamilyScan::Found(start as usize)
        } else if supports_graphics(f) && policy == PresentPolicy::FailOnError
            && f.present_support is None {
            FamilyScan::QueryFailed(start as usize)
        } else {
            scan_from(families, policy, start + 1)
        }
    }
}

pub open spec fn scan_spec(families: Seq<QueueFamily>, policy: PresentPolicy) -> FamilyScan {
    scan_from(families, policy, 0)
}

/// The family qualifies under the policy.
pub open spec fn qualifies(family: QueueFamily, policy: PresentPolicy) -> bool {
    supports_graphics(family) && (policy == PresentPolicy::Ignore || family.present_support
        == Some(true))
}

proof fn lemma_scan_from(families: Seq<QueueFamily>, policy: PresentPolicy, start: int)
    requires
        0 <= start <= families.len(),
        families.len() <= usize::MAX,
    ensures
        match scan_from(families, policy, start) {
            FamilyScan::Found(i) => start <= i < families.len() && qualifies(families[i as int], policy)
                && forall|k: int| start <= k < i ==> !qualifies(#[trigger] families[k], policy),
            FamilyScan::QueryFailed(i) => start <= i < families.len() && policy
                == PresentPolicy::FailOnError,
            FamilyScan::NotFound => forall|k: int|
                start <= k < families.len() ==> !qualifies(#[trigger] families[k], policy),
        },
    decreases families.len() - start,
{
    if start < families.len() {
        lemma_scan_from(families, policy, start + 1);
    }
}

/// What a scan of queue families finds, in terms of the families alone: the
/// first family that supports graphics (and, unless presentation is
/// ignored, answered that it can present). Under the fail-on-error policy
/// the scan stops early only at a graphics family whose presentation query
/// failed (`None`); a family that answered "cannot present" (`Some(false)`)
/// is skipped like any other family that does not qualify. Every family
/// before the reported one was skipped.
pub proof fn lemma_scan_outcome(families: Seq<QueueFamily>, policy: PresentPolicy)
    requires
        families.len() <= usize::MAX,
    ensures
        match scan_spec(families, policy) {
            FamilyScan::Found(i) => {
                &&& i < families.len()
                &&& supports_graphics(families[i as int])
                &&& (policy == PresentPolicy::Ignore || families[i as int].present_support == Some(
                    true,
                ))
                &&& forall|k: int|
                    0 <= k < i ==> skipped(#[trigger] families[k], policy)
            },
            FamilyScan::QueryFailed(i) => {
                &&& i < families.len()
                &&& policy == PresentPolicy::FailOnError
                &&& supports_graphics(families[i as int])
                &&& families[i as int].present_support is None
                &&& forall|k: int|
                    0 <= k < i ==> skipped(#[trigger] families[k], policy)
            },
            FamilyScan::NotFound => forall|k: int|
                0 <= k < families.len() ==> skipped(#[trigger] families[k], policy),
        },
{
    lemma_scan_skips(families, policy, 0);
}

/// The family neither qualifies nor stops the scan with a failed query: it
/// lacks graphics support, or presentation matters and it answered that it
/// cannot present (or its query failed while failures are only skipped).
pub open spec fn skipped(family: QueueFamily, policy: PresentPolicy) -> bool {
    ||| !supports_graphics(family)
    ||| policy == PresentPolicy::SkipOnError && family.present_support != Some(true)
    ||| policy == PresentPolicy::FailOnError && family.present_support == Some(false)
}

proof fn lemma_scan_skips(families: Seq<QueueFamily>, policy: PresentPolicy, start: int)
    requires
        0 <= start <= families.len(),
        families.len() <= usize::MAX,
    ensures
        match scan_from(families, policy, start) {
            FamilyScan::Found(i) => {
                &&& start <= i < families.len()
                &&& supports_graphics(families[i as int])
                &&& (policy == PresentPolicy::Ignore || families[i as int].present_support == Some(
                    true,
                ))
                &&& forall|k: int|
                    start <= k < i ==> skipped(#[trigger] families[k], policy)
            },
            FamilyScan::QueryFailed(i) => {
                &&& start <= i < families.len()
                &&& policy == PresentPolicy::FailOnError
                &&& supports_graphics(families[i as int])
                &&& families[i as int].present_support is None
                &&& forall|k: int|
                    start <= k < i ==> skipped(#[trigger] families[k], policy)
            },
            FamilyScan::NotFound => forall|k: int|
                start <= k < families.len() ==> skipped(#[trigger] families[k], policy),
        },
    decreases families.len() - start,
{
    if start < families.len() {
        lemma_scan_skips(families, policy, start + 1);
        let f = families[start];
        if !qualifies(f, policy) && !(supports_graphics(f) && policy == PresentPolicy::FailOnError
            && f.present_support is None) {
            match f.present_support {
                Some(b) => {
                    if !b {
                        assert(f.present_support == Some(false));
                    }
                },
                None => {},
            }
            assert(skipped(f, policy));
        }
    }
}

/// Scans the queue families of one device in order and returns the first
/// one that supports graphics (and presentation, under the policy).
pub fn scan_queue_families(families: &Vec<QueueFamily>, policy: PresentPolicy) -> (r: FamilyScan)
    ensures
        r == scan_spec(families@, policy),
        match r {
            FamilyScan::Found(i) => i < families@.len() && qualifies(families@[i as int], policy)
                && forall|k: int| 0 <= k < i ==> !qualifies(#[trigger] families@[k], policy),
            FamilyScan::QueryFailed(i) => i < families@.len() && policy
                == PresentPolicy::FailOnError && supports_graphics(families@[i as int])
                && families@[i as int].present_support is None,
            FamilyScan::NotFound => forall|k: int|
                0 <= k < families@.len() ==> !qualifies(#[trigger] families@[k], policy),
        },
{
    let n = families.len();
    let mut i: usize = 0;
    while i < families.len()
        invariant
            i <= families@.len(),
            families@.len() == n,
            scan_spec(families@, policy) == scan_from(families@, policy, i as int),
        decreases families@.len() - i,
    {
        let f = families[i];
        let graphics = f.queue_flags & QUEUE_GRAPHICS == QUEUE_GRAPHICS;
        let presents = match f.present_support {
            Some(b) => b,
            None => false,
        };
        let (ignore, fail_on_error) = match policy {
            PresentPolicy::Ignore => (true, false),
            PresentPolicy::SkipOnError => (false, false),
            PresentPolicy::FailOnError => (false, true),
        };
        if graphics && (ignore || presents) {
            proof {
                lemma_scan_from(families@, policy, 0);
            }
            return FamilyScan::Found(i);
        }
        if graphics && fail_on_error && f.present_support.is_none() {
            proof {
                lemma_scan_from(families@, policy, 0);
                lemma_scan_skips(families@, policy, 0);
            }
            return FamilyScan::QueryFailed(i);
        }
        i = i + 1;
    }
    proof {
        lemma_scan_from(families@, policy, 0);
    }
    FamilyScan::NotFound
}

/// The first device, in enumeration order, with a qualifying family, and
/// the first such family on it.
pub open spec fn first_device_spec(
    devices: Seq<Seq<QueueFamily>>,
    policy: PresentPolicy,
    start: int,
) -> Option<(usize, usize)>
    decreases devices.len() - start,
{
    if start < 0 || start >= devices.len() {
        None
    } else {
        match scan_spec(devices[start], policy) {
            FamilyScan::Found(q) => Some((start as usize, q)),
            _ => first_device_spec(devices, policy, start + 1),
        }
    }
}

/// The queue families of every device, as plain sequences.
pub open spec fn families_view(devices: Seq<Vec<QueueFamily>>) -> Seq<Seq<QueueFamily>> {
    devices.map_values(|d: Vec<QueueFamily>| d@)
}

/// Picks the first device (in enumeration order) that has a graphics queue
/// family that can present (a failed presentation query counts as "cannot
/// present"), and the first such family on it; `None` when no device has
/// one. With `require_present` false only graphics support is asked for.
pub fn find_graphics_queue(devices: &Vec<Vec<QueueFamily>>, require_present: bool) -> (r: Option<
    (usize, usize),
>)
    ensures
        r == first_device_spec(
            families_view(devices@),
            if require_present {
                PresentPolicy::SkipOnError
            } else {
                PresentPolicy::Ignore
            },
            0,
        ),
{
    let policy = if require_present {
        PresentPolicy::SkipOnError
    } else {
        PresentPolicy::Ignore
    };
    let ghost view = families_view(devices@);
    let mut d: usize = 0;
    while d < devices.len()
        invariant
            d <= devices@.len(),
            view == families_view(devices@),
            view.len() == devices@.len(),
            policy == (if require_present {
                PresentPolicy::SkipOnError
            } else {
                PresentPolicy::Ignore
            }),
            first_device_spec(view, policy, 0) == first_device_spec(view, policy, d as int),
        decreases devices@.len() - d,
    {
        assert(view[d as int] == devices@[d as int]@);
        match scan_queue_families(&devices[d], policy) {
            FamilyScan::Found(q) => {
                assert(scan_spec(view[d as int], policy) == FamilyScan::Found(q));
                return Some((d, q));
            },
            _ => {},
        }
        d = d + 1;
    }
    None
}

/// Why the hello-Vulkan program finds no graphics queue.
#[derive(Clone, Copy, Debug, PartialEq, Eq)]
pub enum DeviceSelectionError {
    /// The instance reports no physical device at all.
    NoPhysicalDevice,
    /// No device has a queue family with graphics support.
    NoGraphicsQueue,
}

/// The device and graphics queue family of the hello-Vulkan program: fails
/// when there is no device, or no device with a graphics family.
pub fn select_graphics_queue(devices: &Vec<Vec<QueueFamily>>) -> (r: Result<
    (usize, usize),
    DeviceSelectionError,
>)
    ensures
        devices@.len() == 0 ==> r == Err::<(usize, usize), _>(
            DeviceSelectionError::NoPhysicalDevice,
        ),
        devices@.len() > 0 ==> match first_device_spec(
            families_view(devices@),
            PresentPolicy::Ignore,
            0,
        ) {
            Some(pair) => r == Ok::<_, DeviceSelectionError>(pair),
            None => r == Err::<(usize, usize), _>(DeviceSelectionError::NoGraphicsQueue),
        },
{
    if devices.len() == 0 {
        return Err(DeviceSelectionError::NoPhysicalDevice);
    }
    match find_graphics_queue(devices, false) {
        Some(pair) => Ok(pair),
        None => Err(DeviceSelectionError::NoGraphicsQueue),
    }
}

/// Preference of a device type, lower is better: discrete, integrated,
/// virtual, CPU, other, anything else.
pub open spec fn rank_spec(device_type: i32) -> u32 {
    if device_type == DEVICE_TYPE_DISCRETE_GPU {
        0
    } else if device_type == DEVICE_TYPE_INTEGRATED_GPU {
        1
    } else if device_type == DEVICE_TYPE_VIRTUAL_GPU {
        2
    } else if device_type == DEVICE_TYPE_CPU {
        3
    } else if device_type == DEVICE_TYPE_OTHER {
        4
    } else {
        5
    }
}

/// The preference rank of a device type (lower is better).
pub fn rank_device_type(device_type: i32) -> (rank: u32)
    ensures
        rank == rank_spec(device_type),
        rank <= 5,
{
    if device_type == DEVICE_TYPE_DISCRETE_GPU {
        0
    } else if device_type == DEVICE_TYPE_INTEGRATED_GPU {
        1
    } else if device_type == DEVICE_TYPE_VIRTUAL_GPU {
        2
    } else if device_type == DEVICE_TYPE_CPU {
        3
    } else if device_type == DEVICE_TYPE_OTHER {
        4
    } else {
        5
    }
}

/// A physical device as the circle example sees it.
#[derive(Debug)]
pub struct DeviceCandidate {
    pub device_type: i32,
    /// The device offers every required device extension.
    pub supports_extensions: bool,
    pub queue_families: Vec<QueueFamily>,
}

/// The outcome of the ranked device choice.
#[derive(Clone, Copy, Debug, PartialEq, Eq)]
pub enum RankedChoice {
    /// The chosen device and queue family.
    Selected { device: usize, family: usize },
    /// No device qualifies.
    NoneSuitable,
    /// A presentation query failed (on the first such device).
    QueryFailed { device: usize, family: usize },
}

/// The scan of candidate `d`; devices that lack the required extensions
/// (when they are required) are skipped.
pub open spec fn candidate_scan(
    cands: Seq<DeviceCandidate>,
    d: int,
    require_extensions: bool,
    policy: PresentPolicy,
) -> FamilyScan {
    if require_extensions && !cands[d].supports_extensions {
        FamilyScan::NotFound
    } else {
        scan_spec(cands[d].queue_families@, policy)
    }
}

/// The outcome the circle example reaches on `cands`: a failed query
/// anywhere aborts (the first one is reported); otherwise the qualifying
/// device of lowest rank is chosen, the earliest one among equal ranks.
pub open spec fn ranked_choice_spec(
    cands: Seq<DeviceCandidate>,
    require_extensions: bool,
    policy: PresentPolicy,
    r: RankedChoice,
) -> bool {
    match r {
        RankedChoice::Selected { device, family } => {
            &&& device < cands.len()
            &&& candidate_scan(cands, device as int, require_extensions, policy)
                == FamilyScan::Found(family)
            &&& forall|k: int|
                0 <= k < cands.len() ==> !(candidate_scan(
                    cands,
                    k,
                    require_extensions,
                    policy,
                ) is QueryFailed)
            &&& forall|k: int|
                0 <= k < cands.len() && (candidate_scan(
                    cands,
                    k,
                    require_extensions,
                    policy,
                ) is Found) ==> rank_spec(cands[device as int].device_type) <= rank_spec(
                    cands[k].device_type,
                )
            &&& forall|k: int|
                0 <= k < device && (candidate_scan(cands, k, require_extensions, policy) is Found)
                    ==> rank_spec(cands[device as int].device_type) < rank_spec(
                    cands[k].device_type,
                )
        },
        RankedChoice::NoneSuitable => forall|k: int|
            0 <= k < cands.len() ==> candidate_scan(cands, k, require_extensions, policy)
                == FamilyScan::NotFound,
        RankedChoice::QueryFailed { device, family } => {
            &&& device < cands.len()
            &&& candidate_scan(cands, device as int, require_extensions, policy)
                == FamilyScan::QueryFailed(family)
            &&& forall|k: int|
                0 <= k < device ==> !(candidate_scan(cands, k, require_extensions, policy) is QueryFailed)
        },
    }
}

/// Chooses the device for the circle example: among the devices that (when
/// `require_extensions`) offer the required extensions and have a
/// qualifying queue family, the one whose type ranks best, the earliest one
/// among equal ranks; a failed presentation query aborts the choice.
pub fn select_ranked_device(
    cands: &Vec<DeviceCandidate>,
    require_extensions: bool,
    policy: PresentPolicy,
) -> (r: RankedChoice)
    ensures
        ranked_choice_spec(cands@, require_extensions, policy, r),
        match r {
            RankedChoice::Selected { device, family } => {
                &&& device < cands@.len()
                &&& family < cands@[device as int].queue_families@.len()
                &&& require_extensions ==> cands@[device as int].supports_extensions
                &&& supports_graphics(cands@[device as int].queue_families@[family as int])
                &&& (policy == PresentPolicy::Ignore || cands@[device as int].queue_families@[
                    family as int].present_support == Some(true))
            },
            RankedChoice::QueryFailed { device, family } => {
                &&& device < cands@.len()
                &&& family < cands@[device as int].queue_families@.len()
                &&& policy == PresentPolicy::FailOnError
                &&& supports_graphics(cands@[device as int].queue_families@[family as int])
                &&& cands@[device as int].queue_families@[family as int].present_support is None
            },
            RankedChoice::NoneSuitable => true,
        },
{
    let mut best: Option<(usize, usize, u32)> = None;
    let mut d: usize = 0;
    while d < cands.len()
        invariant
            d <= cands@.len(),
            forall|k: int|
                0 <= k < d ==> !(candidate_scan(cands@, k, require_extensions, policy) is QueryFailed),
            match best {
                None => forall|k: int|
                    0 <= k < d ==> candidate_scan(cands@, k, require_extensions, policy)
                        == FamilyScan::NotFound,
                Some((bd, bf, br)) => {
                    &&& bd < d
                    &&& br == rank_spec(cands@[bd as int].device_type)
                    &&& candidate_scan(cands@, bd as int, require_extensions, policy)
                        == FamilyScan::Found(bf)
                    &&& forall|k: int|
                        0 <= k < d && (candidate_scan(
                            cands@,
                            k,
                            require_extensions,
                            policy,
                        ) is Found) ==> br <= rank_spec(cands@[k].device_type)
                    &&& forall|k: int|
                        0 <= k < bd && (candidate_scan(
                            cands@,
                            k,
                            require_extensions,
                            policy,
                        ) is Found) ==> br < rank_spec(cands@[k].device_type)
                },
            },
        decreases cands@.len() - d,
    {
        let cand = &cands[d];
        let scan = if require_extensions && !cand.supports_extensions {
            FamilyScan::NotFound
        } else {
            scan_queue_families(&cand.queue_families, policy)
        };
        assert(scan == candidate_scan(cands@, d as int, require_extensions, policy));
        match scan {
            FamilyScan::QueryFailed(f) => {
                proof {
                    assert(cands@[d as int].queue_families.len() == cands@[d as int].queue_families@.len());
                    lemma_scan_outcome(cands@[d as int].queue_families@, policy);
                }
                return RankedChoice::QueryFailed { device: d, family: f };
            },
            FamilyScan::Found(f) => {
                let rank = rank_device_type(cand.device_type);
                match best {
                    None => {
                        best = Some((d, f, rank));
                    },
                    Some((_, _, br)) => {
                        if rank < br {
                            best = Some((d, f, rank));
                        }
                    },
                }
            },
            FamilyScan::NotFound => {},
        }
        d = d + 1;
    }
    match best {
        None => RankedChoice::NoneSuitable,
        Some((bd, bf, _)) => {
            proof {
                assert(cands@[bd as int].queue_families.len() == cands@[bd as int].queue_families@.len());
                lemma_scan_outcome(cands@[bd as int].queue_families@, policy);
            }
            RankedChoice::Selected { device: bd, family: bf }
        },
    }
}

/// Outside the fail-on-error policy no scan reports a failed query.
proof fn lemma_scan_never_fails(families: Seq<QueueFamily>, policy: PresentPolicy, start: int)
    requires
        policy != PresentPolicy::FailOnError,
    ensures
        !(scan_from(families, policy, start) is QueryFailed),
    decreases families.len() - start,
{
    if 0 <= start < families.len() {
        lemma_scan_never_fails(families, policy, start + 1);
    }
}

/// The first qualifying device at or after `start`.
proof fn lemma_first_device(devices: Seq<Seq<QueueFamily>>, policy: PresentPolicy, start: int)
    requires
        0 <= start <= devices.len(),
        devices.len() <= usize::MAX,
    ensures
        match first_device_spec(devices, policy, start) {
            Some((d, f)) => start <= d < devices.len() && scan_spec(devices[d as int], policy)
                == FamilyScan::Found(f) && forall|k: int|
                start <= k < d ==> !(scan_spec(#[trigger] devices[k], policy) is Found),
            None => forall|k: int|
                start <= k < devices.len() ==> !(scan_spec(#[trigger] devices[k], policy) is Found),
        },
    decreases devices.len() - start,
{
    if start < devices.len() {
        lemma_first_device(devices, policy, start + 1);
    }
}

/// The queue families of every candidate.
pub open spec fn candidate_families(cands: Seq<DeviceCandidate>) -> Seq<Seq<QueueFamily>> {
    cands.map_values(|c: DeviceCandidate| c.queue_families@)
}

/// When every device has the same type, ranking changes nothing: the
/// ranked choice (without extension or presentation requirements) is the
/// first device with a graphics family, as the plain search finds it, and
/// it finds none exactly when the plain search finds none.
pub proof fn lemma_equal_ranks_choose_first(cands: Seq<DeviceCandidate>, r: RankedChoice)
    requires
        cands.len() <= usize::MAX,
        forall|k: int| 0 <= k < cands.len() ==> #[trigger] cands[k].device_type == cands[0].device_type,
        ranked_choice_spec(cands, false, PresentPolicy::Ignore, r),
    ensures
        match r {
            RankedChoice::Selected { device, family } => first_device_spec(
                candidate_families(cands),
                PresentPolicy::Ignore,
                0,
            ) == Some((device, family)),
            RankedChoice::NoneSuitable => first_device_spec(
                candidate_families(cands),
                PresentPolicy::Ignore,
                0,
            ) is None,
            RankedChoice::QueryFailed { .. } => false,
        },
{
    let fams = candidate_families(cands);
    lemma_first_device(fams, PresentPolicy::Ignore, 0);
    assert forall|k: int| 0 <= k < cands.len() implies candidate_scan(
        cands,
        k,
        false,
        PresentPolicy::Ignore,
    ) == scan_spec(#[trigger] fams[k], PresentPolicy::Ignore) by {}
    match r {
        RankedChoice::Selected { device, family } => {
            assert forall|k: int| 0 <= k < device implies !(scan_spec(
                #[trigger] fams[k],
                PresentPolicy::Ignore,
            ) is Found) by {
                if scan_spec(fams[k], PresentPolicy::Ignore) is Found {
                    assert(candidate_scan(cands, k, false, PresentPolicy::Ignore) is Found);
                    assert(cands[k].device_type == cands[device as int].device_type);
                }
            }
            match first_device_spec(fams, PresentPolicy::Ignore, 0) {
                Some((d, f)) => {
                    if d < device {
                        assert(scan_spec(fams[d as int], PresentPolicy::Ignore) is Found);
                    } else if d > device {
                        assert(scan_spec(fams[device as int], PresentPolicy::Ignore) is Found);
                    }
                },
                None => {
                    assert(scan_spec(fams[device as int], PresentPolicy::Ignore) is Found);
                },
            }
        },
        RankedChoice::NoneSuitable => {},
        RankedChoice::QueryFailed { device, family } => {
            lemma_scan_never_fails(cands[device as int].queue_families@, PresentPolicy::Ignore, 0);
        },
    }
}

} // verus!
