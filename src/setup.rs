//! One-time start-up decisions: the number of swapchain images and the
//! choice of graphics adapter and queue family.
use vstd::prelude::*;

verus! {

/// Number of swapchain images asked for: triple buffering.
pub const SWAPCHAIN_BUFFER_COUNT: u32 = 3;

/// `requested` raised to the surface's minimum, then lowered to its maximum
/// where the surface has one.
pub open spec fn image_count_spec(requested: u32, min_supported: u32, max_supported: Option<u32>) -> u32 {
    let wanted = if requested >= min_supported { requested } else { min_supported };
    match max_supported {
        None => wanted,
        Some(limit) => if wanted <= limit { wanted } else { limit },
    }
}

/// The swapchain image count: `clamp(requested, min_supported, max_supported)`,
/// where a missing maximum means the surface sets no upper bound.
pub fn choose_image_count(requested: u32, min_supported: u32, max_supported: Option<u32>) -> (r: u32)
    ensures
        r == image_count_spec(requested, min_supported, max_supported),
        max_supported is None ==> r >= requested && r >= min_supported,
        max_supported matches Some(limit) ==> r <= limit,
{
    let wanted = if requested >= min_supported { requested } else { min_supported };
    match max_supported {
        None => wanted,
        Some(limit) => if wanted <= limit { wanted } else { limit },
    }
}

/// Kind of a physical graphics adapter, as the driver reports it.
#[derive(Clone, Copy, Debug, PartialEq, Eq, Structural)]
pub enum DeviceType {
    DiscreteGpu,
    IntegratedGpu,
    VirtualGpu,
    Cpu,
    Other,
}

/// Preference of a device type: lower is better.
pub open spec fn rank_spec(t: DeviceType) -> u8 {
    match t {
        DeviceType::DiscreteGpu => 0,
        DeviceType::IntegratedGpu => 1,
        DeviceType::VirtualGpu => 2,
        DeviceType::Cpu => 3,
        DeviceType::Other => 4,
    }
}

/// Preference of a device type: discrete, integrated, virtual, software, other.
pub fn device_type_rank(t: DeviceType) -> (r: u8)
    ensures
        r == rank_spec(t),
        r <= 4,
{
    match t {
        DeviceType::DiscreteGpu => 0,
        DeviceType::IntegratedGpu => 1,
        DeviceType::VirtualGpu => 2,
        DeviceType::Cpu => 3,
        DeviceType::Other => 4,
    }
}

/// What the renderer needs to know of one queue family of an adapter.
/// `supports_surface` is `None` where the driver could not answer.
#[derive(Clone, Copy, Debug, PartialEq, Eq, Structural)]
pub struct QueueFamilyInfo {
    pub supports_graphics: bool,
    pub supports_surface: Option<bool>,
}

/// What the renderer needs to know of one physical adapter.
#[derive(Debug)]
pub struct AdapterInfo {
    pub device_type: DeviceType,
    pub has_required_extensions: bool,
    pub queue_families: Vec<QueueFamilyInfo>,
}

/// A family can draw and present to the window surface; a failed surface
/// query counts as no support.
pub open spec fn usable_family(f: QueueFamilyInfo) -> bool {
    f.supports_graphics && f.supports_surface == Some(true)
}

/// `q` is the first usable family in `fams`.
pub open spec fn is_first_usable(fams: Seq<QueueFamilyInfo>, q: int) -> bool {
    &&& 0 <= q < fams.len()
    &&& usable_family(fams[q])
    &&& forall|j: int| 0 <= j < q ==> !usable_family(#[trigger] fams[j])
}

/// An adapter can be used: it has the swapchain extension and one usable
/// queue family.
pub open spec fn eligible(a: AdapterInfo) -> bool {
    &&& a.has_required_extensions
    &&& exists|j: int| 0 <= j < a.queue_families@.len() && usable_family(#[trigger] a.queue_families@[j])
}

/// The index of the first usable queue family of `fams`, if any.
pub fn first_usable_family(fams: &Vec<QueueFamilyInfo>) -> (r: Option<usize>)
    ensures
        r is None <==> forall|j: int| 0 <= j < fams@.len() ==> !usable_family(#[trigger] fams@[j]),
        r matches Some(q) ==> is_first_usable(fams@, q as int),
{
    let mut i: usize = 0;
    while i < fams.len()
        invariant
            i <= fams@.len(),
            forall|j: int| 0 <= j < i ==> !usable_family(#[trigger] fams@[j]),
        decreases fams@.len() - i,
    {
        let f = fams[i];
        if f.supports_graphics && f.supports_surface == Some(true) {
            return Some(i);
        }
        i = i + 1;
    }
    None
}

/// Picks the adapter to render with, and the queue family on it.
///
/// Among eligible adapters it takes the one whose device type ranks best,
/// the first such adapter on a tie, and on it the first usable family.
/// `None` exactly when no adapter is eligible.
pub fn select_adapter(adapters: &Vec<AdapterInfo>) -> (r: Option<(usize, usize)>)
    ensures
        r is None <==> forall|e: int| 0 <= e < adapters@.len() ==> !eligible(#[trigger] adapters@[e]),
        r matches Some((d, q)) ==> {
            &&& d < adapters@.len()
            &&& eligible(adapters@[d as int])
            &&& is_first_usable(adapters@[d as int].queue_families@, q as int)
            &&& forall|e: int| 0 <= e < adapters@.len() && eligible(#[trigger] adapters@[e])
                ==> rank_spec(adapters@[d as int].device_type) <= rank_spec(adapters@[e].device_type)
            &&& forall|e: int| 0 <= e < d && eligible(#[trigger] adapters@[e])
                ==> rank_spec(adapters@[d as int].device_type) < rank_spec(adapters@[e].device_type)
        },
{
    let mut best: Option<(usize, usize)> = None;
    let mut best_rank: u8 = 0;
    let mut i: usize = 0;
    while i < adapters.len()
        invariant
            i <= adapters@.len(),
            best is None <==> forall|e: int| 0 <= e < i ==> !eligible(#[trigger] adapters@[e]),
            best matches Some((d, q)) ==> {
                &&& d < i
                &&& best_rank == rank_spec(adapters@[d as int].device_type)
                &&& eligible(adapters@[d as int])
                &&& is_first_usable(adapters@[d as int].queue_families@, q as int)
                &&& forall|e: int| 0 <= e < i && eligible(#[trigger] adapters@[e])
                    ==> best_rank <= rank_spec(adapters@[e].device_type)
                &&& forall|e: int| 0 <= e < d && eligible(#[trigger] adapters@[e])
                    ==> best_rank < rank_spec(adapters@[e].device_type)
            },
        decreases adapters@.len() - i,
    {
        let a = &adapters[i];
        if a.has_required_extensions {
            match first_usable_family(&a.queue_families) {
                Some(q) => {
                    let rank = device_type_rank(a.device_type);
                    if best.is_none() || rank < best_rank {
                        best = Some((i, q));
                        best_rank = rank;
                    }
                },
                None => {},
            }
        }
        i = i + 1;
    }
    best
}

} // verus!
