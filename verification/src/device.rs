use vstd::prelude::*;

verus! {

/// The kind of a physical device, as the driver reports it. Kinds that
/// the viewer does not know are `Unrecognized`.
#[derive(Clone, Copy, Debug, PartialEq, Eq, Structural)]
pub enum PhysicalDeviceType {
    DiscreteGpu,
    IntegratedGpu,
    VirtualGpu,
    Cpu,
    Other,
    Unrecognized,
}

/// What one queue family of a device offers the viewer.
#[derive(Clone, Copy, Debug, PartialEq, Eq, Structural)]
pub struct QueueFamilySupport {
    /// The family runs graphics work.
    pub graphics: bool,
    /// The family can present to the window's surface.
    pub surface: bool,
}

/// What the viewer knows of one physical device when it picks one.
#[derive(Clone, Debug)]
pub struct DeviceCandidate {
    /// The device has every extension the viewer needs (a swapchain).
    pub supports_extensions: bool,
    pub device_type: PhysicalDeviceType,
    /// The device's queue families, in the driver's order.
    pub queue_families: Vec<QueueFamilySupport>,
}

/// How much the viewer prefers a kind of device: lower is better.
pub open spec fn type_rank(t: PhysicalDeviceType) -> nat {
    match t {
        PhysicalDeviceType::DiscreteGpu => 0,
        PhysicalDeviceType::IntegratedGpu => 1,
        PhysicalDeviceType::VirtualGpu => 2,
        PhysicalDeviceType::Cpu => 3,
        PhysicalDeviceType::Other => 4,
        PhysicalDeviceType::Unrecognized => 5,
    }
}

/// A queue family that both draws and presents.
pub open spec fn family_usable(f: QueueFamilySupport) -> bool {
    f.graphics && f.surface
}

/// `i` is the first usable family of `fams`.
pub open spec fn is_first_usable(fams: Seq<QueueFamilySupport>, i: int) -> bool {
    &&& 0 <= i < fams.len()
    &&& family_usable(fams[i])
    &&& forall|j: int| 0 <= j < i ==> !family_usable(#[trigger] fams[j])
}

/// Some family of `fams` is usable.
pub open spec fn has_usable_family(fams: Seq<QueueFamilySupport>) -> bool {
    exists|i: int| 0 <= i < fams.len() && family_usable(#[trigger] fams[i])
}

/// A device the viewer can run on: it has the extensions and a usable
/// queue family.
pub open spec fn eligible(c: DeviceCandidate) -> bool {
    c.supports_extensions && has_usable_family(c.queue_families@)
}

/// `d` is the device the viewer picks among `cands`: an eligible one of
/// the most preferred kind, the first of them where several tie.
pub open spec fn is_best_device(cands: Seq<DeviceCandidate>, d: int) -> bool {
    &&& 0 <= d < cands.len()
    &&& eligible(cands[d])
    &&& forall|e: int|
        0 <= e < cands.len() && eligible(#[trigger] cands[e]) ==> type_rank(cands[d].device_type)
            <= type_rank(cands[e].device_type)
    &&& forall|e: int|
        0 <= e < d && eligible(#[trigger] cands[e]) ==> type_rank(cands[d].device_type)
            < type_rank(cands[e].device_type)
}

/// The preference rank of a kind of device: lower is better.
pub fn device_type_rank(t: PhysicalDeviceType) -> (r: u32)
    ensures
        r == type_rank(t),
{
    match t {
        PhysicalDeviceType::DiscreteGpu => 0,
        PhysicalDeviceType::IntegratedGpu => 1,
        PhysicalDeviceType::VirtualGpu => 2,
        PhysicalDeviceType::Cpu => 3,
        PhysicalDeviceType::Other => 4,
        PhysicalDeviceType::Unrecognized => 5,
    }
}

/// The index of the first queue family that both draws and presents, if
/// there is one.
pub fn first_usable_family(fams: &Vec<QueueFamilySupport>) -> (r: Option<usize>)
    ensures
        r matches Some(i) ==> is_first_usable(fams@, i as int),
        r is None <==> !has_usable_family(fams@),
{
    let mut i: usize = 0;
    while i < fams.len()
        invariant
            i <= fams.len(),
            forall|j: int| 0 <= j < i ==> !family_usable(#[trigger] fams@[j]),
        decreases fams.len() - i,
    {
        if fams[i].graphics && fams[i].surface {
            return Some(i);
        }
        i = i + 1;
    }
    None
}

/// Picks the physical device and the queue family to run on: among the
/// devices that have the needed extensions and a queue family that both
/// draws and presents, one of the most preferred kind (discrete, then
/// integrated, virtual, CPU, other, unknown), the first in the driver's
/// order where several tie; and its first such queue family. `None` when
/// no device qualifies.
pub fn select_physical_device(cands: &Vec<DeviceCandidate>) -> (r: Option<(usize, u32)>)
    requires
        forall|d: int| 0 <= d < cands.len() ==> #[trigger] cands@[d].queue_families.len() <= u32::MAX,
    ensures
        r is None <==> forall|d: int| 0 <= d < cands.len() ==> !eligible(#[trigger] cands@[d]),
        r matches Some((d, q)) ==> {
            &&& is_best_device(cands@, d as int)
            &&& is_first_usable(cands@[d as int].queue_families@, q as int)
        },
{
    let mut best: Option<(usize, u32, u32)> = None;
    let mut d: usize = 0;
    while d < cands.len()
        invariant
            d <= cands.len(),
            forall|e: int| 0 <= e < cands.len() ==> #[trigger] cands@[e].queue_families.len() <= u32::MAX,
            best is None <==> forall|e: int| 0 <= e < d ==> !eligible(#[trigger] cands@[e]),
            best matches Some((b, q, rk)) ==> {
                &&& b < d
                &&& eligible(cands@[b as int])
                &&& rk == type_rank(cands@[b as int].device_type)
                &&& is_first_usable(cands@[b as int].queue_families@, q as int)
                &&& forall|e: int|
                    0 <= e < d && eligible(#[trigger] cands@[e]) ==> rk <= type_rank(
                        cands@[e].device_type,
                    )
                &&& forall|e: int|
                    0 <= e < b && eligible(#[trigger] cands@[e]) ==> rk < type_rank(
                        cands@[e].device_type,
                    )
            },
        decreases cands.len() - d,
    {
        let c = &cands[d];
        if c.supports_extensions {
            match first_usable_family(&c.queue_families) {
                Some(q) => {
                    assert(q < c.queue_families.len());
                    assert(q as u32 == q);
                    let rk = device_type_rank(c.device_type);
                    let replace = match best {
                        None => true,
                        Some((_, _, best_rk)) => rk < best_rk,
                    };
                    if replace {
                        best = Some((d, q as u32, rk));
                    }
                },
                None => {},
            }
        }
        d = d + 1;
    }
    match best {
        Some((b, q, _)) => Some((b, q)),
        None => None,
    }
}

/// The choice of a device is determined: no two devices of one list both
/// qualify as the pick, and no two families of one device both qualify as
/// its first usable family.
pub proof fn lemma_choice_is_unique(cands: Seq<DeviceCandidate>, d1: int, d2: int, q1: int, q2: int)
    requires
        is_best_device(cands, d1),
        is_best_device(cands, d2),
        is_first_usable(cands[d1].queue_families@, q1),
        is_first_usable(cands[d1].queue_families@, q2),
    ensures
        d1 == d2,
        q1 == q2,
{
    if d1 < d2 {
        assert(eligible(cands[d1]));
    } else if d2 < d1 {
        assert(eligible(cands[d2]));
    }
    let fams = cands[d1].queue_families@;
    if q1 < q2 {
        assert(family_usable(fams[q1]));
    } else if q2 < q1 {
        assert(family_usable(fams[q2]));
    }
}

/// The viewer's preference among kinds of devices: a discrete GPU, then an
/// integrated one, a virtual one, a CPU, another kind, and last a kind it
/// does not know.
pub proof fn lemma_device_preference_order()
    ensures
        type_rank(PhysicalDeviceType::DiscreteGpu) < type_rank(PhysicalDeviceType::IntegratedGpu),
        type_rank(PhysicalDeviceType::IntegratedGpu) < type_rank(PhysicalDeviceType::VirtualGpu),
        type_rank(PhysicalDeviceType::VirtualGpu) < type_rank(PhysicalDeviceType::Cpu),
        type_rank(PhysicalDeviceType::Cpu) < type_rank(PhysicalDeviceType::Other),
        type_rank(PhysicalDeviceType::Other) < type_rank(PhysicalDeviceType::Unrecognized),
{
}

/// A device qualifies exactly when it has the needed extensions and some
/// queue family that both runs graphics work and presents to the surface.
pub proof fn lemma_eligibility(c: DeviceCandidate)
    ensures
        eligible(c) <==> c.supports_extensions && exists|i: int|
            0 <= i < c.queue_families@.len() && (#[trigger] c.queue_families@[i]).graphics
                && c.queue_families@[i].surface,
{
    if c.supports_extensions && exists|i: int|
        0 <= i < c.queue_families@.len() && (#[trigger] c.queue_families@[i]).graphics
            && c.queue_families@[i].surface {
        let i = choose|i: int|
            0 <= i < c.queue_families@.len() && (#[trigger] c.queue_families@[i]).graphics
                && c.queue_families@[i].surface;
        assert(family_usable(c.queue_families@[i]));
    }
}

/// The picked device has the needed extensions, and the picked family both
/// runs graphics work and presents, with no earlier family of that device
/// doing both; no qualifying device is of a more preferred kind, and every
/// qualifying device before the pick is of a less preferred kind.
pub proof fn lemma_pick_properties(cands: Seq<DeviceCandidate>, d: int, q: int)
    requires
        is_best_device(cands, d),
        is_first_usable(cands[d].queue_families@, q),
    ensures
        cands[d].supports_extensions,
        cands[d].queue_families@[q].graphics,
        cands[d].queue_families@[q].surface,
        forall|j: int|
            0 <= j < q ==> !((#[trigger] cands[d].queue_families@[j]).graphics
                && cands[d].queue_families@[j].surface),
        forall|e: int|
            0 <= e < cands.len() && (#[trigger] cands[e]).supports_extensions && (exists|i: int|
                0 <= i < cands[e].queue_families@.len() && (
                #[trigger] cands[e].queue_families@[i]).graphics
                    && cands[e].queue_families@[i].surface) ==> type_rank(cands[d].device_type)
                <= type_rank(cands[e].device_type),
        forall|e: int|
            0 <= e < d && (#[trigger] cands[e]).supports_extensions && (exists|i: int|
                0 <= i < cands[e].queue_families@.len() && (
                #[trigger] cands[e].queue_families@[i]).graphics
                    && cands[e].queue_families@[i].surface) ==> type_rank(cands[d].device_type)
                < type_rank(cands[e].device_type),
{
    assert forall|j: int|
        0 <= j < q implies !((#[trigger] cands[d].queue_families@[j]).graphics
        && cands[d].queue_families@[j].surface) by {
        assert(!family_usable(cands[d].queue_families@[j]));
    }
    assert forall|e: int|
        0 <= e < cands.len() && (#[trigger] cands[e]).supports_extensions && (exists|i: int|
            0 <= i < cands[e].queue_families@.len() && (
            #[trigger] cands[e].queue_families@[i]).graphics
                && cands[e].queue_families@[i].surface) implies type_rank(cands[d].device_type)
        <= type_rank(cands[e].device_type) && (e < d ==> type_rank(cands[d].device_type)
        < type_rank(cands[e].device_type)) by {
        lemma_eligibility(cands[e]);
    }
}

} // verus!
