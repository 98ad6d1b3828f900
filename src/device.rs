//! Physical-device and queue-family selection, and format probing.
use vstd::prelude::*;

use crate::swapchain::{SurfaceCapabilities, SurfaceFormat};

verus! {

/// `VK_QUEUE_GRAPHICS_BIT`.
pub const QUEUE_GRAPHICS: u32 = 0x1;

/// `VK_QUEUE_TRANSFER_BIT`.
pub const QUEUE_TRANSFER: u32 = 0x4;

/// `VK_FORMAT_FEATURE_DEPTH_STENCIL_ATTACHMENT_BIT`.
pub const FORMAT_FEATURE_DEPTH_STENCIL_ATTACHMENT: u32 = 0x200;

/// `VK_FORMAT_D32_SFLOAT`.
pub const FORMAT_D32_SFLOAT: i32 = 126;

/// `VK_FORMAT_D24_UNORM_S8_UINT`.
pub const FORMAT_D24_UNORM_S8_UINT: i32 = 129;

/// `VK_FORMAT_D32_SFLOAT_S8_UINT`.
pub const FORMAT_D32_SFLOAT_S8_UINT: i32 = 130;

/// The three roles a queue can play for the renderer.
#[derive(Clone, Copy, Debug, PartialEq, Eq, Structural, Hash)]
pub enum QueueType {
    Graphics,
    Transfer,
    Present,
}

/// Why no device or format could be chosen.
#[derive(Clone, Copy, Debug, PartialEq, Eq, Structural)]
pub enum DeviceError {
    /// No physical device has queue families for graphics, transfer and present.
    NoSuitableDevice,
    /// None of the candidate formats supports the requested features.
    NoSupportedFormat,
}

/// Whether every bit of `bits` is set in `flags`.
pub open spec fn has_bits(flags: u32, bits: u32) -> bool {
    flags & bits == bits
}

/// A queue family of a physical device: its index, capability bits, queue
/// count, and whether it can present to the window's surface.
#[derive(Clone, Copy, Debug, PartialEq, Eq, Structural)]
pub struct QueueFamily {
    pub index: u32,
    pub queue_flags: u32,
    pub queue_count: u32,
    pub present: bool,
}

impl QueueFamily {
    pub fn new(index: u32, queue_flags: u32, queue_count: u32, supports_present: bool) -> (r: Self)
        ensures
            r == (QueueFamily { index, queue_flags, queue_count, present: supports_present }),
    {
        QueueFamily { index, queue_flags, queue_count, present: supports_present }
    }

    pub fn supports_graphics(&self) -> (r: bool)
        ensures
            r == has_bits(self.queue_flags, QUEUE_GRAPHICS),
    {
        self.queue_flags & QUEUE_GRAPHICS == QUEUE_GRAPHICS
    }

    pub fn supports_transfer(&self) -> (r: bool)
        ensures
            r == has_bits(self.queue_flags, QUEUE_TRANSFER),
    {
        self.queue_flags & QUEUE_TRANSFER == QUEUE_TRANSFER
    }

    pub fn supports_present(&self) -> (r: bool)
        ensures
            r == self.present,
    {
        self.present
    }

    pub fn has_queues(&self) -> (r: bool)
        ensures
            r == (self.queue_count > 0),
    {
        self.queue_count > 0
    }

    /// The family has queues and can play `role`.
    pub open spec fn serves(&self, role: QueueType) -> bool {
        &&& self.queue_count > 0
        &&& match role {
            QueueType::Graphics => has_bits(self.queue_flags, QUEUE_GRAPHICS),
            QueueType::Transfer => has_bits(self.queue_flags, QUEUE_TRANSFER),
            QueueType::Present => self.present,
        }
    }

    fn can_serve(&self, role: QueueType) -> (r: bool)
        ensures
            r == self.serves(role),
    {
        self.has_queues() && match role {
            QueueType::Graphics => self.supports_graphics(),
            QueueType::Transfer => self.supports_transfer(),
            QueueType::Present => self.supports_present(),
        }
    }
}

/// `i` is the position of the first family in `fams` that serves `role`.
pub open spec fn is_first_serving(fams: Seq<QueueFamily>, role: QueueType, i: int) -> bool {
    &&& 0 <= i < fams.len()
    &&& fams[i].serves(role)
    &&& forall|j: int| 0 <= j < i ==> !(#[trigger] fams[j]).serves(role)
}

/// Some family in `fams` serves `role`.
pub open spec fn has_role(fams: Seq<QueueFamily>, role: QueueType) -> bool {
    exists|i: int| 0 <= i < fams.len() && (#[trigger] fams[i]).serves(role)
}

/// What the renderer reads of a physical device: its queue families and
/// what its surface supports.
pub struct PhysicalDevice {
    pub queue_families: Vec<QueueFamily>,
    pub surface_capabilities: SurfaceCapabilities,
    pub formats: Vec<SurfaceFormat>,
    pub present_modes: Vec<i32>,
    pub depth_format: i32,
}

impl PhysicalDevice {
    /// Has families for graphics, transfer and present (possibly the same one).
    pub open spec fn is_suitable(&self) -> bool {
        &&& has_role(self.queue_families@, QueueType::Graphics)
        &&& has_role(self.queue_families@, QueueType::Transfer)
        &&& has_role(self.queue_families@, QueueType::Present)
    }
}

/// The first family of `fams` that serves `role`, if any.
fn first_family(fams: &Vec<QueueFamily>, role: QueueType) -> (r: Option<usize>)
    ensures
        r matches Some(i) ==> is_first_serving(fams@, role, i as int),
        r is None <==> !has_role(fams@, role),
{
    let mut i: usize = 0;
    while i < fams.len()
        invariant
            i <= fams@.len(),
            forall|j: int| 0 <= j < i ==> !(#[trigger] fams@[j]).serves(role),
        decreases fams@.len() - i,
    {
        if fams[i].can_serve(role) {
            return Some(i);
        }
        i += 1;
    }
    None
}

/// The first suitable device, and for each role the first of its families
/// that serves it.
pub fn select_physical_device(physical_devices: &[PhysicalDevice]) -> (r: Result<
    (usize, QueueFamily, QueueFamily, QueueFamily),
    DeviceError,
>)
    ensures
        r is Ok <==> exists|d: int|
            0 <= d < physical_devices@.len() && (#[trigger] physical_devices@[d]).is_suitable(),
        r matches Ok((d, g, t, p)) ==> {
            let fams = physical_devices@[d as int].queue_families@;
            &&& 0 <= d < physical_devices@.len()
            &&& physical_devices@[d as int].is_suitable()
            &&& forall|e: int| 0 <= e < d ==> !(#[trigger] physical_devices@[e]).is_suitable()
            &&& exists|i: int| is_first_serving(fams, QueueType::Graphics, i) && fams[i] == g
            &&& exists|i: int| is_first_serving(fams, QueueType::Transfer, i) && fams[i] == t
            &&& exists|i: int| is_first_serving(fams, QueueType::Present, i) && fams[i] == p
        },
        r matches Err(e) ==> e == DeviceError::NoSuitableDevice,
{
    let mut d: usize = 0;
    while d < physical_devices.len()
        invariant
            d <= physical_devices@.len(),
            forall|e: int| 0 <= e < d ==> !(#[trigger] physical_devices@[e]).is_suitable(),
        decreases physical_devices@.len() - d,
    {
        let fams = &physical_devices[d].queue_families;
        let graphics = first_family(fams, QueueType::Graphics);
        let transfer = first_family(fams, QueueType::Transfer);
        let present = first_family(fams, QueueType::Present);
        match (graphics, transfer, present) {
            (Some(g), Some(t), Some(p)) => {
                proof {
                    assert(fams@[g as int].serves(QueueType::Graphics));
                    assert(fams@[t as int].serves(QueueType::Transfer));
                    assert(fams@[p as int].serves(QueueType::Present));
                }
                return Ok((d, fams[g], fams[t], fams[p]));
            },
            _ => {},
        }
        d += 1;
    }
    Err(DeviceError::NoSuitableDevice)
}

/// `VK_PHYSICAL_DEVICE_TYPE_INTEGRATED_GPU`.
pub const DEVICE_TYPE_INTEGRATED_GPU: i32 = 1;

/// `VK_PHYSICAL_DEVICE_TYPE_DISCRETE_GPU`.
pub const DEVICE_TYPE_DISCRETE_GPU: i32 = 2;

/// Preference of a device type: discrete first, then integrated, then the rest.
pub open spec fn device_rank(device_type: i32) -> int {
    if device_type == DEVICE_TYPE_DISCRETE_GPU {
        0
    } else if device_type == DEVICE_TYPE_INTEGRATED_GPU {
        1
    } else {
        2
    }
}

/// The positions `0..n`.
pub open spec fn positions(n: int) -> Seq<usize> {
    Seq::new(n as nat, |i: int| i as usize)
}

/// Holds of the positions whose device type has rank `rank`.
pub open spec fn ranked(types: Seq<i32>, rank: int) -> spec_fn(usize) -> bool {
    |i: usize| device_rank(types[i as int]) == rank
}

/// The positions of `types` with devices of rank `rank`, in order.
pub open spec fn positions_of_rank(types: Seq<i32>, rank: int) -> Seq<usize> {
    positions(types.len() as int).filter(ranked(types, rank))
}

fn rank_of(device_type: i32) -> (r: u8)
    ensures
        r == device_rank(device_type),
{
    if device_type == DEVICE_TYPE_DISCRETE_GPU {
        0
    } else if device_type == DEVICE_TYPE_INTEGRATED_GPU {
        1
    } else {
        2
    }
}

/// Appends, in order, the positions of `types` whose rank is `rank`.
fn push_positions_of_rank(types: &[i32], rank: u8, out: &mut Vec<usize>)
    requires
        rank <= 2,
    ensures
        final(out)@ == old(out)@ + positions_of_rank(types@, rank as int),
{
    let ghost start = out@;
    let mut i: usize = 0;
    while i < types.len()
        invariant
            i <= types@.len(),
            rank <= 2,
            out@ == start + positions(i as int).filter(ranked(types@, rank as int)),
        decreases types@.len() - i,
    {
        proof {
            assert(positions(i as int + 1) =~= positions(i as int).push(i));
            positions(i as int).lemma_filter_push(i, ranked(types@, rank as int));
        }
        if rank_of(types[i]) == rank {
            out.push(i);
            proof {
                assert(out@ =~= start + positions(i as int + 1).filter(ranked(types@, rank as int)));
            }
        }
        i += 1;
    }
    proof {
        assert(positions(types@.len() as int) =~= positions(i as int));
    }
}

/// The order in which to consider devices of the given types: every discrete
/// device, then every integrated one, then the rest, each group in the
/// order given.
pub fn preference_order(device_types: &[i32]) -> (r: Vec<usize>)
    ensures
        r@ == positions_of_rank(device_types@, 0) + positions_of_rank(device_types@, 1)
            + positions_of_rank(device_types@, 2),
{
    let mut order: Vec<usize> = Vec::new();
    push_positions_of_rank(device_types, 0, &mut order);
    push_positions_of_rank(device_types, 1, &mut order);
    push_positions_of_rank(device_types, 2, &mut order);
    proof {
        assert(order@ =~= Seq::<usize>::empty() + positions_of_rank(device_types@, 0) + positions_of_rank(
            device_types@,
            1,
        ) + positions_of_rank(device_types@, 2));
    }
    order
}

/// The distinct family indices of `families`, in order of first occurrence:
/// one queue-creation entry each.
pub fn unique_family_indices(families: &[QueueFamily]) -> (r: Vec<u32>)
    ensures
        r@.no_duplicates(),
        forall|x: u32| #[trigger] r@.contains(x) <==> exists|i: int|
            0 <= i < families@.len() && families@[i].index == x,
{
    let mut out: Vec<u32> = Vec::new();
    let mut i: usize = 0;
    while i < families.len()
        invariant
            i <= families@.len(),
            out@.no_duplicates(),
            forall|x: u32| #[trigger] out@.contains(x) <==> exists|j: int|
                0 <= j < i && families@[j].index == x,
        decreases families@.len() - i,
    {
        let x = families[i].index;
        let mut k: usize = 0;
        let mut seen = false;
        while k < out.len()
            invariant
                k <= out@.len(),
                seen <==> exists|j: int| 0 <= j < k && out@[j] == x,
            decreases out@.len() - k,
        {
            if out[k] == x {
                seen = true;
            }
            k += 1;
        }
        let ghost before = out@;
        if !seen {
            out.push(x);
            proof {
                assert forall|a: int, b: int|
                    0 <= a < out@.len() && 0 <= b < out@.len() && a != b implies out@[a] != out@[b] by {
                    if a < before.len() && b < before.len() {
                        assert(out@[a] == before[a] && out@[b] == before[b]);
                    } else if a < before.len() {
                        assert(before[a] == out@[a]);
                    } else {
                        assert(before[b] == out@[b]);
                    }
                }
            }
        }
        proof {
            assert forall|y: u32| #[trigger] out@.contains(y) <==> exists|j: int|
                0 <= j < i + 1 && families@[j].index == y by {
                if out@.contains(y) {
                    let k2 = choose|k2: int| 0 <= k2 < out@.len() && out@[k2] == y;
                    if k2 < before.len() {
                        assert(before.contains(y));
                        let j = choose|j: int| 0 <= j < i && families@[j].index == y;
                        assert(0 <= j < i + 1 && families@[j].index == y);
                    } else {
                        assert(families@[i as int].index == y);
                    }
                }
                if exists|j: int| 0 <= j < i + 1 && families@[j].index == y {
                    let j = choose|j: int| 0 <= j < i + 1 && families@[j].index == y;
                    if j < i {
                        assert(before.contains(y));
                        let k2 = choose|k2: int| 0 <= k2 < before.len() && before[k2] == y;
                        assert(out@[k2] == y);
                    } else if seen {
                        let k2 = choose|k2: int| 0 <= k2 < before.len() && before[k2] == x;
                        assert(out@[k2] == y);
                    } else {
                        assert(out@[out@.len() - 1] == y);
                    }
                }
            }
        }
        i += 1;
    }
    out
}

/// How an image's texels are laid out in memory.
#[derive(Clone, Copy, Debug, PartialEq, Eq, Structural)]
pub enum ImageTiling {
    Optimal,
    Linear,
}

/// The feature bits a format offers under each tiling.
#[derive(Clone, Copy, Debug, PartialEq, Eq, Structural)]
pub struct FormatProperties {
    pub format: i32,
    pub linear_tiling_features: u32,
    pub optimal_tiling_features: u32,
}

/// Whether `p` offers every bit of `features` under `tiling`.
pub open spec fn offers(p: FormatProperties, tiling: ImageTiling, features: u32) -> bool {
    match tiling {
        ImageTiling::Linear => has_bits(p.linear_tiling_features, features),
        ImageTiling::Optimal => has_bits(p.optimal_tiling_features, features),
    }
}

/// The first candidate that offers `features` under `tiling`.
pub fn find_supported_format(candidates: &[FormatProperties], tiling: ImageTiling, features: u32) -> (r:
    Result<i32, DeviceError>)
    ensures
        r is Ok <==> exists|i: int|
            0 <= i < candidates@.len() && offers(#[trigger] candidates@[i], tiling, features),
        r matches Ok(f) ==> exists|i: int|
            0 <= i < candidates@.len() && offers(#[trigger] candidates@[i], tiling, features)
                && candidates@[i].format == f && forall|j: int|
                0 <= j < i ==> !offers(#[trigger] candidates@[j], tiling, features),
        r matches Err(e) ==> e == DeviceError::NoSupportedFormat,
{
    let mut i: usize = 0;
    while i < candidates.len()
        invariant
            i <= candidates@.len(),
            forall|j: int| 0 <= j < i ==> !offers(#[trigger] candidates@[j], tiling, features),
        decreases candidates@.len() - i,
    {
        let p = candidates[i];
        let ok = match tiling {
            ImageTiling::Linear => p.linear_tiling_features & features == features,
            ImageTiling::Optimal => p.optimal_tiling_features & features == features,
        };
        if ok {
            proof {
                assert(offers(candidates@[i as int], tiling, features));
            }
            return Ok(p.format);
        }
        i += 1;
    }
    Err(DeviceError::NoSupportedFormat)
}

/// The depth formats to probe, most preferred first.
pub fn depth_format_candidates() -> (r: Vec<i32>)
    ensures
        r@ == seq![FORMAT_D32_SFLOAT, FORMAT_D32_SFLOAT_S8_UINT, FORMAT_D24_UNORM_S8_UINT],
{
    vec![FORMAT_D32_SFLOAT, FORMAT_D32_SFLOAT_S8_UINT, FORMAT_D24_UNORM_S8_UINT]
}

/// The first probed depth format usable as an optimally tiled depth-stencil
/// attachment.
pub fn find_depth_format(candidates: &[FormatProperties]) -> (r: Result<i32, DeviceError>)
    ensures
        r is Ok <==> exists|i: int|
            0 <= i < candidates@.len() && offers(
                #[trigger] candidates@[i],
                ImageTiling::Optimal,
                FORMAT_FEATURE_DEPTH_STENCIL_ATTACHMENT,
            ),
        r matches Ok(f) ==> exists|i: int|
            0 <= i < candidates@.len() && offers(
                #[trigger] candidates@[i],
                ImageTiling::Optimal,
                FORMAT_FEATURE_DEPTH_STENCIL_ATTACHMENT,
            ) && candidates@[i].format == f && forall|j: int|
                0 <= j < i ==> !offers(
                    #[trigger] candidates@[j],
                    ImageTiling::Optimal,
                    FORMAT_FEATURE_DEPTH_STENCIL_ATTACHMENT,
                ),
        r matches Err(e) ==> e == DeviceError::NoSupportedFormat,
{
    find_supported_format(candidates, ImageTiling::Optimal, FORMAT_FEATURE_DEPTH_STENCIL_ATTACHMENT)
}

} // verus!
