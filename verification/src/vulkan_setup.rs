//! The choices made when setting up the Vulkan renderer: which physical
//! device and queue families to use, and how to configure the swap chain.
//!
//! Vulkan enumerations are held as their numeric values.
use vstd::prelude::*;
use crate::process_name::{ends_at_u8, name_end_u8};

verus! {

/// `VK_FORMAT_B8G8R8A8_UNORM`.
pub const FORMAT_B8G8R8A8_UNORM: i32 = 44i32;
/// `VK_COLOR_SPACE_SRGB_NONLINEAR_KHR`.
pub const COLOR_SPACE_SRGB_NONLINEAR: i32 = 0i32;
/// `VK_PRESENT_MODE_MAILBOX_KHR`.
pub const PRESENT_MODE_MAILBOX: i32 = 1i32;
/// `VK_PRESENT_MODE_FIFO_KHR`.
pub const PRESENT_MODE_FIFO: i32 = 2i32;
/// `VK_PHYSICAL_DEVICE_TYPE_INTEGRATED_GPU`.
pub const DEVICE_TYPE_INTEGRATED_GPU: i32 = 1i32;
/// `VK_PHYSICAL_DEVICE_TYPE_DISCRETE_GPU`.
pub const DEVICE_TYPE_DISCRETE_GPU: i32 = 2i32;
/// `VK_SHARING_MODE_EXCLUSIVE`.
pub const SHARING_MODE_EXCLUSIVE: i32 = 0i32;
/// `VK_SHARING_MODE_CONCURRENT`.
pub const SHARING_MODE_CONCURRENT: i32 = 1i32;
/// The magic number that opens a SPIR-V module.
pub const SPIRV_MAGIC: u32 = 0x0723_0203u32;

/// A surface format: a pixel format and a color space.
#[derive(Debug, Clone, Copy, PartialEq, Eq, Structural)]
pub struct SurfaceFormat {
    pub format: i32,
    pub color_space: i32,
}

/// A two-dimensional extent.
#[derive(Debug, Clone, Copy, PartialEq, Eq, Structural)]
pub struct Extent2D {
    pub width: u32,
    pub height: u32,
}

/// The surface capabilities that the swap chain configuration reads.
#[derive(Debug, Clone, Copy, PartialEq, Eq, Structural)]
pub struct SurfaceCapabilities {
    pub current_extent: Extent2D,
    pub min_image_extent: Extent2D,
    pub max_image_extent: Extent2D,
    pub min_image_count: u32,
    pub max_image_count: u32,
}

/// The preferred format: 8-bit BGRA in the sRGB color space.
pub open spec fn is_preferred_format(f: SurfaceFormat) -> bool {
    f.format == FORMAT_B8G8R8A8_UNORM && f.color_space == COLOR_SPACE_SRGB_NONLINEAR
}

/// Chooses the swap chain format: the first preferred one, else the first.
pub fn choose_format(formats: &[SurfaceFormat]) -> (r: SurfaceFormat)
    requires
        formats@.len() >= 1,
    ensures
        (exists|i: int| 0 <= i < formats@.len() && is_preferred_format(formats@[i])) ==> ({
            &&& is_preferred_format(r)
            &&& exists|i: int|
                0 <= i < formats@.len() && formats@[i] == r && forall|j: int|
                    0 <= j < i ==> !is_preferred_format(#[trigger] formats@[j])
        }),
        !(exists|i: int| 0 <= i < formats@.len() && is_preferred_format(formats@[i])) ==> r
            == formats@[0],
{
    let mut i: usize = 0;
    while i < formats.len()
        invariant
            i <= formats@.len(),
            forall|j: int| 0 <= j < i ==> !is_preferred_format(#[trigger] formats@[j]),
        decreases formats@.len() - i,
    {
        let f = formats[i];
        if f.format == FORMAT_B8G8R8A8_UNORM && f.color_space == COLOR_SPACE_SRGB_NONLINEAR {
            return f;
        }
        i = i + 1;
    }
    formats[0]
}

/// Chooses the present mode: mailbox if offered, else FIFO.
pub fn choose_present_mode(present_modes: &[i32]) -> (r: i32)
    ensures
        r == if present_modes@.contains(PRESENT_MODE_MAILBOX) {
            PRESENT_MODE_MAILBOX
        } else {
            PRESENT_MODE_FIFO
        },
{
    let mut i: usize = 0;
    while i < present_modes.len()
        invariant
            i <= present_modes@.len(),
            forall|j: int| 0 <= j < i ==> present_modes@[j] != PRESENT_MODE_MAILBOX,
        decreases present_modes@.len() - i,
    {
        if present_modes[i] == PRESENT_MODE_MAILBOX {
            assert(present_modes@.contains(PRESENT_MODE_MAILBOX));
            return PRESENT_MODE_MAILBOX;
        }
        i = i + 1;
    }
    PRESENT_MODE_FIFO
}

/// `v` clamped to `[lo, hi]`.
pub open spec fn clamp(v: u32, lo: u32, hi: u32) -> u32 {
    if v < lo {
        lo
    } else if v > hi {
        hi
    } else {
        v
    }
}

fn clamp_u32(v: u32, lo: u32, hi: u32) -> (r: u32)
    requires
        lo <= hi,
    ensures
        r == clamp(v, lo, hi),
{
    if v < lo {
        lo
    } else if v > hi {
        hi
    } else {
        v
    }
}

/// Chooses the swap chain extent: the surface's current extent, unless the
/// surface leaves it to the swap chain (a width of `u32::MAX`), in which case
/// the window size clamped to the allowed extents.
pub fn choose_swap_extent(caps: SurfaceCapabilities, width: u32, height: u32) -> (r: Extent2D)
    requires
        caps.current_extent.width == u32::MAX ==> caps.min_image_extent.width
            <= caps.max_image_extent.width && caps.min_image_extent.height
            <= caps.max_image_extent.height,
    ensures
        caps.current_extent.width != u32::MAX ==> r == caps.current_extent,
        caps.current_extent.width == u32::MAX ==> r == (Extent2D {
            width: clamp(width, caps.min_image_extent.width, caps.max_image_extent.width),
            height: clamp(height, caps.min_image_extent.height, caps.max_image_extent.height),
        }),
{
    if caps.current_extent.width == u32::MAX {
        Extent2D {
            width: clamp_u32(width, caps.min_image_extent.width, caps.max_image_extent.width),
            height: clamp_u32(height, caps.min_image_extent.height, caps.max_image_extent.height),
        }
    } else {
        caps.current_extent
    }
}

/// Chooses the number of swap chain images: one more than the minimum,
/// within the allowed range.
pub fn choose_image_count(caps: SurfaceCapabilities) -> (r: u32)
    requires
        caps.min_image_count < u32::MAX,
        caps.min_image_count <= caps.max_image_count,
    ensures
        r == clamp((caps.min_image_count + 1) as u32, caps.min_image_count, caps.max_image_count),
{
    clamp_u32(caps.min_image_count + 1, caps.min_image_count, caps.max_image_count)
}

/// What a queue family offers: graphics work, and presentation to the
/// surface.
#[derive(Debug, Clone, Copy, PartialEq, Eq, Structural)]
pub struct QueueFamilyInfo {
    pub graphics: bool,
    pub present: bool,
}

/// The queue families that the renderer uses.
#[derive(Debug, Clone, Copy, PartialEq, Eq, Structural)]
pub struct QueueFamilies {
    pub graphics_queue: u32,
    pub present_queue: u32,
}

/// The last index below `upto` whose family satisfies the flag.
pub open spec fn last_with(families: Seq<QueueFamilyInfo>, upto: int, graphics: bool) -> Option<int>
    decreases upto,
{
    if upto <= 0 {
        None
    } else if (if graphics {
        families[upto - 1].graphics
    } else {
        families[upto - 1].present
    }) {
        Some(upto - 1)
    } else {
        last_with(families, upto - 1, graphics)
    }
}

/// The number of families the search looks at: up to and including the
/// first family by which both kinds have been found.
pub open spec fn families_scanned(families: Seq<QueueFamilyInfo>, upto: int) -> int
    decreases families.len() - upto,
{
    if upto >= families.len() {
        families.len() as int
    } else if last_with(families, upto + 1, true) is Some && last_with(families, upto + 1, false) is Some {
        upto + 1
    } else {
        families_scanned(families, upto + 1)
    }
}

/// Selects the queue families: scanning in order until both kinds have been
/// found, the last graphics family and the last presenting family seen.
pub fn select_queue_families(families: &[QueueFamilyInfo]) -> (r: Option<QueueFamilies>)
    requires
        families@.len() <= u32::MAX,
    ensures
        ({
            let n = families_scanned(families@, 0);
            match (last_with(families@, n, true), last_with(families@, n, false)) {
                (Some(g), Some(p)) => r == Some(
                    QueueFamilies { graphics_queue: g as u32, present_queue: p as u32 },
                ),
                _ => r is None,
            }
        }),
{
    let mut graphics: Option<u32> = None;
    let mut present: Option<u32> = None;
    let mut i: usize = 0;
    while i < families.len()
        invariant_except_break
            families_scanned(families@, 0) == families_scanned(families@, i as int),
        invariant
            i <= families@.len() <= u32::MAX,
            graphics == match last_with(families@, i as int, true) {
                Some(g) => Some(g as u32),
                None => None::<u32>,
            },
            present == match last_with(families@, i as int, false) {
                Some(p) => Some(p as u32),
                None => None::<u32>,
            },
        ensures
            families_scanned(families@, 0) == i,
        decreases families@.len() - i,
    {
        let info = families[i];
        if info.graphics {
            graphics = Some(i as u32);
        }
        if info.present {
            present = Some(i as u32);
        }
        if present.is_some() && graphics.is_some() {
            assert(families_scanned(families@, i as int) == i + 1);
            i = i + 1;
            break;
        }
        i = i + 1;
    }
    match (graphics, present) {
        (Some(g), Some(p)) => Some(QueueFamilies { graphics_queue: g, present_queue: p }),
        _ => None,
    }
}

/// What is known about a physical device when picking one.
#[derive(Debug, Clone, Copy, PartialEq, Eq, Structural)]
pub struct DeviceCandidate {
    pub device_type: i32,
    pub supports_swapchain: bool,
    pub queue_families: Option<QueueFamilies>,
    pub format_count: usize,
    pub present_mode_count: usize,
}

/// A device is suitable when it is a discrete or integrated GPU, supports
/// swap chains, has the queue families and offers a format and a present
/// mode for the surface.
pub open spec fn is_suitable(d: DeviceCandidate) -> bool {
    &&& (d.device_type == DEVICE_TYPE_DISCRETE_GPU || d.device_type == DEVICE_TYPE_INTEGRATED_GPU)
    &&& d.supports_swapchain
    &&& d.queue_families is Some
    &&& d.format_count > 0
    &&& d.present_mode_count > 0
}

/// Whether a device is suitable for the renderer.
pub fn is_device_suitable(d: DeviceCandidate) -> (r: bool)
    ensures
        r == is_suitable(d),
{
    if d.device_type != DEVICE_TYPE_DISCRETE_GPU && d.device_type != DEVICE_TYPE_INTEGRATED_GPU {
        return false;
    }
    if !d.supports_swapchain {
        return false;
    }
    if d.queue_families.is_none() {
        return false;
    }
    d.format_count > 0 && d.present_mode_count > 0
}

/// Picks the first suitable device.
pub fn pick_device(devices: &[DeviceCandidate]) -> (r: Option<usize>)
    ensures
        r matches Some(i) ==> i < devices@.len() && is_suitable(devices@[i as int]) && forall|j: int|
            0 <= j < i ==> !is_suitable(#[trigger] devices@[j]),
        r is None ==> forall|j: int| 0 <= j < devices@.len() ==> !is_suitable(#[trigger] devices@[j]),
{
    let mut i: usize = 0;
    while i < devices.len()
        invariant
            i <= devices@.len(),
            forall|j: int| 0 <= j < i ==> !is_suitable(#[trigger] devices@[j]),
        decreases devices@.len() - i,
    {
        if is_device_suitable(devices[i]) {
            return Some(i);
        }
        i = i + 1;
    }
    None
}

/// The queue family indices to create queues for: the graphics family, and
/// the present family when it is another one.
pub fn queue_create_families(q: QueueFamilies) -> (r: Vec<u32>)
    ensures
        q.present_queue == q.graphics_queue ==> r@ == seq![q.graphics_queue],
        q.present_queue != q.graphics_queue ==> r@ == seq![q.graphics_queue, q.present_queue],
{
    let mut v: Vec<u32> = Vec::new();
    v.push(q.graphics_queue);
    if q.present_queue != q.graphics_queue {
        v.push(q.present_queue);
    }
    v
}

/// The swap chain's image sharing mode: concurrent across two families,
/// exclusive within one.
pub fn sharing_mode(q: QueueFamilies) -> (r: i32)
    ensures
        r == if q.present_queue == q.graphics_queue {
            SHARING_MODE_EXCLUSIVE
        } else {
            SHARING_MODE_CONCURRENT
        },
{
    if q.present_queue != q.graphics_queue {
        SHARING_MODE_CONCURRENT
    } else {
        SHARING_MODE_EXCLUSIVE
    }
}

/// The little-endian 32-bit word at byte `4 * i` of `bytes`.
pub open spec fn le_word(bytes: Seq<u8>, i: int) -> u32 {
    (bytes[4 * i] as int + bytes[4 * i + 1] as int * 0x100 + bytes[4 * i + 2] as int * 0x10000
        + bytes[4 * i + 3] as int * 0x1000000) as u32
}

/// Reads a SPIR-V module's bytes as little-endian 32-bit words (a trailing
/// partial word is dropped). The module must open with the SPIR-V magic
/// number.
pub fn include_u32(bytes: &[u8]) -> (r: Vec<u32>)
    requires
        bytes@.len() >= 4,
        le_word(bytes@, 0) == SPIRV_MAGIC,
    ensures
        r@.len() == bytes@.len() / 4,
        forall|i: int| 0 <= i < r@.len() ==> #[trigger] r@[i] == le_word(bytes@, i),
{
    let len = bytes.len();
    let n = len / 4;
    let mut out: Vec<u32> = Vec::new();
    let mut i: usize = 0;
    while i < n
        invariant
            len == bytes@.len(),
            n == bytes@.len() / 4,
            i <= n,
            out@.len() == i,
            forall|k: int| 0 <= k < i ==> #[trigger] out@[k] == le_word(bytes@, k),
        decreases n - i,
    {
        assert(4 * i + 3 < bytes@.len()) by (nonlinear_arith)
            requires
                i < n,
                n == bytes@.len() / 4,
        ;
        let b = 4 * i;
        let w = bytes[b] as u32 + bytes[b + 1] as u32 * 0x100 + bytes[b + 2] as u32 * 0x10000
            + bytes[b + 3] as u32 * 0x1000000;
        out.push(w);
        i = i + 1;
    }
    out
}

/// The zero-terminated name buffer `buf` holds exactly the name `wanted`.
pub open spec fn c_name_is(buf: Seq<u8>, wanted: Seq<u8>) -> bool {
    forall|k: int| ends_at_u8(buf, k) ==> buf.subrange(0, k) == wanted
}

/// Whether a zero-terminated name buffer holds exactly `wanted`.
pub fn c_name_equals(buf: &[u8], wanted: &[u8]) -> (r: bool)
    ensures
        r == c_name_is(buf@, wanted@),
{
    let end = name_end_u8(buf);
    proof {
        assert forall|k: int| ends_at_u8(buf@, k) implies k == end by {
            if k < end {
                assert(buf@[k] != 0);
            } else if k > end {
                assert(buf@[end as int] != 0);
            }
        }
    }
    if end != wanted.len() {
        assert(buf@.subrange(0, end as int).len() != wanted@.len());
        return false;
    }
    let mut i: usize = 0;
    while i < end
        invariant
            end == wanted@.len(),
            ends_at_u8(buf@, end as int),
            0 <= i <= end,
            forall|j: int| 0 <= j < i ==> buf@[j] == wanted@[j],
        decreases end - i,
    {
        if buf[i] != wanted[i] {
            assert(buf@.subrange(0, end as int)[i as int] != wanted@[i as int]);
            return false;
        }
        i = i + 1;
    }
    assert(buf@.subrange(0, end as int) =~= wanted@);
    true
}

/// Whether a device offers the extension `wanted`, given the names of the
/// extensions it offers (each in a zero-terminated buffer).
pub fn has_extension(extension_names: &Vec<Vec<u8>>, wanted: &[u8]) -> (r: bool)
    ensures
        r == exists|i: int| 0 <= i < extension_names@.len() && #[trigger] c_name_is(
            extension_names@[i]@,
            wanted@,
        ),
{
    let mut i: usize = 0;
    while i < extension_names.len()
        invariant
            0 <= i <= extension_names@.len(),
            forall|j: int| 0 <= j < i ==> !#[trigger] c_name_is(extension_names@[j]@, wanted@),
        decreases extension_names@.len() - i,
    {
        if c_name_equals(extension_names[i].as_slice(), wanted) {
            return true;
        }
        i = i + 1;
    }
    false
}

/// `VK_IMAGE_USAGE_COLOR_ATTACHMENT_BIT`.
pub const IMAGE_USAGE_COLOR_ATTACHMENT: u32 = 0x10u32;

/// What a surface offers a swap chain on a device: its capabilities, its
/// formats and its present modes.
pub struct SwapchainSupport {
    pub capabilities: SurfaceCapabilities,
    pub formats: Vec<SurfaceFormat>,
    pub present_modes: Vec<i32>,
}

/// The settings of the swap chain the renderer creates.
#[derive(Debug, Clone, Copy, PartialEq, Eq, Structural)]
pub struct SwapchainPlan {
    pub min_image_count: u32,
    pub present_mode: i32,
    pub image_extent: Extent2D,
    pub image_format: SurfaceFormat,
    pub image_array_layers: u32,
    pub image_usage: u32,
    pub sharing_mode: i32,
    /// The queue family indices handed over: the present family, then the
    /// graphics family.
    pub present_family: u32,
    pub graphics_family: u32,
    pub clipped: bool,
}

/// The first preferred format of `formats`, or the first format when none is
/// preferred.
pub open spec fn chosen_format(formats: Seq<SurfaceFormat>) -> SurfaceFormat
    decreases formats.len(),
{
    if formats.len() == 0 {
        arbitrary()
    } else if is_preferred_format(formats[0]) {
        formats[0]
    } else if exists|i: int| 0 <= i < formats.len() && is_preferred_format(#[trigger] formats[i]) {
        chosen_format(formats.drop_first())
    } else {
        formats[0]
    }
}

proof fn lemma_chosen_format(formats: Seq<SurfaceFormat>, r: SurfaceFormat)
    requires
        formats.len() >= 1,
        (exists|i: int| 0 <= i < formats.len() && is_preferred_format(formats[i])) ==> ({
            &&& is_preferred_format(r)
            &&& exists|i: int|
                0 <= i < formats.len() && formats[i] == r && forall|j: int|
                    0 <= j < i ==> !is_preferred_format(#[trigger] formats[j])
        }),
        !(exists|i: int| 0 <= i < formats.len() && is_preferred_format(formats[i])) ==> r
            == formats[0],
    ensures
        r == chosen_format(formats),
    decreases formats.len(),
{
    if exists|i: int| 0 <= i < formats.len() && is_preferred_format(formats[i]) {
        let i = choose|i: int|
            0 <= i < formats.len() && formats[i] == r && forall|j: int|
                0 <= j < i ==> !is_preferred_format(#[trigger] formats[j]);
        if i > 0 {
            let t = formats.drop_first();
            assert(t[i - 1] == formats[i]);
            assert forall|j: int| 0 <= j < i - 1 implies !is_preferred_format(#[trigger] t[j]) by {
                assert(t[j] == formats[j + 1]);
            }
            lemma_chosen_format(t, r);
        }
    }
}

/// The swap chain settings for a window of `width` by `height`: the chosen
/// image count, present mode, extent and format, one array layer used as a
/// color attachment, concurrent sharing when the present and graphics
/// families differ, and clipping on.
pub fn swapchain_plan(support: &SwapchainSupport, families: QueueFamilies, width: i32, height: i32) -> (r: SwapchainPlan)
    requires
        support.formats@.len() >= 1,
        support.capabilities.min_image_count < u32::MAX,
        support.capabilities.min_image_count <= support.capabilities.max_image_count,
        support.capabilities.current_extent.width == u32::MAX ==> support.capabilities.min_image_extent.width
            <= support.capabilities.max_image_extent.width
            && support.capabilities.min_image_extent.height
            <= support.capabilities.max_image_extent.height,
    ensures
        r.min_image_count == clamp(
            (support.capabilities.min_image_count + 1) as u32,
            support.capabilities.min_image_count,
            support.capabilities.max_image_count,
        ),
        r.present_mode == if support.present_modes@.contains(PRESENT_MODE_MAILBOX) {
            PRESENT_MODE_MAILBOX
        } else {
            PRESENT_MODE_FIFO
        },
        support.capabilities.current_extent.width != u32::MAX ==> r.image_extent
            == support.capabilities.current_extent,
        support.capabilities.current_extent.width == u32::MAX ==> r.image_extent == (Extent2D {
            width: clamp(
                width as u32,
                support.capabilities.min_image_extent.width,
                support.capabilities.max_image_extent.width,
            ),
            height: clamp(
                height as u32,
                support.capabilities.min_image_extent.height,
                support.capabilities.max_image_extent.height,
            ),
        }),
        r.image_format == chosen_format(support.formats@),
        r.image_array_layers == 1,
        r.image_usage == IMAGE_USAGE_COLOR_ATTACHMENT,
        r.sharing_mode == if families.present_queue == families.graphics_queue {
            SHARING_MODE_EXCLUSIVE
        } else {
            SHARING_MODE_CONCURRENT
        },
        r.present_family == families.present_queue,
        r.graphics_family == families.graphics_queue,
        r.clipped,
{
    let format = choose_format(support.formats.as_slice());
    proof {
        lemma_chosen_format(support.formats@, format);
    }
    SwapchainPlan {
        min_image_count: choose_image_count(support.capabilities),
        present_mode: choose_present_mode(support.present_modes.as_slice()),
        image_extent: choose_swap_extent(support.capabilities, width as u32, height as u32),
        image_format: format,
        image_array_layers: 1,
        image_usage: IMAGE_USAGE_COLOR_ATTACHMENT,
        sharing_mode: sharing_mode(families),
        present_family: families.present_queue,
        graphics_family: families.graphics_queue,
        clipped: true,
    }
}

} // verus!
