//! Surface negotiation policy: which color format, present mode, and image
//! count a swapchain is created with, given what the device reports.

use vstd::prelude::*;
use crate::extent::Extent;

verus! {

/// Vulkan format code of the preferred 8-bit sRGB BGRA color format.
pub const FORMAT_B8G8R8A8_SRGB: u32 = 50;

/// Vulkan color-space code of the non-linear sRGB color space.
pub const COLOR_SPACE_SRGB_NONLINEAR: u32 = 0;

/// One (format, color space) pair the surface supports, carried as the raw
/// Vulkan codes the policy reads.
#[derive(Clone, Copy, Debug, PartialEq, Eq, Structural)]
pub struct SurfaceFormat {
    pub format_id: u32,
    pub color_space_id: u32,
}

impl SurfaceFormat {
    /// The one combination the policy prefers: a standard 8-bit sRGB color
    /// format in the non-linear sRGB color space.
    pub open spec fn spec_is_preferred(&self) -> bool {
        self.format_id == FORMAT_B8G8R8A8_SRGB && self.color_space_id == COLOR_SPACE_SRGB_NONLINEAR
    }

    #[verifier::when_used_as_spec(spec_is_preferred)]
    pub fn is_preferred(&self) -> (r: bool)
        ensures
            r == self.spec_is_preferred(),
    {
        self.format_id == FORMAT_B8G8R8A8_SRGB && self.color_space_id == COLOR_SPACE_SRGB_NONLINEAR
    }
}

/// Presentation modes the policy distinguishes.
#[derive(Clone, Copy, Debug, PartialEq, Eq, Structural)]
pub enum PresentMode {
    Immediate,
    Mailbox,
    Fifo,
    FifoRelaxed,
}

/// `i` is the position of the first preferred entry of `s`.
pub open spec fn is_first_preferred(s: Seq<SurfaceFormat>, i: int) -> bool {
    &&& 0 <= i < s.len()
    &&& s[i].is_preferred()
    &&& forall|j: int| 0 <= j < i ==> !s[j].is_preferred()
}

/// Picks the swapchain color format: the first supported preferred pair if
/// any, else the first supported pair, and nothing only when the surface
/// reports no format at all.
pub fn select_swapchain_format(formats: &Vec<SurfaceFormat>) -> (r: Option<SurfaceFormat>)
    ensures
        r is Some <==> formats@.len() > 0,
        (exists|i: int| 0 <= i < formats@.len() && formats@[i].is_preferred()) ==> (exists|i: int|
            is_first_preferred(formats@, i) && r == Some(formats@[i])),
        formats@.len() > 0 && (forall|i: int|
            0 <= i < formats@.len() ==> !formats@[i].is_preferred()) ==> r == Some(formats@[0]),
        r matches Some(f) ==> formats@.contains(f),
{
    let n = formats.len();
    let mut k: usize = 0;
    while k < n
        invariant
            n == formats@.len(),
            k <= n,
            forall|j: int| 0 <= j < k ==> !formats@[j].is_preferred(),
        decreases n - k,
    {
        if formats[k].is_preferred() {
            assert(is_first_preferred(formats@, k as int));
            return Some(formats[k]);
        }
        k += 1;
    }
    if formats.len() == 0 {
        None
    } else {
        assert(formats@.contains(formats@[0]));
        Some(formats[0])
    }
}

/// Picks the presentation mode: the vsynced FIFO mode when the surface offers
/// it, nothing otherwise.
pub fn select_swapchain_present_mode(modes: &Vec<PresentMode>) -> (r: Option<PresentMode>)
    ensures
        r is Some <==> modes@.contains(PresentMode::Fifo),
        r matches Some(m) ==> m is Fifo,
{
    let n = modes.len();
    let mut k: usize = 0;
    while k < n
        invariant
            n == modes@.len(),
            k <= n,
            forall|j: int| 0 <= j < k ==> modes@[j] != PresentMode::Fifo,
        decreases n - k,
    {
        if modes[k] == PresentMode::Fifo {
            assert(modes@.contains(PresentMode::Fifo));
            return Some(PresentMode::Fifo);
        }
        k += 1;
    }
    None
}

/// What the device reports about the surface when a swapchain is created:
/// the allowed image-count range and the current drawable size.
#[derive(Clone, Copy, Debug, PartialEq, Eq, Structural)]
pub struct SurfaceCapabilities {
    pub min_image_count: u32,
    pub max_image_count: Option<u32>,
    pub current_extent: Extent,
}

impl SurfaceCapabilities {
    /// What Vulkan guarantees of a capability snapshot: at least one image is
    /// allowed, and an upper bound, if reported, is no smaller than the lower.
    /// The strict bound on `min_image_count` keeps `min_image_count + 1`
    /// representable.
    pub open spec fn wf(&self) -> bool {
        &&& 1 <= self.min_image_count < u32::MAX
        &&& self.max_image_count matches Some(mx) ==> mx >= self.min_image_count
    }
}

/// The image count a swapchain is created with: `max(max_count, min_count + 1)`
/// clamped to the reported bounds, so that at least double buffering is
/// requested without exceeding the device limit. With no reported upper bound
/// the count is `min_count + 1`.
pub open spec fn spec_image_count(caps: SurfaceCapabilities) -> u32 {
    match caps.max_image_count {
        Some(mx) => {
            let wanted = if mx >= caps.min_image_count + 1 {
                mx as int
            } else {
                caps.min_image_count + 1
            };
            if wanted > mx {
                mx
            } else {
                wanted as u32
            }
        },
        None => (caps.min_image_count + 1) as u32,
    }
}

/// Computes the swapchain image count from a capability snapshot.
pub fn select_image_count(caps: &SurfaceCapabilities) -> (r: u32)
    requires
        caps.wf(),
    ensures
        r == spec_image_count(*caps),
        r >= caps.min_image_count,
        caps.max_image_count matches Some(mx) ==> r <= mx,
{
    match caps.max_image_count {
        Some(mx) => {
            let wanted = if mx >= caps.min_image_count + 1 {
                mx
            } else {
                caps.min_image_count + 1
            };
            if wanted > mx {
                mx
            } else {
                wanted
            }
        },
        None => caps.min_image_count + 1,
    }
}

} // verus!
