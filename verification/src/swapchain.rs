//! The surface/swapchain manager: the single owner of swapchain-derived
//! state, and the state machine that keeps the swapchain extent consistent
//! with the drawable size of the window.

use vstd::prelude::*;
use crate::extent::Extent;
use crate::surface::{
    spec_image_count, PresentMode, SurfaceCapabilities, SurfaceFormat, select_image_count,
    select_swapchain_format, select_swapchain_present_mode,
};

verus! {

/// Validity of the presentation surface.
#[derive(Clone, Copy, Debug, PartialEq, Eq, Structural)]
pub enum SurfaceState {
    /// The swapchain matches the drawable size and may be acquired from.
    Valid,
    /// Acquisition reported suboptimal/out-of-date, or a resize was observed;
    /// the swapchain must be recreated before the next frame.
    OutOfDate,
    /// The drawable size was zero when recreation was attempted; rendering is
    /// suspended until a nonzero resize arrives.
    Minimized,
    /// The window was closed; every swapchain resource has been released.
    Destroyed,
}

/// The parameters a swapchain was created with. On recreation every field but
/// the extent is preserved.
#[derive(Clone, Copy, Debug, PartialEq, Eq, Structural)]
pub struct SwapchainConfig {
    pub format: SurfaceFormat,
    pub present_mode: PresentMode,
    pub extent: Extent,
    pub image_count: u32,
}

/// Why a swapchain could not be created. Each of these indicates a surface
/// that can never work and is treated as fatal by the caller.
#[derive(Clone, Copy, Debug, PartialEq, Eq, Structural)]
pub enum SwapchainCreateError {
    /// The surface reports no supported (format, color space) pair.
    NoSurfaceFormat,
    /// The surface does not offer the FIFO present mode.
    NoPresentMode,
    /// The drawable size is zero at creation time.
    ZeroExtent,
}

/// Owner of the swapchain parameters and of the surface-validity state
/// machine. The swapchain itself and its image views live with the device;
/// their managed parameters and counts are mirrored here, and every decision
/// about them is made here.
#[derive(Clone, Copy, Debug, PartialEq, Eq, Structural)]
pub struct SwapchainManager {
    pub state: SurfaceState,
    pub config: SwapchainConfig,
    /// How many image views are derived from the current swapchain; they are
    /// regenerated whenever the swapchain is replaced.
    pub image_view_count: u32,
}

impl SwapchainManager {
    /// Internal consistency: a valid swapchain never has a zero extent, and
    /// the image views always belong to the current swapchain (one per image).
    pub open spec fn wf(&self) -> bool {
        &&& self.state is Valid ==> !self.config.extent.is_zero()
        &&& self.image_view_count == self.config.image_count
        &&& self.config.image_count >= 1
    }

    /// Negotiates the swapchain parameters and creates the manager in the
    /// `Valid` state: the preferred 8-bit sRGB format (else the first
    /// supported), the FIFO present mode, the current drawable extent, and an
    /// image count of `max(max, min + 1)` clamped to the capability bounds.
    pub fn new(
        formats: &Vec<SurfaceFormat>,
        modes: &Vec<PresentMode>,
        caps: &SurfaceCapabilities,
    ) -> (r: Result<SwapchainManager, SwapchainCreateError>)
        requires
            caps.wf(),
        ensures
            r is Ok <==> formats@.len() > 0 && modes@.contains(PresentMode::Fifo)
                && !caps.current_extent.is_zero(),
            formats@.len() == 0 ==> r == Err::<SwapchainManager, _>(
                SwapchainCreateError::NoSurfaceFormat,
            ),
            formats@.len() > 0 && !modes@.contains(PresentMode::Fifo) ==> r == Err::<
                SwapchainManager,
                _,
            >(SwapchainCreateError::NoPresentMode),
            formats@.len() > 0 && modes@.contains(PresentMode::Fifo)
                && caps.current_extent.is_zero() ==> r == Err::<SwapchainManager, _>(
                SwapchainCreateError::ZeroExtent,
            ),
            r matches Ok(m) ==> {
                &&& m.wf()
                &&& m.state is Valid
                &&& m.config.extent == caps.current_extent
                &&& m.config.present_mode is Fifo
                &&& m.config.image_count == spec_image_count(*caps)
                &&& m.image_view_count == m.config.image_count
                &&& formats@.contains(m.config.format)
                &&& (exists|i: int| 0 <= i < formats@.len() && formats@[i].is_preferred())
                    ==> m.config.format.is_preferred()
                &&& (forall|i: int| 0 <= i < formats@.len() ==> !formats@[i].is_preferred())
                    ==> m.config.format == formats@[0]
            },
    {
        let format = match select_swapchain_format(formats) {
            Some(f) => f,
            None => {
                return Err(SwapchainCreateError::NoSurfaceFormat);
            },
        };
        let present_mode = match select_swapchain_present_mode(modes) {
            Some(m) => m,
            None => {
                return Err(SwapchainCreateError::NoPresentMode);
            },
        };
        if caps.current_extent.is_zero() {
            return Err(SwapchainCreateError::ZeroExtent);
        }
        let image_count = select_image_count(caps);
        let config = SwapchainConfig {
            format,
            present_mode,
            extent: caps.current_extent,
            image_count,
        };
        Ok(SwapchainManager { state: SurfaceState::Valid, config, image_view_count: image_count })
    }

    /// Records that the current swapchain no longer matches the surface
    /// (suboptimal acquisition or an observed resize); nothing is rebuilt yet.
    pub fn mark_out_of_date(&mut self)
        requires
            old(self).state is Valid || old(self).state is OutOfDate,
        ensures
            final(self).state is OutOfDate,
            final(self).config == old(self).config,
            final(self).image_view_count == old(self).image_view_count,
            old(self).wf() ==> final(self).wf(),
    {
        self.state = SurfaceState::OutOfDate;
    }

    /// Whether recreation at drawable size `drawable` succeeds.
    pub open spec fn spec_recreate_ok(drawable: Extent) -> bool {
        !drawable.is_zero()
    }

    /// The manager after a recreation attempt at drawable size `drawable`:
    /// with a zero extent nothing changes but the state, which becomes
    /// `Minimized`; otherwise the swapchain is replaced at the new extent with
    /// every other parameter preserved, the image views are regenerated, and
    /// the state returns to `Valid`.
    pub open spec fn spec_recreate(m: SwapchainManager, drawable: Extent) -> SwapchainManager {
        if drawable.is_zero() {
            SwapchainManager { state: SurfaceState::Minimized, ..m }
        } else {
            SwapchainManager {
                state: SurfaceState::Valid,
                config: SwapchainConfig { extent: drawable, ..m.config },
                image_view_count: m.config.image_count,
            }
        }
    }

    /// Attempts to rebuild the swapchain at the current drawable size.
    ///
    /// Returns failure, without touching the swapchain parameters, when either
    /// dimension is zero: the caller treats the surface as minimized and
    /// suspends rendering. Repeated zero-extent calls leave no partial state
    /// behind. On success only the extent changes; format, present mode, and
    /// image count are preserved, and one image view per image is regenerated.
    pub fn recreate_swapchain(&mut self, drawable: Extent) -> (r: bool)
        requires
            old(self).wf(),
            !(old(self).state is Destroyed),
        ensures
            r == Self::spec_recreate_ok(drawable),
            *final(self) == Self::spec_recreate(*old(self), drawable),
            final(self).wf(),
            final(self).config.format == old(self).config.format,
            final(self).config.present_mode == old(self).config.present_mode,
            final(self).config.image_count == old(self).config.image_count,
            r ==> final(self).state is Valid && final(self).config.extent == drawable,
            !r ==> final(self).state is Minimized && final(self).config == old(self).config
                && final(self).image_view_count == old(self).image_view_count,
    {
        if drawable.is_zero() {
            self.state = SurfaceState::Minimized;
            return false;
        }
        self.config = SwapchainConfig { extent: drawable, ..self.config };
        self.image_view_count = self.config.image_count;
        self.state = SurfaceState::Valid;
        true
    }

    /// Releases the surface: any state goes to `Destroyed`.
    pub fn destroy(&mut self)
        ensures
            final(self).state is Destroyed,
            final(self).config == old(self).config,
            final(self).image_view_count == old(self).image_view_count,
    {
        self.state = SurfaceState::Destroyed;
    }
}

/// Recreating the swapchain at the drawable extent it already has is
/// idempotent: it succeeds and hands back the same parameters — in particular
/// the same image count and the same format — and the same number of views.
pub proof fn lemma_recreate_same_extent_idempotent(m: SwapchainManager)
    requires
        m.wf(),
        m.state is Valid,
    ensures
        SwapchainManager::spec_recreate_ok(m.config.extent),
        SwapchainManager::spec_recreate(m, m.config.extent) == m,
{
    let m2 = SwapchainManager::spec_recreate(m, m.config.extent);
    assert(m2.config == m.config);
    assert(m2 == m);
}

} // verus!
