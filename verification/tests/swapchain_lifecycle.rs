//! The swapchain manager: negotiation at creation, recreation under resize
//! and minimization, and idempotence of same-extent recreation.

use frameloop::extent::Extent;
use frameloop::surface::{
    PresentMode, SurfaceCapabilities, SurfaceFormat, COLOR_SPACE_SRGB_NONLINEAR,
    FORMAT_B8G8R8A8_SRGB,
};
use frameloop::swapchain::{SurfaceState, SwapchainCreateError, SwapchainManager};

fn formats() -> Vec<SurfaceFormat> {
    vec![SurfaceFormat {
        format_id: FORMAT_B8G8R8A8_SRGB,
        color_space_id: COLOR_SPACE_SRGB_NONLINEAR,
    }]
}

fn modes() -> Vec<PresentMode> {
    vec![PresentMode::Fifo]
}

fn caps(width: u32, height: u32) -> SurfaceCapabilities {
    SurfaceCapabilities {
        min_image_count: 2,
        max_image_count: Some(3),
        current_extent: Extent::new(width, height),
    }
}

#[test]
fn creation_negotiates_and_is_valid() {
    let m = SwapchainManager::new(&formats(), &modes(), &caps(800, 600)).unwrap();
    assert_eq!(m.state, SurfaceState::Valid);
    assert_eq!(m.config.extent, Extent::new(800, 600));
    assert_eq!(m.config.format.format_id, FORMAT_B8G8R8A8_SRGB);
    assert_eq!(m.config.present_mode, PresentMode::Fifo);
    assert_eq!(m.config.image_count, 3);
    assert_eq!(m.image_view_count, 3);
}

#[test]
fn creation_fails_without_formats() {
    let no_formats: Vec<SurfaceFormat> = Vec::new();
    let r = SwapchainManager::new(&no_formats, &modes(), &caps(800, 600));
    assert_eq!(r.unwrap_err(), SwapchainCreateError::NoSurfaceFormat);
}

#[test]
fn creation_fails_without_fifo() {
    let no_fifo = vec![PresentMode::Immediate];
    let r = SwapchainManager::new(&formats(), &no_fifo, &caps(800, 600));
    assert_eq!(r.unwrap_err(), SwapchainCreateError::NoPresentMode);
}

#[test]
fn creation_fails_at_zero_extent() {
    let r = SwapchainManager::new(&formats(), &modes(), &caps(0, 600));
    assert_eq!(r.unwrap_err(), SwapchainCreateError::ZeroExtent);
}

#[test]
fn recreate_at_new_extent_preserves_parameters() {
    let mut m = SwapchainManager::new(&formats(), &modes(), &caps(800, 600)).unwrap();
    let before = m.config;
    assert!(m.recreate_swapchain(Extent::new(1024, 768)));
    assert_eq!(m.state, SurfaceState::Valid);
    assert_eq!(m.config.extent, Extent::new(1024, 768));
    assert_eq!(m.config.format, before.format);
    assert_eq!(m.config.present_mode, before.present_mode);
    assert_eq!(m.config.image_count, before.image_count);
    assert_eq!(m.image_view_count, before.image_count);
}

#[test]
fn recreate_at_zero_extent_fails_without_partial_state() {
    let mut m = SwapchainManager::new(&formats(), &modes(), &caps(800, 600)).unwrap();
    let before = m.config;
    assert!(!m.recreate_swapchain(Extent::new(0, 0)));
    assert_eq!(m.state, SurfaceState::Minimized);
    assert_eq!(m.config, before);
    // Repeated zero-extent attempts are idempotent: still no change.
    assert!(!m.recreate_swapchain(Extent::new(0, 0)));
    assert_eq!(m.state, SurfaceState::Minimized);
    assert_eq!(m.config, before);
}

#[test]
fn recreate_same_extent_is_idempotent() {
    let mut m = SwapchainManager::new(&formats(), &modes(), &caps(800, 600)).unwrap();
    let before = m;
    assert!(m.recreate_swapchain(Extent::new(800, 600)));
    assert_eq!(m, before);
    assert_eq!(m.config.image_count, before.config.image_count);
    assert_eq!(m.config.format, before.config.format);
}

#[test]
fn out_of_date_then_recreated() {
    let mut m = SwapchainManager::new(&formats(), &modes(), &caps(800, 600)).unwrap();
    m.mark_out_of_date();
    assert_eq!(m.state, SurfaceState::OutOfDate);
    assert!(m.recreate_swapchain(Extent::new(640, 480)));
    assert_eq!(m.state, SurfaceState::Valid);
}

#[test]
fn minimized_then_restored() {
    let mut m = SwapchainManager::new(&formats(), &modes(), &caps(800, 600)).unwrap();
    assert!(!m.recreate_swapchain(Extent::new(0, 0)));
    assert_eq!(m.state, SurfaceState::Minimized);
    assert!(m.recreate_swapchain(Extent::new(800, 600)));
    assert_eq!(m.state, SurfaceState::Valid);
    assert_eq!(m.config.extent, Extent::new(800, 600));
}

#[test]
fn destroy_from_any_state() {
    let mut m = SwapchainManager::new(&formats(), &modes(), &caps(800, 600)).unwrap();
    m.destroy();
    assert_eq!(m.state, SurfaceState::Destroyed);
}
