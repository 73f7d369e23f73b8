use tile_render::surface::{
    choose_surface_format, preferred_index, InitError, SurfaceConfig, SurfaceState, FRAME_LATENCY,
};
use wgpu::{CompositeAlphaMode, PresentMode, TextureFormat};

fn config() -> SurfaceConfig {
    SurfaceConfig::initial(
        &vec![TextureFormat::Bgra8Unorm, TextureFormat::Bgra8UnormSrgb],
        &vec![PresentMode::Fifo, PresentMode::Mailbox],
        &vec![CompositeAlphaMode::Opaque, CompositeAlphaMode::PreMultiplied],
        768,
        576,
    )
    .unwrap()
}

#[test]
fn first_srgb_format_is_chosen() {
    let formats = vec![
        TextureFormat::Bgra8Unorm,
        TextureFormat::Bgra8UnormSrgb,
        TextureFormat::Rgba8UnormSrgb,
    ];
    assert_eq!(choose_surface_format(&formats), Some(TextureFormat::Bgra8UnormSrgb));
}

#[test]
fn first_format_is_chosen_without_srgb() {
    assert_eq!(
        choose_surface_format(&vec![TextureFormat::Bgra8Unorm]),
        Some(TextureFormat::Bgra8Unorm)
    );
    assert_eq!(
        choose_surface_format(&vec![TextureFormat::Rgba16Float, TextureFormat::Rgba8Unorm]),
        Some(TextureFormat::Rgba16Float)
    );
}

#[test]
fn srgb_format_in_front_is_chosen() {
    let formats = vec![TextureFormat::Rgba8UnormSrgb, TextureFormat::Bgra8UnormSrgb];
    assert_eq!(choose_surface_format(&formats), Some(TextureFormat::Rgba8UnormSrgb));
}

#[test]
fn no_format_is_chosen_from_nothing() {
    assert_eq!(choose_surface_format(&vec![]), None);
}

#[test]
fn preferred_index_is_first_true() {
    assert_eq!(preferred_index(&vec![false, true, true]), Some(1));
    assert_eq!(preferred_index(&vec![true, true]), Some(0));
    assert_eq!(preferred_index(&vec![false, false, false, true]), Some(3));
}

#[test]
fn preferred_index_falls_back_to_first() {
    assert_eq!(preferred_index(&vec![false]), Some(0));
    assert_eq!(preferred_index(&vec![false, false, false]), Some(0));
}

#[test]
fn preferred_index_of_nothing_is_none() {
    assert_eq!(preferred_index(&vec![]), None);
}

#[test]
fn initial_config_takes_first_modes_and_preferred_format() {
    let c = config();
    assert_eq!(c.format, TextureFormat::Bgra8UnormSrgb);
    assert_eq!(c.width, 768);
    assert_eq!(c.height, 576);
    assert_eq!(c.present_mode, PresentMode::Fifo);
    assert_eq!(c.alpha_mode, CompositeAlphaMode::Opaque);
    assert_eq!(c.max_frame_latency, 2);
    assert_eq!(FRAME_LATENCY, 2);
}

#[test]
fn initial_config_needs_all_three_lists() {
    let formats = vec![TextureFormat::Bgra8Unorm];
    let modes = vec![PresentMode::Fifo];
    let alphas = vec![CompositeAlphaMode::Opaque];
    let none = SurfaceConfig::initial(&vec![], &modes, &alphas, 1, 1);
    assert_eq!(none.err(), Some(InitError::NoAdapter));
    let none = SurfaceConfig::initial(&formats, &vec![], &alphas, 1, 1);
    assert_eq!(none.err(), Some(InitError::NoAdapter));
    let none = SurfaceConfig::initial(&formats, &modes, &vec![], 1, 1);
    assert_eq!(none.err(), Some(InitError::NoAdapter));
    assert!(SurfaceConfig::initial(&formats, &modes, &alphas, 1, 1).is_ok());
}

#[test]
fn reconfigure_ignores_zero_width_or_height() {
    let mut c = config();
    assert!(!c.reconfigure(0, 600));
    assert_eq!((c.width, c.height), (768, 576));
    assert!(!c.reconfigure(800, 0));
    assert_eq!((c.width, c.height), (768, 576));
    assert!(!c.reconfigure(0, 0));
    assert_eq!((c.width, c.height), (768, 576));
    assert_eq!(c.format, TextureFormat::Bgra8UnormSrgb);
    assert_eq!(c.present_mode, PresentMode::Fifo);
    assert_eq!(c.alpha_mode, CompositeAlphaMode::Opaque);
}

#[test]
fn reconfigure_ignores_negative_sizes() {
    let mut c = config();
    assert!(!c.reconfigure(-1, 600));
    assert!(!c.reconfigure(800, i32::MIN));
    assert_eq!((c.width, c.height), (768, 576));
}

#[test]
fn reconfigure_stores_positive_sizes() {
    let mut c = config();
    assert!(c.reconfigure(1024, 640));
    assert_eq!((c.width, c.height), (1024, 640));
    assert!(c.reconfigure(1, i32::MAX));
    assert_eq!((c.width, c.height), (1, 2147483647));
    assert_eq!(c.format, TextureFormat::Bgra8UnormSrgb);
    assert_eq!(c.present_mode, PresentMode::Fifo);
    assert_eq!(c.alpha_mode, CompositeAlphaMode::Opaque);
    assert_eq!(c.max_frame_latency, 2);
}

#[test]
fn reconfigure_twice_is_reconfigure_once() {
    let mut c = config();
    c.reconfigure(1024, 640);
    c.reconfigure(1024, 640);
    assert_eq!((c.width, c.height), (1024, 640));
}

#[test]
fn surface_state_starts_pending_with_the_given_configuration() {
    let s = SurfaceState::new(config());
    assert!(s.needs_configure());
    assert_eq!((s.config().width, s.config().height), (768, 576));
    assert_eq!(s.config().format, TextureFormat::Bgra8UnormSrgb);
}

#[test]
fn surface_state_follows_resizes() {
    let mut s = SurfaceState::new(config());
    s.mark_configured();
    assert!(!s.needs_configure());
    assert!(!s.reconfigure(0, 100));
    assert!(!s.reconfigure(100, -5));
    assert!(!s.needs_configure());
    assert_eq!((s.config().width, s.config().height), (768, 576));
    assert!(s.reconfigure(640, 480));
    assert!(s.needs_configure());
    assert_eq!((s.config().width, s.config().height), (640, 480));
    assert!(!s.reconfigure(0, 0));
    assert!(s.needs_configure());
    assert_eq!((s.config().width, s.config().height), (640, 480));
    s.mark_configured();
    assert!(!s.needs_configure());
    assert_eq!((s.config().width, s.config().height), (640, 480));
}

#[test]
fn invalidate_keeps_the_configuration() {
    let mut s = SurfaceState::new(config());
    s.mark_configured();
    s.invalidate();
    assert!(s.needs_configure());
    assert_eq!((s.config().width, s.config().height), (768, 576));
    assert_eq!(s.config().present_mode, PresentMode::Fifo);
}
