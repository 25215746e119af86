use rugu::error::FatalError;
use rugu::surface::{CompositeAlphaMode, PresentMode, SurfaceCapabilities, SurfaceConfig};
use wgpu::TextureFormat;

fn capabilities() -> SurfaceCapabilities {
    SurfaceCapabilities {
        formats: vec![TextureFormat::Bgra8UnormSrgb, TextureFormat::Rgba8Unorm],
        present_modes: vec![PresentMode::Mailbox, PresentMode::Fifo],
        alpha_modes: vec![CompositeAlphaMode::Opaque, CompositeAlphaMode::Inherit],
    }
}

#[test]
fn configure_takes_first_entries_and_falls_back_on_fifo() {
    let caps = SurfaceCapabilities {
        formats: vec![TextureFormat::Bgra8UnormSrgb, TextureFormat::Rgba8Unorm],
        present_modes: vec![],
        alpha_modes: vec![CompositeAlphaMode::PreMultiplied],
    };
    let config = SurfaceConfig::configure(&caps, 800, 600).unwrap();
    assert_eq!(config.format(), TextureFormat::Bgra8UnormSrgb);
    assert_eq!(config.present_mode(), PresentMode::Fifo);
    assert_eq!(config.alpha_mode(), CompositeAlphaMode::PreMultiplied);
    assert_eq!(config.width(), 800);
    assert_eq!(config.height(), 600);
}

#[test]
fn configure_takes_the_first_of_every_list() {
    let config = SurfaceConfig::configure(&capabilities(), 1, 2).unwrap();
    assert_eq!(config.format(), TextureFormat::Bgra8UnormSrgb);
    assert_eq!(config.present_mode(), PresentMode::Mailbox);
    assert_eq!(config.alpha_mode(), CompositeAlphaMode::Opaque);
    assert_eq!(config.width(), 1);
    assert_eq!(config.height(), 2);
}

#[test]
fn configure_is_not_swayed_by_later_entries() {
    let caps = SurfaceCapabilities {
        formats: vec![TextureFormat::Rgba8Unorm, TextureFormat::Bgra8UnormSrgb],
        present_modes: vec![PresentMode::Immediate, PresentMode::Mailbox],
        alpha_modes: vec![CompositeAlphaMode::Inherit, CompositeAlphaMode::Opaque],
    };
    let config = SurfaceConfig::configure(&caps, 640, 480).unwrap();
    assert_eq!(config.format(), TextureFormat::Rgba8Unorm);
    assert_eq!(config.present_mode(), PresentMode::Immediate);
    assert_eq!(config.alpha_mode(), CompositeAlphaMode::Inherit);
}

#[test]
fn configure_falls_back_on_the_automatic_alpha_mode() {
    let caps = SurfaceCapabilities {
        formats: vec![TextureFormat::Rgba16Float],
        present_modes: vec![PresentMode::Immediate],
        alpha_modes: vec![],
    };
    let config = SurfaceConfig::configure(&caps, 640, 480).unwrap();
    assert_eq!(config.format(), TextureFormat::Rgba16Float);
    assert_eq!(config.present_mode(), PresentMode::Immediate);
    assert_eq!(config.alpha_mode(), CompositeAlphaMode::Auto);
}

#[test]
fn configure_without_formats_is_fatal() {
    let caps = SurfaceCapabilities { formats: vec![], present_modes: vec![], alpha_modes: vec![] };
    assert_eq!(SurfaceConfig::configure(&caps, 1, 1).err(), Some(FatalError::NoSurfaceFormat));
    let caps = SurfaceCapabilities {
        formats: vec![],
        present_modes: vec![PresentMode::Fifo],
        alpha_modes: vec![CompositeAlphaMode::Opaque],
    };
    assert_eq!(SurfaceConfig::configure(&caps, 800, 600).err(), Some(FatalError::NoSurfaceFormat));
}

#[test]
fn default_alpha_mode_is_automatic() {
    assert_eq!(CompositeAlphaMode::default(), CompositeAlphaMode::Auto);
}

#[test]
fn reconfigure_stores_a_size_without_zero() {
    let mut config = SurfaceConfig::configure(&capabilities(), 800, 600).unwrap();
    assert!(config.reconfigure(1024, 768));
    assert_eq!((config.width(), config.height()), (1024, 768));
    assert!(config.reconfigure(1, u32::MAX));
    assert_eq!((config.width(), config.height()), (1, u32::MAX));
    assert_eq!(config.format(), TextureFormat::Bgra8UnormSrgb);
    assert_eq!(config.present_mode(), PresentMode::Mailbox);
    assert_eq!(config.alpha_mode(), CompositeAlphaMode::Opaque);
}

#[test]
fn reconfigure_ignores_a_zero_dimension() {
    let mut config = SurfaceConfig::configure(&capabilities(), 800, 600).unwrap();
    assert!(!config.reconfigure(0, 600));
    assert_eq!((config.width(), config.height()), (800, 600));
    assert!(!config.reconfigure(800, 0));
    assert_eq!((config.width(), config.height()), (800, 600));
    assert!(!config.reconfigure(0, 0));
    assert_eq!((config.width(), config.height()), (800, 600));
    assert_eq!(config.format(), TextureFormat::Bgra8UnormSrgb);
    assert_eq!(config.present_mode(), PresentMode::Mailbox);
    assert_eq!(config.alpha_mode(), CompositeAlphaMode::Opaque);
}

#[test]
fn reconfigure_twice_is_reconfigure_once() {
    let mut once = SurfaceConfig::configure(&capabilities(), 800, 600).unwrap();
    let mut twice = once;
    once.reconfigure(320, 200);
    twice.reconfigure(320, 200);
    twice.reconfigure(320, 200);
    assert_eq!((once.width(), once.height()), (twice.width(), twice.height()));
    assert_eq!((twice.width(), twice.height()), (320, 200));
}
