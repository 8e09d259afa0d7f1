use korangar_gameplay::graphics::{
    contains_transparent_pixel, desired_maximum_frame_latency, Atlas, AtlasType, MarkerIdentifier, PresentMode,
    AcquireAction, FrameOutcome, PresentModeInfo, Surface, SurfaceConfiguration, SurfaceError, YOrigin,
};
use korangar_gameplay::settings::{
    GraphicsSettings, LimitFramerate, Msaa, RenderOptions, ScreenSpaceAntiAliasing, ShadowDetail, ShadowMethod,
    ShadowResolution, Ssaa, TextureSamplerType,
};

#[test]
fn shadow_resolutions_in_pixels() {
    assert_eq!(ShadowResolution::Normal.directional_shadow_resolution(), 2048);
    assert_eq!(ShadowResolution::Ultra.directional_shadow_resolution(), 3072);
    assert_eq!(ShadowResolution::Insane.directional_shadow_resolution(), 4096);
    assert_eq!(ShadowResolution::Normal.point_shadow_resolution(), 128);
    assert_eq!(ShadowResolution::Ultra.point_shadow_resolution(), 256);
    assert_eq!(ShadowResolution::Insane.point_shadow_resolution(), 512);
}

#[test]
fn sample_counts_and_back() {
    let all = [(Msaa::Off, 1), (Msaa::X2, 2), (Msaa::X4, 4), (Msaa::X8, 8), (Msaa::X16, 16)];
    for (setting, samples) in all {
        assert_eq!(setting.sample_count(), samples);
        assert_eq!(Msaa::from_sample_count(samples), setting);
        assert_eq!(Msaa::try_from_sample_count(samples), Some(setting));
        assert_eq!(setting.multisampling_activated(), samples > 1);
        assert_eq!(setting.value(), setting);
    }
    for unknown in [0, 3, 5, 6, 7, 9, 15, 17, 32, u32::MAX] {
        assert_eq!(Msaa::try_from_sample_count(unknown), None);
    }
}

#[test]
fn supersampling_is_active_unless_off() {
    assert!(!Ssaa::Off.supersampling_activated());
    assert!(Ssaa::X2.supersampling_activated());
    assert!(Ssaa::X3.supersampling_activated());
    assert!(Ssaa::X4.supersampling_activated());
    assert_eq!(Ssaa::Off.pixel_factor(), 1);
    assert_eq!(Ssaa::X2.pixel_factor(), 2);
    assert_eq!(Ssaa::X3.pixel_factor(), 3);
    assert_eq!(Ssaa::X4.pixel_factor(), 4);
}

#[test]
fn settings_have_their_names() {
    assert_eq!(LimitFramerate::Unlimited.text(), "Unlimited");
    assert_eq!(LimitFramerate::Limit(30).text(), "30 Hz");
    assert_eq!(LimitFramerate::Limit(60).text(), "60 Hz");
    assert_eq!(LimitFramerate::Limit(120).text(), "120 Hz");
    assert_eq!(LimitFramerate::Limit(144).text(), "144 Hz");
    assert_eq!(LimitFramerate::Limit(240).text(), "240 Hz");
    assert_eq!(LimitFramerate::Limit(60).value(), LimitFramerate::Limit(60));
    assert_eq!(TextureSamplerType::Nearest.text(), "Nearest");
    assert_eq!(TextureSamplerType::Linear.text(), "Linear");
    assert_eq!(TextureSamplerType::Anisotropic(4).text(), "Anisotropic x4");
    assert_eq!(TextureSamplerType::Anisotropic(8).text(), "Anisotropic x8");
    assert_eq!(TextureSamplerType::Anisotropic(16).text(), "Anisotropic x16");
    assert_eq!(TextureSamplerType::Linear.value(), TextureSamplerType::Linear);
    assert_eq!(ShadowResolution::Normal.text(), "Normal");
    assert_eq!(ShadowResolution::Ultra.text(), "Ultra");
    assert_eq!(ShadowResolution::Insane.text(), "Insane");
    assert_eq!(ShadowResolution::Ultra.value(), ShadowResolution::Ultra);
    assert_eq!(ShadowDetail::Low.text(), "Low");
    assert_eq!(ShadowDetail::Medium.text(), "Medium");
    assert_eq!(ShadowDetail::High.text(), "High");
    assert_eq!(ShadowDetail::Ultra.text(), "Ultra");
    assert_eq!(ShadowDetail::High.value(), ShadowDetail::High);
    assert_eq!(ShadowMethod::Hard.text(), "Hard");
    assert_eq!(ShadowMethod::SoftPCF.text(), "Soft (PCF)");
    assert_eq!(ShadowMethod::SoftPCSS.text(), "Soft (PCSS)");
    assert_eq!(ShadowMethod::SoftPCF.value(), ShadowMethod::SoftPCF);
    assert_eq!(Msaa::Off.text(), "Off");
    assert_eq!(Msaa::X2.text(), "x2");
    assert_eq!(Msaa::X4.text(), "x4");
    assert_eq!(Msaa::X8.text(), "x8");
    assert_eq!(Msaa::X16.text(), "x16");
    assert_eq!(Ssaa::Off.text(), "Off");
    assert_eq!(Ssaa::X2.text(), "x2");
    assert_eq!(Ssaa::X3.text(), "x3");
    assert_eq!(Ssaa::X4.text(), "x4");
    assert_eq!(Ssaa::X3.value(), Ssaa::X3);
    assert_eq!(ScreenSpaceAntiAliasing::Off.text(), "Off");
    assert_eq!(ScreenSpaceAntiAliasing::Fxaa.text(), "FXAA");
    assert_eq!(ScreenSpaceAntiAliasing::Fxaa.value(), ScreenSpaceAntiAliasing::Fxaa);
}

#[test]
fn settings_are_displayed_by_their_names() {
    assert_eq!(Msaa::X16.to_string(), "x16");
    assert_eq!(Msaa::Off.to_string(), "Off");
    assert_eq!(Ssaa::X3.to_string(), "x3");
    assert_eq!(ScreenSpaceAntiAliasing::Fxaa.to_string(), "FXAA");
}

#[test]
fn only_some_limits_and_levels_are_offered() {
    assert!(LimitFramerate::Unlimited.is_offered());
    for limit in [30, 60, 120, 144, 240] {
        assert!(LimitFramerate::Limit(limit).is_offered());
    }
    for limit in [0, 29, 31, 59, 75, 165, 241, u16::MAX] {
        assert!(!LimitFramerate::Limit(limit).is_offered());
    }
    assert!(TextureSamplerType::Nearest.is_offered());
    assert!(TextureSamplerType::Linear.is_offered());
    for level in [4, 8, 16] {
        assert!(TextureSamplerType::Anisotropic(level).is_offered());
    }
    for level in [0, 1, 2, 3, 5, 12, 32] {
        assert!(!TextureSamplerType::Anisotropic(level).is_offered());
    }
}

#[test]
fn shadow_settings_as_numbers_for_the_shaders() {
    assert_eq!(u32::from(ShadowDetail::Low), 1);
    assert_eq!(u32::from(ShadowDetail::Medium), 2);
    assert_eq!(u32::from(ShadowDetail::High), 3);
    assert_eq!(u32::from(ShadowDetail::Ultra), 4);
    assert_eq!(u32::from(ShadowMethod::Hard), 0);
    assert_eq!(u32::from(ShadowMethod::SoftPCF), 1);
    assert_eq!(u32::from(ShadowMethod::SoftPCSS), 2);
}

#[test]
fn debugging_starts_with_the_world_as_it_is() {
    let options = RenderOptions::new();
    assert!(!options.show_frames_per_second);
    assert!(options.frustum_culling);
    assert!(!options.show_bounding_boxes);
    assert!(options.show_map);
    assert!(options.show_objects);
    assert!(options.show_entities);
    assert!(!options.show_entities_paper);
    assert!(!options.show_entities_debug);
    assert!(options.show_water);
    assert!(options.show_indicators);
    assert!(options.enable_ambient_lighting);
    assert!(options.enable_directional_lighting);
    assert!(options.enable_point_lights);
    assert!(options.enable_particle_lighting);
    assert!(!options.use_debug_camera);
    assert!(!options.show_wireframe);
    assert!(!options.show_object_markers);
    assert!(!options.show_light_markers);
    assert!(!options.show_sound_markers);
    assert!(!options.show_effect_markers);
    assert!(!options.show_particle_markers);
    assert!(!options.show_entity_markers);
    assert!(!options.show_shadow_markers);
    assert!(!options.show_map_tiles);
    assert!(!options.show_pathing);
    assert!(!options.show_picker_buffer);
    assert_eq!(options.show_directional_shadow_map, None);
    assert_eq!(options.show_point_shadow_map, None);
    assert!(!options.show_light_culling_count_buffer);
    assert!(!options.show_font_map);
    assert!(!options.show_sdsm_partitions);
    assert!(!options.show_rectangle_instructions);
    assert!(!options.show_glyph_instructions);
    assert!(!options.show_sprite_instructions);
    assert!(!options.show_sdf_instructions);
    assert!(!options.show_buffers());
    assert!(!RenderOptions::default().show_map);
    assert!(!RenderOptions::default().show_buffers());
}

#[test]
fn any_buffer_view_shows_buffers() {
    let plain = RenderOptions::new();
    assert!(RenderOptions { show_picker_buffer: true, ..plain }.show_buffers());
    assert!(RenderOptions { show_directional_shadow_map: Some(1), ..plain }.show_buffers());
    assert!(RenderOptions { show_point_shadow_map: Some(3), ..plain }.show_buffers());
    assert!(RenderOptions { show_light_culling_count_buffer: true, ..plain }.show_buffers());
    assert!(RenderOptions { show_sdsm_partitions: true, ..plain }.show_buffers());
    assert!(RenderOptions { show_font_map: true, ..plain }.show_buffers());
    assert!(!RenderOptions { show_wireframe: true, show_pathing: true, show_sdf_instructions: true, ..plain }.show_buffers());
}

#[test]
fn graphics_settings_fall_back_to_the_initial_ones() {
    let initial = GraphicsSettings {
        vsync: true,
        limit_framerate: LimitFramerate::Unlimited,
        triple_buffering: true,
        texture_filtering: TextureSamplerType::Anisotropic(4),
        msaa: Msaa::X4,
        ssaa: Ssaa::Off,
        screen_space_anti_aliasing: ScreenSpaceAntiAliasing::Off,
        shadow_detail: ShadowDetail::High,
        high_quality_interface: true,
    };
    assert_eq!(GraphicsSettings::default(), initial);
    assert_eq!(GraphicsSettings::from_stored(None), initial);
    let stored = GraphicsSettings { vsync: false, msaa: Msaa::Off, limit_framerate: LimitFramerate::Limit(75), ..initial };
    assert_eq!(GraphicsSettings::from_stored(Some(stored)), stored);
    assert!(initial.is_offered());
    assert!(!stored.is_offered());
}

#[test]
fn present_modes_that_are_supported() {
    assert_eq!(
        PresentModeInfo::from_adapter(&[]),
        PresentModeInfo { supports_mailbox: false, supports_immediate: false }
    );
    assert_eq!(
        PresentModeInfo::from_adapter(&[PresentMode::Fifo, PresentMode::FifoRelaxed, PresentMode::AutoVsync]),
        PresentModeInfo { supports_mailbox: false, supports_immediate: false }
    );
    assert_eq!(
        PresentModeInfo::from_adapter(&[PresentMode::Fifo, PresentMode::Mailbox]),
        PresentModeInfo { supports_mailbox: true, supports_immediate: false }
    );
    assert_eq!(
        PresentModeInfo::from_adapter(&[PresentMode::Immediate, PresentMode::Fifo, PresentMode::Immediate]),
        PresentModeInfo { supports_mailbox: false, supports_immediate: true }
    );
    assert_eq!(
        PresentModeInfo::from_adapter(&[PresentMode::Immediate, PresentMode::Mailbox, PresentMode::AutoNoVsync]),
        PresentModeInfo { supports_mailbox: true, supports_immediate: true }
    );
}

#[test]
fn frames_are_presented_in_the_fastest_mode_without_vsync() {
    let info = |supports_mailbox, supports_immediate| PresentModeInfo { supports_mailbox, supports_immediate };
    for mailbox in [false, true] {
        for immediate in [false, true] {
            assert_eq!(info(mailbox, immediate).present_mode(true), PresentMode::Fifo);
        }
    }
    assert_eq!(info(true, true).present_mode(false), PresentMode::Mailbox);
    assert_eq!(info(true, false).present_mode(false), PresentMode::Mailbox);
    assert_eq!(info(false, true).present_mode(false), PresentMode::Immediate);
    assert_eq!(info(false, false).present_mode(false), PresentMode::Fifo);
    assert_eq!(desired_maximum_frame_latency(true), 2);
    assert_eq!(desired_maximum_frame_latency(false), 1);
}

#[test]
fn pixels_are_transparent_between_0_and_255() {
    assert!(!contains_transparent_pixel(&[]));
    assert!(!contains_transparent_pixel(&[1, 2, 3, 0]));
    assert!(!contains_transparent_pixel(&[1, 2, 3, 255]));
    assert!(contains_transparent_pixel(&[1, 2, 3, 1]));
    assert!(contains_transparent_pixel(&[1, 2, 3, 254]));
    assert!(contains_transparent_pixel(&[1, 2, 3, 128]));
    assert!(!contains_transparent_pixel(&[7, 7, 7, 0, 9, 9, 9, 255]));
    assert!(contains_transparent_pixel(&[7, 7, 7, 0, 9, 9, 9, 255, 1, 1, 1, 100]));
    // Only the alpha values count.
    assert!(!contains_transparent_pixel(&[100, 100, 100, 255, 100, 100, 100, 0]));
    // Bytes that do not make up a pixel are not looked at.
    assert!(!contains_transparent_pixel(&[1, 2, 3]));
    assert!(!contains_transparent_pixel(&[1, 2, 3, 255, 9, 9, 9]));
    assert!(!contains_transparent_pixel(&[1, 2, 3, 255, 100]));
}

#[test]
fn only_one_kind_of_atlas_is_usable() {
    let atlas = Atlas {
        atlas_type: AtlasType::Msdf,
        distance_range: 8,
        distance_range_middle: 0,
        size: 32,
        width: 512,
        height: 512,
        y_origin: YOrigin::Bottom,
    };
    assert!(atlas.is_usable());
    assert!(Atlas { y_origin: YOrigin::Top, width: 1, ..atlas }.is_usable());
    assert!(!Atlas { distance_range: 4, ..atlas }.is_usable());
    assert!(!Atlas { distance_range_middle: 1, ..atlas }.is_usable());
}

#[test]
fn markers_are_told_apart_by_what_they_mark() {
    assert_eq!(MarkerIdentifier::Object(1), MarkerIdentifier::Object(1));
    assert_ne!(MarkerIdentifier::Object(1), MarkerIdentifier::Entity(1));
    assert_ne!(MarkerIdentifier::Particle(1, 2), MarkerIdentifier::Particle(2, 1));
    assert_ne!(MarkerIdentifier::LightSource(1), MarkerIdentifier::SoundSource(1));
    assert_ne!(MarkerIdentifier::EffectSource(1), MarkerIdentifier::Shadow(1));
}

fn everything_supported() -> PresentModeInfo {
    PresentModeInfo { supports_mailbox: true, supports_immediate: true }
}

#[test]
fn a_new_surface_is_valid_and_at_least_one_pixel_wide() {
    let surface = Surface::new(everything_supported(), 1920, 1080, true, true);
    assert!(!surface.is_invalid());
    assert_eq!(
        surface.configuration(),
        SurfaceConfiguration { width: 1920, height: 1080, present_mode: PresentMode::Fifo, desired_maximum_frame_latency: 2 }
    );
    assert_eq!(surface.window_size(), (1920, 1080));
    assert_eq!(surface.present_mode_info(), everything_supported());

    let surface = Surface::new(everything_supported(), 0, 0, false, false);
    assert_eq!(
        surface.configuration(),
        SurfaceConfiguration { width: 1, height: 1, present_mode: PresentMode::Mailbox, desired_maximum_frame_latency: 1 }
    );
    let surface = Surface::new(PresentModeInfo { supports_mailbox: false, supports_immediate: true }, 0, 7, false, false);
    assert_eq!(surface.window_size(), (1, 7));
    assert_eq!(surface.configuration().present_mode, PresentMode::Immediate);
}

#[test]
fn a_surface_is_invalid_until_it_is_reconfigured() {
    let mut surface = Surface::new(everything_supported(), 800, 600, true, true);

    surface.set_triple_buffering(false);
    assert!(!surface.is_invalid());
    assert_eq!(surface.configuration().desired_maximum_frame_latency, 1);
    surface.set_triple_buffering(true);
    assert_eq!(surface.configuration().desired_maximum_frame_latency, 2);

    surface.set_vsync(false);
    assert!(surface.is_invalid());
    assert_eq!(surface.configuration().present_mode, PresentMode::Mailbox);
    let applied = surface.reconfigure();
    assert_eq!(
        applied,
        SurfaceConfiguration { width: 800, height: 600, present_mode: PresentMode::Mailbox, desired_maximum_frame_latency: 2 }
    );
    assert!(!surface.is_invalid());

    surface.update_window_size(1024, 0);
    assert!(surface.is_invalid());
    assert_eq!(surface.window_size(), (1024, 0));
    surface.reconfigure();

    surface.invalidate();
    assert!(surface.is_invalid());
    surface.invalidate();
    assert!(surface.is_invalid());
    assert_eq!(surface.reconfigure(), surface.configuration());
    assert!(!surface.is_invalid());

    surface.set_vsync(true);
    assert_eq!(surface.configuration().present_mode, PresentMode::Fifo);
}

#[test]
fn a_frame_that_fits_badly_invalidates_the_surface() {
    let mut surface = Surface::new(everything_supported(), 800, 600, true, true);
    assert_eq!(surface.acquire(FrameOutcome::Acquired { suboptimal: false }), AcquireAction::Render);
    assert!(!surface.is_invalid());
    assert_eq!(surface.acquire(FrameOutcome::Acquired { suboptimal: true }), AcquireAction::Render);
    assert!(surface.is_invalid());
    assert_eq!(surface.acquire(FrameOutcome::Acquired { suboptimal: false }), AcquireAction::Render);
    assert!(surface.is_invalid());
}

#[test]
fn only_a_timeout_is_retried_without_reconfiguring() {
    let mut surface = Surface::new(everything_supported(), 800, 600, true, true);
    assert_eq!(surface.acquire(FrameOutcome::Failed(SurfaceError::Timeout)), AcquireAction::Retry);
    for error in [SurfaceError::Outdated, SurfaceError::Lost, SurfaceError::OutOfMemory, SurfaceError::Other] {
        assert_eq!(surface.acquire(FrameOutcome::Failed(error)), AcquireAction::ReconfigureAndRetry);
    }
    assert!(!surface.is_invalid());
    surface.invalidate();
    assert_eq!(surface.acquire(FrameOutcome::Failed(SurfaceError::Lost)), AcquireAction::ReconfigureAndRetry);
    assert!(surface.is_invalid());
}
