use stereo3d::format::{ColorFormat, Screen, Side, DEPTH24_STENCIL8};
use stereo3d::gpu::Gpu;
use stereo3d::renderer::{
    GPURenderer3D, RendererError, StereoDisplay, STEREO_TRANSFER_FLAGS,
};

#[test]
fn split_formats_reads_per_eye() {
    let d = StereoDisplay::new(ColorFormat::Rgba8, ColorFormat::Bgr8);
    assert_eq!(
        d.split_formats(),
        Ok((ColorFormat::Rgba8, ColorFormat::Bgr8))
    );
    let held = StereoDisplay { readable: false, ..d };
    assert!(matches!(
        held.split_formats(),
        Err(RendererError::ScreenError)
    ));
}

#[test]
fn construction_creates_two_bound_targets() {
    let mut gpu = Gpu::new();
    let d = StereoDisplay::new(ColorFormat::Rgba8, ColorFormat::Bgr8);
    let m = GPURenderer3D::new(&mut gpu, &d).expect("construction succeeds");
    assert!(gpu.pipeline_is_active());
    assert_eq!(gpu.live_surface_count(), 2);
    assert_eq!(
        gpu.surface_output(m.left_target.handle),
        Some((Screen::Top, Side::Left, STEREO_TRANSFER_FLAGS))
    );
    assert_eq!(
        gpu.surface_output(m.right_target.handle),
        Some((Screen::Top, Side::Right, STEREO_TRANSFER_FLAGS))
    );
    assert_eq!(gpu.surface_clear_color(m.left_target.handle), Some(0));
    assert_eq!(gpu.surface_clear_color(m.right_target.handle), Some(0));
    m.destroy(&mut gpu);
}

#[test]
fn singleton_exclusive_second_construction_fails() {
    let mut gpu = Gpu::new();
    let d = StereoDisplay::new(ColorFormat::Rgba8, ColorFormat::Rgba8);
    let m1 = GPURenderer3D::new(&mut gpu, &d).expect("first construction succeeds");
    let r2 = GPURenderer3D::new(&mut gpu, &d);
    assert!(matches!(r2, Err(RendererError::Citro3DInit)));
    assert_eq!(gpu.live_surface_count(), 2);
    m1.destroy(&mut gpu);
    let m3 = GPURenderer3D::new(&mut gpu, &d).expect("construction after teardown succeeds");
    m3.destroy(&mut gpu);
}

#[test]
fn right_target_failure_releases_left() {
    let mut gpu = Gpu::new();
    let d = StereoDisplay::new(ColorFormat::Rgba8, ColorFormat::Bgr8);
    let before: usize = gpu.live_surface_count();
    let r = GPURenderer3D::new_with_depth_formats(&mut gpu, &d, DEPTH24_STENCIL8, u32::MAX);
    assert!(matches!(r, Err(RendererError::IntConversionError)));
    assert_eq!(gpu.live_surface_count(), before);
    assert!(!gpu.pipeline_is_active());
    let m = GPURenderer3D::new(&mut gpu, &d).expect("construction succeeds after failed attempt");
    m.destroy(&mut gpu);
}

#[test]
fn left_target_failure_leaves_state_untouched() {
    let mut gpu = Gpu::new();
    let d = StereoDisplay::new(ColorFormat::Rgba8, ColorFormat::Bgr8);
    let r = GPURenderer3D::new_with_depth_formats(&mut gpu, &d, u32::MAX, DEPTH24_STENCIL8);
    assert!(matches!(r, Err(RendererError::IntConversionError)));
    assert_eq!(gpu.live_surface_count(), 0);
    assert!(!gpu.pipeline_is_active());
}

#[test]
fn unreadable_display_reports_screen_error() {
    let mut gpu = Gpu::new();
    let d = StereoDisplay {
        left_format: ColorFormat::Rgba8,
        right_format: ColorFormat::Rgba8,
        readable: false,
    };
    let r = GPURenderer3D::new(&mut gpu, &d);
    assert!(matches!(r, Err(RendererError::ScreenError)));
    assert!(!gpu.pipeline_is_active());
    assert_eq!(gpu.live_surface_count(), 0);
}

#[test]
fn empty_frame_bracket_round_trip() {
    let mut gpu = Gpu::new();
    let d = StereoDisplay::new(ColorFormat::Rgba8, ColorFormat::Rgba8);
    let m = GPURenderer3D::new(&mut gpu, &d).expect("construction succeeds");
    m.begin_frame(&mut gpu);
    assert!(gpu.frame_is_open());
    m.end_frame(&mut gpu);
    assert!(!gpu.frame_is_open());
    m.begin_frame(&mut gpu);
    m.end_frame(&mut gpu);
    m.destroy(&mut gpu);
}

#[test]
fn clear_all_targets_readback() {
    let mut gpu = Gpu::new();
    let d = StereoDisplay::new(ColorFormat::Rgba8, ColorFormat::Rgba8);
    let m = GPURenderer3D::new(&mut gpu, &d).expect("construction succeeds");
    m.clear_all_targets_with_color(&mut gpu, 0xFF00_00FF);
    assert_eq!(
        gpu.surface_clear_color(m.left_target.handle),
        Some(0xFF00_00FF)
    );
    assert_eq!(
        gpu.surface_clear_color(m.right_target.handle),
        Some(0xFF00_00FF)
    );
    m.clear_all_targets(&mut gpu);
    assert_eq!(gpu.surface_clear_color(m.left_target.handle), Some(0));
    assert_eq!(gpu.surface_clear_color(m.right_target.handle), Some(0));
    m.destroy(&mut gpu);
}

#[test]
fn construct_destroy_construct_round_trip() {
    let mut gpu = Gpu::new();
    let d = StereoDisplay::new(ColorFormat::Rgba8, ColorFormat::Bgr8);
    let m1 = GPURenderer3D::new(&mut gpu, &d).expect("first construction succeeds");
    let left1: usize = m1.left_target.handle;
    m1.destroy(&mut gpu);
    assert!(!gpu.pipeline_is_active());
    assert_eq!(gpu.live_surface_count(), 0);
    let m2 = GPURenderer3D::new(&mut gpu, &d).expect("reconstruction succeeds");
    assert!(gpu.pipeline_is_active());
    assert_eq!(gpu.live_surface_count(), 2);
    assert_eq!(
        gpu.surface_output(m2.left_target.handle),
        Some((Screen::Top, Side::Left, STEREO_TRANSFER_FLAGS))
    );
    assert_eq!(
        gpu.surface_output(m2.right_target.handle),
        Some((Screen::Top, Side::Right, STEREO_TRANSFER_FLAGS))
    );
    assert_eq!(gpu.surface_clear_color(m2.left_target.handle), Some(0));
    assert_ne!(m2.left_target.handle, left1);
    m2.destroy(&mut gpu);
}

#[test]
fn ordering_violations_reported() {
    let mut gpu = Gpu::new();
    let d = StereoDisplay::new(ColorFormat::Rgba8, ColorFormat::Rgba8);
    let m = GPURenderer3D::new(&mut gpu, &d).expect("construction succeeds");
    assert!(!m.left_target.try_select(&mut gpu));
    assert!(!m.try_end_frame(&mut gpu));
    assert!(m.try_begin_frame(&mut gpu));
    assert!(!m.try_begin_frame(&mut gpu));
    assert!(m.left_target.try_select(&mut gpu));
    assert_eq!(gpu.selected_surface(), Some(m.left_target.handle));
    assert!(m.try_end_frame(&mut gpu));
    assert!(!m.try_end_frame(&mut gpu));
    assert_eq!(gpu.selected_surface(), None);
    m.destroy(&mut gpu);
}

#[test]
fn select_switches_draw_destination() {
    let mut gpu = Gpu::new();
    let d = StereoDisplay::new(ColorFormat::Rgba8, ColorFormat::Rgba8);
    let m = GPURenderer3D::new(&mut gpu, &d).expect("construction succeeds");
    m.begin_frame(&mut gpu);
    m.left_target.select(&mut gpu);
    assert_eq!(gpu.selected_surface(), Some(m.left_target.handle));
    m.right_target.select(&mut gpu);
    assert_eq!(gpu.selected_surface(), Some(m.right_target.handle));
    m.end_frame(&mut gpu);
    assert_eq!(gpu.selected_surface(), None);
    m.destroy(&mut gpu);
}
