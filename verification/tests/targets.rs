use stereo3d::format::{
    make_transfer_flags, ColorFormat, Screen, Side, DEPTH16, DEPTH24, DEPTH24_STENCIL8,
    TRANSFER_FMT_RGBA8, TRANSFER_SCALE_XY,
};
use stereo3d::gpu::Gpu;
use stereo3d::renderer::{
    depth_type, RenderTarget, RendererError, BUF_HEIGHT, BUF_WIDTH, CMDBUF_SIZE,
    STEREO_TRANSFER_FLAGS,
};

#[test]
fn transfer_flags_stereo_value() {
    assert_eq!(
        make_transfer_flags(TRANSFER_FMT_RGBA8, TRANSFER_FMT_RGBA8, TRANSFER_SCALE_XY),
        0x0200_0000
    );
    assert_eq!(STEREO_TRANSFER_FLAGS, 0x0200_0000);
}

#[test]
fn transfer_flags_packs_fields() {
    assert_eq!(make_transfer_flags(0, 0, 0), 0);
    assert_eq!(make_transfer_flags(1, 2, 1), 0x0100_2100);
    assert_eq!(
        make_transfer_flags(7, 7, 3),
        7 * 0x100 + 7 * 0x1000 + 3 * 0x1000000
    );
}

#[test]
fn color_format_codes() {
    assert_eq!(ColorFormat::Rgba8.code(), 0);
    assert_eq!(ColorFormat::Bgr8.code(), 1);
    assert_eq!(ColorFormat::Rgb565.code(), 2);
    assert_eq!(ColorFormat::Rgb5A1.code(), 3);
    assert_eq!(ColorFormat::Rgba4.code(), 4);
}

#[test]
fn depth_type_narrowing() {
    assert_eq!(depth_type(DEPTH16), Ok(0));
    assert_eq!(depth_type(DEPTH24), Ok(2));
    assert_eq!(depth_type(DEPTH24_STENCIL8), Ok(3));
    assert_eq!(depth_type(i32::MAX as u32), Ok(i32::MAX));
    assert_eq!(
        depth_type(i32::MAX as u32 + 1),
        Err(RendererError::IntConversionError)
    );
    assert_eq!(depth_type(u32::MAX), Err(RendererError::IntConversionError));
}

#[test]
fn target_create_destroy_does_not_leak() {
    let mut gpu = Gpu::new();
    assert!(gpu.init_pipeline(CMDBUF_SIZE));
    let before: usize = gpu.live_surface_count();
    for _ in 0..100u32 {
        let t = RenderTarget::new(
            &mut gpu,
            BUF_WIDTH,
            BUF_HEIGHT,
            ColorFormat::Rgba8,
            DEPTH24_STENCIL8,
            STEREO_TRANSFER_FLAGS,
            Screen::Top,
            Side::Left,
        )
        .expect("creation succeeds");
        assert_eq!(gpu.live_surface_count(), before + 1);
        t.destroy(&mut gpu);
        assert_eq!(gpu.live_surface_count(), before);
    }
}

#[test]
fn target_created_cleared_and_bound() {
    let mut gpu = Gpu::new();
    assert!(gpu.init_pipeline(CMDBUF_SIZE));
    let t = RenderTarget::new(
        &mut gpu,
        480,
        800,
        ColorFormat::Bgr8,
        DEPTH24_STENCIL8,
        0x0200_0000,
        Screen::Top,
        Side::Right,
    )
    .expect("creation succeeds");
    assert_eq!(gpu.surface_clear_color(t.handle), Some(0));
    assert_eq!(
        gpu.surface_output(t.handle),
        Some((Screen::Top, Side::Right, 0x0200_0000))
    );
    t.destroy(&mut gpu);
    assert_eq!(gpu.surface_clear_color(t.handle), None);
    assert_eq!(gpu.surface_output(t.handle), None);
}

#[test]
fn target_bad_depth_code_is_refused() {
    let mut gpu = Gpu::new();
    assert!(gpu.init_pipeline(CMDBUF_SIZE));
    let before: usize = gpu.live_surface_count();
    let r = RenderTarget::new(
        &mut gpu,
        480,
        800,
        ColorFormat::Rgba8,
        u32::MAX,
        0,
        Screen::Top,
        Side::Left,
    );
    assert!(matches!(r, Err(RendererError::IntConversionError)));
    assert_eq!(gpu.live_surface_count(), before);
}

#[test]
fn target_clear_with_color_readback() {
    let mut gpu = Gpu::new();
    assert!(gpu.init_pipeline(CMDBUF_SIZE));
    let t = RenderTarget::new(
        &mut gpu,
        BUF_WIDTH,
        BUF_HEIGHT,
        ColorFormat::Rgba8,
        DEPTH24_STENCIL8,
        STEREO_TRANSFER_FLAGS,
        Screen::Top,
        Side::Left,
    )
    .expect("creation succeeds");
    t.clear_with_color(&mut gpu, 0x1234_5678);
    assert_eq!(gpu.surface_clear_color(t.handle), Some(0x1234_5678));
    t.clear(&mut gpu);
    assert_eq!(gpu.surface_clear_color(t.handle), Some(0));
    t.destroy(&mut gpu);
}
