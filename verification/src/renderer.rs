//! Render targets and the stereo frame lifecycle manager.
//!
//! A [`RenderTarget`] owns one GPU surface, created with explicit
//! geometry, format, and depth parameters, cleared on creation, and
//! bound once to a (screen, eye) output channel. A [`GPURenderer3D`]
//! owns the one-time pipeline bring-up and teardown together with the
//! two eye targets, and brackets each frame's command submission.

use vstd::prelude::*;

use crate::format::{
    ColorFormat, Screen, Side, make_transfer_flags, DEPTH24_STENCIL8, TRANSFER_FMT_RGBA8,
    TRANSFER_SCALE_XY,
};
use crate::gpu::{
    cleared_to, count_alive, same_session, after_begin, after_end, Gpu, Surface,
};

verus! {

/// Width in pixels of each eye target (twice the panel width, for the
/// 2x anti-aliasing downscale on transfer).
pub const BUF_WIDTH: i32 = 240 * 2;

/// Height in pixels of each eye target (twice the panel height, for the
/// 2x anti-aliasing downscale on transfer).
pub const BUF_HEIGHT: i32 = 400 * 2;

/// Command-buffer size the pipeline is brought up with.
pub const CMDBUF_SIZE: usize = 0x40000;

/// Transfer flags shared by both eye targets: RGBA8 in, RGBA8 out,
/// 2x anti-aliasing scale.
pub const STEREO_TRANSFER_FLAGS: u32 = TRANSFER_FMT_RGBA8 * 0x100 + TRANSFER_FMT_RGBA8 * 0x1000
    + TRANSFER_SCALE_XY * 0x1000000;

/// Failures the renderer reports.
#[derive(Clone, Copy, Debug, PartialEq, Eq, Structural)]
pub enum RendererError {
    /// A failure with no more specific classification.
    Unknown,
    /// The GPU command pipeline refused to initialize — in particular,
    /// when a pipeline client is already live (the pipeline is a
    /// process-wide singleton).
    Citro3DInit,
    /// The display service could not grant the shared read needed to
    /// query per-eye formats.
    ScreenError,
    /// The display service could not grant an exclusive handle.
    ScreenMutError,
    /// A platform constant did not fit the field the pipeline expects;
    /// the conversion is refused rather than silently truncated.
    IntConversionError,
}

/// Narrows a platform depth-buffer code into the signed field the
/// pipeline stores depth types in. Fails with a typed error instead of
/// truncating when the code does not fit.
pub fn depth_type(raw: u32) -> (r: Result<i32, RendererError>)
    ensures
        raw <= i32::MAX as u32 ==> r == Ok::<i32, RendererError>(raw as i32),
        raw > i32::MAX as u32 ==> r == Err::<i32, RendererError>(RendererError::IntConversionError),
{
    if raw <= i32::MAX as u32 {
        Ok(raw as i32)
    } else {
        Err(RendererError::IntConversionError)
    }
}

/// What the manager reads from the stereo display service: the native
/// color format of each eye's panel, and whether the shared handle can
/// currently be borrowed for that read. The manager copies the format
/// values out during construction and retains no access afterwards.
pub struct StereoDisplay {
    /// Native format of the left eye's panel.
    pub left_format: ColorFormat,
    /// Native format of the right eye's panel.
    pub right_format: ColorFormat,
    /// Whether the shared handle can currently be read; false while
    /// something else holds a conflicting borrow.
    pub readable: bool,
}

impl StereoDisplay {
    /// A display whose per-eye formats can be read.
    pub fn new(left_format: ColorFormat, right_format: ColorFormat) -> (d: StereoDisplay)
        ensures
            d.left_format == left_format,
            d.right_format == right_format,
            d.readable,
    {
        StereoDisplay { left_format, right_format, readable: true }
    }

    /// The native color formats of the two eye panels, queried per eye —
    /// the panels may differ in byte order even though geometry matches.
    /// Fails while the shared handle is held elsewhere; the caller may
    /// retry once the conflicting access is released.
    pub fn split_formats(&self) -> (r: Result<(ColorFormat, ColorFormat), RendererError>)
        ensures
            self.readable ==> r == Ok::<(ColorFormat, ColorFormat), RendererError>(
                (self.left_format, self.right_format),
            ),
            !self.readable ==> r == Err::<(ColorFormat, ColorFormat), RendererError>(
                RendererError::ScreenError,
            ),
    {
        if self.readable {
            Ok((self.left_format, self.right_format))
        } else {
            Err(RendererError::ScreenError)
        }
    }
}

/// The surface a newly created render target owns: allocated, cleared to
/// color 0 and depth 0, and bound to its display output.
pub open spec fn target_surface(
    width: i32,
    height: i32,
    format: ColorFormat,
    depth_code: i32,
    flags: u32,
    screen: Screen,
    side: Side,
) -> Surface {
    Surface {
        alive: true,
        width,
        height,
        color_code: format.spec_code(),
        depth_code,
        cleared: true,
        clear_color: 0,
        clear_depth: 0,
        bound: true,
        screen,
        side,
        flags,
    }
}

/// One renderable surface bound to one physical output and eye channel.
/// The handle identifies the surface inside the owning [`Gpu`] value.
#[derive(Clone, Copy, Debug, PartialEq, Eq, Structural)]
pub struct RenderTarget {
    /// Handle of the surface inside the pipeline.
    pub handle: usize,
}

impl RenderTarget {
    /// The target's surface is still allocated in this pipeline state.
    pub open spec fn valid(self, gpu: Gpu) -> bool {
        self.handle < gpu.surfaces@.len() && gpu.surfaces@[self.handle as int].alive
    }

    /// The target's surface in this pipeline state.
    pub open spec fn surface(self, gpu: Gpu) -> Surface {
        gpu.surfaces@[self.handle as int]
    }

    /// Creates a surface with the given geometry, color format, platform
    /// depth-buffer code, and transfer flags; immediately clears it to
    /// color 0 and depth 0 so no garbage frame can ever be presented; and
    /// immediately binds it to the given (screen, eye) output channel.
    /// The depth code is narrowed by [`depth_type`]: a code that does not
    /// fit fails the whole creation with a typed error and leaves the
    /// pipeline untouched.
    pub fn new(
        gpu: &mut Gpu,
        width: i32,
        height: i32,
        format: ColorFormat,
        depth: u32,
        flags: u32,
        screen: Screen,
        side: Side,
    ) -> (r: Result<RenderTarget, RendererError>)
        requires
            old(gpu).wf(),
            old(gpu).pipeline_active,
            width > 0,
            height > 0,
        ensures
            final(gpu).wf(),
            same_session(*old(gpu), *final(gpu)),
            depth > i32::MAX as u32 ==> r == Err::<RenderTarget, RendererError>(
                RendererError::IntConversionError,
            ) && *final(gpu) == *old(gpu),
            depth <= i32::MAX as u32 ==> {
                &&& r matches Ok(t) && t.handle == old(gpu).surfaces@.len()
                &&& final(gpu).surfaces@ == old(gpu).surfaces@.push(
                    target_surface(width, height, format, depth as i32, flags, screen, side),
                )
                &&& final(gpu).live == old(gpu).live + 1
            },
    {
        let depth_code = match depth_type(depth) {
            Ok(c) => c,
            Err(e) => {
                return Err(e);
            },
        };
        let h = gpu.create_surface(width, height, format.code(), depth_code);
        gpu.clear_surface(h, 0, 0);
        gpu.set_output(h, screen, side, flags);
        proof {
            assert(gpu.surfaces@ =~= old(gpu).surfaces@.push(
                target_surface(width, height, format, depth as i32, flags, screen, side),
            ));
        }
        Ok(RenderTarget { handle: h })
    }

    /// Clears this target's color and depth planes to 0 — the
    /// constructor's clear, available again at any time.
    pub fn clear(&self, gpu: &mut Gpu)
        requires
            old(gpu).wf(),
            old(gpu).pipeline_active,
            self.valid(*old(gpu)),
        ensures
            final(gpu).wf(),
            same_session(*old(gpu), *final(gpu)),
            final(gpu).surfaces@ == old(gpu).surfaces@.update(
                self.handle as int,
                cleared_to(self.surface(*old(gpu)), 0, 0),
            ),
            final(gpu).live == old(gpu).live,
    {
        gpu.clear_surface(self.handle, 0, 0);
    }

    /// Clears this target's color plane to the given color and its depth
    /// plane to 0.
    pub fn clear_with_color(&self, gpu: &mut Gpu, color: u32)
        requires
            old(gpu).wf(),
            old(gpu).pipeline_active,
            self.valid(*old(gpu)),
        ensures
            final(gpu).wf(),
            same_session(*old(gpu), *final(gpu)),
            final(gpu).surfaces@ == old(gpu).surfaces@.update(
                self.handle as int,
                cleared_to(self.surface(*old(gpu)), color, 0),
            ),
            final(gpu).live == old(gpu).live,
    {
        gpu.clear_surface(self.handle, color, 0);
    }

    /// Makes this target the draw destination for commands submitted
    /// until the next selection or the end of the frame. The pipeline has
    /// a single draw destination, so a previous selection is implicitly
    /// dropped. Valid only inside an open frame bracket; calling it
    /// outside one is a caller-ordering violation and is excluded by
    /// precondition.
    pub fn select(&self, gpu: &mut Gpu)
        requires
            old(gpu).wf(),
            old(gpu).pipeline_active,
            old(gpu).frame_open,
            self.valid(*old(gpu)),
        ensures
            final(gpu).wf(),
            *final(gpu) == (Gpu { selected: Some(self.handle), ..*old(gpu) }),
    {
        gpu.frame_draw_on(self.handle);
    }

    /// Runtime-checked selection: performs the selection only when a
    /// frame bracket is open, and otherwise reports the ordering
    /// violation by returning false and leaving the pipeline untouched.
    pub fn try_select(&self, gpu: &mut Gpu) -> (r: bool)
        requires
            old(gpu).wf(),
            old(gpu).pipeline_active,
            self.valid(*old(gpu)),
        ensures
            final(gpu).wf(),
            r == old(gpu).frame_open,
            r ==> *final(gpu) == (Gpu { selected: Some(self.handle), ..*old(gpu) }),
            !r ==> *final(gpu) == *old(gpu),
    {
        if gpu.frame_is_open() {
            gpu.frame_draw_on(self.handle);
            true
        } else {
            false
        }
    }

    /// Releases the target's surface. Valid only outside a frame
    /// bracket.
    pub fn destroy(self, gpu: &mut Gpu)
        requires
            old(gpu).wf(),
            old(gpu).pipeline_active,
            !old(gpu).frame_open,
            self.valid(*old(gpu)),
        ensures
            final(gpu).wf(),
            same_session(*old(gpu), *final(gpu)),
            final(gpu).surfaces@ == old(gpu).surfaces@.update(
                self.handle as int,
                (Surface { alive: false, ..old(gpu).surfaces@[self.handle as int] }),
            ),
            final(gpu).live == old(gpu).live - 1,
    {
        gpu.destroy_surface(self.handle);
    }
}

/// When a manager construction succeeds: the display grants the format
/// read, no pipeline client is live, and both platform depth codes fit
/// the pipeline's depth field.
pub open spec fn construction_succeeds(
    gpu: Gpu,
    display: StereoDisplay,
    left_depth: u32,
    right_depth: u32,
) -> bool {
    &&& display.readable
    &&& !gpu.pipeline_active
    &&& left_depth <= i32::MAX as u32
    &&& right_depth <= i32::MAX as u32
}

/// The stereo dual-target frame lifecycle manager: owns the one-time
/// pipeline bring-up and teardown together with the two eye targets, and
/// brackets each frame's command submission.
pub struct GPURenderer3D {
    /// Target bound to the left eye channel of the top screen.
    pub left_target: RenderTarget,
    /// Target bound to the right eye channel of the top screen.
    pub right_target: RenderTarget,
}

impl GPURenderer3D {
    /// The manager's invariant over a pipeline state: the pipeline is
    /// up, its only two live surfaces are the manager's eye targets, and
    /// both targets are bound to the top screen — left and right eye
    /// respectively — with identical geometry and transfer flags.
    pub open spec fn valid(self, gpu: Gpu) -> bool {
        &&& gpu.pipeline_active
        &&& self.left_target.valid(gpu)
        &&& self.right_target.valid(gpu)
        &&& self.left_target.handle != self.right_target.handle
        &&& count_alive(gpu.surfaces@) == 2
        &&& self.left_target.surface(gpu).bound
        &&& self.right_target.surface(gpu).bound
        &&& self.left_target.surface(gpu).screen == Screen::Top
        &&& self.right_target.surface(gpu).screen == Screen::Top
        &&& self.left_target.surface(gpu).side == Side::Left
        &&& self.right_target.surface(gpu).side == Side::Right
        &&& self.left_target.surface(gpu).width == self.right_target.surface(gpu).width
        &&& self.left_target.surface(gpu).height == self.right_target.surface(gpu).height
        &&& self.left_target.surface(gpu).flags == self.right_target.surface(gpu).flags
    }

    /// Constructs the manager with explicit per-eye platform depth-buffer
    /// codes. The construction sequence is: read the per-eye native
    /// formats from the display; bring up the pipeline singleton; create,
    /// clear, and bind the left then the right eye target. Each failure
    /// undoes every step already taken — in particular, when the right
    /// target's depth code is refused after the left target was created,
    /// the left target is released and the pipeline finalized before the
    /// error is returned, so the live-surface count returns to its
    /// pre-construction value.
    pub fn new_with_depth_formats(
        gpu: &mut Gpu,
        display: &StereoDisplay,
        left_depth: u32,
        right_depth: u32,
    ) -> (r: Result<GPURenderer3D, RendererError>)
        requires
            old(gpu).wf(),
        ensures
            final(gpu).wf(),
            r is Ok <==> construction_succeeds(*old(gpu), *display, left_depth, right_depth),
            !display.readable ==> r == Err::<GPURenderer3D, RendererError>(
                RendererError::ScreenError,
            ) && *final(gpu) == *old(gpu),
            display.readable && old(gpu).pipeline_active ==> r == Err::<
                GPURenderer3D,
                RendererError,
            >(RendererError::Citro3DInit) && *final(gpu) == *old(gpu),
            display.readable && !old(gpu).pipeline_active && left_depth > i32::MAX as u32
                ==> r == Err::<GPURenderer3D, RendererError>(RendererError::IntConversionError)
                    && *final(gpu) == *old(gpu),
            display.readable && !old(gpu).pipeline_active && left_depth <= i32::MAX as u32
                && right_depth > i32::MAX as u32 ==> {
                &&& r == Err::<GPURenderer3D, RendererError>(RendererError::IntConversionError)
                &&& !final(gpu).pipeline_active
                &&& final(gpu).frame_open == old(gpu).frame_open
                &&& final(gpu).selected == old(gpu).selected
                &&& final(gpu).live == old(gpu).live
                &&& final(gpu).surfaces@ == old(gpu).surfaces@.push(
                    (Surface {
                        alive: false,
                        ..target_surface(
                            BUF_WIDTH,
                            BUF_HEIGHT,
                            display.left_format,
                            left_depth as i32,
                            STEREO_TRANSFER_FLAGS,
                            Screen::Top,
                            Side::Left,
                        )
                    }),
                )
            },
            construction_succeeds(*old(gpu), *display, left_depth, right_depth) ==> {
                &&& r matches Ok(m) && m.valid(*final(gpu))
                    && m.left_target.handle == old(gpu).surfaces@.len()
                    && m.right_target.handle == old(gpu).surfaces@.len() + 1
                &&& final(gpu).pipeline_active
                &&& !final(gpu).frame_open
                &&& final(gpu).selected is None
                &&& final(gpu).surfaces@ == old(gpu).surfaces@.push(
                    target_surface(
                        BUF_WIDTH,
                        BUF_HEIGHT,
                        display.left_format,
                        left_depth as i32,
                        STEREO_TRANSFER_FLAGS,
                        Screen::Top,
                        Side::Left,
                    ),
                ).push(
                    target_surface(
                        BUF_WIDTH,
                        BUF_HEIGHT,
                        display.right_format,
                        right_depth as i32,
                        STEREO_TRANSFER_FLAGS,
                        Screen::Top,
                        Side::Right,
                    ),
                )
                &&& final(gpu).live == old(gpu).live + 2
            },
    {
        let formats = match display.split_formats() {
            Ok(f) => f,
            Err(e) => {
                return Err(e);
            },
        };
        let (left_format, right_format) = formats;
        if !gpu.init_pipeline(CMDBUF_SIZE) {
            return Err(RendererError::Citro3DInit);
        }
        let flags = make_transfer_flags(TRANSFER_FMT_RGBA8, TRANSFER_FMT_RGBA8, TRANSFER_SCALE_XY);
        let left_target = match RenderTarget::new(
            gpu,
            BUF_WIDTH,
            BUF_HEIGHT,
            left_format,
            left_depth,
            flags,
            Screen::Top,
            Side::Left,
        ) {
            Ok(t) => t,
            Err(e) => {
                gpu.fini_pipeline();
                proof {
                    assert(*gpu == *old(gpu));
                }
                return Err(e);
            },
        };
        let right_target = match RenderTarget::new(
            gpu,
            BUF_WIDTH,
            BUF_HEIGHT,
            right_format,
            right_depth,
            flags,
            Screen::Top,
            Side::Right,
        ) {
            Ok(t) => t,
            Err(e) => {
                left_target.destroy(gpu);
                gpu.fini_pipeline();
                proof {
                    assert(gpu.surfaces@ =~= old(gpu).surfaces@.push(
                        Surface {
                            alive: false,
                            ..target_surface(
                                BUF_WIDTH,
                                BUF_HEIGHT,
                                display.left_format,
                                left_depth as i32,
                                STEREO_TRANSFER_FLAGS,
                                Screen::Top,
                                Side::Left,
                            )
                        },
                    ));
                }
                return Err(e);
            },
        };
        Ok(GPURenderer3D { left_target, right_target })
    }

    /// Constructs the manager against the display service: queries the
    /// per-eye native formats, brings up the pipeline singleton, and
    /// creates the two eye targets with the fixed geometry, the shared
    /// transfer flags, and the 24-bit depth + 8-bit stencil buffer.
    /// Construction succeeds exactly when the display grants the format
    /// read and no other pipeline client is live.
    pub fn new(gpu: &mut Gpu, display: &StereoDisplay) -> (r: Result<GPURenderer3D, RendererError>)
        requires
            old(gpu).wf(),
        ensures
            final(gpu).wf(),
            r is Ok <==> display.readable && !old(gpu).pipeline_active,
            !display.readable ==> r == Err::<GPURenderer3D, RendererError>(
                RendererError::ScreenError,
            ) && *final(gpu) == *old(gpu),
            display.readable && old(gpu).pipeline_active ==> r == Err::<
                GPURenderer3D,
                RendererError,
            >(RendererError::Citro3DInit) && *final(gpu) == *old(gpu),
            display.readable && !old(gpu).pipeline_active ==> {
                &&& r matches Ok(m) && m.valid(*final(gpu))
                    && m.left_target.handle == old(gpu).surfaces@.len()
                    && m.right_target.handle == old(gpu).surfaces@.len() + 1
                &&& final(gpu).pipeline_active
                &&& !final(gpu).frame_open
                &&& final(gpu).selected is None
                &&& final(gpu).surfaces@ == old(gpu).surfaces@.push(
                    target_surface(
                        BUF_WIDTH,
                        BUF_HEIGHT,
                        display.left_format,
                        DEPTH24_STENCIL8 as i32,
                        STEREO_TRANSFER_FLAGS,
                        Screen::Top,
                        Side::Left,
                    ),
                ).push(
                    target_surface(
                        BUF_WIDTH,
                        BUF_HEIGHT,
                        display.right_format,
                        DEPTH24_STENCIL8 as i32,
                        STEREO_TRANSFER_FLAGS,
                        Screen::Top,
                        Side::Right,
                    ),
                )
                &&& final(gpu).live == old(gpu).live + 2
            },
    {
        Self::new_with_depth_formats(gpu, display, DEPTH24_STENCIL8, DEPTH24_STENCIL8)
    }

    /// Opens the frame bracket: command submission for a new frame
    /// starts. Must be called exactly once before any select or draw
    /// call of the frame; opening a bracket twice is a caller-ordering
    /// violation and is excluded by precondition.
    pub fn begin_frame(&self, gpu: &mut Gpu)
        requires
            old(gpu).wf(),
            self.valid(*old(gpu)),
            !old(gpu).frame_open,
        ensures
            final(gpu).wf(),
            *final(gpu) == after_begin(*old(gpu)),
    {
        gpu.frame_begin();
    }

    /// Closes the frame bracket: the accumulated command buffer is
    /// submitted and the per-frame draw selection is dropped. Must pair
    /// with exactly one prior `begin_frame`; closing without an open
    /// bracket is a caller-ordering violation and is excluded by
    /// precondition. The manager does not wait for the vertical blank —
    /// that synchronization belongs to the display-flush collaborator.
    pub fn end_frame(&self, gpu: &mut Gpu)
        requires
            old(gpu).wf(),
            self.valid(*old(gpu)),
            old(gpu).frame_open,
        ensures
            final(gpu).wf(),
            *final(gpu) == after_end(*old(gpu)),
    {
        gpu.frame_end();
    }

    /// Runtime-checked frame opening: opens the bracket only when none
    /// is open, and otherwise reports the ordering violation by
    /// returning false and leaving the pipeline untouched.
    pub fn try_begin_frame(&self, gpu: &mut Gpu) -> (r: bool)
        requires
            old(gpu).wf(),
            self.valid(*old(gpu)),
        ensures
            final(gpu).wf(),
            r == !old(gpu).frame_open,
            r ==> *final(gpu) == after_begin(*old(gpu)),
            !r ==> *final(gpu) == *old(gpu),
    {
        if gpu.frame_is_open() {
            false
        } else {
            gpu.frame_begin();
            true
        }
    }

    /// Runtime-checked frame closing: closes the bracket only when one
    /// is open, and otherwise reports the ordering violation by
    /// returning false and leaving the pipeline untouched.
    pub fn try_end_frame(&self, gpu: &mut Gpu) -> (r: bool)
        requires
            old(gpu).wf(),
            self.valid(*old(gpu)),
        ensures
            final(gpu).wf(),
            r == old(gpu).frame_open,
            r ==> *final(gpu) == after_end(*old(gpu)),
            !r ==> *final(gpu) == *old(gpu),
    {
        if gpu.frame_is_open() {
            gpu.frame_end();
            true
        } else {
            false
        }
    }

    /// Clears both eye targets to color 0 and depth 0.
    pub fn clear_all_targets(&self, gpu: &mut Gpu)
        requires
            old(gpu).wf(),
            self.valid(*old(gpu)),
        ensures
            final(gpu).wf(),
            same_session(*old(gpu), *final(gpu)),
            final(gpu).live == old(gpu).live,
            final(gpu).surfaces@ == old(gpu).surfaces@.update(
                self.left_target.handle as int,
                cleared_to(self.left_target.surface(*old(gpu)), 0, 0),
            ).update(
                self.right_target.handle as int,
                cleared_to(self.right_target.surface(*old(gpu)), 0, 0),
            ),
    {
        self.left_target.clear(gpu);
        self.right_target.clear(gpu);
    }

    /// Clears both eye targets to the given shared color and depth 0.
    pub fn clear_all_targets_with_color(&self, gpu: &mut Gpu, color: u32)
        requires
            old(gpu).wf(),
            self.valid(*old(gpu)),
        ensures
            final(gpu).wf(),
            same_session(*old(gpu), *final(gpu)),
            final(gpu).live == old(gpu).live,
            final(gpu).surfaces@ == old(gpu).surfaces@.update(
                self.left_target.handle as int,
                cleared_to(self.left_target.surface(*old(gpu)), color, 0),
            ).update(
                self.right_target.handle as int,
                cleared_to(self.right_target.surface(*old(gpu)), color, 0),
            ),
    {
        self.left_target.clear_with_color(gpu, color);
        self.right_target.clear_with_color(gpu, color);
    }

    /// Releases both eye targets and then finalizes the pipeline
    /// singleton — teardown in the strict reverse of construction order.
    /// Afterwards the pipeline is down, every surface is released, and a
    /// new manager can be constructed.
    pub fn destroy(self, gpu: &mut Gpu)
        requires
            old(gpu).wf(),
            self.valid(*old(gpu)),
            !old(gpu).frame_open,
        ensures
            final(gpu).wf(),
            !final(gpu).pipeline_active,
            !final(gpu).frame_open,
            final(gpu).selected is None,
            final(gpu).live == 0,
            final(gpu).surfaces@ == old(gpu).surfaces@.update(
                self.left_target.handle as int,
                (Surface { alive: false, ..old(gpu).surfaces@[self.left_target.handle as int] }),
            ).update(
                self.right_target.handle as int,
                (Surface { alive: false, ..old(gpu).surfaces@[self.right_target.handle as int] }),
            ),
    {
        self.left_target.destroy(gpu);
        self.right_target.destroy(gpu);
        gpu.fini_pipeline();
    }
}

/// Law: a construct–destroy cycle leaves no residual pipeline state that
/// could affect a later construction. `GPURenderer3D::destroy` always
/// leaves the pipeline inactive, and once the pipeline is down, whether
/// a construction succeeds depends only on the display and the depth
/// codes — so after destroying a manager, constructing a new one
/// succeeds exactly when the first construction did.
pub proof fn lemma_reconstruction_after_destroy(
    before: Gpu,
    after: Gpu,
    display: StereoDisplay,
    left_depth: u32,
    right_depth: u32,
)
    requires
        !before.pipeline_active,
        !after.pipeline_active,
    ensures
        construction_succeeds(before, display, left_depth, right_depth) == construction_succeeds(
            after,
            display,
            left_depth,
            right_depth,
        ),
{
}

} // verus!
