//! The GPU command-pipeline state.
//!
//! The pipeline is a process-wide singleton resource: it is initialized at
//! most once at a time, every render surface lives inside it, and one
//! frame bracket at a time may be open on it. Instead of hidden global
//! flags, the whole of that state is an explicit [`Gpu`] value that every
//! operation takes; its contracts pin down exactly what each hardware
//! interaction does to the pipeline, and its resource counter makes leak
//! freedom a stated, provable property.

use vstd::prelude::*;

use crate::format::{Screen, Side};

verus! {

/// One GPU-side render surface as the pipeline tracks it: geometry and
/// formats chosen at allocation, the most recent clear, and the display
/// binding. The binding fields are meaningful only once `bound` is set,
/// and a binding is immutable for the surface's lifetime.
#[derive(Clone, Copy, Debug, PartialEq, Eq, Structural)]
pub struct Surface {
    /// Still allocated (not yet released).
    pub alive: bool,
    /// Width in pixels.
    pub width: i32,
    /// Height in pixels.
    pub height: i32,
    /// Color format code of the surface.
    pub color_code: u32,
    /// Depth/stencil encoding, already narrowed to the pipeline's signed field.
    pub depth_code: i32,
    /// Whether the surface has been cleared since allocation.
    pub cleared: bool,
    /// Color plane value of the most recent clear.
    pub clear_color: u32,
    /// Depth plane value of the most recent clear.
    pub clear_depth: u32,
    /// Whether the surface is bound to a display output.
    pub bound: bool,
    /// Physical screen of the binding.
    pub screen: Screen,
    /// Eye channel of the binding.
    pub side: Side,
    /// Transfer flags of the binding.
    pub flags: u32,
}

/// The state of a surface immediately after allocation: live, not yet
/// cleared, not yet bound (the binding fields hold placeholders).
pub open spec fn fresh_surface(width: i32, height: i32, color_code: u32, depth_code: i32) -> Surface {
    Surface {
        alive: true,
        width,
        height,
        color_code,
        depth_code,
        cleared: false,
        clear_color: 0,
        clear_depth: 0,
        bound: false,
        screen: Screen::Top,
        side: Side::Left,
        flags: 0,
    }
}

/// A surface after its color and depth planes are cleared to the given values.
pub open spec fn cleared_to(s: Surface, color: u32, depth: u32) -> Surface {
    Surface { cleared: true, clear_color: color, clear_depth: depth, ..s }
}

/// How many of the surfaces are still allocated.
pub open spec fn count_alive(s: Seq<Surface>) -> nat
    decreases s.len(),
{
    if s.len() == 0 {
        0
    } else {
        count_alive(s.drop_last()) + (if s.last().alive {
            1nat
        } else {
            0nat
        })
    }
}

pub proof fn lemma_count_alive_le_len(s: Seq<Surface>)
    ensures
        count_alive(s) <= s.len(),
    decreases s.len(),
{
    if s.len() > 0 {
        lemma_count_alive_le_len(s.drop_last());
    }
}

pub proof fn lemma_count_alive_push(s: Seq<Surface>, x: Surface)
    ensures
        count_alive(s.push(x)) == count_alive(s) + (if x.alive {
            1nat
        } else {
            0nat
        }),
{
    assert(s.push(x).drop_last() =~= s);
    assert(s.push(x).last() == x);
}

pub proof fn lemma_count_alive_update(s: Seq<Surface>, i: int, x: Surface)
    requires
        0 <= i < s.len(),
    ensures
        count_alive(s.update(i, x)) == count_alive(s) + (if x.alive {
            1int
        } else {
            0int
        }) - (if s[i].alive {
            1int
        } else {
            0int
        }),
    decreases s.len(),
{
    let t = s.update(i, x);
    if i == s.len() - 1 {
        assert(t.drop_last() =~= s.drop_last());
        assert(t.last() == x);
    } else {
        assert(t.drop_last() =~= s.drop_last().update(i, x));
        assert(t.last() == s.last());
        lemma_count_alive_update(s.drop_last(), i, x);
    }
}

/// Law: allocating one surface and then releasing it returns the
/// live-surface count to exactly its prior value — a construct/destroy
/// cycle leaks nothing, whatever else the pipeline already holds. This is
/// the sequence transformation that `Gpu::create_surface` followed by
/// `Gpu::destroy_surface` performs.
pub proof fn lemma_surface_round_trip_no_leak(s: Seq<Surface>, fresh: Surface)
    requires
        fresh.alive,
    ensures
        count_alive(s.push(fresh).update(s.len() as int, (Surface { alive: false, ..fresh })))
            == count_alive(s),
{
    lemma_count_alive_push(s, fresh);
    lemma_count_alive_update(s.push(fresh), s.len() as int, Surface { alive: false, ..fresh });
}

/// The process-wide GPU pipeline: whether the command pipeline is up,
/// whether a frame bracket is open, which surface is the current draw
/// destination, and every surface ever allocated, by handle.
pub struct Gpu {
    /// The command pipeline has been initialized and not yet finalized.
    pub pipeline_active: bool,
    /// A frame bracket is open (begun and not yet ended).
    pub frame_open: bool,
    /// Surface currently selected as the draw destination, if any.
    pub selected: Option<usize>,
    /// Every surface ever allocated on this pipeline, indexed by handle.
    pub surfaces: Vec<Surface>,
    /// Cached number of surfaces still allocated.
    pub live: usize,
}

/// The pipeline, frame, and selection state, identical between two values:
/// what a pure surface operation leaves untouched.
pub open spec fn same_session(a: Gpu, b: Gpu) -> bool {
    &&& b.pipeline_active == a.pipeline_active
    &&& b.frame_open == a.frame_open
    &&& b.selected == a.selected
}

/// The state after a frame bracket opens.
pub open spec fn after_begin(g: Gpu) -> Gpu {
    Gpu { frame_open: true, ..g }
}

/// The state after a frame bracket closes: the bracket is shut and the
/// per-frame draw selection is dropped.
pub open spec fn after_end(g: Gpu) -> Gpu {
    Gpu { frame_open: false, selected: None, ..g }
}

impl Gpu {
    /// Internal consistency of the pipeline state: the live counter is
    /// exact, surfaces exist only while the pipeline is up, a frame
    /// bracket implies an initialized pipeline, and a selection exists
    /// only inside a frame bracket and points at a live surface.
    pub open spec fn wf(self) -> bool {
        &&& self.live == count_alive(self.surfaces@)
        &&& (!self.pipeline_active ==> !self.frame_open)
        &&& (!self.pipeline_active ==> count_alive(self.surfaces@) == 0)
        &&& (!self.frame_open ==> self.selected is None)
        &&& (self.selected matches Some(h) ==> h < self.surfaces@.len()
            && self.surfaces@[h as int].alive)
    }

    /// A fresh GPU state: pipeline down, no frame open, no surfaces.
    pub fn new() -> (g: Gpu)
        ensures
            g.wf(),
            !g.pipeline_active,
            !g.frame_open,
            g.selected is None,
            g.surfaces@.len() == 0,
            g.live == 0,
    {
        Gpu {
            pipeline_active: false,
            frame_open: false,
            selected: None,
            surfaces: Vec::new(),
            live: 0,
        }
    }

    /// Brings up the command pipeline with the given command-buffer size.
    /// The pipeline is a singleton: a second client is refused while one
    /// is live, and the state is then left untouched.
    pub fn init_pipeline(&mut self, cmdbuf_size: usize) -> (r: bool)
        requires
            old(self).wf(),
            cmdbuf_size > 0,
        ensures
            final(self).wf(),
            r == !old(self).pipeline_active,
            r ==> *final(self) == (Gpu { pipeline_active: true, ..*old(self) }),
            !r ==> *final(self) == *old(self),
    {
        if self.pipeline_active {
            false
        } else {
            self.pipeline_active = true;
            true
        }
    }

    /// Finalizes the command pipeline. Teardown pairs strictly with
    /// initialization: every surface must have been released first, and
    /// no frame bracket may be open.
    pub fn fini_pipeline(&mut self)
        requires
            old(self).wf(),
            old(self).pipeline_active,
            !old(self).frame_open,
            old(self).live == 0,
        ensures
            final(self).wf(),
            *final(self) == (Gpu { pipeline_active: false, ..*old(self) }),
    {
        self.pipeline_active = false;
    }

    /// Allocates a surface and returns its handle. The surface starts
    /// live, uncleared, and unbound.
    pub fn create_surface(&mut self, width: i32, height: i32, color_code: u32, depth_code: i32) -> (h: usize)
        requires
            old(self).wf(),
            old(self).pipeline_active,
            width > 0,
            height > 0,
        ensures
            final(self).wf(),
            same_session(*old(self), *final(self)),
            h == old(self).surfaces@.len(),
            final(self).surfaces@ == old(self).surfaces@.push(
                fresh_surface(width, height, color_code, depth_code),
            ),
            final(self).live == old(self).live + 1,
    {
        let h = self.surfaces.len();
        self.surfaces.push(Surface {
            alive: true,
            width,
            height,
            color_code,
            depth_code,
            cleared: false,
            clear_color: 0,
            clear_depth: 0,
            bound: false,
            screen: Screen::Top,
            side: Side::Left,
            flags: 0,
        });
        let n = self.surfaces.len();
        proof {
            lemma_count_alive_le_len(old(self).surfaces@);
            lemma_count_alive_push(
                old(self).surfaces@,
                fresh_surface(width, height, color_code, depth_code),
            );
        }
        self.live = self.live + 1;
        h
    }

    /// Releases a surface. Valid only outside a frame bracket, so a
    /// surface can never disappear while it might be the current draw
    /// destination.
    pub fn destroy_surface(&mut self, h: usize)
        requires
            old(self).wf(),
            old(self).pipeline_active,
            !old(self).frame_open,
            h < old(self).surfaces@.len(),
            old(self).surfaces@[h as int].alive,
        ensures
            final(self).wf(),
            same_session(*old(self), *final(self)),
            final(self).surfaces@ == old(self).surfaces@.update(
                h as int,
                (Surface { alive: false, ..old(self).surfaces@[h as int] }),
            ),
            final(self).live == old(self).live - 1,
    {
        let s = self.surfaces[h];
        self.surfaces[h] = Surface { alive: false, ..s };
        proof {
            lemma_count_alive_update(
                old(self).surfaces@,
                h as int,
                Surface { alive: false, ..old(self).surfaces@[h as int] },
            );
        }
        self.live = self.live - 1;
    }

    /// Clears the color and depth planes of a surface to the given
    /// values. Valid at any time while the surface is live, including
    /// inside a frame bracket.
    pub fn clear_surface(&mut self, h: usize, color: u32, depth: u32)
        requires
            old(self).wf(),
            old(self).pipeline_active,
            h < old(self).surfaces@.len(),
            old(self).surfaces@[h as int].alive,
        ensures
            final(self).wf(),
            same_session(*old(self), *final(self)),
            final(self).surfaces@ == old(self).surfaces@.update(
                h as int,
                cleared_to(old(self).surfaces@[h as int], color, depth),
            ),
            final(self).live == old(self).live,
    {
        let s = self.surfaces[h];
        self.surfaces[h] = Surface { cleared: true, clear_color: color, clear_depth: depth, ..s };
        proof {
            lemma_count_alive_update(
                old(self).surfaces@,
                h as int,
                cleared_to(old(self).surfaces@[h as int], color, depth),
            );
        }
    }

    /// Binds a surface to a display output: physical screen, eye channel,
    /// transfer flags. A binding is set once and is immutable afterwards;
    /// re-binding is not offered — recreate the surface instead.
    pub fn set_output(&mut self, h: usize, screen: Screen, side: Side, flags: u32)
        requires
            old(self).wf(),
            old(self).pipeline_active,
            h < old(self).surfaces@.len(),
            old(self).surfaces@[h as int].alive,
            !old(self).surfaces@[h as int].bound,
        ensures
            final(self).wf(),
            same_session(*old(self), *final(self)),
            final(self).surfaces@ == old(self).surfaces@.update(
                h as int,
                (Surface { bound: true, screen, side, flags, ..old(self).surfaces@[h as int] }),
            ),
            final(self).live == old(self).live,
    {
        let s = self.surfaces[h];
        self.surfaces[h] = Surface { bound: true, screen, side, flags, ..s };
        proof {
            lemma_count_alive_update(
                old(self).surfaces@,
                h as int,
                Surface { bound: true, screen, side, flags, ..old(self).surfaces@[h as int] },
            );
        }
    }

    /// Opens a frame bracket: command submission for a new frame starts.
    /// Opening a bracket while one is already open is a caller-ordering
    /// violation and is excluded by precondition.
    pub fn frame_begin(&mut self)
        requires
            old(self).wf(),
            old(self).pipeline_active,
            !old(self).frame_open,
        ensures
            final(self).wf(),
            *final(self) == after_begin(*old(self)),
    {
        self.frame_open = true;
    }

    /// Closes the frame bracket: the accumulated commands are submitted
    /// and the per-frame draw selection is dropped. Closing without an
    /// open bracket is a caller-ordering violation and is excluded by
    /// precondition.
    pub fn frame_end(&mut self)
        requires
            old(self).wf(),
            old(self).pipeline_active,
            old(self).frame_open,
        ensures
            final(self).wf(),
            *final(self) == after_end(*old(self)),
    {
        self.frame_open = false;
        self.selected = None;
    }

    /// Makes the surface the current draw destination for commands
    /// submitted until the next selection or the end of the frame. The
    /// pipeline has a single draw destination, so this implicitly
    /// deselects any previously selected surface.
    pub fn frame_draw_on(&mut self, h: usize)
        requires
            old(self).wf(),
            old(self).pipeline_active,
            old(self).frame_open,
            h < old(self).surfaces@.len(),
            old(self).surfaces@[h as int].alive,
        ensures
            final(self).wf(),
            *final(self) == (Gpu { selected: Some(h), ..*old(self) }),
    {
        self.selected = Some(h);
    }

    /// The number of surfaces still allocated — the resource counter that
    /// leak-freedom properties are stated over.
    pub fn live_surface_count(&self) -> (n: usize)
        requires
            self.wf(),
        ensures
            n == count_alive(self.surfaces@),
    {
        self.live
    }

    /// Whether the command pipeline is currently initialized.
    pub fn pipeline_is_active(&self) -> (b: bool)
        ensures
            b == self.pipeline_active,
    {
        self.pipeline_active
    }

    /// Whether a frame bracket is currently open.
    pub fn frame_is_open(&self) -> (b: bool)
        ensures
            b == self.frame_open,
    {
        self.frame_open
    }

    /// The handle of the surface currently selected as draw destination.
    pub fn selected_surface(&self) -> (r: Option<usize>)
        ensures
            r == self.selected,
    {
        self.selected
    }

    /// The color a live surface was last cleared to, if it has been
    /// cleared at all.
    pub open spec fn spec_clear_color(self, h: usize) -> Option<u32> {
        if h < self.surfaces@.len() && self.surfaces@[h as int].alive
            && self.surfaces@[h as int].cleared {
            Some(self.surfaces@[h as int].clear_color)
        } else {
            None
        }
    }

    /// Reads back the color a live surface was last cleared to.
    pub fn surface_clear_color(&self, h: usize) -> (r: Option<u32>)
        ensures
            r == self.spec_clear_color(h),
    {
        if h < self.surfaces.len() {
            let s = self.surfaces[h];
            if s.alive && s.cleared {
                Some(s.clear_color)
            } else {
                None
            }
        } else {
            None
        }
    }

    /// The display binding of a live surface, if it has one.
    pub open spec fn spec_output(self, h: usize) -> Option<(Screen, Side, u32)> {
        if h < self.surfaces@.len() && self.surfaces@[h as int].alive
            && self.surfaces@[h as int].bound {
            Some(
                (
                    self.surfaces@[h as int].screen,
                    self.surfaces@[h as int].side,
                    self.surfaces@[h as int].flags,
                ),
            )
        } else {
            None
        }
    }

    /// Reads back the display binding of a live surface.
    pub fn surface_output(&self, h: usize) -> (r: Option<(Screen, Side, u32)>)
        ensures
            r == self.spec_output(h),
    {
        if h < self.surfaces.len() {
            let s = self.surfaces[h];
            if s.alive && s.bound {
                Some((s.screen, s.side, s.flags))
            } else {
                None
            }
        } else {
            None
        }
    }
}

/// Law: an empty frame bracket is a round trip — opening a frame and
/// closing it with no intervening operation returns the pipeline to
/// exactly its pre-frame state, ready for another bracket.
pub proof fn lemma_empty_frame_bracket_round_trip(g: Gpu)
    requires
        g.wf(),
        !g.frame_open,
    ensures
        after_end(after_begin(g)) == g,
{
    assert(g.selected is None);
}

} // verus!
