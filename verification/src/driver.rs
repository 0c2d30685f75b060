//! The frame driver: the renderer's state machine.
//!
//! The driver owns every GPU resource — four shader stages, two linked
//! programs, their uniform tables, and the particle buffer's handles —
//! and turns each frame into a command sequence: drain the tick's events,
//! push the uniform values, run the compute pass, run the draw pass,
//! present.  A close event moves the driver to `Closing`; only after
//! that does `release` emit the delete commands, each handle exactly
//! once, in reverse-acquisition order.

use vstd::prelude::*;

use crate::commands::{is_delete, no_deletes, FrameEvent, GpuCmd};
use crate::program::Program;
use crate::renderstate::{clamped_dim, dispatch_cmds, unit_scale_for, RenderState};
use crate::shader::Shader;
use crate::uniform::{
    set_dt_all, set_dt_all_cmds, set_mouse_pos_all, set_mouse_pos_all_cmds, set_quad_size_all,
    set_quad_size_all_cmds, set_time_all, set_time_all_cmds, UniformLocations,
};

verus! {

/// The 32-bit pattern of the fixed quad-size constant 0.03.
pub const QUAD_SIZE_BITS: u32 = 0x3CF5C28F;

/// The 32-bit patterns of the clear colour (0.2, 0.3, 0.3, 1.0).
pub const CLEAR_R_BITS: u32 = 0x3E4CCCCD;

pub const CLEAR_G_BITS: u32 = 0x3E99999A;

pub const CLEAR_B_BITS: u32 = 0x3E99999A;

pub const CLEAR_A_BITS: u32 = 0x3F800000;

/// Where the driver stands in its life cycle.
#[derive(Clone, Copy, Debug, PartialEq, Eq, Structural)]
pub enum Phase {
    /// No resources acquired yet.
    Uninitialized,
    /// All compiles and links succeeded; frames are being produced.
    Running,
    /// A close was requested; the loop is done and resources may go.
    Closing,
}

/// A dimension reported by the window system, made non-negative.
pub open spec fn dim_of_event(v: i32) -> u32 {
    if v <= 0 {
        0u32
    } else {
        v as u32
    }
}

/// The state an event leaves the render state in.  A resize records the
/// new (clamped) viewport and its derived scale; a cursor move records
/// the position; close and keys touch nothing here.
pub open spec fn event_state<const LEN: usize>(
    rs: RenderState<LEN>,
    ev: FrameEvent,
) -> RenderState<LEN> {
    match ev {
        FrameEvent::FramebufferResize { w, h } => RenderState {
            can_w: clamped_dim(dim_of_event(w)),
            can_h: clamped_dim(dim_of_event(h)),
            unit_vec: unit_scale_for(dim_of_event(w), dim_of_event(h)),
            ..rs
        },
        FrameEvent::CursorMove { x_bits, y_bits } => RenderState {
            cursor_x_bits: x_bits,
            cursor_y_bits: y_bits,
            ..rs
        },
        _ => rs,
    }
}

/// The commands an event asks for: only a resize issues one, the
/// viewport command, immediately.
pub open spec fn event_cmds(ev: FrameEvent) -> Seq<GpuCmd> {
    match ev {
        FrameEvent::FramebufferResize { w, h } => seq![GpuCmd::Viewport { w, h }],
        _ => Seq::empty(),
    }
}

/// The state after a whole tick's events, applied in order.
pub open spec fn events_state<const LEN: usize>(
    rs: RenderState<LEN>,
    evs: Seq<FrameEvent>,
) -> RenderState<LEN>
    decreases evs.len(),
{
    if evs.len() == 0 {
        rs
    } else {
        event_state(events_state(rs, evs.drop_last()), evs.last())
    }
}

/// The commands of a whole tick's events, in order.
pub open spec fn events_cmds(evs: Seq<FrameEvent>) -> Seq<GpuCmd>
    decreases evs.len(),
{
    if evs.len() == 0 {
        Seq::empty()
    } else {
        events_cmds(evs.drop_last()) + event_cmds(evs.last())
    }
}

/// Whether some event of the tick asked to close the window.
pub open spec fn close_requested(evs: Seq<FrameEvent>) -> bool {
    exists|i: int| 0 <= i < evs.len() && (#[trigger] evs[i]) is Close
}

/// Apply one event: update the render state and report the commands it
/// asks for, and whether it requested a close.
pub fn handle_event<const LEN: usize>(rs: &mut RenderState<LEN>, ev: &FrameEvent) -> (r: (
    Vec<GpuCmd>,
    bool,
))
    ensures
        *final(rs) == event_state(*old(rs), *ev),
        r.0@ == event_cmds(*ev),
        r.1 == (*ev is Close),
{
    let mut cmds: Vec<GpuCmd> = Vec::new();
    match ev {
        FrameEvent::Close => {
            proof {
                assert(cmds@ =~= event_cmds(*ev));
            }
            (cmds, true)
        },
        FrameEvent::FramebufferResize { w, h } => {
            let wd: u32 = if *w <= 0 {
                0
            } else {
                *w as u32
            };
            let hd: u32 = if *h <= 0 {
                0
            } else {
                *h as u32
            };
            cmds.push(GpuCmd::Viewport { w: *w, h: *h });
            rs.update_canvas_size(wd, hd);
            proof {
                assert(cmds@ =~= event_cmds(*ev));
            }
            (cmds, false)
        },
        FrameEvent::CursorMove { x_bits, y_bits } => {
            rs.cursor_x_bits = *x_bits;
            rs.cursor_y_bits = *y_bits;
            proof {
                assert(cmds@ =~= event_cmds(*ev));
            }
            (cmds, false)
        },
        _ => {
            proof {
                assert(cmds@ =~= event_cmds(*ev));
            }
            (cmds, false)
        },
    }
}

/// The uniform pushes of one tick: frame delta, cursor position, the
/// quad-size constant, then elapsed time — each written through every
/// table in table order.
pub open spec fn uniform_phase_cmds(
    ts: Seq<UniformLocations>,
    dt_bits: u32,
    cursor_x_bits: u32,
    cursor_y_bits: u32,
    time_bits: u32,
) -> Seq<GpuCmd> {
    set_dt_all_cmds(ts, dt_bits) + set_mouse_pos_all_cmds(ts, cursor_x_bits, cursor_y_bits)
        + set_quad_size_all_cmds(ts, QUAD_SIZE_BITS) + set_time_all_cmds(ts, time_bits)
}

/// The draw pass and the present: activate the draw program, clear, bind
/// the vertex array, draw every particle as a point, swap.
pub open spec fn draw_cmds(draw_program: u32, vao: u32, n: usize) -> Seq<GpuCmd> {
    seq![
        GpuCmd::UseProgram { program: draw_program },
        GpuCmd::ClearColor {
            r_bits: CLEAR_R_BITS,
            g_bits: CLEAR_G_BITS,
            b_bits: CLEAR_B_BITS,
            a_bits: CLEAR_A_BITS,
        },
        GpuCmd::Clear,
        GpuCmd::BindVertexArray { vao },
        GpuCmd::DrawPoints { count: n },
        GpuCmd::SwapBuffers,
    ]
}

/// The whole driver: every GPU resource, the uniform tables, the render
/// state, the life-cycle phase, and the frame counter for the once-a-second
/// metric.
pub struct GlobalState<const LEN: usize> {
    pub phase: Phase,
    pub vshader: Shader,
    pub fshader: Shader,
    pub gshader: Shader,
    pub cshader: Shader,
    pub draw_program: Program,
    pub compute_program: Program,
    pub draw_uniforms: UniformLocations,
    pub compute_uniforms: UniformLocations,
    pub render_state: RenderState<LEN>,
    pub fps_frames: u64,
}

/// The command sequence of one frame tick, as a function of the state and
/// the tick's inputs: the events' own commands, then the uniform pushes
/// (the cursor as the events left it), then the compute pass, then the
/// draw pass and the present.
pub open spec fn tick_cmds<const LEN: usize>(
    gs: GlobalState<LEN>,
    evs: Seq<FrameEvent>,
    dt_bits: u32,
    time_bits: u32,
) -> Seq<GpuCmd> {
    let rs1 = events_state(gs.render_state, evs);
    let ts = seq![gs.draw_uniforms, gs.compute_uniforms];
    events_cmds(evs) + uniform_phase_cmds(
        ts,
        dt_bits,
        rs1.cursor_x_bits,
        rs1.cursor_y_bits,
        time_bits,
    ) + seq![GpuCmd::UseProgram { program: gs.compute_program.handle }] + dispatch_cmds(
        rs1.vbo,
        LEN as int,
    ) + draw_cmds(gs.draw_program.handle, rs1.vao, LEN)
}

/// The delete commands that release every resource the driver owns, in
/// reverse-acquisition order: the buffer handles, then the programs,
/// then the shader stages.
pub open spec fn release_cmds<const LEN: usize>(gs: GlobalState<LEN>) -> Seq<GpuCmd> {
    seq![
        GpuCmd::DeleteBuffer { vbo: gs.render_state.vbo },
        GpuCmd::DeleteVertexArray { vao: gs.render_state.vao },
        GpuCmd::DeleteProgram { program: gs.compute_program.handle },
        GpuCmd::DeleteProgram { program: gs.draw_program.handle },
        GpuCmd::DeleteShader { shader: gs.cshader.handle },
        GpuCmd::DeleteShader { shader: gs.gshader.handle },
        GpuCmd::DeleteShader { shader: gs.fshader.handle },
        GpuCmd::DeleteShader { shader: gs.vshader.handle },
    ]
}

impl<const LEN: usize> GlobalState<LEN> {
    /// The buffer is full, and each uniform table belongs to the program
    /// it will reactivate.
    pub open spec fn wf(&self) -> bool {
        &&& self.render_state.wf()
        &&& self.draw_uniforms.program == self.draw_program.handle
        &&& self.compute_uniforms.program == self.compute_program.handle
    }

    /// The driver's handles name distinct driver objects, within each
    /// shared namespace: shaders and programs share one, vertex arrays
    /// and buffers each have their own.
    pub open spec fn handles_distinct(&self) -> bool {
        &&& self.vshader.handle != self.fshader.handle
        &&& self.vshader.handle != self.gshader.handle
        &&& self.vshader.handle != self.cshader.handle
        &&& self.fshader.handle != self.gshader.handle
        &&& self.fshader.handle != self.cshader.handle
        &&& self.gshader.handle != self.cshader.handle
        &&& self.draw_program.handle != self.compute_program.handle
    }

    /// Assemble the driver from its successfully built parts.  Reaching
    /// this point is the one transition out of `Uninitialized`: every
    /// compile and link has succeeded, so the driver starts `Running`.
    pub fn new(
        vshader: Shader,
        fshader: Shader,
        gshader: Shader,
        cshader: Shader,
        draw_program: Program,
        compute_program: Program,
        draw_uniforms: UniformLocations,
        compute_uniforms: UniformLocations,
        render_state: RenderState<LEN>,
    ) -> (r: Self)
        requires
            render_state.wf(),
            draw_uniforms.program == draw_program.handle,
            compute_uniforms.program == compute_program.handle,
        ensures
            r.wf(),
            r.phase is Running,
            r.vshader == vshader && r.fshader == fshader && r.gshader == gshader && r.cshader
                == cshader,
            r.draw_program == draw_program && r.compute_program == compute_program,
            r.draw_uniforms == draw_uniforms && r.compute_uniforms == compute_uniforms,
            r.render_state == render_state,
            r.fps_frames == 0,
    {
        GlobalState {
            phase: Phase::Running,
            vshader,
            fshader,
            gshader,
            cshader,
            draw_program,
            compute_program,
            draw_uniforms,
            compute_uniforms,
            render_state,
            fps_frames: 0,
        }
    }

    /// The two uniform tables in use, draw's first.
    pub fn all_uniforms(&self) -> (r: [UniformLocations; 2])
        ensures
            r@ == seq![self.draw_uniforms, self.compute_uniforms],
    {
        let r = [self.draw_uniforms, self.compute_uniforms];
        proof {
            assert(r@ =~= seq![self.draw_uniforms, self.compute_uniforms]);
        }
        r
    }

    /// One frame tick.  Applies the events in order, then asks for the
    /// frame's commands: event commands, uniform pushes, compute pass,
    /// draw pass, present — and nothing that releases a resource.  A
    /// close event moves the phase to `Closing`; otherwise the driver
    /// keeps running.  The second result is the frame-rate metric: the
    /// tick's frame count when a wall-clock second has elapsed.
    pub fn tick(
        &mut self,
        events: &Vec<FrameEvent>,
        dt_bits: u32,
        time_bits: u32,
        second_elapsed: bool,
    ) -> (r: (Vec<GpuCmd>, Option<u64>))
        requires
            old(self).wf(),
            old(self).phase is Running,
            old(self).fps_frames < u64::MAX,
        ensures
            final(self).wf(),
            final(self).phase == (if close_requested(events@) {
                Phase::Closing
            } else {
                Phase::Running
            }),
            final(self).render_state == events_state(old(self).render_state, events@),
            final(self).vshader == old(self).vshader && final(self).fshader == old(self).fshader
                && final(self).gshader == old(self).gshader && final(self).cshader == old(
                self,
            ).cshader,
            final(self).draw_program == old(self).draw_program && final(self).compute_program
                == old(self).compute_program,
            final(self).draw_uniforms == old(self).draw_uniforms && final(self).compute_uniforms
                == old(self).compute_uniforms,
            r.0@ == tick_cmds(*old(self), events@, dt_bits, time_bits),
            no_deletes(r.0@),
            r.1 == (if second_elapsed {
                Some((old(self).fps_frames + 1) as u64)
            } else {
                None::<u64>
            }),
            final(self).fps_frames == (if second_elapsed {
                0u64
            } else {
                (old(self).fps_frames + 1) as u64
            }),
    {
        let mut cmds: Vec<GpuCmd> = Vec::new();
        let mut close: bool = false;
        let mut i: usize = 0;
        while i < events.len()
            invariant
                i <= events@.len(),
                self.render_state == events_state(old(self).render_state, events@.take(i as int)),
                cmds@ == events_cmds(events@.take(i as int)),
                close == close_requested(events@.take(i as int)),
                self.phase == old(self).phase,
                self.vshader == old(self).vshader,
                self.fshader == old(self).fshader,
                self.gshader == old(self).gshader,
                self.cshader == old(self).cshader,
                self.draw_program == old(self).draw_program,
                self.compute_program == old(self).compute_program,
                self.draw_uniforms == old(self).draw_uniforms,
                self.compute_uniforms == old(self).compute_uniforms,
                self.fps_frames == old(self).fps_frames,
                self.render_state.wf(),
            decreases events@.len() - i,
        {
            let ev = events[i];
            let (mut evc, c) = handle_event(&mut self.render_state, &ev);
            cmds.append(&mut evc);
            if c {
                close = true;
            }
            proof {
                assert(events@.take(i + 1int).drop_last() =~= events@.take(i as int));
                assert(events@.take(i + 1int).last() == events@[i as int]);
                assert(cmds@ =~= events_cmds(events@.take(i + 1int)));
                assert(close_requested(events@.take(i + 1int)) == (close_requested(
                    events@.take(i as int),
                ) || events@[i as int] is Close)) by {
                    if close_requested(events@.take(i as int)) {
                        let k = choose|k: int|
                            0 <= k < events@.take(i as int).len() && (#[trigger] events@.take(
                                i as int,
                            )[k]) is Close;
                        assert(events@.take(i + 1int)[k] is Close);
                    }
                    if events@[i as int] is Close {
                        assert(events@.take(i + 1int)[i as int] is Close);
                    }
                    if close_requested(events@.take(i + 1int)) {
                        let k = choose|k: int|
                            0 <= k < events@.take(i + 1int).len() && (#[trigger] events@.take(
                                i + 1int,
                            )[k]) is Close;
                        if k < i {
                            assert(events@.take(i as int)[k] is Close);
                        }
                    }
                }
            }
            i = i + 1;
        }
        proof {
            assert(events@.take(events@.len() as int) =~= events@);
        }
        let us = self.all_uniforms();
        let mut c1 = set_dt_all(us.as_slice(), dt_bits);
        cmds.append(&mut c1);
        let mut c2 = set_mouse_pos_all(
            us.as_slice(),
            self.render_state.cursor_x_bits,
            self.render_state.cursor_y_bits,
        );
        cmds.append(&mut c2);
        let mut c3 = set_quad_size_all(us.as_slice(), QUAD_SIZE_BITS);
        cmds.append(&mut c3);
        let mut c4 = set_time_all(us.as_slice(), time_bits);
        cmds.append(&mut c4);
        cmds.push(self.compute_program.use_program());
        let mut c5 = self.render_state.dispatch_compute_call();
        cmds.append(&mut c5);
        cmds.push(self.draw_program.use_program());
        cmds.push(
            GpuCmd::ClearColor {
                r_bits: CLEAR_R_BITS,
                g_bits: CLEAR_G_BITS,
                b_bits: CLEAR_B_BITS,
                a_bits: CLEAR_A_BITS,
            },
        );
        cmds.push(GpuCmd::Clear);
        cmds.push(GpuCmd::BindVertexArray { vao: self.render_state.vao });
        cmds.push(GpuCmd::DrawPoints { count: self.count() });
        cmds.push(GpuCmd::SwapBuffers);
        proof {
            assert(cmds@ =~= tick_cmds(*old(self), events@, dt_bits, time_bits));
            lemma_tick_no_deletes(*old(self), events@, dt_bits, time_bits);
        }
        if close {
            self.phase = Phase::Closing;
        }
        let metric: Option<u64>;
        let next_frames: u64 = self.fps_frames + 1;
        if second_elapsed {
            metric = Some(next_frames);
            self.fps_frames = 0;
        } else {
            metric = None;
            self.fps_frames = next_frames;
        }
        (cmds, metric)
    }

    /// The number of particles the driver renders each frame.
    pub fn count(&self) -> (r: usize)
        ensures
            r == LEN,
    {
        self.render_state.count()
    }

    /// Release every GPU resource the driver owns, in reverse-acquisition
    /// order.  Consumes the driver, so the handles can be released only
    /// once.
    pub fn release(self) -> (r: Vec<GpuCmd>)
        ensures
            r@ == release_cmds(self),
    {
        let mut cmds: Vec<GpuCmd> = Vec::new();
        cmds.push(GpuCmd::DeleteBuffer { vbo: self.render_state.vbo });
        cmds.push(GpuCmd::DeleteVertexArray { vao: self.render_state.vao });
        cmds.push(GpuCmd::DeleteProgram { program: self.compute_program.handle });
        cmds.push(GpuCmd::DeleteProgram { program: self.draw_program.handle });
        cmds.push(GpuCmd::DeleteShader { shader: self.cshader.handle });
        cmds.push(GpuCmd::DeleteShader { shader: self.gshader.handle });
        cmds.push(GpuCmd::DeleteShader { shader: self.fshader.handle });
        cmds.push(GpuCmd::DeleteShader { shader: self.vshader.handle });
        proof {
            assert(cmds@ =~= release_cmds(self));
        }
        cmds
    }
}

/// Every command of a frame tick leaves the driver's resources alone:
/// nothing is deleted while the loop runs.
pub proof fn lemma_tick_no_deletes<const LEN: usize>(
    gs: GlobalState<LEN>,
    evs: Seq<FrameEvent>,
    dt_bits: u32,
    time_bits: u32,
)
    ensures
        no_deletes(tick_cmds(gs, evs, dt_bits, time_bits)),
{
    let rs1 = events_state(gs.render_state, evs);
    let ts = seq![gs.draw_uniforms, gs.compute_uniforms];
    lemma_events_cmds_no_deletes(evs);
    lemma_set_dt_all_no_deletes(ts, dt_bits);
    lemma_set_mouse_pos_all_no_deletes(ts, rs1.cursor_x_bits, rs1.cursor_y_bits);
    lemma_set_quad_size_all_no_deletes(ts, QUAD_SIZE_BITS);
    lemma_set_time_all_no_deletes(ts, time_bits);
}

/// Event commands release nothing.
pub proof fn lemma_events_cmds_no_deletes(evs: Seq<FrameEvent>)
    ensures
        no_deletes(events_cmds(evs)),
    decreases evs.len(),
{
    if evs.len() > 0 {
        lemma_events_cmds_no_deletes(evs.drop_last());
    }
}

/// Uniform writes release nothing.
pub proof fn lemma_set_dt_all_no_deletes(ts: Seq<UniformLocations>, bits: u32)
    ensures
        no_deletes(set_dt_all_cmds(ts, bits)),
    decreases ts.len(),
{
    if ts.len() > 0 {
        lemma_set_dt_all_no_deletes(ts.drop_last(), bits);
    }
}

/// Uniform writes release nothing.
pub proof fn lemma_set_time_all_no_deletes(ts: Seq<UniformLocations>, bits: u32)
    ensures
        no_deletes(set_time_all_cmds(ts, bits)),
    decreases ts.len(),
{
    if ts.len() > 0 {
        lemma_set_time_all_no_deletes(ts.drop_last(), bits);
    }
}

/// Uniform writes release nothing.
pub proof fn lemma_set_quad_size_all_no_deletes(ts: Seq<UniformLocations>, bits: u32)
    ensures
        no_deletes(set_quad_size_all_cmds(ts, bits)),
    decreases ts.len(),
{
    if ts.len() > 0 {
        lemma_set_quad_size_all_no_deletes(ts.drop_last(), bits);
    }
}

/// Uniform writes release nothing.
pub proof fn lemma_set_mouse_pos_all_no_deletes(ts: Seq<UniformLocations>, x_bits: u32, y_bits: u32)
    ensures
        no_deletes(set_mouse_pos_all_cmds(ts, x_bits, y_bits)),
    decreases ts.len(),
{
    if ts.len() > 0 {
        lemma_set_mouse_pos_all_no_deletes(ts.drop_last(), x_bits, y_bits);
    }
}

/// Releasing the driver deletes a resource in every command, and no two
/// commands release the same resource: with distinct handles, each of the
/// driver's eight resources is released exactly once.
pub proof fn lemma_release_each_handle_once<const LEN: usize>(gs: GlobalState<LEN>)
    requires
        gs.handles_distinct(),
    ensures
        release_cmds(gs).len() == 8,
        forall|i: int| 0 <= i < release_cmds(gs).len() ==> is_delete(#[trigger] release_cmds(gs)[i]),
        forall|i: int, j: int|
            0 <= i < j < release_cmds(gs).len() ==> release_cmds(gs)[i] != release_cmds(gs)[j],
{
    let rel = release_cmds(gs);
    assert forall|i: int| 0 <= i < rel.len() implies is_delete(#[trigger] rel[i]) by {
        if i == 0 {
            assert(rel[0] is DeleteBuffer);
        }
    }
}

} // verus!
