use particles::commands::{FrameEvent, GpuCmd};
use particles::driver::{
    GlobalState, Phase, CLEAR_A_BITS, CLEAR_B_BITS, CLEAR_G_BITS, CLEAR_R_BITS, QUAD_SIZE_BITS,
};
use particles::program::Program;
use particles::renderstate::{compute_group_count, RenderState, UnitScale};
use particles::rng::Rng128;
use particles::shader::{Shader, ShaderKind};
use particles::uniform::UniformLocations;

/// A driver with the mock handles 1..=4 for the shader stages, 5 and 6
/// for the programs, 7 for the vertex array and 8 for the buffer.
fn mock_driver<const LEN: usize>() -> GlobalState<LEN> {
    let vshader = Shader::new(1, ShaderKind::Vertex);
    let fshader = Shader::new(2, ShaderKind::Fragment);
    let gshader = Shader::new(3, ShaderKind::Geometry);
    let cshader = Shader::new(4, ShaderKind::Compute);
    let draw_program = Program::new(5);
    let compute_program = Program::new(6);
    let draw_uniforms = UniformLocations::new(&draw_program, 10, 11, 12, 13);
    let compute_uniforms = UniformLocations::new(&compute_program, 20, 21, 22, 23);
    let render_state = RenderState::new(1280, 720, 7, 8, Rng128::wrap(1, 2));
    GlobalState::new(
        vshader,
        fshader,
        gshader,
        cshader,
        draw_program,
        compute_program,
        draw_uniforms,
        compute_uniforms,
        render_state,
    )
}

#[test]
fn float_constants_match_their_patterns() {
    assert_eq!(QUAD_SIZE_BITS, 0.03f32.to_bits());
    assert_eq!(CLEAR_R_BITS, 0.2f32.to_bits());
    assert_eq!(CLEAR_G_BITS, 0.3f32.to_bits());
    assert_eq!(CLEAR_B_BITS, 0.3f32.to_bits());
    assert_eq!(CLEAR_A_BITS, 1.0f32.to_bits());
}

#[test]
fn group_count_boundaries() {
    assert_eq!(compute_group_count(1), 1);
    assert_eq!(compute_group_count(63), 1);
    assert_eq!(compute_group_count(64), 1);
    assert_eq!(compute_group_count(65), 2);
    assert_eq!(compute_group_count(128), 2);
    assert_eq!(compute_group_count(129), 3);
}

#[test]
fn viewport_resize_updates_scale() {
    let mut rs: RenderState<4> = RenderState::new(1280, 720, 7, 8, Rng128::wrap(1, 2));
    assert_eq!(rs.unit_vec, UnitScale { div_x: 12800, div_y: 7200 });
    rs.update_canvas_size(200, 100);
    assert_eq!(rs.can_w, 200);
    assert_eq!(rs.can_h, 100);
    // The scale is (0.1 / w, 0.1 / h), kept as the divisors of 1.
    assert_eq!(rs.unit_vec, UnitScale { div_x: 2000, div_y: 1000 });
    let x = 1.0f32 / rs.unit_vec.div_x as f32;
    assert!((x - 0.1 / 200.0).abs() < 1e-9);
}

#[test]
fn viewport_resize_to_zero_is_clamped() {
    let mut rs: RenderState<4> = RenderState::new(1280, 720, 7, 8, Rng128::wrap(1, 2));
    rs.update_canvas_size(0, 0);
    assert_eq!(rs.can_w, 1);
    assert_eq!(rs.can_h, 1);
    assert_eq!(rs.unit_vec, UnitScale { div_x: 10, div_y: 10 });
    // The float scale the shell derives stays finite: no NaN, no Inf.
    let x = 1.0f32 / rs.unit_vec.div_x as f32;
    let y = 1.0f32 / rs.unit_vec.div_y as f32;
    assert!(x.is_finite() && y.is_finite());
    assert!(!x.is_nan() && !y.is_nan());
}

#[test]
fn tick_emits_the_frame_protocol_in_order() {
    let mut gs: GlobalState<65> = mock_driver();
    let dt = 0.016f32.to_bits();
    let time = 2.5f32.to_bits();
    let (cmds, metric) = gs.tick(&Vec::new(), dt, time, false);
    assert_eq!(metric, None);
    assert_eq!(gs.phase, Phase::Running);
    let quad = QUAD_SIZE_BITS;
    let expected = vec![
        // Uniform pushes: dt, cursor, quad size, time; draw table first.
        GpuCmd::UseProgram { program: 5 },
        GpuCmd::Uniform1f { location: 12, bits: dt },
        GpuCmd::UseProgram { program: 6 },
        GpuCmd::Uniform1f { location: 22, bits: dt },
        GpuCmd::UseProgram { program: 5 },
        GpuCmd::Uniform2f { location: 13, x_bits: 0, y_bits: 0 },
        GpuCmd::UseProgram { program: 6 },
        GpuCmd::Uniform2f { location: 23, x_bits: 0, y_bits: 0 },
        GpuCmd::UseProgram { program: 5 },
        GpuCmd::Uniform1f { location: 11, bits: quad },
        GpuCmd::UseProgram { program: 6 },
        GpuCmd::Uniform1f { location: 21, bits: quad },
        GpuCmd::UseProgram { program: 5 },
        GpuCmd::Uniform1f { location: 10, bits: time },
        GpuCmd::UseProgram { program: 6 },
        GpuCmd::Uniform1f { location: 20, bits: time },
        // Compute pass: activate, bind, dispatch ceil(65 / 64) groups, fence.
        GpuCmd::UseProgram { program: 6 },
        GpuCmd::BindStorageBuffer { buffer: 8 },
        GpuCmd::DispatchCompute { groups: 2 },
        GpuCmd::MemoryBarrier,
        // Draw pass and present.
        GpuCmd::UseProgram { program: 5 },
        GpuCmd::ClearColor {
            r_bits: CLEAR_R_BITS,
            g_bits: CLEAR_G_BITS,
            b_bits: CLEAR_B_BITS,
            a_bits: CLEAR_A_BITS,
        },
        GpuCmd::Clear,
        GpuCmd::BindVertexArray { vao: 7 },
        GpuCmd::DrawPoints { count: 65 },
        GpuCmd::SwapBuffers,
    ];
    assert_eq!(cmds, expected);
}

#[test]
fn tick_applies_events_before_the_frame() {
    let mut gs: GlobalState<4> = mock_driver();
    let cx = 320.0f32.to_bits();
    let cy = 240.0f32.to_bits();
    let events = vec![
        FrameEvent::FramebufferResize { w: 640, h: 480 },
        FrameEvent::CursorMove { x_bits: cx, y_bits: cy },
        FrameEvent::Key,
    ];
    let (cmds, _) = gs.tick(&events, 0, 0, false);
    // The resize issues the viewport command first thing.
    assert_eq!(cmds[0], GpuCmd::Viewport { w: 640, h: 480 });
    assert_eq!(gs.render_state.can_w, 640);
    assert_eq!(gs.render_state.can_h, 480);
    assert_eq!(gs.render_state.unit_vec, UnitScale { div_x: 6400, div_y: 4800 });
    // The cursor the uniforms see is the one the events left behind.
    assert_eq!(gs.render_state.cursor_x_bits, cx);
    assert!(cmds.contains(&GpuCmd::Uniform2f { location: 13, x_bits: cx, y_bits: cy }));
    assert_eq!(gs.phase, Phase::Running);
}

#[test]
fn fps_metric_reports_once_a_second() {
    let mut gs: GlobalState<4> = mock_driver();
    let (_, m1) = gs.tick(&Vec::new(), 0, 0, false);
    let (_, m2) = gs.tick(&Vec::new(), 0, 0, false);
    let (_, m3) = gs.tick(&Vec::new(), 0, 0, true);
    assert_eq!(m1, None);
    assert_eq!(m2, None);
    // The metric counts the frames of the elapsed second, this one included.
    assert_eq!(m3, Some(3));
    let (_, m4) = gs.tick(&Vec::new(), 0, 0, true);
    assert_eq!(m4, Some(1));
}

/// The mock graphics backend of the end-to-end scenario: it remembers
/// which handles were "created" and counts every delete per handle type.
struct MockBackend {
    shaders: Vec<u32>,
    programs: Vec<u32>,
    vaos: Vec<u32>,
    vbos: Vec<u32>,
    deleted_shaders: Vec<u32>,
    deleted_programs: Vec<u32>,
    deleted_vaos: Vec<u32>,
    deleted_vbos: Vec<u32>,
}

impl MockBackend {
    fn run(&mut self, cmds: &[GpuCmd]) {
        for c in cmds {
            match *c {
                GpuCmd::DeleteShader { shader } => self.deleted_shaders.push(shader),
                GpuCmd::DeleteProgram { program } => self.deleted_programs.push(program),
                GpuCmd::DeleteVertexArray { vao } => self.deleted_vaos.push(vao),
                GpuCmd::DeleteBuffer { vbo } => self.deleted_vbos.push(vbo),
                _ => {}
            }
        }
    }

    fn assert_each_deleted_exactly_once(&self) {
        for set in [
            (&self.shaders, &self.deleted_shaders),
            (&self.programs, &self.deleted_programs),
            (&self.vaos, &self.deleted_vaos),
            (&self.vbos, &self.deleted_vbos),
        ] {
            let (created, deleted) = set;
            for h in created.iter() {
                let n = deleted.iter().filter(|d| *d == h).count();
                assert_eq!(n, 1, "handle {} must be released exactly once", h);
            }
            assert_eq!(created.len(), deleted.len(), "nothing else may be released");
        }
    }
}

#[test]
fn three_ticks_with_close_release_every_handle_once() {
    // Start the driver, run exactly three frame ticks with the close
    // event scripted on the third, and shut down: the loop must end in
    // the closing phase, ticks must release nothing, and the shutdown
    // must release each created handle exactly once.
    let mut backend = MockBackend {
        shaders: vec![1, 2, 3, 4],
        programs: vec![5, 6],
        vaos: vec![7],
        vbos: vec![8],
        deleted_shaders: Vec::new(),
        deleted_programs: Vec::new(),
        deleted_vaos: Vec::new(),
        deleted_vbos: Vec::new(),
    };
    let mut gs: GlobalState<2> = mock_driver();
    assert_eq!(gs.phase, Phase::Running);

    let (c1, _) = gs.tick(&Vec::new(), 0, 0, false);
    assert_eq!(gs.phase, Phase::Running);
    let (c2, _) = gs.tick(&vec![FrameEvent::CursorMove { x_bits: 1, y_bits: 2 }], 0, 0, false);
    assert_eq!(gs.phase, Phase::Running);
    let (c3, _) = gs.tick(&vec![FrameEvent::Close], 0, 0, false);
    assert_eq!(gs.phase, Phase::Closing);

    backend.run(&c1);
    backend.run(&c2);
    backend.run(&c3);
    // No tick releases anything.
    assert!(backend.deleted_shaders.is_empty());
    assert!(backend.deleted_programs.is_empty());
    assert!(backend.deleted_vaos.is_empty());
    assert!(backend.deleted_vbos.is_empty());

    // Shutdown releases in reverse-acquisition order: buffer handles,
    // then programs, then shaders.
    let rel = gs.release();
    assert_eq!(
        rel,
        vec![
            GpuCmd::DeleteBuffer { vbo: 8 },
            GpuCmd::DeleteVertexArray { vao: 7 },
            GpuCmd::DeleteProgram { program: 6 },
            GpuCmd::DeleteProgram { program: 5 },
            GpuCmd::DeleteShader { shader: 4 },
            GpuCmd::DeleteShader { shader: 3 },
            GpuCmd::DeleteShader { shader: 2 },
            GpuCmd::DeleteShader { shader: 1 },
        ]
    );
    backend.run(&rel);
    backend.assert_each_deleted_exactly_once();
}

#[test]
fn driver_count_is_the_particle_count() {
    let gs: GlobalState<2> = mock_driver();
    assert_eq!(gs.count(), 2);
    let us = gs.all_uniforms();
    assert_eq!(us[0], gs.draw_uniforms);
    assert_eq!(us[1], gs.compute_uniforms);
}

#[test]
fn negative_resize_dimensions_are_clamped() {
    let mut gs: GlobalState<4> = mock_driver();
    let events = vec![FrameEvent::FramebufferResize { w: -5, h: -7 }];
    let (cmds, _) = gs.tick(&events, 0, 0, false);
    // The viewport command passes the raw report through; the canvas
    // state clamps it so the scale stays defined.
    assert_eq!(cmds[0], GpuCmd::Viewport { w: -5, h: -7 });
    assert_eq!(gs.render_state.can_w, 1);
    assert_eq!(gs.render_state.can_h, 1);
    assert_eq!(gs.render_state.unit_vec, UnitScale { div_x: 10, div_y: 10 });
}

#[test]
fn close_amid_other_events_still_closes() {
    let mut gs: GlobalState<4> = mock_driver();
    let events = vec![
        FrameEvent::Close,
        FrameEvent::FramebufferResize { w: 320, h: 200 },
    ];
    let (_, _) = gs.tick(&events, 0, 0, false);
    // The close wins, and the events after it are still applied.
    assert_eq!(gs.phase, Phase::Closing);
    assert_eq!(gs.render_state.can_w, 320);
    assert_eq!(gs.render_state.can_h, 200);
}
