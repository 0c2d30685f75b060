use particles::commands::GpuCmd;
use particles::program::Program;
use particles::uniform::{
    set_dt_all, set_mouse_pos_all, set_quad_size_all, set_time_all, UniformLocations,
    NO_UNIFORM_LOCATION,
};

#[test]
fn table_records_resolved_slots() {
    let p = Program::new(3);
    let t = UniformLocations::new(&p, 10, 11, 12, 13);
    assert_eq!(t.get_time_handle(), 10);
    assert_eq!(t.get_quad_size_handle(), 11);
    assert_eq!(t.get_dt_handle(), 12);
    assert_eq!(t.get_mouse_pos_handle(), 13);
}

#[test]
fn setter_reactivates_program_then_writes() {
    let p = Program::new(3);
    let t = UniformLocations::new(&p, 10, 11, 12, 13);
    let bits = 1.5f32.to_bits();
    assert_eq!(
        t.set_time(bits),
        vec![
            GpuCmd::UseProgram { program: 3 },
            GpuCmd::Uniform1f { location: 10, bits },
        ]
    );
    assert_eq!(
        t.set_dt(bits),
        vec![
            GpuCmd::UseProgram { program: 3 },
            GpuCmd::Uniform1f { location: 12, bits },
        ]
    );
    assert_eq!(
        t.set_quad_size(bits),
        vec![
            GpuCmd::UseProgram { program: 3 },
            GpuCmd::Uniform1f { location: 11, bits },
        ]
    );
    let xb = 0.25f32.to_bits();
    let yb = 0.75f32.to_bits();
    assert_eq!(
        t.set_mouse_pos(xb, yb),
        vec![
            GpuCmd::UseProgram { program: 3 },
            GpuCmd::Uniform2f { location: 13, x_bits: xb, y_bits: yb },
        ]
    );
}

#[test]
fn unknown_uniform_writes_to_sentinel_without_failure() {
    // A table built against a program lacking the time uniform resolves
    // it to the sentinel; writing through it still succeeds and simply
    // targets the slot the driver ignores.
    let p = Program::new(4);
    let t = UniformLocations::new(&p, NO_UNIFORM_LOCATION, 1, 2, 3);
    let cmds = t.set_time(1.0f32.to_bits());
    assert_eq!(
        cmds,
        vec![
            GpuCmd::UseProgram { program: 4 },
            GpuCmd::Uniform1f { location: -1, bits: 1.0f32.to_bits() },
        ]
    );
}

#[test]
fn setters_update_each_table_in_order() {
    let a = UniformLocations::new(&Program::new(1), 10, 11, 12, 13);
    let b = UniformLocations::new(&Program::new(2), 20, 21, 22, 23);
    let tables = [a, b];
    let bits = 0.5f32.to_bits();
    assert_eq!(
        set_dt_all(&tables, bits),
        vec![
            GpuCmd::UseProgram { program: 1 },
            GpuCmd::Uniform1f { location: 12, bits },
            GpuCmd::UseProgram { program: 2 },
            GpuCmd::Uniform1f { location: 22, bits },
        ]
    );
    assert_eq!(
        set_time_all(&tables, bits),
        vec![
            GpuCmd::UseProgram { program: 1 },
            GpuCmd::Uniform1f { location: 10, bits },
            GpuCmd::UseProgram { program: 2 },
            GpuCmd::Uniform1f { location: 20, bits },
        ]
    );
    assert_eq!(
        set_quad_size_all(&tables, bits),
        vec![
            GpuCmd::UseProgram { program: 1 },
            GpuCmd::Uniform1f { location: 11, bits },
            GpuCmd::UseProgram { program: 2 },
            GpuCmd::Uniform1f { location: 21, bits },
        ]
    );
    assert_eq!(
        set_mouse_pos_all(&tables, 7, 9),
        vec![
            GpuCmd::UseProgram { program: 1 },
            GpuCmd::Uniform2f { location: 13, x_bits: 7, y_bits: 9 },
            GpuCmd::UseProgram { program: 2 },
            GpuCmd::Uniform2f { location: 23, x_bits: 7, y_bits: 9 },
        ]
    );
}
