//! The uniform table: resolved slot handles for one program's uniforms.
//!
//! The table is built once after linking, from the four slots the shell
//! resolved by name.  A name the program lacks resolves to the sentinel
//! `-1`, which the driver ignores on write — so writing through the table
//! is always harmless, whatever was resolved.  Each setter first makes
//! its owning program current (a driver-wide side effect), then writes
//! the value; the commands say so exactly.

use vstd::prelude::*;

use crate::commands::GpuCmd;
use crate::program::Program;

verus! {

/// The slot handle a name resolves to when the program does not have it.
/// The driver accepts writes to it and ignores them.
pub const NO_UNIFORM_LOCATION: i32 = -1;

/// The resolved slot handles of one program's uniforms, and the handle of
/// the program that owns them.  The table holds the program's bare handle,
/// not the program itself: the program has exactly one owner.
#[derive(Clone, Copy, Debug, PartialEq, Eq, Structural)]
pub struct UniformLocations {
    pub program: u32,
    pub time: i32,
    pub dt: i32,
    pub quad_size: i32,
    pub mouse_pos: i32,
}

/// The two commands that write a scalar uniform through a table: make the
/// owning program current, then write the value at the slot.
pub open spec fn uniform1_cmds(t: UniformLocations, location: i32, bits: u32) -> Seq<GpuCmd> {
    seq![
        GpuCmd::UseProgram { program: t.program },
        GpuCmd::Uniform1f { location, bits },
    ]
}

/// The two commands that write a two-component uniform through a table.
pub open spec fn uniform2_cmds(t: UniformLocations, location: i32, x_bits: u32, y_bits: u32) -> Seq<
    GpuCmd,
> {
    seq![
        GpuCmd::UseProgram { program: t.program },
        GpuCmd::Uniform2f { location, x_bits, y_bits },
    ]
}

impl UniformLocations {
    /// Build the table for a program from the slots the shell resolved
    /// for the four names; an absent name arrives as the sentinel.
    pub fn new(program: &Program, time: i32, quad_size: i32, dt: i32, mouse_pos: i32) -> (r: Self)
        ensures
            r.program == program.handle,
            r.time == time,
            r.quad_size == quad_size,
            r.dt == dt,
            r.mouse_pos == mouse_pos,
    {
        UniformLocations { program: program.handle(), time, dt, quad_size, mouse_pos }
    }

    /// The resolved slot of the time uniform.
    pub fn get_time_handle(&self) -> (r: i32)
        ensures
            r == self.time,
    {
        self.time
    }

    /// The resolved slot of the frame-delta uniform.
    pub fn get_dt_handle(&self) -> (r: i32)
        ensures
            r == self.dt,
    {
        self.dt
    }

    /// The resolved slot of the quad-size uniform.
    pub fn get_quad_size_handle(&self) -> (r: i32)
        ensures
            r == self.quad_size,
    {
        self.quad_size
    }

    /// The resolved slot of the cursor-position uniform.
    pub fn get_mouse_pos_handle(&self) -> (r: i32)
        ensures
            r == self.mouse_pos,
    {
        self.mouse_pos
    }

    /// Write the elapsed-time value.  Safe whatever the slot resolved to,
    /// the sentinel included.
    pub fn set_time(&self, bits: u32) -> (r: Vec<GpuCmd>)
        ensures
            r@ == uniform1_cmds(*self, self.time, bits),
    {
        let mut cmds: Vec<GpuCmd> = Vec::new();
        cmds.push(GpuCmd::UseProgram { program: self.program });
        cmds.push(GpuCmd::Uniform1f { location: self.time, bits });
        proof {
            assert(cmds@ =~= uniform1_cmds(*self, self.time, bits));
        }
        cmds
    }

    /// Write the frame-delta value.
    pub fn set_dt(&self, bits: u32) -> (r: Vec<GpuCmd>)
        ensures
            r@ == uniform1_cmds(*self, self.dt, bits),
    {
        let mut cmds: Vec<GpuCmd> = Vec::new();
        cmds.push(GpuCmd::UseProgram { program: self.program });
        cmds.push(GpuCmd::Uniform1f { location: self.dt, bits });
        proof {
            assert(cmds@ =~= uniform1_cmds(*self, self.dt, bits));
        }
        cmds
    }

    /// Write the quad-size value.
    pub fn set_quad_size(&self, bits: u32) -> (r: Vec<GpuCmd>)
        ensures
            r@ == uniform1_cmds(*self, self.quad_size, bits),
    {
        let mut cmds: Vec<GpuCmd> = Vec::new();
        cmds.push(GpuCmd::UseProgram { program: self.program });
        cmds.push(GpuCmd::Uniform1f { location: self.quad_size, bits });
        proof {
            assert(cmds@ =~= uniform1_cmds(*self, self.quad_size, bits));
        }
        cmds
    }

    /// Write the cursor-position value.
    pub fn set_mouse_pos(&self, x_bits: u32, y_bits: u32) -> (r: Vec<GpuCmd>)
        ensures
            r@ == uniform2_cmds(*self, self.mouse_pos, x_bits, y_bits),
    {
        let mut cmds: Vec<GpuCmd> = Vec::new();
        cmds.push(GpuCmd::UseProgram { program: self.program });
        cmds.push(GpuCmd::Uniform2f { location: self.mouse_pos, x_bits, y_bits });
        proof {
            assert(cmds@ =~= uniform2_cmds(*self, self.mouse_pos, x_bits, y_bits));
        }
        cmds
    }
}

/// The commands that write the frame-delta value through every table, in
/// table order.
pub open spec fn set_dt_all_cmds(ts: Seq<UniformLocations>, bits: u32) -> Seq<GpuCmd>
    decreases ts.len(),
{
    if ts.len() == 0 {
        Seq::empty()
    } else {
        set_dt_all_cmds(ts.drop_last(), bits) + uniform1_cmds(ts.last(), ts.last().dt, bits)
    }
}

/// The commands that write the elapsed-time value through every table.
pub open spec fn set_time_all_cmds(ts: Seq<UniformLocations>, bits: u32) -> Seq<GpuCmd>
    decreases ts.len(),
{
    if ts.len() == 0 {
        Seq::empty()
    } else {
        set_time_all_cmds(ts.drop_last(), bits) + uniform1_cmds(ts.last(), ts.last().time, bits)
    }
}

/// The commands that write the quad-size value through every table.
pub open spec fn set_quad_size_all_cmds(ts: Seq<UniformLocations>, bits: u32) -> Seq<GpuCmd>
    decreases ts.len(),
{
    if ts.len() == 0 {
        Seq::empty()
    } else {
        set_quad_size_all_cmds(ts.drop_last(), bits) + uniform1_cmds(
            ts.last(),
            ts.last().quad_size,
            bits,
        )
    }
}

/// The commands that write the cursor position through every table.
pub open spec fn set_mouse_pos_all_cmds(ts: Seq<UniformLocations>, x_bits: u32, y_bits: u32) -> Seq<
    GpuCmd,
>
    decreases ts.len(),
{
    if ts.len() == 0 {
        Seq::empty()
    } else {
        set_mouse_pos_all_cmds(ts.drop_last(), x_bits, y_bits) + uniform2_cmds(
            ts.last(),
            ts.last().mouse_pos,
            x_bits,
            y_bits,
        )
    }
}

/// Write the frame-delta value through each table in turn: one program
/// activation and one write per table, in table order.
pub fn set_dt_all(tables: &[UniformLocations], bits: u32) -> (r: Vec<GpuCmd>)
    ensures
        r@ == set_dt_all_cmds(tables@, bits),
{
    let mut cmds: Vec<GpuCmd> = Vec::new();
    let mut i: usize = 0;
    while i < tables.len()
        invariant
            i <= tables@.len(),
            cmds@ == set_dt_all_cmds(tables@.take(i as int), bits),
        decreases tables@.len() - i,
    {
        let t = tables[i];
        cmds.push(GpuCmd::UseProgram { program: t.program });
        cmds.push(GpuCmd::Uniform1f { location: t.dt, bits });
        proof {
            assert(tables@.take(i + 1int).drop_last() =~= tables@.take(i as int));
            assert(cmds@ =~= set_dt_all_cmds(tables@.take(i + 1int), bits));
        }
        i = i + 1;
    }
    proof {
        assert(tables@.take(tables@.len() as int) =~= tables@);
    }
    cmds
}

/// Write the elapsed-time value through each table in turn.
pub fn set_time_all(tables: &[UniformLocations], bits: u32) -> (r: Vec<GpuCmd>)
    ensures
        r@ == set_time_all_cmds(tables@, bits),
{
    let mut cmds: Vec<GpuCmd> = Vec::new();
    let mut i: usize = 0;
    while i < tables.len()
        invariant
            i <= tables@.len(),
            cmds@ == set_time_all_cmds(tables@.take(i as int), bits),
        decreases tables@.len() - i,
    {
        let t = tables[i];
        cmds.push(GpuCmd::UseProgram { program: t.program });
        cmds.push(GpuCmd::Uniform1f { location: t.time, bits });
        proof {
            assert(tables@.take(i + 1int).drop_last() =~= tables@.take(i as int));
            assert(cmds@ =~= set_time_all_cmds(tables@.take(i + 1int), bits));
        }
        i = i + 1;
    }
    proof {
        assert(tables@.take(tables@.len() as int) =~= tables@);
    }
    cmds
}

/// Write the quad-size value through each table in turn.
pub fn set_quad_size_all(tables: &[UniformLocations], bits: u32) -> (r: Vec<GpuCmd>)
    ensures
        r@ == set_quad_size_all_cmds(tables@, bits),
{
    let mut cmds: Vec<GpuCmd> = Vec::new();
    let mut i: usize = 0;
    while i < tables.len()
        invariant
            i <= tables@.len(),
            cmds@ == set_quad_size_all_cmds(tables@.take(i as int), bits),
        decreases tables@.len() - i,
    {
        let t = tables[i];
        cmds.push(GpuCmd::UseProgram { program: t.program });
        cmds.push(GpuCmd::Uniform1f { location: t.quad_size, bits });
        proof {
            assert(tables@.take(i + 1int).drop_last() =~= tables@.take(i as int));
            assert(cmds@ =~= set_quad_size_all_cmds(tables@.take(i + 1int), bits));
        }
        i = i + 1;
    }
    proof {
        assert(tables@.take(tables@.len() as int) =~= tables@);
    }
    cmds
}

/// Write the cursor position through each table in turn.
pub fn set_mouse_pos_all(tables: &[UniformLocations], x_bits: u32, y_bits: u32) -> (r: Vec<GpuCmd>)
    ensures
        r@ == set_mouse_pos_all_cmds(tables@, x_bits, y_bits),
{
    let mut cmds: Vec<GpuCmd> = Vec::new();
    let mut i: usize = 0;
    while i < tables.len()
        invariant
            i <= tables@.len(),
            cmds@ == set_mouse_pos_all_cmds(tables@.take(i as int), x_bits, y_bits),
        decreases tables@.len() - i,
    {
        let t = tables[i];
        cmds.push(GpuCmd::UseProgram { program: t.program });
        cmds.push(GpuCmd::Uniform2f { location: t.mouse_pos, x_bits, y_bits });
        proof {
            assert(tables@.take(i + 1int).drop_last() =~= tables@.take(i as int));
            assert(cmds@ =~= set_mouse_pos_all_cmds(tables@.take(i + 1int), x_bits, y_bits));
        }
        i = i + 1;
    }
    proof {
        assert(tables@.take(tables@.len() as int) =~= tables@);
    }
    cmds
}

} // verus!
