//! The render state: the particle buffer, its GPU handles, the viewport,
//! and the compute dispatch that updates the particles in place.

use vstd::prelude::*;

use crate::commands::GpuCmd;
use crate::particle::{seeded_from, RenderData};
use crate::rng::{xs_state_at, Rng128};

verus! {

/// The fixed number of compute invocations per workgroup, baked into the
/// compute stage's source.
pub const WORKGROUP_SIZE: usize = 64;

/// A viewport dimension clamped away from zero, so the derived unit-vector
/// scale is never a division by zero.
pub open spec fn clamped_dim(d: u32) -> u32 {
    if d == 0 {
        1u32
    } else {
        d
    }
}

/// The number of workgroups that covers `n` particles: `n / 64` rounded up.
pub open spec fn group_count(n: int) -> int {
    n / (WORKGROUP_SIZE as int) + if n % (WORKGROUP_SIZE as int) == 0 {
        0int
    } else {
        1int
    }
}

/// The group count is the ceiling of `n / 64` in its familiar closed form.
pub proof fn lemma_group_count_is_ceil(n: int)
    requires
        n >= 0,
    ensures
        group_count(n) == (n + WORKGROUP_SIZE - 1) / (WORKGROUP_SIZE as int),
{
    let w = WORKGROUP_SIZE as int;
    vstd::arithmetic::div_mod::lemma_fundamental_div_mod(n, w);
    if n % w == 0 {
        assert((n + w - 1) / w == n / w + (w - 1) / w) by {
            vstd::arithmetic::div_mod::lemma_div_multiples_vanish_fancy(n / w, w - 1, w);
        }
    } else {
        assert((n + w - 1) / w == n / w + 1) by {
            vstd::arithmetic::div_mod::lemma_fundamental_div_mod(n + w - 1, w);
            vstd::arithmetic::div_mod::lemma_div_multiples_vanish_fancy((n + w - 1) / w, 0, w);
            assert(n + w - 1 == w * (n / w + 1) + (n % w - 1)) by (nonlinear_arith)
                requires
                    n == w * (n / w) + n % w,
            ;
            vstd::arithmetic::div_mod::lemma_fundamental_div_mod_converse(
                n + w - 1,
                w,
                n / w + 1,
                n % w - 1,
            );
        }
    }
}

/// The unit-vector scale derived from the viewport: the pair
/// `(0.1 / w, 0.1 / h)` kept exactly, as the divisors `(10 * w, 10 * h)`
/// of 1.  The shell turns it into floats only at the driver's edge.
#[derive(Clone, Copy, Debug, PartialEq, Eq, Structural)]
pub struct UnitScale {
    pub div_x: u64,
    pub div_y: u64,
}

/// The scale that belongs to a (clamped) viewport of `w` by `h`.
pub open spec fn unit_scale_for(w: u32, h: u32) -> UnitScale {
    UnitScale {
        div_x: (10 * clamped_dim(w)) as u64,
        div_y: (10 * clamped_dim(h)) as u64,
    }
}

/// The per-frame state the driver mutates: the seeded particle buffer, the
/// generator that seeded it, the cursor (as 32-bit float patterns), the
/// viewport and its derived scale, and the two GPU handles bound to the
/// particle buffer.
pub struct RenderState<const LEN: usize> {
    pub buffer: RenderData<LEN>,
    pub rng: Rng128,
    pub cursor_x_bits: u32,
    pub cursor_y_bits: u32,
    pub can_w: u32,
    pub can_h: u32,
    pub unit_vec: UnitScale,
    pub vao: u32,
    pub vbo: u32,
}

impl<const LEN: usize> RenderState<LEN> {
    /// The buffer holds its full complement of records.
    pub open spec fn wf(&self) -> bool {
        self.buffer.wf()
    }

    /// Build the state: seed the buffer from the generator, keep the
    /// generator, start the cursor at the origin, and derive the scale
    /// from the initial viewport.
    pub fn new(can_w: u32, can_h: u32, vao: u32, vbo: u32, rng: Rng128) -> (r: Self)
        ensures
            r.wf(),
            seeded_from(r.buffer.data@, rng.state(), LEN as nat),
            r.rng.state() == xs_state_at(rng.state(), (6 * LEN) as nat),
            r.cursor_x_bits == 0 && r.cursor_y_bits == 0,
            r.can_w == clamped_dim(can_w) && r.can_h == clamped_dim(can_h),
            r.unit_vec == unit_scale_for(can_w, can_h),
            r.vao == vao && r.vbo == vbo,
    {
        let mut rng = rng;
        let buffer = RenderData::new(&mut rng);
        let w: u32 = if can_w == 0 {
            1
        } else {
            can_w
        };
        let h: u32 = if can_h == 0 {
            1
        } else {
            can_h
        };
        RenderState {
            buffer,
            rng,
            cursor_x_bits: 0,
            cursor_y_bits: 0,
            can_w: w,
            can_h: h,
            unit_vec: UnitScale { div_x: 10 * (w as u64), div_y: 10 * (h as u64) },
            vao,
            vbo,
        }
    }

    /// The number of particles.
    pub fn count(&self) -> (r: usize)
        ensures
            r == LEN,
    {
        LEN
    }

    /// Record a new viewport size and update the unit-vector scale to
    /// `(0.1 / w, 0.1 / h)`.  A zero dimension is clamped to one, so the
    /// scale stays finite.  Nothing else changes.
    pub fn update_canvas_size(&mut self, w: u32, h: u32)
        ensures
            final(self).can_w == clamped_dim(w),
            final(self).can_h == clamped_dim(h),
            final(self).unit_vec == unit_scale_for(w, h),
            final(self).buffer == old(self).buffer,
            final(self).rng == old(self).rng,
            final(self).cursor_x_bits == old(self).cursor_x_bits,
            final(self).cursor_y_bits == old(self).cursor_y_bits,
            final(self).vao == old(self).vao,
            final(self).vbo == old(self).vbo,
    {
        let cw: u32 = if w == 0 {
            1
        } else {
            w
        };
        let ch: u32 = if h == 0 {
            1
        } else {
            h
        };
        self.can_w = cw;
        self.can_h = ch;
        self.unit_vec = UnitScale { div_x: 10 * (cw as u64), div_y: 10 * (ch as u64) };
    }

    /// The compute pass over the particle buffer: bind the buffer as the
    /// compute stage's storage, dispatch enough workgroups to cover every
    /// particle, and fence with a full barrier so the draw call that
    /// follows observes the writes.
    pub fn dispatch_compute_call(&self) -> (r: Vec<GpuCmd>)
        ensures
            r@ == dispatch_cmds(self.vbo, LEN as int),
    {
        let groups: usize = compute_group_count(LEN);
        let mut cmds: Vec<GpuCmd> = Vec::new();
        cmds.push(GpuCmd::BindStorageBuffer { buffer: self.vbo });
        cmds.push(GpuCmd::DispatchCompute { groups });
        cmds.push(GpuCmd::MemoryBarrier);
        proof {
            assert(cmds@ =~= dispatch_cmds(self.vbo, LEN as int));
        }
        cmds
    }
}

/// The three commands of one compute pass over `n` particles in buffer `vbo`.
pub open spec fn dispatch_cmds(vbo: u32, n: int) -> Seq<GpuCmd> {
    seq![
        GpuCmd::BindStorageBuffer { buffer: vbo },
        GpuCmd::DispatchCompute { groups: group_count(n) as usize },
        GpuCmd::MemoryBarrier,
    ]
}

/// The number of workgroups that covers `n` particles.
pub fn compute_group_count(n: usize) -> (r: usize)
    ensures
        r == group_count(n as int),
{
    n / WORKGROUP_SIZE + if n % WORKGROUP_SIZE == 0 {
        0
    } else {
        1
    }
}

} // verus!
