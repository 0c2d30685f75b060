//! The particle buffer's CPU-side contents and their deterministic seeding.
//!
//! Each particle holds three 2-vectors — position, velocity, acceleration —
//! whose components are drawn from the generator in a fixed order, so a
//! buffer is a pure function of the generator's initial state.  A component
//! is kept as the raw 32-bit draw; the unit-interval float it stands for is
//! `draw / (2^32 - 1)`, a conversion the unverified shell applies just
//! before upload.

use vstd::prelude::*;

use crate::rng::{xs_state_at, xs_u32_at, Rng128};

verus! {

/// A two-component vector of unit-interval samples, each kept as the raw
/// 32-bit draw it was built from.
#[derive(Clone, Copy, Debug, PartialEq, Eq, Structural)]
pub struct Vec2Sample {
    pub x: u32,
    pub y: u32,
}

/// One particle: position, velocity and acceleration.
#[derive(Clone, Copy, Debug, PartialEq, Eq, Structural)]
pub struct Particle {
    pub pos: Vec2Sample,
    pub vel: Vec2Sample,
    pub acc: Vec2Sample,
}

/// The particle at index `i` of a buffer seeded from generator state `st`:
/// its six components are draws `6*i` through `6*i + 5`, assigned in the
/// order position, velocity, acceleration, x before y.
pub open spec fn particle_at(st: (u64, u64), i: nat) -> Particle {
    Particle {
        pos: Vec2Sample { x: xs_u32_at(st, 6 * i), y: xs_u32_at(st, 6 * i + 1) },
        vel: Vec2Sample { x: xs_u32_at(st, 6 * i + 2), y: xs_u32_at(st, 6 * i + 3) },
        acc: Vec2Sample { x: xs_u32_at(st, 6 * i + 4), y: xs_u32_at(st, 6 * i + 5) },
    }
}

/// Whether `data` is exactly the `n`-slot buffer seeded from state `st`.
pub open spec fn seeded_from(data: Seq<Particle>, st: (u64, u64), n: nat) -> bool {
    &&& data.len() == n
    &&& forall|i: int| 0 <= i < n ==> data[i] == particle_at(st, i as nat)
}

/// The CPU-resident contents of the particle buffer: exactly `LEN` records.
pub struct RenderData<const LEN: usize> {
    pub data: Vec<Particle>,
}

impl<const LEN: usize> RenderData<LEN> {
    /// The buffer always holds exactly `LEN` records.
    pub open spec fn wf(&self) -> bool {
        self.data@.len() == LEN
    }

    /// Seed a buffer: for each slot in index order, draw six values and
    /// assign them to the components in the fixed order.  The result is a
    /// pure function of the generator's starting state, and the generator
    /// ends exactly `6 * LEN` draws ahead.
    pub fn new(rng: &mut Rng128) -> (r: Self)
        ensures
            r.wf(),
            seeded_from(r.data@, old(rng).state(), LEN as nat),
            final(rng).state() == xs_state_at(old(rng).state(), (6 * LEN) as nat),
    {
        let ghost start: (u64, u64) = rng.state();
        let mut data: Vec<Particle> = Vec::new();
        let mut i: usize = 0;
        while i < LEN
            invariant
                i <= LEN,
                data@.len() == i,
                rng.state() == xs_state_at(start, (6 * i) as nat),
                forall|j: int| 0 <= j < i ==> data@[j] == particle_at(start, j as nat),
            decreases LEN - i,
        {
            proof {
                lemma_xs_state_unfold(start, (6 * i) as nat);
                lemma_xs_state_unfold(start, (6 * i + 1) as nat);
                lemma_xs_state_unfold(start, (6 * i + 2) as nat);
                lemma_xs_state_unfold(start, (6 * i + 3) as nat);
                lemma_xs_state_unfold(start, (6 * i + 4) as nat);
                lemma_xs_state_unfold(start, (6 * i + 5) as nat);
            }
            let px: u32 = rng.next_u32();
            let py: u32 = rng.next_u32();
            let vx: u32 = rng.next_u32();
            let vy: u32 = rng.next_u32();
            let ax: u32 = rng.next_u32();
            let ay: u32 = rng.next_u32();
            data.push(
                Particle {
                    pos: Vec2Sample { x: px, y: py },
                    vel: Vec2Sample { x: vx, y: vy },
                    acc: Vec2Sample { x: ax, y: ay },
                },
            );
            i = i + 1;
        }
        RenderData { data }
    }

    /// The records, read-only.
    pub fn data(&self) -> (r: &Vec<Particle>)
        ensures
            r@ == self.data@,
    {
        &self.data
    }
}

/// Peeling one draw off the end of an `n + 1`-draw advance.
pub proof fn lemma_xs_state_unfold(st: (u64, u64), n: nat)
    ensures
        xs_state_at(st, n + 1) == crate::rng::xs_next_state(xs_state_at(st, n)),
{
}

/// Seeding is deterministic: two buffers seeded from generators in the
/// same state hold the same particles, record for record.
pub proof fn lemma_seed_deterministic(a: Seq<Particle>, b: Seq<Particle>, st: (u64, u64), n: nat)
    requires
        seeded_from(a, st, n),
        seeded_from(b, st, n),
    ensures
        a == b,
{
    assert(a =~= b);
}

} // verus!
