//! The pseudo-random generator that seeds the particle buffer.
//!
//! The generator is a xorshift128: two 64-bit state words, advanced by a
//! short round of shifts and xors.  The whole behaviour is stated by the
//! spec functions below, so the particle seeding that consumes the stream
//! can be pinned down exactly.  The initial seed comes from OS entropy,
//! reached through the outside `voxell_rng` crate.

use vstd::prelude::*;

verus! {

/// The mixing round applied to the first state word, folding in the second.
pub open spec fn xs_mix(t0: u64, s: u64) -> u64 {
    let a = t0 ^ (t0 << 23u64);
    let b = a ^ (a >> 18u64);
    b ^ (s ^ (s >> 5u64))
}

/// The state that follows `st` after one draw.
pub open spec fn xs_next_state(st: (u64, u64)) -> (u64, u64) {
    (st.1, xs_mix(st.0, st.1))
}

/// The 64-bit value drawn from state `st`.
pub open spec fn xs_output(st: (u64, u64)) -> u64 {
    xs_mix(st.0, st.1).wrapping_add(st.1)
}

/// The state reached from `st` after `n` draws.
pub open spec fn xs_state_at(st: (u64, u64), n: nat) -> (u64, u64)
    decreases n,
{
    if n == 0 {
        st
    } else {
        xs_next_state(xs_state_at(st, (n - 1) as nat))
    }
}

/// The `n`-th 32-bit draw (counting from 0) out of initial state `st`:
/// the low half of the corresponding 64-bit draw.
pub open spec fn xs_u32_at(st: (u64, u64), n: nat) -> u32 {
    xs_output(xs_state_at(st, n)) as u32
}

/// A xorshift128 generator.  Every draw is a pure function of the state,
/// so a buffer seeded from it is reproducible from the seed alone.
pub struct Rng128 {
    pub s0: u64,
    pub s1: u64,
}

impl Rng128 {
    /// The two state words.
    pub open spec fn state(&self) -> (u64, u64) {
        (self.s0, self.s1)
    }

    /// Wrap a seed directly into the generator state.
    pub fn wrap(seed0: u64, seed1: u64) -> (r: Self)
        ensures
            r.state() == (seed0, seed1),
    {
        Rng128 { s0: seed0, s1: seed1 }
    }

    /// Draw the next 64-bit value and advance the state.
    pub fn next_u64(&mut self) -> (r: u64)
        ensures
            final(self).state() == xs_next_state(old(self).state()),
            r == xs_output(old(self).state()),
    {
        let mut t: u64 = self.s0;
        let s: u64 = self.s1;
        self.s0 = s;
        t = t ^ (t << 23u64);
        t = t ^ (t >> 18u64);
        t = t ^ (s ^ (s >> 5u64));
        self.s1 = t;
        t.wrapping_add(s)
    }

    /// Draw the next 32-bit value: the low half of the next 64-bit draw.
    pub fn next_u32(&mut self) -> (r: u32)
        ensures
            final(self).state() == xs_next_state(old(self).state()),
            r == xs_u32_at(old(self).state(), 0),
    {
        self.next_u64() as u32
    }
}

/// The operating system could not supply the randomness for a seed.
#[derive(Clone, Copy, Debug, PartialEq, Eq, Structural)]
pub struct EntropySourceError;

/// Relies on voxell_rng's `GenRandom` for `u64`: one word of OS entropy,
/// or an error when the OS cannot supply randomness.  Nothing holds of
/// the value itself.
#[verifier::external_body]
fn entropy_u64() -> (r: Option<u64>) {
    <u64 as voxell_rng::genrandom::GenRandom>::get_random().ok()
}

/// Seed a generator from OS entropy: two fresh words become the two
/// state words.  Fails exactly when the entropy source does.
pub fn seed_from_entropy() -> (r: Result<Rng128, EntropySourceError>) {
    let first = match entropy_u64() {
        Some(v) => v,
        None => {
            return Err(EntropySourceError);
        },
    };
    let second = match entropy_u64() {
        Some(v) => v,
        None => {
            return Err(EntropySourceError);
        },
    };
    Ok(Rng128::wrap(first, second))
}

} // verus!
