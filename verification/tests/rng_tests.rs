use particles::particle::RenderData;
use particles::rng::{seed_from_entropy, Rng128};
use voxell_rng::rng::XorShift128;
use voxell_rng::rng_interface::Rng;

#[test]
fn rng_matches_voxell_u64_stream() {
    let mut ours = Rng128::wrap(0x1234_5678_9abc_def0, 0x0fed_cba9_8765_4321);
    let mut theirs = XorShift128::wrap([0x1234_5678_9abc_def0, 0x0fed_cba9_8765_4321]);
    for _ in 0..256 {
        assert_eq!(ours.next_u64(), theirs.next_u64());
    }
}

#[test]
fn rng_matches_voxell_u32_stream() {
    let mut ours = Rng128::wrap(42, 99);
    let mut theirs = XorShift128::wrap([42, 99]);
    for _ in 0..256 {
        assert_eq!(ours.next_u32(), theirs.next_u32());
    }
}

#[test]
fn rng_wrap_keeps_seed() {
    let mut ours = Rng128::wrap(7, 8);
    let mut theirs = XorShift128::wrap([7, 8]);
    // The first draw is decided entirely by the wrapped seed.
    assert_eq!(ours.next_u64(), theirs.next_u64());
}

#[test]
fn seed_from_entropy_succeeds() {
    let r = seed_from_entropy();
    assert!(r.is_ok());
}

#[test]
fn seeding_is_deterministic() {
    // Two generators in identical state produce byte-identical particle
    // arrays, record for record and component for component.
    let mut a = Rng128::wrap(0xdead_beef, 0xcafe_f00d);
    let mut b = Rng128::wrap(0xdead_beef, 0xcafe_f00d);
    let buf_a = RenderData::<64>::new(&mut a);
    let buf_b = RenderData::<64>::new(&mut b);
    assert_eq!(buf_a.data().len(), 64);
    assert_eq!(buf_a.data(), buf_b.data());
    // And the floats they stand for are bit-identical too.
    for (pa, pb) in buf_a.data().iter().zip(buf_b.data().iter()) {
        let fa = pa.pos.x as f32 / u32::MAX as f32;
        let fb = pb.pos.x as f32 / u32::MAX as f32;
        assert_eq!(fa.to_bits(), fb.to_bits());
    }
}

#[test]
fn seeding_matches_voxell_float_stream() {
    // The seeded components, read back as unit-interval floats, are
    // exactly the reference generator's float stream in draw order:
    // position, velocity, acceleration, x before y, per record.
    let mut ours = Rng128::wrap(11, 13);
    let mut theirs = XorShift128::wrap([11, 13]);
    let buf = RenderData::<16>::new(&mut ours);
    for p in buf.data().iter() {
        for raw in [p.pos.x, p.pos.y, p.vel.x, p.vel.y, p.acc.x, p.acc.y] {
            let expected = theirs.next_f32();
            let got = raw as f32 / u32::MAX as f32;
            assert_eq!(got.to_bits(), expected.to_bits());
        }
    }
}

#[test]
fn seeding_advances_generator() {
    // After seeding, the generator stands exactly 6 * LEN draws ahead.
    let mut seeded = Rng128::wrap(3, 5);
    let _ = RenderData::<10>::new(&mut seeded);
    let mut skipped = Rng128::wrap(3, 5);
    for _ in 0..60 {
        let _ = skipped.next_u32();
    }
    assert_eq!(seeded.next_u64(), skipped.next_u64());
}
