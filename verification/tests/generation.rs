//! Deterministic generation: the seeded stream, derived batches and the
//! derived input distributions, held against the raw generator they wrap.

use misc_benches::batch::{draw_run, random_array, random_index_array};
use misc_benches::orient::{identity_array, pair_duplicates, to_positive_array, Orientation};
use misc_benches::rng::DetRng;
use misc_benches::transform::random_transform_array;
use rand::{Rng, RngCore, SeedableRng};

fn orientation_from(a: u64, b: u64) -> Orientation {
    Orientation {
        x: (a >> 32) as u32,
        y: a as u32,
        z: (b >> 32) as u32,
        w: b as u32,
    }
}

fn orientation_pair_arrays(seed: u64, count: usize) -> (Vec<Orientation>, Vec<Orientation>) {
    let mut rng = DetRng::seeded(seed);
    let words = random_array(&mut rng, count * 4);
    let left: Vec<Orientation> = (0..count)
        .map(|i| orientation_from(words[4 * i], words[4 * i + 1]))
        .collect();
    let right: Vec<Orientation> = (0..count)
        .map(|i| orientation_from(words[4 * i + 2], words[4 * i + 3]))
        .collect();
    (left, right)
}

#[test]
fn same_seed_same_batch() {
    let mut rng1 = DetRng::seeded(1234);
    let mut rng2 = DetRng::seeded(1234);
    let a = random_array(&mut rng1, 64);
    let b = random_array(&mut rng2, 64);
    assert_eq!(a, b);

    let mut rng3 = DetRng::seeded(1235);
    let c = random_array(&mut rng3, 64);
    assert_ne!(a, c);
}

#[test]
fn batch_matches_raw_generator() {
    let mut rng = DetRng::seeded(1234);
    let batch = random_array(&mut rng, 32);

    let mut raw = rand::rngs::StdRng::seed_from_u64(1234);
    let expected: Vec<u64> = (0..32).map(|_| raw.next_u64()).collect();
    assert_eq!(batch, expected);
}

#[test]
fn empty_batch_is_empty() {
    let mut rng = DetRng::seeded(1234);
    let batch = random_array(&mut rng, 0);
    assert!(batch.is_empty());
}

#[test]
fn draw_run_matches_raw_loop() {
    let observed = draw_run(1234, 100);

    let mut raw = rand::rngs::StdRng::seed_from_u64(1234);
    for _ in 0..100u64 {
        raw.next_u64();
    }
    assert_eq!(observed, raw.next_u64());
}

#[test]
fn draw_run_is_reproducible() {
    assert_eq!(draw_run(1234, 1000), draw_run(1234, 1000));
    assert_ne!(draw_run(1234, 1000), draw_run(1234, 999));
}

#[test]
fn coins_match_raw_generator() {
    let mut rng = DetRng::seeded(42);
    let coins: Vec<bool> = (0..64).map(|_| rng.coin()).collect();

    let mut raw = rand::rngs::StdRng::seed_from_u64(42);
    let expected: Vec<bool> = (0..64).map(|_| raw.gen::<bool>()).collect();
    assert_eq!(coins, expected);
    assert!(coins.iter().any(|&c| c));
    assert!(coins.iter().any(|&c| !c));
}

#[test]
fn index_array_is_bounded_and_deterministic() {
    let mut rng1 = DetRng::seeded(1234);
    let a = random_index_array(&mut rng1, 4096, 4096);
    assert_eq!(a.len(), 4096);
    assert!(a.iter().all(|&i| i < 4096));

    let mut rng2 = DetRng::seeded(1234);
    let b = random_index_array(&mut rng2, 4096, 4096);
    assert_eq!(a, b);

    let mut raw = rand::rngs::StdRng::seed_from_u64(1234);
    let expected: Vec<usize> = (0..4096).map(|_| (raw.next_u64() % 4096) as usize).collect();
    assert_eq!(a, expected);
}

#[test]
fn into_inner_continues_the_stream() {
    let mut rng = DetRng::seeded(5);
    let first = rng.next_u64();
    let mut rest = rng.into_inner();

    let mut raw = rand::rngs::StdRng::seed_from_u64(5);
    assert_eq!(first, raw.next_u64());
    assert_eq!(rest.next_u64(), raw.next_u64());
}

#[test]
fn pair_duplicates_exact_or_untouched() {
    let (mut left, right) = orientation_pair_arrays(1234, 4096);
    let original_left = left.clone();
    let mut rng = DetRng::seeded(77);
    pair_duplicates(&mut left, &right, &mut rng);

    for i in 0..4096 {
        assert!(left[i] == right[i] || left[i] == original_left[i]);
    }
}

#[test]
fn pair_duplicates_follows_coin_stream() {
    let (mut left, right) = orientation_pair_arrays(1234, 512);
    let original_left = left.clone();
    let mut rng = DetRng::seeded(77);
    pair_duplicates(&mut left, &right, &mut rng);

    let mut raw = rand::rngs::StdRng::seed_from_u64(77);
    for i in 0..512 {
        if raw.gen::<bool>() {
            assert_eq!(left[i], right[i]);
        } else {
            assert_eq!(left[i], original_left[i]);
        }
    }
}

#[test]
fn pair_duplicates_about_half() {
    let (mut left, right) = orientation_pair_arrays(1234, 4096);
    let original_left = left.clone();
    let mut rng = DetRng::seeded(77);
    pair_duplicates(&mut left, &right, &mut rng);

    let duplicates = (0..4096).filter(|&i| left[i] == right[i]).count();
    // The source arrays are independently drawn, so collisions between
    // untouched elements and their partners are negligible; the duplicate
    // share should sit in a 50% +/- 5% band.
    assert!(duplicates >= 4096 * 45 / 100, "duplicates = {duplicates}");
    assert!(duplicates <= 4096 * 55 / 100, "duplicates = {duplicates}");
    let untouched = (0..4096).filter(|&i| left[i] == original_left[i]).count();
    assert_eq!(duplicates + untouched, 4096);
}

#[test]
fn positive_variant_clears_signs() {
    let src = vec![
        Orientation {
            x: (-0.5f32).to_bits(),
            y: 0.25f32.to_bits(),
            z: (-1.75f32).to_bits(),
            w: (-0.0f32).to_bits(),
        },
        Orientation {
            x: 1.0f32.to_bits(),
            y: (-3.5f32).to_bits(),
            z: 0.0f32.to_bits(),
            w: 2.0f32.to_bits(),
        },
    ];
    let out = to_positive_array(&src);
    assert_eq!(out.len(), 2);
    for (s, p) in src.iter().zip(out.iter()) {
        for (sc, pc) in [(s.x, p.x), (s.y, p.y), (s.z, p.z), (s.w, p.w)] {
            let sv = f32::from_bits(sc);
            let pv = f32::from_bits(pc);
            assert!(pv >= 0.0);
            assert_eq!(pv, sv.abs());
            assert_eq!(pc, f32::from_bits(sc).abs().to_bits());
        }
    }
    assert_eq!(f32::from_bits(out[0].x), 0.5);
    assert_eq!(f32::from_bits(out[0].w), 0.0);
}

#[test]
fn identity_array_is_the_identity_rotation() {
    let out = identity_array(3);
    assert_eq!(out.len(), 3);
    let q = glam::Quat::IDENTITY;
    for o in &out {
        assert_eq!(o.x, q.x.to_bits());
        assert_eq!(o.y, q.y.to_bits());
        assert_eq!(o.z, q.z.to_bits());
        assert_eq!(o.w, q.w.to_bits());
        assert_eq!(f32::from_bits(o.w), 1.0);
    }
}

#[test]
fn transform_batch_is_unit_rotations() {
    let mut rng = DetRng::seeded(1234);
    let batch = random_transform_array(&mut rng, 1024);
    assert_eq!(batch.len(), 1024);
    for t in &batch {
        assert!((t.rotation.length() - 1.0).abs() <= 1e-5);
        assert_eq!(t.translation, glam::Vec3::ZERO);
        assert_eq!(t.scale, glam::Vec3::ONE);
    }
}

#[test]
fn transform_batch_matches_raw_sampler() {
    let mut rng = DetRng::seeded(1234);
    let batch = random_transform_array(&mut rng, 64);

    let mut raw = rand::rngs::StdRng::seed_from_u64(1234);
    for t in &batch {
        let q = raw.gen::<glam::Quat>();
        assert_eq!(*t, bevy_transform::components::Transform::from_rotation(q));
    }
}

#[test]
fn empty_transform_batch_consumes_nothing() {
    let mut rng = DetRng::seeded(1234);
    let batch = random_transform_array(&mut rng, 0);
    assert!(batch.is_empty());

    // The stream continues exactly as if the call had not happened.
    let mut raw = rand::rngs::StdRng::seed_from_u64(1234);
    assert_eq!(rng.next_u64(), raw.next_u64());
}

#[test]
fn transform_batch_is_reproducible() {
    let mut rng1 = DetRng::seeded(1234);
    let mut rng2 = DetRng::seeded(1234);
    let a = random_transform_array(&mut rng1, 128);
    let b = random_transform_array(&mut rng2, 128);
    assert_eq!(a, b);
}
