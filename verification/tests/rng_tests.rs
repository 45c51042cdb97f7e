use doukutsu_rs::rng::{XorShift, Xoroshiro32PlusPlus, RNG};

#[test]
fn xorshift_first_draws_of_seed_zero() {
    let mut rng = XorShift::new(0);
    let draws: Vec<i32> = (0..6).map(|_| rng.next()).collect();
    assert_eq!(
        draws,
        vec![49935922, 1988954342, -331349800, -1489475146, -1949044847, 269715265]
    );
}

#[test]
fn xorshift_first_draws_of_seed_1234() {
    let mut rng = XorShift::new(1234);
    let draws: Vec<i32> = (0..4).map(|_| rng.next_u64()).collect();
    assert_eq!(draws, vec![51712882, 2038009382, 651894296, 514242037]);
}

#[test]
fn xorshift_negative_seed_is_sign_extended() {
    let mut rng = XorShift::new(-1);
    let draws: Vec<i32> = (0..4).map(|_| rng.next()).collect();
    assert_eq!(draws, vec![49934482, -1988987183, 520092319, -1408791690]);
    assert_eq!(
        rng.dump_state(),
        (
            12184837258294510914,
            4799353267238113346,
            13231407403109989440,
            3846070487172964605
        )
    );
}

#[test]
fn xorshift_next_u32_is_the_same_bits() {
    let mut a = XorShift::new(0);
    let mut b = XorShift::new(0);
    for _ in 0..16 {
        assert_eq!(a.next_u32(), b.next_u64() as u32);
    }
}

#[test]
fn xorshift_range_follows_the_shift_then_remainder_law() {
    let mut rng = XorShift::new(0);
    let samples: Vec<i32> = (0..8).map(|_| rng.range(0..99)).collect();
    assert_eq!(samples, vec![80, 85, 50, 13, 88, 16, 1, 58]);
    let mut rng = XorShift::new(1234);
    let samples: Vec<i32> = (0..8).map(|_| rng.range(-10..10)).collect();
    assert_eq!(samples, vec![1, -1, -2, -10, 6, 4, 5, 9]);
}

#[test]
fn xorshift_range_matches_the_formula_on_raw_draws() {
    let mut raw = XorShift::new(77);
    let mut sampled = XorShift::new(77);
    for _ in 0..200 {
        let expected = 5 + (raw.next() >> 2).rem_euclid(40 - 5 + 1);
        assert_eq!(sampled.range(5..40), expected);
    }
}

#[test]
fn xorshift_same_seed_same_sequence() {
    let mut a = XorShift::new(1234);
    let mut b = XorShift::new(1234);
    for _ in 0..64 {
        assert_eq!(a.range(0..99), b.range(0..99));
    }
}

#[test]
fn xorshift_snapshot_round_trip() {
    let mut original = XorShift::new(99);
    for _ in 0..10 {
        original.next();
    }
    let mut restored = XorShift::new(0);
    restored.load_state(original.dump_state());
    for _ in 0..100 {
        assert_eq!(restored.next(), original.next());
    }
}

#[test]
fn xoroshiro_first_outputs() {
    let mut rng = Xoroshiro32PlusPlus::new(0xdead_beef);
    let outputs: Vec<u16> = (0..6).map(|_| rng.next_u16()).collect();
    assert_eq!(outputs, vec![63530, 24881, 10934, 26659, 12874, 18870]);
    assert_eq!(rng.0, (45113, 50847));
}

#[test]
fn xoroshiro_draw_joins_two_outputs() {
    let mut rng = Xoroshiro32PlusPlus::new(0xdead_beef);
    let draws: Vec<i32> = (0..4).map(|_| rng.next()).collect();
    assert_eq!(draws, vec![1040881740, 179149320, 210932333, 407470767]);
}

#[test]
fn xoroshiro_range_reference_table() {
    let mut rng = Xoroshiro32PlusPlus::new(0xdead_beef);
    let samples: Vec<i32> = (0..8).map(|_| rng.range(0..119)).collect();
    assert_eq!(samples, vec![75, 90, 43, 51, 40, 12, 19, 118]);
}

#[test]
fn xoroshiro_range_is_within_bounds() {
    let mut rng = Xoroshiro32PlusPlus::new(0xdead_beef);
    for _ in 0..1000 {
        let v = rng.range(3..17);
        assert!(3 <= v && v <= 17);
    }
    for _ in 0..1000 {
        let v = rng.range(-12..12);
        assert!(-12 <= v && v <= 12);
    }
    for _ in 0..100 {
        assert_eq!(rng.range(9..9), 9);
    }
}

#[test]
fn xoroshiro_seed_splits_into_halves() {
    let rng = Xoroshiro32PlusPlus::new(0x1234_5678);
    assert_eq!(rng.0, (0x5678, 0x1234));
    assert_eq!(rng.dump_state(), 0x1234_5678);
}

#[test]
fn xoroshiro_snapshot_round_trip() {
    let mut original = Xoroshiro32PlusPlus::new(42);
    for _ in 0..7 {
        original.next();
    }
    let mut restored = Xoroshiro32PlusPlus::new(0);
    restored.load_state(original.dump_state());
    for _ in 0..100 {
        assert_eq!(restored.next(), original.next());
    }
}

#[test]
fn xoroshiro_same_seed_same_ranges() {
    let mut a = Xoroshiro32PlusPlus::new(5);
    let mut b = Xoroshiro32PlusPlus::new(5);
    for i in 0..100 {
        assert_eq!(a.range(0..i), b.range(0..i));
    }
}

#[test]
fn xorshift_range_is_within_bounds_also_for_negative_draws() {
    let mut raw = XorShift::new(0);
    let mut rng = XorShift::new(0);
    let mut negative = 0;
    for _ in 0..2000 {
        if raw.next() < 0 {
            negative += 1;
        }
        let v = rng.range(0..9);
        assert!(0 <= v && v <= 9);
    }
    assert!(negative > 0);
    for _ in 0..2000 {
        let v = rng.range(-10..10);
        assert!(-10 <= v && v <= 10);
    }
    for _ in 0..100 {
        assert!(rng.range(0..i32::MAX) >= 0);
        let v = rng.range(i32::MIN..i32::MIN + 3);
        assert!(v <= i32::MIN + 3);
    }
}

#[test]
fn range_of_the_widest_interval_from_zero() {
    let mut rng = XorShift::new(5);
    let samples: Vec<i32> = (0..4).map(|_| rng.range(0..i32::MAX)).collect();
    assert_eq!(samples, vec![12485780, 497240385, 153093950, 371069437]);
}
