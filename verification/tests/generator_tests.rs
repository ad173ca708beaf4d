use omnim_rng::pcg::Pcg32;
use omnim_rng::uniform::map_draw_32;
use omnim_rng::uniform::map_draw_64;
use omnim_rng::xorshift::Xorshift64;

#[test]
fn xorshift_golden_vectors() {
    let mut g = Xorshift64::new(42);
    let draws: Vec<u64> = vec![
        g.next_int(),
        g.next_int(),
        g.next_int(),
        g.next_int(),
        g.next_int(),
    ];
    assert_eq!(
        draws,
        vec![
            45454805674,
            11532217803599905471,
            10021416941527320954,
            2899061411254629736,
            5661411637479084162,
        ]
    );
}

#[test]
fn xorshift_seed_zero_is_remapped() {
    let mut g = Xorshift64::new(0);
    assert_eq!(g.next_int(), 4018790486776397394);
    assert_eq!(g.next_int(), 1619613248682813358);
    assert_eq!(g.next_int(), 12314804274138566369);
}

#[test]
fn xorshift_seed_zero_never_draws_zero() {
    let mut g = Xorshift64::new(0);
    for _ in 0..1000 {
        assert_ne!(g.next_int(), 0);
    }
}

#[test]
fn xorshift_determinism() {
    let mut a = Xorshift64::new(12345);
    let mut b = Xorshift64::new(12345);
    for _ in 0..100 {
        assert_eq!(a.next_int(), b.next_int());
    }
}

#[test]
fn xorshift_batch_equivalence() {
    let mut batch = Xorshift64::new(7);
    let mut single = Xorshift64::new(7);
    let xs = batch.next_ints(10);
    assert_eq!(xs.len(), 10);
    for x in xs {
        assert_eq!(x, single.next_int());
    }
}

#[test]
fn xorshift_random_int_range() {
    let mut g = Xorshift64::new(99);
    for _ in 0..10000 {
        let r = g.random_int(-50, 50);
        assert!(-50 <= r && r <= 50);
    }
}

#[test]
fn xorshift_random_int_exact() {
    let mut g = Xorshift64::new(42);
    assert_eq!(g.random_int(1, 10), 5);
    let mut h = Xorshift64::new(42);
    assert_eq!(h.random_int(-5, 5), -2);
}

#[test]
fn xorshift_random_ints_match_singles() {
    let mut batch = Xorshift64::new(11);
    let mut single = Xorshift64::new(11);
    let rs = batch.random_ints(20, 3, 9);
    assert_eq!(rs.len(), 20);
    for r in rs {
        assert_eq!(r, single.random_int(3, 9));
    }
}

#[test]
fn pcg_golden_vectors() {
    let mut g = Pcg32::new(42);
    let draws: Vec<u32> = vec![
        g.next_int(),
        g.next_int(),
        g.next_int(),
        g.next_int(),
        g.next_int(),
    ];
    assert_eq!(
        draws,
        vec![4164751464, 2412343526, 3322333809, 728953987, 4022858713]
    );
}

#[test]
fn pcg_increment_is_odd() {
    for seed in [0u64, 1, 2, 41, 42, 1 << 63, u64::MAX] {
        let g = Pcg32::new(seed);
        assert_eq!(g.increment() % 2, 1);
        assert_eq!(g.increment(), seed | 1);
    }
}

#[test]
fn pcg_determinism() {
    let mut a = Pcg32::new(2024);
    let mut b = Pcg32::new(2024);
    for _ in 0..100 {
        assert_eq!(a.next_int(), b.next_int());
    }
}

#[test]
fn pcg_batch_equivalence() {
    let mut batch = Pcg32::new(7);
    let mut single = Pcg32::new(7);
    let xs = batch.next_ints(10);
    assert_eq!(xs.len(), 10);
    for x in xs {
        assert_eq!(x, single.next_int());
    }
}

#[test]
fn pcg_random_int_range() {
    let mut g = Pcg32::new(5);
    for _ in 0..10000 {
        let r = g.random_int(0, 6);
        assert!(0 <= r && r <= 6);
    }
    let mut h = Pcg32::new(6);
    for _ in 0..10000 {
        let r = h.random_int(-1000, -900);
        assert!(-1000 <= r && r <= -900);
    }
}

#[test]
fn pcg_random_int_exact() {
    let mut g = Pcg32::new(42);
    assert_eq!(g.random_int(1, 10), 5);
    let mut h = Pcg32::new(42);
    assert_eq!(h.random_int(-5, 5), 0);
}

#[test]
fn pcg_random_ints_match_singles() {
    // The batch form folds each 32-bit draw over a 64-bit range width.
    let mut batch = Pcg32::new(77);
    let mut single = Pcg32::new(77);
    let rs = batch.random_ints(20, -10, 10);
    assert_eq!(rs.len(), 20);
    for r in rs {
        let v = single.next_int() as u64;
        assert_eq!(r, (v % 21) as i64 - 10);
    }
}

#[test]
fn map_draws_exact() {
    assert_eq!(map_draw_64(100, 1, 10), 1);
    assert_eq!(map_draw_64(u64::MAX, -3, 3), -2);
    assert_eq!(map_draw_32(50, -5, 5), 1);
    assert_eq!(map_draw_64(7, 7, 7), 7);
}
