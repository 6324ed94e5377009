use dopewars::interest::{apply_interest, single_precision_interest_of};
use dopewars::rounding::round_f32;

/// The computation the interest rule stands for, in single precision.
fn by_float(debt: i32) -> i32 {
    let rate: f32 = 0.1;
    (debt as f32 * (1.0 + rate)) as i32
}

#[test]
fn starting_debt_grows_ten_percent() {
    assert_eq!(apply_interest(5000), 5500);
    assert_eq!(apply_interest(5500), 6050);
    assert_eq!(apply_interest(6050), 6655);
    assert_eq!(apply_interest(6655), 7320);
}

/// The rule of the game: the single-precision result, or one unit more than
/// a positive debt it would leave unchanged.
fn by_rule(debt: i32) -> i32 {
    let r = by_float(debt);
    if debt > 0 && debt < i32::MAX && r <= debt {
        debt + 1
    } else {
        r
    }
}

#[test]
fn small_debts_grow_by_one_unit() {
    assert_eq!(apply_interest(0), 0);
    assert_eq!(apply_interest(1), 2);
    assert_eq!(apply_interest(9), 10);
    assert_eq!(apply_interest(10), 11);
    assert_eq!(apply_interest(19), 20);
    assert_eq!(single_precision_interest_of(1), 1);
    assert_eq!(single_precision_interest_of(9), 9);
}

#[test]
fn a_positive_debt_always_grows() {
    for v in (1..=i32::MAX - 1).step_by(65_537).chain(1..100_000) {
        assert!(apply_interest(v) > v, "debt {}", v);
    }
    assert_eq!(apply_interest(i32::MAX), i32::MAX);
}

#[test]
fn first_debt_where_rounding_adds_a_unit() {
    assert_eq!(apply_interest(1_572_868), 1_572_868 + 157_286);
    assert_eq!(apply_interest(1_572_869), 1_572_869 + 157_286 + 1);
}

#[test]
fn saturates_at_the_bounds() {
    assert_eq!(apply_interest(i32::MAX), i32::MAX);
    assert_eq!(apply_interest(2_000_000_000), i32::MAX);
    assert_eq!(apply_interest(i32::MIN), i32::MIN);
    assert_eq!(apply_interest(-2_000_000_000), i32::MIN);
}

#[test]
fn matches_single_precision_on_a_sweep() {
    let mut d: i64 = 0;
    while d <= i32::MAX as i64 {
        let v = d as i32;
        assert_eq!(single_precision_interest_of(v), by_float(v), "debt {}", v);
        assert_eq!(single_precision_interest_of(-v), by_float(-v), "debt {}", -v);
        assert_eq!(apply_interest(v), by_rule(v), "debt {}", v);
        assert_eq!(apply_interest(-v), by_rule(-v), "debt {}", -v);
        d += 9_973;
    }
}

#[test]
fn matches_single_precision_near_powers_of_two() {
    for k in 0..31 {
        let p: i64 = 1i64 << k;
        for delta in -300i64..300 {
            let v = p + delta;
            if v >= i32::MIN as i64 && v <= i32::MAX as i64 {
                let v = v as i32;
                assert_eq!(single_precision_interest_of(v), by_float(v), "debt {}", v);
                assert_eq!(apply_interest(v), by_rule(v), "debt {}", v);
            }
        }
    }
}

#[test]
fn matches_single_precision_on_every_debt_below_three_million() {
    for v in 0..3_000_000 {
        assert_eq!(single_precision_interest_of(v), by_float(v), "debt {}", v);
        assert_eq!(apply_interest(v), by_rule(v), "debt {}", v);
    }
}

#[test]
fn integer_rounding_matches_single_precision() {
    let mut n: u64 = 1;
    while n < (1u64 << 60) {
        for delta in [0u64, 1, 2, 3, 7, 8, 9, 127, 128, 129, 255, 256, 257] {
            for m in [n.saturating_sub(delta), n + delta, n * 3 + delta, n * 5 - (delta % n.max(1))] {
                if m < (1u64 << 60) {
                    assert_eq!(round_f32(m), (m as f32) as u64, "n {}", m);
                }
            }
        }
        n *= 2;
    }
    let mut x: u64 = 0x1234_5678_9abc;
    for _ in 0..100_000 {
        x = x.wrapping_mul(6364136223846793005).wrapping_add(1442695040888963407);
        let m = x >> 4;
        assert_eq!(round_f32(m), (m as f32) as u64, "n {}", m);
    }
}
