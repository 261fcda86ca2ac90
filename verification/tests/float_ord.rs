use spatialos_sdk::worker::schema::FloatOrd;
use std::collections::hash_map::DefaultHasher;
use std::cmp::Ordering;
use std::hash::{Hash, Hasher};

fn f64_ord(x: f64) -> FloatOrd<u64> {
    FloatOrd(x.to_bits())
}

fn f32_ord(x: f32) -> FloatOrd<u32> {
    FloatOrd(x.to_bits())
}

fn hash<F: Hash>(f: F) -> u64 {
    let mut hasher = DefaultHasher::new();
    f.hash(&mut hasher);
    hasher.finish()
}

#[test]
fn test_ord() {
    assert!(f64_ord(1.0f64) < f64_ord(2.0f64));
    assert!(f32_ord(2.0f32) > f32_ord(1.0f32));
    assert!(f64_ord(1.0f64) == f64_ord(1.0f64));
    assert!(f32_ord(1.0f32) == f32_ord(1.0f32));
    assert!(f64_ord(0.0f64) > f64_ord(-0.0f64));
    assert!(f32_ord(0.0f32) > f32_ord(-0.0f32));
    assert!(f64_ord(::core::f64::NAN) == f64_ord(::core::f64::NAN));
    assert!(f32_ord(::core::f32::NAN) == f32_ord(::core::f32::NAN));
    assert!(f64_ord(-::core::f64::NAN) < f64_ord(::core::f64::NAN));
    assert!(f32_ord(-::core::f32::NAN) < f32_ord(::core::f32::NAN));
    assert!(f64_ord(-::core::f64::INFINITY) < f64_ord(::core::f64::INFINITY));
    assert!(f32_ord(-::core::f32::INFINITY) < f32_ord(::core::f32::INFINITY));
    assert!(f64_ord(::core::f64::INFINITY) < f64_ord(::core::f64::NAN));
    assert!(f32_ord(::core::f32::INFINITY) < f32_ord(::core::f32::NAN));
    assert!(f64_ord(-::core::f64::NAN) < f64_ord(::core::f64::INFINITY));
    assert!(f32_ord(-::core::f32::NAN) < f32_ord(::core::f32::INFINITY));
}

#[test]
fn test_hash() {
    assert_ne!(hash(f64_ord(0.0f64)), hash(f64_ord(-0.0f64)));
    assert_ne!(hash(f32_ord(0.0f32)), hash(f32_ord(-0.0f32)));
    assert_eq!(hash(f64_ord(-0.0f64)), hash(f64_ord(-0.0f64)));
    assert_eq!(hash(f32_ord(0.0f32)), hash(f32_ord(0.0f32)));
    assert_ne!(hash(f64_ord(::core::f64::NAN)), hash(f64_ord(-::core::f64::NAN)));
    assert_ne!(hash(f32_ord(::core::f32::NAN)), hash(f32_ord(-::core::f32::NAN)));
    assert_eq!(hash(f64_ord(::core::f64::NAN)), hash(f64_ord(::core::f64::NAN)));
    assert_eq!(hash(f32_ord(-::core::f32::NAN)), hash(f32_ord(-::core::f32::NAN)));
}

#[test]
fn float_ord_total_order_of_classes() {
    // NaN with sign | -Infinity | x < 0 | -0 | +0 | x > 0 | +Infinity | NaN
    let ordered = [
        -::core::f64::NAN,
        -::core::f64::INFINITY,
        -2.5f64,
        -1.0e-300f64,
        -0.0f64,
        0.0f64,
        1.0e-300f64,
        2.5f64,
        ::core::f64::INFINITY,
        ::core::f64::NAN,
    ];
    for i in 0..ordered.len() {
        for j in 0..ordered.len() {
            let (a, b) = (f64_ord(ordered[i]), f64_ord(ordered[j]));
            assert_eq!(a < b, i < j);
            assert_eq!(a == b, i == j);
        }
    }
}

#[test]
fn float_ord_convert_keys() {
    assert_eq!(FloatOrd(0u64).convert(), 0x8000_0000_0000_0000u64);
    assert_eq!(FloatOrd(0x8000_0000_0000_0000u64).convert(), 0x7fff_ffff_ffff_ffffu64);
    assert_eq!(FloatOrd(1.0f64.to_bits()).convert(), 1.0f64.to_bits() | (1u64 << 63));
    assert_eq!(FloatOrd(0u32).convert(), 0x8000_0000u32);
    assert_eq!(FloatOrd((-1.0f32).to_bits()).convert(), !(-1.0f32).to_bits());
}

#[test]
fn float_ord_partial_cmp_is_total() {
    assert_eq!(f64_ord(::core::f64::NAN).partial_cmp(&f64_ord(1.0)), Some(Ordering::Greater));
    assert_eq!(f32_ord(-3.0).partial_cmp(&f32_ord(-2.0)), Some(Ordering::Less));
    assert_eq!(f32_ord(7.0).partial_cmp(&f32_ord(7.0)), Some(Ordering::Equal));
}

#[test]
fn test_ord_numbers() {
    // A fixed pseudo-random sequence of values in [0, 1).
    let mut state: u64 = 0x853c_49e6_748f_ea9b;
    let mut next = move || {
        state = state
            .wrapping_mul(6364136223846793005)
            .wrapping_add(1442695040888963407);
        (state >> 11) as f64 / (1u64 << 53) as f64
    };
    for n in 0..16 {
        for l in 0..16 {
            let v = std::iter::repeat(())
                .map(|()| next())
                .map(|x: f64| x % (1i64 << l) as f64)
                .take(1 << n)
                .collect::<Vec<_>>();
            assert!(v
                .windows(2)
                .all(|w| (w[0] <= w[1]) == (f64_ord(w[0]) <= f64_ord(w[1]))));
        }
    }
}
