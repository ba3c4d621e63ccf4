use probability_rs::rng::{Pcg32, RngCore, SplitMix64, Xoroshiro128PlusPlus, Xoshiro256StarStar};

/// A uniform double in [0, 1) with 53 bits of precision.
fn next_f64<R: RngCore>(rng: &mut R) -> f64 {
    const DEN: f64 = (1u64 << 53) as f64;
    (rng.next_u53() as f64) / DEN
}

#[test]
fn rng_deterministic_sequence() {
    let mut r1 = SplitMix64::seed_from_u64(1);
    let mut r2 = SplitMix64::seed_from_u64(1);
    for _ in 0..10 {
        assert_eq!(r1.next_u64(), r2.next_u64());
    }
}

#[test]
fn splitmix64_deterministic_sequence() {
    let mut r1 = SplitMix64::seed_from_u64(1);
    let mut r2 = SplitMix64::seed_from_u64(1);
    for _ in 0..10 {
        assert_eq!(r1.next_u64(), r2.next_u64());
    }
}

#[test]
fn deterministic_sequence_from_seed() {
    let mut r1 = Pcg32::seed_from_u64(123);
    let mut r2 = Pcg32::seed_from_u64(123);
    for _ in 0..32 {
        assert_eq!(r1.next_u32(), r2.next_u32());
    }
}

#[test]
fn different_streams_diverge() {
    let mut r1 = Pcg32::from_seed_and_stream(42, 1);
    let mut r2 = Pcg32::from_seed_and_stream(42, 2);
    // Not guaranteed first output differs, but within a few steps likely diverges
    let mut diff = false;
    for _ in 0..16 {
        if r1.next_u32() != r2.next_u32() {
            diff = true;
            break;
        }
    }
    assert!(diff);
}

#[test]
fn pcg32_next_f64_in_range() {
    let mut r = Pcg32::seed_from_u64(7);
    for _ in 0..1000 {
        let x = next_f64(&mut r);
        assert!(x >= 0.0 && x < 1.0);
    }
}

#[test]
fn xoroshiro128_deterministic_sequence() {
    let mut r1 = Xoroshiro128PlusPlus::seed_from_u64(42);
    let mut r2 = Xoroshiro128PlusPlus::seed_from_u64(42);
    for _ in 0..16 {
        assert_eq!(r1.next_u64(), r2.next_u64());
    }
}

#[test]
fn xoroshiro128_next_f64_in_range() {
    let mut r = Xoroshiro128PlusPlus::seed_from_u64(7);
    for _ in 0..1000 {
        let x = next_f64(&mut r);
        assert!(x >= 0.0 && x < 1.0);
    }
}

#[test]
fn xoshiro256_deterministic_sequence() {
    let mut r1 = Xoshiro256StarStar::seed_from_u64(123);
    let mut r2 = Xoshiro256StarStar::seed_from_u64(123);
    for _ in 0..16 {
        assert_eq!(r1.next_u64(), r2.next_u64());
    }
}

#[test]
fn xoshiro256_next_f64_in_range() {
    let mut r = Xoshiro256StarStar::seed_from_u64(1);
    for _ in 0..1000 {
        let x = next_f64(&mut r);
        assert!((0.0..1.0).contains(&x));
    }
}
