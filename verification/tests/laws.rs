use probability_rs::rng::{
    Pcg32, RngCore, SplitMix64, Xoroshiro128PlusPlus, Xoshiro256StarStar, UNIT_DENOMINATOR,
};
use probability_rs::DistError;

const DRAWS: usize = 10_000;

fn same_streams<R: RngCore>(a: &mut R, b: &mut R) {
    for _ in 0..DRAWS {
        assert_eq!(a.next_u64(), b.next_u64());
    }
    for _ in 0..DRAWS {
        assert_eq!(a.next_u53(), b.next_u53());
    }
    assert_eq!(a.next_u64(), b.next_u64());
}

fn unit_draws_in_range<R: RngCore>(rng: &mut R) {
    let den = UNIT_DENOMINATOR as f64;
    for _ in 0..DRAWS {
        let n = rng.next_u53();
        assert!(n < UNIT_DENOMINATOR);
        let x = (n as f64) / den;
        assert!(x >= 0.0 && x < 1.0);
        // The quotient is exact: no rounding can push it up to 1.
        assert_eq!((x * den) as u64, n);
    }
}

fn u53_matches_u64<R: RngCore + Clone>(rng: &mut R) {
    let mut twin = rng.clone();
    for _ in 0..1000 {
        assert_eq!(rng.next_u53(), twin.next_u64() >> 11);
    }
}

#[test]
fn splitmix64_same_seed_same_stream() {
    same_streams(&mut SplitMix64::seed_from_u64(99), &mut SplitMix64::seed_from_u64(99));
}

#[test]
fn xoshiro256_same_seed_same_stream() {
    same_streams(
        &mut Xoshiro256StarStar::seed_from_u64(99),
        &mut Xoshiro256StarStar::seed_from_u64(99),
    );
}

#[test]
fn xoroshiro128_same_seed_same_stream() {
    same_streams(
        &mut Xoroshiro128PlusPlus::seed_from_u64(99),
        &mut Xoroshiro128PlusPlus::seed_from_u64(99),
    );
}

#[test]
fn pcg32_same_seed_same_stream() {
    same_streams(&mut Pcg32::seed_from_u64(99), &mut Pcg32::seed_from_u64(99));
    same_streams(&mut Pcg32::from_seed_and_stream(5, 11), &mut Pcg32::from_seed_and_stream(5, 11));
    let mut a = Pcg32::seed_from_u64(99);
    let mut b = Pcg32::seed_from_u64(99);
    for _ in 0..DRAWS {
        assert_eq!(a.next_u32(), b.next_u32());
    }
}

#[test]
fn different_seeds_differ() {
    let mut a = SplitMix64::seed_from_u64(1);
    let mut b = SplitMix64::seed_from_u64(2);
    assert_ne!(a.next_u64(), b.next_u64());
    let mut a = Xoshiro256StarStar::seed_from_u64(1);
    let mut b = Xoshiro256StarStar::seed_from_u64(2);
    assert_ne!(a.next_u64(), b.next_u64());
}

#[test]
fn unit_denominator_is_two_to_the_53() {
    assert_eq!(UNIT_DENOMINATOR, 1u64 << 53);
    assert_eq!(UNIT_DENOMINATOR, 9007199254740992);
    // The largest numerator still maps below one.
    let top = (UNIT_DENOMINATOR - 1) as f64 / UNIT_DENOMINATOR as f64;
    assert!(top < 1.0);
    assert_eq!(top, 1.0 - f64::EPSILON / 2.0);
}

#[test]
fn splitmix64_unit_draws_in_range() {
    unit_draws_in_range(&mut SplitMix64::seed_from_u64(3));
}

#[test]
fn xoshiro256_unit_draws_in_range() {
    unit_draws_in_range(&mut Xoshiro256StarStar::seed_from_u64(3));
}

#[test]
fn xoroshiro128_unit_draws_in_range() {
    unit_draws_in_range(&mut Xoroshiro128PlusPlus::seed_from_u64(3));
}

#[test]
fn pcg32_unit_draws_in_range() {
    unit_draws_in_range(&mut Pcg32::seed_from_u64(3));
}

#[test]
fn next_u53_is_next_u64_shifted() {
    u53_matches_u64(&mut SplitMix64::seed_from_u64(17));
    u53_matches_u64(&mut Xoshiro256StarStar::seed_from_u64(17));
    u53_matches_u64(&mut Xoroshiro128PlusPlus::seed_from_u64(17));
    u53_matches_u64(&mut Pcg32::seed_from_u64(17));
}

#[test]
fn clone_continues_the_same_stream() {
    let mut a = Xoshiro256StarStar::seed_from_u64(8);
    for _ in 0..10 {
        let _ = a.next_u64();
    }
    let mut b = a.clone();
    for _ in 0..100 {
        assert_eq!(a.next_u64(), b.next_u64());
    }
    let mut a = Xoroshiro128PlusPlus::seed_from_u64(8);
    let _ = a.next_u64();
    let mut b = a.clone();
    assert_eq!(a.next_u64(), b.next_u64());
    let mut a = SplitMix64::seed_from_u64(8);
    let _ = a.next_u64();
    let mut b = a.clone();
    assert_eq!(a.next_u64(), b.next_u64());
}

#[test]
fn xoshiro256_jump_commutes_with_draws() {
    let mut a = Xoshiro256StarStar::seed_from_u64(31);
    let mut b = Xoshiro256StarStar::seed_from_u64(31);
    a.jump();
    for _ in 0..37 {
        let _ = a.next_u64();
        let _ = b.next_u64();
    }
    b.jump();
    for _ in 0..100 {
        assert_eq!(a.next_u64(), b.next_u64());
    }
    let mut a = Xoshiro256StarStar::seed_from_u64(31);
    let mut b = Xoshiro256StarStar::seed_from_u64(31);
    a.long_jump();
    let _ = a.next_u64();
    let _ = b.next_u64();
    b.long_jump();
    assert_eq!(a.next_u64(), b.next_u64());
}

#[test]
fn xoshiro256_jumps_commute_with_each_other() {
    let mut a = Xoshiro256StarStar::seed_from_u64(31);
    let mut b = Xoshiro256StarStar::seed_from_u64(31);
    a.jump();
    a.long_jump();
    b.long_jump();
    b.jump();
    for _ in 0..10 {
        assert_eq!(a.next_u64(), b.next_u64());
    }
}

#[test]
fn xoroshiro128_jump_commutes_with_draws() {
    let mut a = Xoroshiro128PlusPlus::seed_from_u64(31);
    let mut b = Xoroshiro128PlusPlus::seed_from_u64(31);
    a.jump();
    for _ in 0..37 {
        let _ = a.next_u64();
        let _ = b.next_u64();
    }
    b.jump();
    for _ in 0..100 {
        assert_eq!(a.next_u64(), b.next_u64());
    }
    let mut a = Xoroshiro128PlusPlus::seed_from_u64(31);
    let mut b = Xoroshiro128PlusPlus::seed_from_u64(31);
    a.long_jump();
    let _ = a.next_u64();
    let _ = b.next_u64();
    b.long_jump();
    assert_eq!(a.next_u64(), b.next_u64());
}

#[test]
fn jump_leaves_the_stream() {
    let mut a = Xoshiro256StarStar::seed_from_u64(31);
    let mut b = a.clone();
    a.jump();
    assert_ne!(a.next_u64(), b.next_u64());
    let mut a = Xoroshiro128PlusPlus::seed_from_u64(31);
    let mut b = a.clone();
    a.long_jump();
    assert_ne!(a.next_u64(), b.next_u64());
}

#[test]
fn dist_error_is_a_plain_value() {
    let e = DistError::InvalidParameter;
    let f = e;
    assert_eq!(e, f);
    assert_eq!(format!("{:?}", e), "InvalidParameter");
    let r: Result<u64, DistError> = Err(DistError::InvalidParameter);
    assert!(matches!(r, Err(DistError::InvalidParameter)));
}

#[test]
fn live_generators_never_return_to_silence() {
    // A generator stuck in the all-zero state would draw zero for ever.
    let mut a = Xoshiro256StarStar::seed_from_u64(0);
    let mut b = Xoroshiro128PlusPlus::seed_from_u64(0);
    let mut zeros_a = 0;
    let mut zeros_b = 0;
    for _ in 0..DRAWS {
        if a.next_u64() == 0 {
            zeros_a += 1;
        }
        if b.next_u64() == 0 {
            zeros_b += 1;
        }
    }
    assert!(zeros_a < 2);
    assert!(zeros_b < 2);
}

#[test]
fn pcg32_streams_share_no_prefix() {
    // Generators that differ only in the stream part ways within a few draws.
    for stream in 1..50u64 {
        let mut a = Pcg32::from_seed_and_stream(9, 0);
        let mut b = Pcg32::from_seed_and_stream(9, stream);
        let mut diff = false;
        for _ in 0..16 {
            if a.next_u32() != b.next_u32() {
                diff = true;
                break;
            }
        }
        assert!(diff);
    }
}
