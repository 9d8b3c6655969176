use ksupport::xorshift128p::Xorshift128Plus;
use ksupport::xoshiro256ss::Xoshiro256;

#[test]
fn xorshift_first_output_from_small_seed() {
    let mut rng = Xorshift128Plus::with_seed([1, 2]);
    assert_eq!(rng.next(), 8388645);
    // deterministic: the same seed draws the same value again
    let mut again = Xorshift128Plus::with_seed([1, 2]);
    assert_eq!(again.next(), 8388645);
}

#[test]
fn xorshift_default_seed_output() {
    let mut rng = Xorshift128Plus::default();
    assert_eq!(rng.next(), 0x704128F8961A98BF);
}

#[test]
fn xorshift_seed_xor_folds_into_default() {
    // XORing a zero seed leaves the default seed untouched
    let mut zeroed = Xorshift128Plus::with_seed_xor([0, 0]);
    let mut plain = Xorshift128Plus::default();
    assert_eq!(zeroed.next(), plain.next());
    // a non-zero seed changes the stream
    let mut salted = Xorshift128Plus::with_seed_xor([1, 0]);
    let mut fresh = Xorshift128Plus::default();
    assert_ne!(salted.next(), fresh.next());
}

#[test]
fn xoshiro_first_output_from_small_seed() {
    let mut rng = Xoshiro256::with_seed([1, 2, 3, 4]);
    assert_eq!(rng.next(), 2304);
    assert_eq!(
        Xoshiro256::with_seed([1, 2, 3, 4]).next(),
        2304
    );
}

#[test]
fn xoshiro_default_seed_output() {
    let mut rng = Xoshiro256::default();
    assert_eq!(rng.next(), 0xF2EDCF0F7A06B251);
}

#[test]
fn xoshiro_rotate_left() {
    assert_eq!(Xoshiro256::rotate_left(1, 7), 128);
    assert_eq!(Xoshiro256::rotate_left(1u64 << 63, 1), 1);
    assert_eq!(Xoshiro256::rotate_left(0x8000_0000_0000_0001, 1), 3);
}

#[test]
fn xoshiro_seed_xor_folds_into_default() {
    let mut zeroed = Xoshiro256::with_seed_xor([0, 0, 0, 0]);
    let mut plain = Xoshiro256::default();
    assert_eq!(zeroed.next(), plain.next());
}

#[test]
fn streams_advance() {
    let mut rng = Xorshift128Plus::with_seed([3, 4]);
    let a = rng.next();
    let b = rng.next();
    assert_ne!(a, b);
    let mut rng = Xoshiro256::with_seed([5, 6, 7, 8]);
    let a = rng.next();
    let b = rng.next();
    assert_ne!(a, b);
}
