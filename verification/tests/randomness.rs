use solbet_jackpot_smart_contract::errors::JackpotError;
use solbet_jackpot_smart_contract::utils::{
    number_from_digest, random_mod, random_mod_at, random_number, seed_from_clock,
};

#[test]
fn seed_is_timestamp_then_slot_little_endian() {
    assert_eq!(seed_from_clock(0, 0), vec![0u8; 16]);
    assert_eq!(
        seed_from_clock(1_700_000_000, 250_000_000),
        vec![0, 241, 83, 101, 0, 0, 0, 0, 128, 178, 230, 14, 0, 0, 0, 0]
    );
    assert_eq!(
        seed_from_clock(0x0102_0304_0506_0708, 0x1112_1314_1516_1718),
        vec![8, 7, 6, 5, 4, 3, 2, 1, 0x18, 0x17, 0x16, 0x15, 0x14, 0x13, 0x12, 0x11]
    );
}

#[test]
fn seed_of_negative_timestamp_is_twos_complement() {
    assert_eq!(
        seed_from_clock(-1, 1),
        vec![255, 255, 255, 255, 255, 255, 255, 255, 1, 0, 0, 0, 0, 0, 0, 0]
    );
    assert_eq!(
        seed_from_clock(i64::MIN, u64::MAX),
        vec![0, 0, 0, 0, 0, 0, 0, 128, 255, 255, 255, 255, 255, 255, 255, 255]
    );
    assert_eq!(seed_from_clock(-2, 0)[..8], (-2i64).to_le_bytes());
    assert_eq!(seed_from_clock(i64::MAX, 0)[..8], i64::MAX.to_le_bytes());
}

#[test]
fn number_is_first_eight_digest_bytes_little_endian() {
    let mut digest = [0u8; 32];
    assert_eq!(number_from_digest(&digest), 0);
    digest[0] = 1;
    assert_eq!(number_from_digest(&digest), 1);
    digest[1] = 2;
    assert_eq!(number_from_digest(&digest), 513);
    digest[8] = 255;
    digest[31] = 255;
    assert_eq!(number_from_digest(&digest), 513);
    let mut digest = [0xffu8; 32];
    assert_eq!(number_from_digest(&digest), u64::MAX);
    digest[7] = 0;
    assert_eq!(number_from_digest(&digest), 0x00ff_ffff_ffff_ffff);
    let digest: [u8; 32] = [
        55, 71, 8, 255, 247, 113, 157, 213, 9, 9, 9, 9, 9, 9, 9, 9, 9, 9, 9, 9, 9, 9, 9, 9, 9, 9,
        9, 9, 9, 9, 9, 9,
    ];
    assert_eq!(number_from_digest(&digest), 15392584411371816759);
}

#[test]
fn random_number_is_sha256_of_the_seed() {
    assert_eq!(random_number(0, 0), 15392584411371816759);
    assert_eq!(random_number(1_700_000_000, 250_000_000), 12327558011139139227);
    assert_eq!(random_number(-1, 1), 11931577584162491337);
    assert_eq!(random_number(i64::MIN, u64::MAX), 18013976892338310250);
    assert_eq!(random_number(1, 0), 15111851994976402252);
}

#[test]
fn random_number_is_reproducible() {
    assert_eq!(random_number(12, 34), random_number(12, 34));
    assert_ne!(random_number(12, 34), random_number(34, 12));
}

#[test]
fn random_mod_at_reduces_by_the_total() {
    assert_eq!(random_mod_at(0, 0, 100), Ok(59));
    assert_eq!(random_mod_at(0, 0, 1000), Ok(759));
    assert_eq!(random_mod_at(1_700_000_000, 250_000_000, 100), Ok(27));
    assert_eq!(random_mod_at(-1, 1, 1000), Ok(337));
    assert_eq!(random_mod_at(1, 0, 1), Ok(0));
    assert_eq!(random_mod_at(0, 0, u64::MAX), Ok(15392584411371816759));
}

#[test]
fn random_mod_at_refuses_an_empty_pool() {
    assert_eq!(random_mod_at(0, 0, 0), Err(JackpotError::InvalidAmount));
}

#[test]
fn random_mod_refuses_an_empty_pool_before_reading_the_clock() {
    assert_eq!(random_mod(0), Err(JackpotError::InvalidAmount));
}

#[test]
fn random_mod_without_a_ledger_clock_draws_nothing() {
    // Outside the ledger runtime no clock is supplied.
    assert_eq!(random_mod(100), Err(JackpotError::ClockUnavailable));
}
