//! The randomness source: a number derived from the ledger clock by hashing.
//!
//! The wall-clock timestamp and the slot counter are written out as sixteen
//! little-endian bytes, the bytes are hashed with SHA-256, and the first eight
//! bytes of the digest are read back as a little-endian number. Both inputs are
//! public and coarse, so the number is reproducible but not unpredictable.

use vstd::prelude::*;
use solana_program::clock::Clock;
use solana_program::program_error::ProgramError;
use solana_program::sysvar::Sysvar;
use crate::errors::JackpotError;

verus! {

/// `solana_program::program_error::ProgramError`, the error type of the ledger
/// runtime's own calls. It is only carried from the failing call to the place
/// where it is turned into one of the engine's own errors.
#[verifier::external_type_specification]
#[verifier::external_body]
pub struct ExProgramError(ProgramError);

/// The SHA-256 digest of a byte string, as `solana_program::hash::hash` computes
/// it.
pub uninterp spec fn sha256_digest(data: Seq<u8>) -> Seq<u8>;

/// Calls `solana_program::hash::hash`, which feeds the whole slice to a SHA-256
/// hasher and returns the 32-byte digest; `Hash::to_bytes` hands out the digest's
/// bytes. The result is a function of the bytes hashed, and nothing else.
#[verifier::external_body]
fn sha256(data: &Vec<u8>) -> (digest: [u8; 32])
    ensures
        digest@ == sha256_digest(data@),
{
    solana_program::hash::hash(data.as_slice()).to_bytes()
}

/// Calls `solana_program::clock::Clock::get`, which asks the ledger runtime for
/// the clock record, and picks the timestamp and the slot out of it. What comes
/// back depends on the host: nothing is claimed of it.
#[verifier::external_body]
fn clock_reading() -> (reading: Result<(i64, u64), ProgramError>) {
    Clock::get().map(|clock| (clock.unix_timestamp, clock.slot))
}

/// The eight bytes of `x`, least significant first.
pub open spec fn le_bytes(x: u64) -> Seq<u8> {
    seq![
        (x % 0x100) as u8,
        (x / 0x100 % 0x100) as u8,
        (x / 0x1_0000 % 0x100) as u8,
        (x / 0x100_0000 % 0x100) as u8,
        (x / 0x1_0000_0000 % 0x100) as u8,
        (x / 0x100_0000_0000 % 0x100) as u8,
        (x / 0x1_0000_0000_0000 % 0x100) as u8,
        (x / 0x100_0000_0000_0000 % 0x100) as u8,
    ]
}

/// The number whose little-endian bytes are the first eight of `bytes`.
pub open spec fn le_value(bytes: Seq<u8>) -> u64 {
    (bytes[0] as nat + bytes[1] as nat * 0x100 + bytes[2] as nat * 0x1_0000 + bytes[3] as nat
        * 0x100_0000 + bytes[4] as nat * 0x1_0000_0000 + bytes[5] as nat * 0x100_0000_0000
        + bytes[6] as nat * 0x1_0000_0000_0000 + bytes[7] as nat * 0x100_0000_0000_0000) as u64
}

/// The unsigned number with the same 64 bits as `x` in two's complement.
pub open spec fn twos_complement(x: i64) -> u64 {
    if x >= 0 {
        x as u64
    } else {
        (x + 0x1_0000_0000_0000_0000) as u64
    }
}

/// The bytes that are hashed: the timestamp, then the slot, each as eight
/// little-endian bytes.
pub open spec fn clock_seed(unix_timestamp: i64, slot: u64) -> Seq<u8> {
    le_bytes(twos_complement(unix_timestamp)) + le_bytes(slot)
}

/// The number drawn at a given timestamp and slot.
pub open spec fn drawn_number(unix_timestamp: i64, slot: u64) -> u64 {
    le_value(sha256_digest(clock_seed(unix_timestamp, slot)))
}

/// Appends the eight little-endian bytes of `x` to `out`.
fn push_le_bytes(out: &mut Vec<u8>, x: u64)
    ensures
        final(out)@ == old(out)@ + le_bytes(x),
{
    out.push((x % 0x100) as u8);
    out.push((x / 0x100 % 0x100) as u8);
    out.push((x / 0x1_0000 % 0x100) as u8);
    out.push((x / 0x100_0000 % 0x100) as u8);
    out.push((x / 0x1_0000_0000 % 0x100) as u8);
    out.push((x / 0x100_0000_0000 % 0x100) as u8);
    out.push((x / 0x1_0000_0000_0000 % 0x100) as u8);
    out.push((x / 0x100_0000_0000_0000 % 0x100) as u8);
    assert(out@ =~= old(out)@ + le_bytes(x));
}

/// The sixteen bytes that are hashed for a given timestamp and slot.
pub fn seed_from_clock(unix_timestamp: i64, slot: u64) -> (seed: Vec<u8>)
    ensures
        seed@ == clock_seed(unix_timestamp, slot),
        seed@.len() == 16,
{
    let bits: u64 = if unix_timestamp >= 0 {
        unix_timestamp as u64
    } else {
        (unix_timestamp - i64::MIN) as u64 + 0x8000_0000_0000_0000u64
    };
    let mut seed: Vec<u8> = Vec::new();
    push_le_bytes(&mut seed, bits);
    push_le_bytes(&mut seed, slot);
    assert(seed@ =~= clock_seed(unix_timestamp, slot));
    seed
}

/// Reads the first eight bytes of a digest as a little-endian number.
pub fn number_from_digest(digest: &[u8; 32]) -> (number: u64)
    ensures
        number == le_value(digest@),
{
    let b0: u64 = digest[0] as u64;
    let b1: u64 = digest[1] as u64;
    let b2: u64 = digest[2] as u64;
    let b3: u64 = digest[3] as u64;
    let b4: u64 = digest[4] as u64;
    let b5: u64 = digest[5] as u64;
    let b6: u64 = digest[6] as u64;
    let b7: u64 = digest[7] as u64;
    b0 + b1 * 0x100 + b2 * 0x1_0000 + b3 * 0x100_0000 + b4 * 0x1_0000_0000 + b5
        * 0x100_0000_0000 + b6 * 0x1_0000_0000_0000 + b7 * 0x100_0000_0000_0000
}

/// The number drawn at a given timestamp and slot.
pub fn random_number(unix_timestamp: i64, slot: u64) -> (number: u64)
    ensures
        number == drawn_number(unix_timestamp, slot),
{
    let seed = seed_from_clock(unix_timestamp, slot);
    let digest = sha256(&seed);
    number_from_digest(&digest)
}

/// The number drawn at a given timestamp and slot, reduced modulo the pool
/// total. An empty pool has nothing to draw for.
pub fn random_mod_at(unix_timestamp: i64, slot: u64, total_amount: u64) -> (result: Result<
    u64,
    JackpotError,
>)
    ensures
        total_amount == 0 ==> result == Err::<u64, JackpotError>(JackpotError::InvalidAmount),
        total_amount > 0 ==> result == Ok::<u64, JackpotError>(
            drawn_number(unix_timestamp, slot) % total_amount,
        ),
{
    if total_amount == 0 {
        return Err(JackpotError::InvalidAmount);
    }
    Ok(random_number(unix_timestamp, slot) % total_amount)
}

/// Whether `value` is what some reading of the clock draws for a pool of
/// `total_amount`.
pub open spec fn is_draw(value: u64, total_amount: u64) -> bool {
    exists|unix_timestamp: i64, slot: u64|
        value == #[trigger] drawn_number(unix_timestamp, slot) % total_amount
}

/// Draws a number from the ledger clock as it stands and reduces it modulo the
/// pool total. An empty pool is refused before the clock is read; where the host
/// supplies no clock, nothing is drawn.
pub fn random_mod(total_amount: u64) -> (result: Result<u64, JackpotError>)
    ensures
        total_amount == 0 ==> result == Err::<u64, JackpotError>(JackpotError::InvalidAmount),
        total_amount > 0 ==> match result {
            Ok(value) => is_draw(value, total_amount),
            Err(reason) => reason == JackpotError::ClockUnavailable,
        },
{
    if total_amount == 0 {
        return Err(JackpotError::InvalidAmount);
    }
    match clock_reading() {
        Ok((unix_timestamp, slot)) => random_mod_at(unix_timestamp, slot, total_amount),
        Err(_) => Err(JackpotError::ClockUnavailable),
    }
}

} // verus!
