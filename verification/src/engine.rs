//! The code engine: from a secret and a Unix time to a six-digit code.
//!
//! The time is cut into steps of thirty seconds. The number of the step is
//! written as eight big-endian bytes and authenticated with HMAC-SHA256 under
//! the secret. The first eight bytes of the tag, read as a big-endian
//! integer and reduced modulo one million, are the code.

use byteorder::{BigEndian, ReadBytesExt};
use vstd::arithmetic::div_mod::lemma_div_denominator;
use vstd::prelude::*;

verus! {

/// Length of one time step, in seconds.
pub const STEP_SECONDS: u64 = 30;

/// The Unix time at which step zero begins.
pub const EPOCH_ORIGIN: u64 = 0;

/// Codes are the residues modulo this number.
pub const CODE_MODULUS: u64 = 1_000_000;

/// Number of bytes of a tag that enter a code.
pub const TRUNCATED_LEN: usize = 8;

/// Number of bytes of an HMAC-SHA256 tag.
pub const TAG_LEN: usize = 32;

/// The longest secret, in bytes, that the hash behind the HMAC takes: its
/// length in bits has to fit in 64 bits.
pub const MAX_SECRET_LEN: u64 = 0x1FFF_FFFF_FFFF_FFFF;

/// The HMAC-SHA256 tag of `message` under `key`: what `ring::hmac::sign`
/// returns for the message under a key that `ring::hmac::Key::new` made of
/// the key bytes for `ring::hmac::HMAC_SHA256`.
pub uninterp spec fn hmac_sha256(key: Seq<u8>, message: Seq<u8>) -> Seq<u8>;

/// The error of a failed read, opaque to this library.
#[verifier::external_type_specification]
#[verifier::external_body]
pub struct ExIoError(std::io::Error);

/// The number of the time step that holds `unix_time_seconds`.
pub open spec fn step_of(unix_time_seconds: u64) -> u64 {
    ((unix_time_seconds - EPOCH_ORIGIN) / (STEP_SECONDS as int)) as u64
}

/// The eight bytes that encode `counter`, most significant byte first.
pub open spec fn big_endian_bytes(counter: u64) -> Seq<u8> {
    seq![
        ((counter / 0x0100_0000_0000_0000) % 256) as u8,
        ((counter / 0x0001_0000_0000_0000) % 256) as u8,
        ((counter / 0x0000_0100_0000_0000) % 256) as u8,
        ((counter / 0x0000_0001_0000_0000) % 256) as u8,
        ((counter / 0x0000_0000_0100_0000) % 256) as u8,
        ((counter / 0x0000_0000_0001_0000) % 256) as u8,
        ((counter / 0x0000_0000_0000_0100) % 256) as u8,
        (counter % 256) as u8,
    ]
}

/// The number that the first eight bytes of `bytes` encode, most significant
/// byte first. Meaningful where `bytes` has at least eight bytes.
pub open spec fn big_endian_value(bytes: Seq<u8>) -> int
    recommends
        bytes.len() >= TRUNCATED_LEN,
{
    bytes[0] * 0x0100_0000_0000_0000 + bytes[1] * 0x0001_0000_0000_0000 + bytes[2]
        * 0x0000_0100_0000_0000 + bytes[3] * 0x0000_0001_0000_0000 + bytes[4]
        * 0x0000_0000_0100_0000 + bytes[5] * 0x0000_0000_0001_0000 + bytes[6]
        * 0x0000_0000_0000_0100 + bytes[7]
}

/// Whether the hash behind the HMAC takes a secret of this length.
pub open spec fn hashable(secret: Seq<u8>) -> bool {
    secret.len() <= MAX_SECRET_LEN
}

/// The code that a tag yields: its first eight bytes as a big-endian number,
/// modulo one million. Meaningful where `tag` has at least eight bytes.
pub open spec fn code_of_tag(tag: Seq<u8>) -> int
    recommends
        tag.len() >= TRUNCATED_LEN,
{
    big_endian_value(tag) % (CODE_MODULUS as int)
}

/// The code of `secret` at `unix_time_seconds`.
pub open spec fn derive_spec(secret: Seq<u8>, unix_time_seconds: u64) -> int {
    code_of_tag(hmac_sha256(secret, big_endian_bytes(step_of(unix_time_seconds))))
}

/// Calls `ring::hmac::Key::new` with `ring::hmac::HMAC_SHA256` and then
/// `ring::hmac::sign`, and copies the tag out. Trusted: the tag is the
/// HMAC-SHA256 of `message` under `key`, a function of the two byte strings
/// alone, and has 32 bytes. ring fails on inputs of 2^61 bytes or more, which
/// the precondition leaves out (the message follows one block of 64 bytes).
#[verifier::external_body]
fn hmac_sha256_tag(key: &[u8], message: &[u8]) -> (tag: Vec<u8>)
    requires
        key@.len() <= MAX_SECRET_LEN,
        message@.len() + 64 <= MAX_SECRET_LEN,
    ensures
        tag@ == hmac_sha256(key@, message@),
        tag@.len() == TAG_LEN,
{
    let signing_key = ring::hmac::Key::new(ring::hmac::HMAC_SHA256, key);
    ring::hmac::sign(&signing_key, message).as_ref().to_vec()
}

/// Calls `byteorder::ReadBytesExt::read_u64::<BigEndian>` on `bytes` as a
/// reader. Trusted: with fewer than eight bytes the read fails; otherwise it
/// gives the first eight bytes as a number, most significant byte first.
#[verifier::external_body]
fn read_u64_big_endian(bytes: &[u8]) -> (value: Result<u64, std::io::Error>)
    ensures
        bytes@.len() < TRUNCATED_LEN ==> value is Err,
        bytes@.len() >= TRUNCATED_LEN ==> value is Ok && value->Ok_0 == big_endian_value(bytes@),
{
    let mut reader: &[u8] = bytes;
    reader.read_u64::<BigEndian>()
}

/// Computes the number of the time step that holds `unix_time_seconds`.
pub fn time_counter(unix_time_seconds: u64) -> (counter: u64)
    ensures
        counter == step_of(unix_time_seconds),
{
    (unix_time_seconds - EPOCH_ORIGIN) / STEP_SECONDS
}

/// Encodes `counter` as eight bytes, most significant byte first.
pub fn counter_bytes(counter: u64) -> (bytes: Vec<u8>)
    ensures
        bytes@ == big_endian_bytes(counter),
        bytes@.len() == 8,
{
    let mut bytes: Vec<u8> = Vec::new();
    bytes.push(((counter / 0x0100_0000_0000_0000) % 256) as u8);
    bytes.push(((counter / 0x0001_0000_0000_0000) % 256) as u8);
    bytes.push(((counter / 0x0000_0100_0000_0000) % 256) as u8);
    bytes.push(((counter / 0x0000_0001_0000_0000) % 256) as u8);
    bytes.push(((counter / 0x0000_0000_0100_0000) % 256) as u8);
    bytes.push(((counter / 0x0000_0000_0001_0000) % 256) as u8);
    bytes.push(((counter / 0x0000_0000_0000_0100) % 256) as u8);
    bytes.push((counter % 256) as u8);
    bytes
}

/// Truncates a digest to a code: `None` where the digest has fewer than
/// eight bytes, otherwise its first eight bytes as a big-endian number,
/// modulo one million.
pub fn code_from_digest(digest: &[u8]) -> (code: Option<u32>)
    ensures
        digest@.len() < TRUNCATED_LEN ==> code is None,
        digest@.len() >= TRUNCATED_LEN ==> code == Some(code_of_tag(digest@) as u32),
        code matches Some(value) ==> value == code_of_tag(digest@) && value <= 999_999,
{
    match read_u64_big_endian(digest) {
        Ok(value) => Some((value % CODE_MODULUS) as u32),
        Err(_) => None,
    }
}

/// Derives the code of `secret` at `unix_time_seconds`.
///
/// The result is the same for every time within one step of thirty seconds,
/// and lies between 0 and 999999.
pub fn derive(secret: &[u8], unix_time_seconds: u64) -> (code: u32)
    requires
        hashable(secret@),
    ensures
        code == derive_spec(secret@, unix_time_seconds),
        code <= 999_999,
{
    let message = counter_bytes(time_counter(unix_time_seconds));
    let tag = hmac_sha256_tag(secret, message.as_slice());
    // A tag has 32 bytes, so the truncation always finds its eight.
    code_from_digest(tag.as_slice()).unwrap()
}

/// Derives the code of `secret` at `unix_time_seconds` where the hash takes
/// the secret, and gives `None` for a secret that is too long for it.
pub fn try_derive(secret: &[u8], unix_time_seconds: u64) -> (code: Option<u32>)
    ensures
        hashable(secret@) ==> code == Some(derive_spec(secret@, unix_time_seconds) as u32),
        !hashable(secret@) ==> code is None,
        code matches Some(value) ==> value == derive_spec(secret@, unix_time_seconds) && value
            <= 999_999,
{
    if secret.len() as u64 <= MAX_SECRET_LEN {
        Some(derive(secret, unix_time_seconds))
    } else {
        None
    }
}

/// Two times within one step of thirty seconds give the same code.
pub proof fn derive_same_within_step(secret: Seq<u8>, first: u64, second: u64)
    requires
        first / 30 == second / 30,
    ensures
        derive_spec(secret, first) == derive_spec(secret, second),
{
}

/// Every code lies between 0 and 999999, whatever the secret and the time.
pub proof fn derive_in_range(secret: Seq<u8>, unix_time_seconds: u64)
    ensures
        0 <= derive_spec(secret, unix_time_seconds) <= 999_999,
{
}

/// Reading back what `big_endian_bytes` wrote gives the number again.
pub proof fn big_endian_round_trip(counter: u64)
    ensures
        big_endian_bytes(counter).len() == 8,
        big_endian_value(big_endian_bytes(counter)) == counter,
{
    let c = counter as int;
    let q1 = c / 0x100;
    let q2 = c / 0x1_0000;
    let q3 = c / 0x100_0000;
    let q4 = c / 0x1_0000_0000;
    let q5 = c / 0x100_0000_0000;
    let q6 = c / 0x1_0000_0000_0000;
    let q7 = c / 0x100_0000_0000_0000;
    assert(q2 == q1 / 0x100) by {
        lemma_div_denominator(c, 0x100, 0x100);
    }
    assert(q3 == q2 / 0x100) by {
        lemma_div_denominator(c, 0x1_0000, 0x100);
    }
    assert(q4 == q3 / 0x100) by {
        lemma_div_denominator(c, 0x100_0000, 0x100);
    }
    assert(q5 == q4 / 0x100) by {
        lemma_div_denominator(c, 0x1_0000_0000, 0x100);
    }
    assert(q6 == q5 / 0x100) by {
        lemma_div_denominator(c, 0x100_0000_0000, 0x100);
    }
    assert(q7 == q6 / 0x100) by {
        lemma_div_denominator(c, 0x1_0000_0000_0000, 0x100);
    }
    assert(q7 % 256 == q7);
    let bytes = big_endian_bytes(counter);
    assert(bytes[0] == q7 % 256);
    assert(bytes[1] == q6 % 256);
    assert(bytes[2] == q5 % 256);
    assert(bytes[3] == q4 % 256);
    assert(bytes[4] == q3 % 256);
    assert(bytes[5] == q2 % 256);
    assert(bytes[6] == q1 % 256);
    assert(bytes[7] == c % 256);
}

} // verus!
