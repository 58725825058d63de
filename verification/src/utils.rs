//! Small shared checks on time windows and string lengths.

use vstd::prelude::*;
use vstd::string::{StrSliceExecFns, StringSliceAdditionalSpecFns};

use crate::state::ActorId;

verus! {

/// Whether a validity window with the given optional end has elapsed at
/// `current_time`. `None` means the window never ends.
pub open spec fn grant_expired(expires_at: Option<i64>, current_time: i64) -> bool {
    match expires_at {
        Some(expiration) => current_time > expiration,
        None => false,
    }
}

/// Check whether an access grant has expired.
pub fn is_grant_expired(expires_at: Option<i64>, current_time: i64) -> (expired: bool)
    ensures
        expired == grant_expired(expires_at, current_time),
{
    if let Some(expiration) = expires_at {
        current_time > expiration
    } else {
        false
    }
}

/// Check whether a timestamp is valid, that is, not in the future.
pub fn is_valid_timestamp(timestamp: i64, current_time: i64) -> (valid: bool)
    ensures
        valid == (timestamp <= current_time),
{
    timestamp <= current_time
}

/// Check that a string holds at most `max_length` characters.
pub fn validate_string_length(s: &str, max_length: usize) -> (ok: bool)
    ensures
        ok == (s@.len() <= max_length),
{
    s.unicode_len() <= max_length
}

/// The eight bytes of `x`, least significant first.
pub open spec fn u64_le_bytes(x: u64) -> Seq<u8> {
    seq![
        (x & 0xff) as u8,
        ((x >> 8) & 0xff) as u8,
        ((x >> 16) & 0xff) as u8,
        ((x >> 24) & 0xff) as u8,
        ((x >> 32) & 0xff) as u8,
        ((x >> 40) & 0xff) as u8,
        ((x >> 48) & 0xff) as u8,
        ((x >> 56) & 0xff) as u8,
    ]
}

/// Derive the deterministic seed a composite key is built from: the prefix's
/// UTF-8 bytes followed by the identity's eight little-endian bytes.
pub fn generate_seed(prefix: &str, key: &ActorId) -> (seed: Vec<u8>)
    ensures
        seed@ == prefix.spec_bytes() + u64_le_bytes(key.0),
{
    let mut seed = prefix.as_bytes_vec();
    let k = key.0;
    proof {
        assert(k & 0xff < 256 && (k >> 8) & 0xff < 256 && (k >> 16) & 0xff < 256 && (k >> 24)
            & 0xff < 256 && (k >> 32) & 0xff < 256 && (k >> 40) & 0xff < 256 && (k >> 48) & 0xff
            < 256 && (k >> 56) & 0xff < 256) by (bit_vector);
    }
    seed.push((k & 0xff) as u8);
    seed.push(((k >> 8) & 0xff) as u8);
    seed.push(((k >> 16) & 0xff) as u8);
    seed.push(((k >> 24) & 0xff) as u8);
    seed.push(((k >> 32) & 0xff) as u8);
    seed.push(((k >> 40) & 0xff) as u8);
    seed.push(((k >> 48) & 0xff) as u8);
    seed.push(((k >> 56) & 0xff) as u8);
    proof {
        assert(seed@ =~= prefix.spec_bytes() + u64_le_bytes(k));
    }
    seed
}

} // verus!
