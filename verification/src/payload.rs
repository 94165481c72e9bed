//! Accumulation of an uploaded payload under a size limit.

use vstd::prelude::*;

verus! {

/// The largest payload that is held in memory: 256 KiB.
pub const MAX_SIZE: usize = 262_144;

/// Whether a chunk of `chunk_len` bytes still fits behind `body_len` bytes
/// that were already taken.
pub open spec fn fits(body_len: nat, chunk_len: nat) -> bool {
    body_len + chunk_len <= MAX_SIZE
}

/// Appends `chunk` to `body` unless the payload would grow beyond
/// [`MAX_SIZE`]; then `body` is left as it was and `false` is returned.
pub fn extend_within_limit(body: &mut Vec<u8>, chunk: &[u8]) -> (accepted: bool)
    ensures
        accepted == fits(old(body)@.len(), chunk@.len()),
        accepted ==> final(body)@ == old(body)@ + chunk@,
        !accepted ==> final(body)@ == old(body)@,
{
    let body_len: usize = body.len();
    let chunk_len: usize = chunk.len();
    if body_len > MAX_SIZE || chunk_len > MAX_SIZE - body_len {
        return false;
    }
    body.extend_from_slice(chunk);
    true
}

} // verus!
