//! Random values: salts and identifiers. Only their lengths are known. Both
//! generators are seeded by the operating system and give up where it has no
//! randomness to offer.

use vstd::prelude::*;

verus! {

/// The number of random bytes in a fresh salt.
pub const SALT_LENGTH: usize = 16;

/// The number of characters in a fresh identifier.
pub const ID_LENGTH: usize = 21;

/// Calls `rand::rng` and `Rng::random` for sixteen bytes from the thread's
/// cryptographic generator.
///
/// Assumed of it: the length.
#[verifier::external_body]
pub(crate) fn fresh_salt() -> (salt: Vec<u8>)
    ensures
        salt@.len() == SALT_LENGTH,
{
    let bytes: [u8; 16] = rand::Rng::random(&mut rand::rng());
    bytes.to_vec()
}

/// Calls `nanoid::format` with the crate's default generator and its URL-safe
/// alphabet, as `nanoid!()` does.
///
/// Assumed of it: the length, 21 characters.
#[verifier::external_body]
pub(crate) fn fresh_id() -> (id: String)
    ensures
        id@.len() == ID_LENGTH,
{
    nanoid::format(nanoid::rngs::default, &nanoid::alphabet::SAFE, 21)
}

} // verus!
