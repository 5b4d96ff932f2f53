//! The randomness source threaded through every operation.
//!
//! Production calls draw from operating-system entropy; the deterministic
//! self-test path seeds the same generator from a caller-supplied seed.  The
//! generator itself is an external collaborator: nothing is assumed about the
//! values it yields.
use vstd::prelude::*;

verus! {

#[verifier::external_type_specification]
#[verifier::external_body]
pub struct ExChaCha20Rng(rand_chacha::ChaCha20Rng);

/// Relies on `rand_chacha::ChaCha20Rng::from_entropy`: a generator freshly
/// seeded from operating-system entropy.  Nothing is known of its output.
#[verifier::external_body]
pub(crate) fn rng_from_entropy() -> rand_chacha::ChaCha20Rng {
    <rand_chacha::ChaCha20Rng as rand::SeedableRng>::from_entropy()
}

/// Relies on `rand_chacha::ChaCha20Rng::from_seed`: a generator seeded from
/// the given 32 bytes.  Nothing is claimed of its output.
#[verifier::external_body]
pub(crate) fn rng_from_seed(seed: [u8; 32]) -> rand_chacha::ChaCha20Rng {
    <rand_chacha::ChaCha20Rng as rand::SeedableRng>::from_seed(seed)
}

/// Relies on `rand::RngCore::fill_bytes`: fills and returns 32 bytes drawn
/// from the generator.  Only the length is known of the result.
#[verifier::external_body]
pub(crate) fn rng_fill_32(rng: &mut rand_chacha::ChaCha20Rng) -> (r: Vec<u8>)
    ensures
        r@.len() == 32,
{
    let mut buf = [0u8; 32];
    rand::RngCore::fill_bytes(rng, &mut buf);
    buf.to_vec()
}

/// Relies on `<[u8]>::copy_from_slice`: the 32 bytes of the slice as an
/// array.
#[verifier::external_body]
pub(crate) fn seed_array(bytes: &[u8]) -> (r: [u8; 32])
    requires
        bytes@.len() == 32,
    ensures
        r@ == bytes@,
{
    let mut a = [0u8; 32];
    a.copy_from_slice(bytes);
    a
}

/// The hexadecimal digit `d` as a lower-case character.
pub open spec fn hex_digit_char(d: nat) -> char {
    if d < 10 {
        crate::config::digit_char(d)
    } else {
        (((87 + d) as u8) as char)
    }
}

/// The lower-case hexadecimal rendering of a byte string, two characters per
/// byte.
pub open spec fn hex_chars(bytes: Seq<u8>) -> Seq<char>
    decreases bytes.len(),
{
    if bytes.len() == 0 {
        Seq::empty()
    } else {
        seq![
            hex_digit_char((bytes.first() / 16) as nat),
            hex_digit_char((bytes.first() % 16) as nat),
        ] + hex_chars(bytes.drop_first())
    }
}

/// Relies on `hex::encode`: the lower-case hexadecimal rendering of the
/// bytes, two digits per byte.
#[verifier::external_body]
pub(crate) fn hex_encode(bytes: &[u8]) -> (r: String)
    ensures
        r@ == hex_chars(bytes@),
{
    hex::encode(bytes)
}

} // verus!
