//! Unguessable tokens: session ids and OAuth `state` values.
use vstd::prelude::*;

use crate::encoding::{base64_encode, base64_url_no_pad_encode, lemma_unpadded_length};

use rand::Rng;

verus! {

/// Thirty-two bytes from `rand::rng()` (the thread-local CSPRNG) via
/// `fill_bytes`. Nothing is promised about which bytes come back.
#[verifier::external_body]
fn random_bytes() -> (bytes: [u8; 32]) {
    let mut bytes = [0u8; 32];
    rand::rng().fill_bytes(&mut bytes);
    bytes
}

/// The token made of 32 bytes: their URL-safe base64, without padding,
/// so it can travel in a cookie or a query string untouched.
pub fn token_from_bytes(bytes: [u8; 32]) -> (token: String)
    ensures
        token@ == base64_encode(bytes@, true, false),
        token@.len() == 43,
{
    let token = base64_url_no_pad_encode(bytes.as_slice());
    proof {
        lemma_unpadded_length(bytes@, true);
    }
    token
}

/// A fresh token: 256 random bits, as `token_from_bytes` writes them.
pub fn generate_token() -> (token: String)
    ensures
        token@.len() == 43,
        exists|bytes: Seq<u8>| bytes.len() == 32 && token@ == base64_encode(bytes, true, false),
{
    let bytes = random_bytes();
    token_from_bytes(bytes)
}

} // verus!
