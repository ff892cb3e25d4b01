//! SHA-256 fingerprints of text.
use vstd::prelude::*;

use sha2::Digest;

use crate::number::{hex_lower, to_hex_lower};

verus! {

/// The SHA-256 digest of `bytes`.
pub uninterp spec fn sha256_of(bytes: Seq<u8>) -> Seq<u8>;

/// The SHA-256 digest of the UTF-8 bytes of `text`.
///
/// Trusted: calls `sha2::Sha256::digest`. The contract names the result
/// (`sha256_of` of the UTF-8 bytes) and states that a SHA-256 digest is
/// 32 bytes long.
#[verifier::external_body]
fn sha256_digest(text: &str) -> (d: Vec<u8>)
    ensures
        d@ == sha256_of(vstd::utf8::encode_utf8(text@)),
        d@.len() == 32,
{
    sha2::Sha256::digest(text.as_bytes()).to_vec()
}

/// The lower-case hexadecimal SHA-256 fingerprint of the UTF-8 bytes of
/// `text`.
pub fn sha256_hex(text: &str) -> (r: String)
    ensures
        r@ == hex_lower(sha256_of(vstd::utf8::encode_utf8(text@))),
        r@.len() == 64,
{
    let d = sha256_digest(text);
    proof {
        lemma_hex_lower_len(d@);
    }
    to_hex_lower(d.as_slice())
}

proof fn lemma_hex_lower_len(bytes: Seq<u8>)
    ensures
        hex_lower(bytes).len() == 2 * bytes.len(),
    decreases bytes.len(),
{
    if bytes.len() > 0 {
        lemma_hex_lower_len(bytes.drop_last());
    }
}

} // verus!
