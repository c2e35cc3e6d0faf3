//! The digests, the encoding and the randomness that the library takes from
//! outside crates. Each item here is trusted: its contract is believed, not
//! proved.

use vstd::prelude::*;
use base64::Engine;
use rand::RngCore;
use sha2::Digest;

verus! {

/// The SHA-1 digest of `data`, as computed by the `sha1` crate.
pub uninterp spec fn sha1_of(data: Seq<u8>) -> Seq<u8>;

/// The SHA-256 digest of `data`, as computed by the `sha2` crate.
pub uninterp spec fn sha256_of(data: Seq<u8>) -> Seq<u8>;

/// The URL-safe, unpadded base64 text of `data`, as written by the `base64`
/// crate's `URL_SAFE_NO_PAD` engine.
pub uninterp spec fn base64_url_unpadded(data: Seq<u8>) -> Seq<char>;

/// Length of unpadded base64 text for `n` bytes: four characters for each
/// full group of three bytes, then two for one trailing byte or three for two.
pub open spec fn unpadded_base64_len(n: nat) -> nat {
    4 * (n / 3) + if n % 3 == 0 {
        0nat
    } else if n % 3 == 1 {
        2nat
    } else {
        3nat
    }
}

/// A character of the URL-safe base64 alphabet.
pub open spec fn is_url_safe_base64_char(c: char) -> bool {
    ||| ('A' <= c && c <= 'Z')
    ||| ('a' <= c && c <= 'z')
    ||| ('0' <= c && c <= '9')
    ||| c == '-'
    ||| c == '_'
}

/// `sha1::Sha1::digest`: the digest is named by `sha1_of` and is 20 bytes
/// long, the output size of SHA-1. Nothing else about SHA-1 is stated.
#[verifier::external_body]
pub(crate) fn sha1_digest(data: &[u8]) -> (res: Vec<u8>)
    ensures
        res@ == sha1_of(data@),
        res@.len() == 20,
{
    sha1::Sha1::digest(data).to_vec()
}

/// `sha2::Sha256::digest`: the digest is named by `sha256_of` and is 32
/// bytes long, the output size of SHA-256. Nothing else about SHA-256 is
/// stated.
#[verifier::external_body]
pub(crate) fn sha256_digest(data: &[u8]) -> (res: Vec<u8>)
    ensures
        res@ == sha256_of(data@),
        res@.len() == 32,
{
    sha2::Sha256::digest(data).to_vec()
}

/// `base64::engine::general_purpose::URL_SAFE_NO_PAD.encode`: the text is
/// named by `base64_url_unpadded`; its length is the unpadded length the
/// crate computes (`encoded_len` without padding) and every character is
/// from the URL-safe alphabet. The bit layout of the encoding is not stated.
/// The crate panics where that length overflows `usize`, which `requires`
/// leaves out.
#[verifier::external_body]
pub(crate) fn base64_url_encode(data: &[u8]) -> (res: String)
    requires
        unpadded_base64_len(data@.len()) <= usize::MAX,
    ensures
        res@ == base64_url_unpadded(data@),
        res@.len() == unpadded_base64_len(data@.len()),
        forall|i: int| 0 <= i < res@.len() ==> #[trigger] is_url_safe_base64_char(res@[i]),
{
    base64::engine::general_purpose::URL_SAFE_NO_PAD.encode(data)
}

/// `rand::rng().fill_bytes` on a buffer of `n` bytes: the bytes are random,
/// so only their number is stated.
#[verifier::external_body]
pub(crate) fn random_bytes(n: usize) -> (res: Vec<u8>)
    ensures
        res@.len() == n,
{
    let mut bytes = vec![0u8; n];
    rand::rng().fill_bytes(&mut bytes);
    bytes
}

} // verus!
