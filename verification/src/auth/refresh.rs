//! Opaque refresh tokens and the hashes under which they are stored.

use vstd::prelude::*;
use crate::crypto::{
    base64_url_encode, base64_url_unpadded, is_url_safe_base64_char, random_bytes, sha256_digest,
    sha256_of,
};
use crate::hex::{hex_encode, hex_text, is_lower_hex_char, lemma_hex_text_shape};

verus! {

/// Number of random bytes in a refresh token.
pub const REFRESH_TOKEN_BYTES: usize = 32;

/// The stored form of a refresh token: the lower-case hexadecimal SHA-256
/// digest of its UTF-8 bytes.
pub open spec fn refresh_token_hash_text(token: Seq<char>) -> Seq<char> {
    hex_text(sha256_of(vstd::utf8::encode_utf8(token)))
}

/// A fresh refresh token: 32 random bytes in URL-safe unpadded base64, so
/// 43 characters from that alphabet.
pub fn generate_refresh_token() -> (res: String)
    ensures
        exists|bytes: Seq<u8>| bytes.len() == 32 && res@ == #[trigger] base64_url_unpadded(bytes),
        res@.len() == 43,
        forall|i: int| 0 <= i < res@.len() ==> #[trigger] is_url_safe_base64_char(res@[i]),
{
    let bytes = random_bytes(REFRESH_TOKEN_BYTES);
    let token = base64_url_encode(bytes.as_slice());
    assert(token@ == base64_url_unpadded(bytes@));
    token
}

/// Hashes a refresh token for storage and lookup: 64 lower-case hexadecimal
/// digits of the SHA-256 digest of the token's UTF-8 bytes.
pub fn hash_refresh_token(token: &str) -> (res: String)
    ensures
        res@ == refresh_token_hash_text(token@),
        res@.len() == 64,
        forall|i: int| 0 <= i < res@.len() ==> #[trigger] is_lower_hex_char(res@[i]),
{
    let digest = sha256_digest(token.as_bytes());
    let res = hex_encode(digest.as_slice());
    proof {
        lemma_hex_text_shape(digest@);
    }
    res
}

} // verus!
