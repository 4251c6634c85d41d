//! The write-path journal's shared payload identity: the one hash every acceptance door must agree
//! on, so duplicate detection never depends on which door a payload came through.

use vstd::prelude::*;
use vstd::utf8::encode_utf8;
use crate::outside::{hex_encode, hex_lower, is_lower_hex, lemma_hex_lower, sha256, sha256_digest};

verus! {

/// The hash of a canonical payload text: lowercase hex of the SHA-256 of its UTF-8 bytes.
pub open spec fn payload_hash_spec(payload_json: Seq<char>) -> Seq<char> {
    hex_lower(sha256_digest(encode_utf8(payload_json)))
}

/// Canonical payload hash: SHA-256 hex over the payload's JSON serialization (`payload_json` is that
/// serialization, exactly as the acceptance door wrote it).
pub fn payload_hash(payload_json: &str) -> (h: String)
    ensures
        h@ == payload_hash_spec(payload_json@),
        h@.len() == 64,
        forall|i: int| 0 <= i < h@.len() ==> is_lower_hex(#[trigger] h@[i]),
{
    let bytes = payload_json.as_bytes_vec();
    let digest = sha256(bytes.as_slice());
    proof {
        lemma_hex_lower(digest@);
    }
    hex_encode(digest.as_slice())
}

/// The hash is a function of the payload's content alone: two payloads with the same serialization
/// hash alike, whichever door or instance produced them.
pub proof fn law_payload_hash_depends_on_content_only(a: Seq<char>, b: Seq<char>)
    requires
        a == b,
    ensures
        payload_hash_spec(a) == payload_hash_spec(b),
{
}

} // verus!
