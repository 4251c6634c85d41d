//! The calls this library makes into the `sha2`, `hmac`, `hex`, `uuid` and `chrono` crates (and the
//! one std function vstd leaves unspecified). Each item below is trusted: its contract is what the
//! crate's source and documentation show, and nothing here is proved.

use vstd::prelude::*;
use crate::text::digit_char;
use hmac::Mac;
use sha2::Digest;

verus! {

/// The SHA-256 digest of `bytes`, as `sha2::Sha256::digest` computes it.
pub uninterp spec fn sha256_digest(bytes: Seq<u8>) -> Seq<u8>;

/// The HMAC-SHA256 tag of `message` under `key`, as the `hmac` crate's `Hmac<Sha256>` computes it.
pub uninterp spec fn hmac_sha256_tag(key: Seq<u8>, message: Seq<u8>) -> Seq<u8>;

/// The name-based (SHA-1) UUID of `name` in `namespace`, as `uuid::Uuid::new_v5` computes it; both
/// UUIDs are taken as their 128-bit big-endian values.
pub uninterp spec fn uuid_v5_id(namespace: u128, name: Seq<u8>) -> u128;

/// One lowercase hexadecimal digit.
pub open spec fn hex_digit(n: nat) -> char {
    if n < 10 {
        digit_char(n)
    } else if n == 10 { 'a' }
    else if n == 11 { 'b' }
    else if n == 12 { 'c' }
    else if n == 13 { 'd' }
    else if n == 14 { 'e' }
    else { 'f' }
}

/// Whether `c` is a lowercase hexadecimal digit.
pub open spec fn is_lower_hex(c: char) -> bool {
    ('0' <= c && c <= '9') || ('a' <= c && c <= 'f')
}

/// Lowercase hexadecimal of `bytes`: two digits per byte, high nibble first.
pub open spec fn hex_lower(bytes: Seq<u8>) -> Seq<char>
    decreases bytes.len(),
{
    if bytes.len() == 0 {
        Seq::empty()
    } else {
        hex_lower(bytes.drop_last()) + seq![hex_digit((bytes.last() / 16) as nat), hex_digit((bytes.last() % 16) as nat)]
    }
}

/// The `k`-th hexadecimal nibble (0 = most significant) of a 128-bit value.
pub open spec fn nibble(id: u128, k: int) -> nat {
    ((id as int / vstd::arithmetic::power::pow(16, (31 - k) as nat)) % 16) as nat
}

/// The lowercase hex digits of nibbles `from..to` of `id`.
pub open spec fn nibbles_text(id: u128, from: int, to: int) -> Seq<char> {
    Seq::new((to - from) as nat, |i: int| hex_digit(nibble(id, from + i)))
}

/// The hyphenated lowercase text of a UUID (`8-4-4-4-12` hex digits), as its `Display` writes it.
pub open spec fn uuid_text(id: u128) -> Seq<char> {
    nibbles_text(id, 0, 8) + seq!['-'] + nibbles_text(id, 8, 12) + seq!['-'] + nibbles_text(id, 12, 16)
        + seq!['-'] + nibbles_text(id, 16, 20) + seq!['-'] + nibbles_text(id, 20, 32)
}

/// `sha2::Sha256::digest`: the SHA-256 of `bytes`; a SHA-256 digest is 32 bytes long.
#[verifier::external_body]
pub(crate) fn sha256(bytes: &[u8]) -> (d: Vec<u8>)
    ensures
        d@ == sha256_digest(bytes@),
        d@.len() == 32,
{
    sha2::Sha256::digest(bytes).to_vec()
}

/// The `hmac` crate's HMAC-SHA256 (`Hmac::<Sha256>::new_from_slice`, `update`, `finalize`): the
/// 32-byte tag of `message` under `key`. `new_from_slice` accepts a key of any length, so it never
/// fails here.
#[verifier::external_body]
pub(crate) fn hmac_sha256(key: &[u8], message: &[u8]) -> (tag: Vec<u8>)
    ensures
        tag@ == hmac_sha256_tag(key@, message@),
        tag@.len() == 32,
{
    let mut mac = <hmac::Hmac<sha2::Sha256> as Mac>::new_from_slice(key)
        .expect("HMAC accepts a key of any length");
    mac.update(message);
    mac.finalize().into_bytes().to_vec()
}

/// `hex::encode`: the lowercase hexadecimal text of `bytes`, two digits per byte.
#[verifier::external_body]
pub(crate) fn hex_encode(bytes: &[u8]) -> (s: String)
    ensures
        s@ == hex_lower(bytes@),
{
    hex::encode(bytes)
}

/// `uuid::Uuid::new_v5`: the name-based UUID of `name` in `namespace`.
#[verifier::external_body]
pub(crate) fn uuid_v5(namespace: u128, name: &[u8]) -> (id: u128)
    ensures
        id == uuid_v5_id(namespace, name@),
{
    uuid::Uuid::new_v5(&uuid::Uuid::from_u128(namespace), name).as_u128()
}

/// The `Display` text of a `uuid::Uuid`: hyphenated lowercase hex.
#[verifier::external_body]
pub(crate) fn uuid_to_text(id: u128) -> (s: String)
    ensures
        s@ == uuid_text(id),
{
    uuid::Uuid::from_u128(id).to_string()
}

/// `chrono::Utc::now().timestamp_millis()`: the current wall-clock instant in Unix milliseconds.
/// The clock decides it, so nothing is promised of the value.
#[verifier::external_body]
pub(crate) fn now_unix_millis() -> i64 {
    chrono::Utc::now().timestamp_millis()
}

/// Every character of a lowercase hex text is a lowercase hex digit, and there are two per byte.
pub proof fn lemma_hex_lower(bytes: Seq<u8>)
    ensures
        hex_lower(bytes).len() == 2 * bytes.len(),
        forall|i: int| 0 <= i < hex_lower(bytes).len() ==> is_lower_hex(#[trigger] hex_lower(bytes)[i]),
    decreases bytes.len(),
{
    if bytes.len() > 0 {
        lemma_hex_lower(bytes.drop_last());
        let h = hex_lower(bytes);
        let p = hex_lower(bytes.drop_last());
        let hi = (bytes.last() / 16) as nat;
        let lo = (bytes.last() % 16) as nat;
        assert(is_lower_hex(hex_digit(hi)));
        assert(is_lower_hex(hex_digit(lo)));
        assert forall|i: int| 0 <= i < h.len() implies is_lower_hex(#[trigger] h[i]) by {
            if i < p.len() {
                assert(h[i] == p[i]);
            }
        }
    }
}

} // verus!
