//! The error vocabulary the ports and their adapters share: the optimistic-concurrency conflict and
//! the two payment-gateway failures, each with its builder and its reader, and the reader of the
//! HTTP status a gateway failure carries.

use vstd::prelude::*;
use crate::errors::{invariant_code, lemma_trim_no_ws, is_whitespace, DomainError};
use crate::text::{chars_of, decimal, find_char, first_index, int_decimal, lemma_decimal, lemma_first_index,
    parse_u16, parse_u16_chars, push_decimal, push_int_decimal, starts_with, vec_starts_with};

verus! {

/// Message prefix of the invariant an event-store append returns when it loses the
/// optimistic-concurrency race.
pub const VERSION_CONFLICT_PREFIX: &'static str = "version conflict";

/// Message prefix of a deterministic payment-gateway refusal (terminal: retrying never succeeds).
pub const PAYMENT_GATEWAY_REFUSED_PREFIX: &'static str = "PaymentGatewayRefused";

/// The errors.yaml code a card decline carries (catalogued, unlike the refusal prefix).
pub const PAYMENT_DECLINED_CODE: &'static str = "PaymentDeclined";

/// The message of the canonical optimistic-concurrency failure.
pub open spec fn version_conflict_message(stream_name: Seq<char>, expected_version: int) -> Seq<char> {
    VERSION_CONFLICT_PREFIX@ + ": stream '"@ + stream_name + "' is past version "@
        + int_decimal(expected_version)
}

/// The message a gateway builder writes: the code, then — when the gateway answered — its HTTP
/// status in a `(HTTP n)` group right after the first colon, then the gateway's own prose.
pub open spec fn gateway_message(code: Seq<char>, status: Option<u16>, detail: Seq<char>) -> Seq<char> {
    match status {
        Some(s) => code + ": (HTTP "@ + decimal(s as nat) + ") "@ + detail,
        None => code + ": "@ + detail,
    }
}

/// What `gateway_status_of` reads from a message: the `(HTTP n)` group immediately after the first
/// `": "`, parsed as a `u16`.
pub open spec fn status_in_message(msg: Seq<char>) -> Option<u16> {
    match first_index(msg, ':') {
        None => None,
        Some(c) => {
            let rest = msg.subrange(c + 1, msg.len() as int);
            if starts_with(rest, " (HTTP "@) {
                let tail = rest.skip(7);
                match first_index(tail, ')') {
                    Some(e) => parse_u16(tail.take(e)),
                    None => None,
                }
            } else {
                None
            }
        }
    }
}

/// What `gateway_status_of` answers for an error.
pub open spec fn gateway_status_spec(err: DomainError) -> Option<u16> {
    match err {
        DomainError::Invariant(msg) => status_in_message(msg@),
        _ => None,
    }
}

/// Whether `err` is an invariant whose message starts with `prefix`.
pub open spec fn invariant_starts_with(err: DomainError, prefix: Seq<char>) -> bool {
    match err {
        DomainError::Invariant(msg) => starts_with(msg@, prefix),
        _ => false,
    }
}

/// Builds the canonical optimistic-concurrency failure for `stream_name` at `expected_version`.
pub fn version_conflict(stream_name: &str, expected_version: i64) -> (e: DomainError)
    ensures
        e matches DomainError::Invariant(m)
            && m@ == version_conflict_message(stream_name@, expected_version as int),
{
    let mut m = String::from_str(VERSION_CONFLICT_PREFIX);
    m.append(": stream '");
    m.append(stream_name);
    m.append("' is past version ");
    push_int_decimal(&mut m, expected_version);
    DomainError::Invariant(m)
}

/// Whether `err` is the optimistic-concurrency failure `version_conflict` builds.
pub fn is_version_conflict(err: &DomainError) -> (b: bool)
    ensures
        b == invariant_starts_with(*err, VERSION_CONFLICT_PREFIX@),
{
    match err {
        DomainError::Invariant(msg) => vec_starts_with(&chars_of(msg.as_str()), VERSION_CONFLICT_PREFIX),
        _ => false,
    }
}

/// The message of a gateway failure under `code`.
fn gateway_failure(code: &str, status: Option<u16>, detail: &str) -> (e: DomainError)
    ensures
        e matches DomainError::Invariant(m) && m@ == gateway_message(code@, status, detail@),
{
    let mut m = String::from_str(code);
    match status {
        Some(s) => {
            m.append(": (HTTP ");
            push_decimal(&mut m, s as u64);
            m.append(") ");
        }
        None => {
            m.append(": ");
        }
    }
    m.append(detail);
    DomainError::Invariant(m)
}

/// Builds the canonical deterministic-gateway-refusal error; the `(HTTP n)` group sits after the
/// first colon so the code stays readable by `rejection_code`.
pub fn payment_gateway_refused(status: Option<u16>, detail: &str) -> (e: DomainError)
    ensures
        e matches DomainError::Invariant(m)
            && m@ == gateway_message(PAYMENT_GATEWAY_REFUSED_PREFIX@, status, detail@),
{
    gateway_failure(PAYMENT_GATEWAY_REFUSED_PREFIX, status, detail)
}

/// Whether `err` is a deterministic gateway refusal.
pub fn is_payment_gateway_refused(err: &DomainError) -> (b: bool)
    ensures
        b == invariant_starts_with(*err, PAYMENT_GATEWAY_REFUSED_PREFIX@),
{
    match err {
        DomainError::Invariant(msg) => vec_starts_with(&chars_of(msg.as_str()), PAYMENT_GATEWAY_REFUSED_PREFIX),
        _ => false,
    }
}

/// Builds the canonical card-decline rejection, with the gateway's HTTP status in the same
/// `(HTTP n)` group the refusal uses.
pub fn payment_declined(status: Option<u16>, detail: &str) -> (e: DomainError)
    ensures
        e matches DomainError::Invariant(m)
            && m@ == gateway_message(PAYMENT_DECLINED_CODE@, status, detail@),
{
    gateway_failure(PAYMENT_DECLINED_CODE, status, detail)
}

/// Whether `err` is a card decline.
pub fn is_payment_declined(err: &DomainError) -> (b: bool)
    ensures
        b == invariant_starts_with(*err, PAYMENT_DECLINED_CODE@),
{
    match err {
        DomainError::Invariant(msg) => vec_starts_with(&chars_of(msg.as_str()), PAYMENT_DECLINED_CODE),
        _ => false,
    }
}

/// Reads back the HTTP status a gateway builder encoded: the `(HTTP n)` group immediately after the
/// FIRST colon, whatever code precedes it — never a status-shaped group further along the prose.
pub fn gateway_status_of(err: &DomainError) -> (r: Option<u16>)
    ensures
        r == gateway_status_spec(*err),
{
    match err {
        DomainError::Invariant(msg) => {
            let v = chars_of(msg.as_str());
            let c = match find_char(&v, ':') {
                Some(c) => c,
                None => return None,
            };
            assert(c < v.len());
            let mut rest: Vec<char> = Vec::new();
            let mut i = c + 1;
            while i < v.len()
                invariant
                    c < v.len(),
                    c + 1 <= i <= v.len(),
                    rest@ == v@.subrange(c + 1, i as int),
                decreases v.len() - i,
            {
                rest.push(v[i]);
                i += 1;
                assert(rest@ =~= v@.subrange(c + 1, i as int));
            }
            if !vec_starts_with(&rest, " (HTTP ") {
                return None;
            }
            proof { reveal_strlit(" (HTTP "); }
            let mut tail: Vec<char> = Vec::new();
            let mut j: usize = 7;
            while j < rest.len()
                invariant
                    7 <= j <= rest.len(),
                    tail@ == rest@.subrange(7, j as int),
                decreases rest.len() - j,
            {
                tail.push(rest[j]);
                j += 1;
                assert(tail@ =~= rest@.subrange(7, j as int));
            }
            assert(tail@ =~= rest@.skip(7));
            let e = match find_char(&tail, ')') {
                Some(e) => e,
                None => return None,
            };
            let mut digits: Vec<char> = Vec::new();
            let mut k: usize = 0;
            while k < e
                invariant
                    e < tail.len(),
                    k <= e,
                    digits@ == tail@.subrange(0, k as int),
                decreases e - k,
            {
                digits.push(tail[k]);
                k += 1;
                assert(digits@ =~= tail@.subrange(0, k as int));
            }
            assert(digits@ =~= tail@.take(e as int));
            parse_u16_chars(&digits)
        }
        _ => None,
    }
}

// ---------------------------------------------------------------------------------------------
// Laws: the builders and the readers are one contract.
// ---------------------------------------------------------------------------------------------

proof fn lemma_literals()
    ensures
        ": (HTTP "@ == seq![':', ' ', '(', 'H', 'T', 'T', 'P', ' '],
        " (HTTP "@ == seq![' ', '(', 'H', 'T', 'T', 'P', ' '],
        "(HTTP "@ == seq!['(', 'H', 'T', 'T', 'P', ' '],
        ") "@ == seq![')', ' '],
        ": "@ == seq![':', ' '],
{
    reveal_strlit(": (HTTP ");
    reveal_strlit(" (HTTP ");
    reveal_strlit("(HTTP ");
    reveal_strlit(") ");
    reveal_strlit(": ");
    assert(": (HTTP "@ =~= seq![':', ' ', '(', 'H', 'T', 'T', 'P', ' ']);
    assert(" (HTTP "@ =~= seq![' ', '(', 'H', 'T', 'T', 'P', ' ']);
    assert("(HTTP "@ =~= seq!['(', 'H', 'T', 'T', 'P', ' ']);
    assert(") "@ =~= seq![')', ' ']);
    assert(": "@ =~= seq![':', ' ']);
}

proof fn lemma_codes()
    ensures
        PAYMENT_GATEWAY_REFUSED_PREFIX@ == seq!['P', 'a', 'y', 'm', 'e', 'n', 't', 'G', 'a', 't', 'e',
            'w', 'a', 'y', 'R', 'e', 'f', 'u', 's', 'e', 'd'],
        PAYMENT_DECLINED_CODE@ == seq!['P', 'a', 'y', 'm', 'e', 'n', 't', 'D', 'e', 'c', 'l', 'i',
            'n', 'e', 'd'],
{
    reveal_strlit("PaymentGatewayRefused");
    reveal_strlit("PaymentDeclined");
    assert(PAYMENT_GATEWAY_REFUSED_PREFIX@ =~= seq!['P', 'a', 'y', 'm', 'e', 'n', 't', 'G', 'a', 't',
        'e', 'w', 'a', 'y', 'R', 'e', 'f', 'u', 's', 'e', 'd']);
    assert(PAYMENT_DECLINED_CODE@ =~= seq!['P', 'a', 'y', 'm', 'e', 'n', 't', 'D', 'e', 'c', 'l',
        'i', 'n', 'e', 'd']);
}

proof fn lemma_code_shape(code: Seq<char>)
    requires
        code == PAYMENT_GATEWAY_REFUSED_PREFIX@ || code == PAYMENT_DECLINED_CODE@,
    ensures
        !code.contains(':'),
        forall|j: int| 0 <= j < code.len() ==> !is_whitespace(#[trigger] code[j]),
{
    lemma_codes();
}

/// In `a + b`, where `a` holds no `c` and `b` starts with it, the first `c` is at `a.len()`.
proof fn lemma_first_index_after(a: Seq<char>, b: Seq<char>, c: char)
    requires
        !a.contains(c),
        b.len() > 0,
        b[0] == c,
    ensures
        first_index(a + b, c) == Some(a.len() as int),
{
    let s = a + b;
    assert(s[a.len() as int] == c);
    assert forall|j: int| 0 <= j < a.len() implies s[j] != c by {
        assert(s[j] == a[j]);
    }
    lemma_first_index(s, c, a.len() as int);
}

/// The `(HTTP n)` group, read from the text right after the first colon.
proof fn lemma_group_reads_back(status: u16, detail: Seq<char>)
    ensures
        ({
            let rest = seq![' ', '(', 'H', 'T', 'T', 'P', ' '] + decimal(status as nat) + seq![')', ' '] + detail;
            let tail = rest.skip(7);
            &&& starts_with(rest, " (HTTP "@)
            &&& first_index(tail, ')') == Some(decimal(status as nat).len() as int)
            &&& parse_u16(tail.take(decimal(status as nat).len() as int)) == Some(status)
        }),
{
    lemma_literals();
    let d = decimal(status as nat);
    lemma_decimal(status as nat);
    let rest = seq![' ', '(', 'H', 'T', 'T', 'P', ' '] + d + seq![')', ' '] + detail;
    assert(rest.subrange(0, 7) =~= seq![' ', '(', 'H', 'T', 'T', 'P', ' ']);
    let tail = rest.skip(7);
    assert(tail =~= d + (seq![')', ' '] + detail));
    lemma_first_index_after(d, seq![')', ' '] + detail, ')');
    assert(tail.take(d.len() as int) =~= d);
}

/// The status a gateway builder encodes is the status the reader reads back, for both builders and
/// any gateway prose.
pub proof fn law_gateway_status_round_trips(code: Seq<char>, status: u16, detail: Seq<char>)
    requires
        code == PAYMENT_GATEWAY_REFUSED_PREFIX@ || code == PAYMENT_DECLINED_CODE@,
    ensures
        status_in_message(gateway_message(code, Some(status), detail)) == Some(status),
{
    lemma_code_shape(code);
    lemma_literals();
    let d = decimal(status as nat);
    let rest = seq![' ', '(', 'H', 'T', 'T', 'P', ' '] + d + seq![')', ' '] + detail;
    let after = seq![':'] + rest;
    let msg = gateway_message(code, Some(status), detail);
    assert(msg =~= code + after);
    lemma_first_index_after(code, after, ':');
    assert(msg.subrange(code.len() as int + 1, msg.len() as int) =~= rest);
    lemma_group_reads_back(status, detail);
}

/// A gateway failure without a status reads back as no status, even when the prose further along
/// holds a status-shaped group.
pub proof fn law_gateway_status_absent_without_status(code: Seq<char>, detail: Seq<char>)
    requires
        code == PAYMENT_GATEWAY_REFUSED_PREFIX@ || code == PAYMENT_DECLINED_CODE@,
        !starts_with(detail, "(HTTP "@),
    ensures
        status_in_message(gateway_message(code, None, detail)) is None,
{
    lemma_code_shape(code);
    lemma_literals();
    let after = seq![':', ' '] + detail;
    let msg = gateway_message(code, None, detail);
    assert(msg =~= code + after);
    lemma_first_index_after(code, after, ':');
    let rest = msg.subrange(code.len() as int + 1, msg.len() as int);
    assert(rest =~= seq![' '] + detail);
    if starts_with(rest, " (HTTP "@) {
        assert(detail.subrange(0, 6) =~= rest.subrange(1, 7));
        assert(rest.subrange(1, 7) =~= seq!['(', 'H', 'T', 'T', 'P', ' ']);
    }
}

/// A decline is never read as a refusal, nor a refusal as a decline.
pub proof fn law_decline_and_refusal_are_distinct(status: Option<u16>, detail: Seq<char>)
    ensures
        !starts_with(gateway_message(PAYMENT_DECLINED_CODE@, status, detail), PAYMENT_GATEWAY_REFUSED_PREFIX@),
        !starts_with(gateway_message(PAYMENT_GATEWAY_REFUSED_PREFIX@, status, detail), PAYMENT_DECLINED_CODE@),
        starts_with(gateway_message(PAYMENT_DECLINED_CODE@, status, detail), PAYMENT_DECLINED_CODE@),
        starts_with(gateway_message(PAYMENT_GATEWAY_REFUSED_PREFIX@, status, detail), PAYMENT_GATEWAY_REFUSED_PREFIX@),
{
    lemma_codes();
    let a = gateway_message(PAYMENT_DECLINED_CODE@, status, detail);
    let b = gateway_message(PAYMENT_GATEWAY_REFUSED_PREFIX@, status, detail);
    let ta = a.subrange(15, a.len() as int);
    let tb = b.subrange(21, b.len() as int);
    assert(a =~= PAYMENT_DECLINED_CODE@ + ta);
    assert(b =~= PAYMENT_GATEWAY_REFUSED_PREFIX@ + tb);
    assert(a[7] == 'D');
    assert(b[7] == 'G');
    assert(a.subrange(0, 15) =~= PAYMENT_DECLINED_CODE@);
    assert(b.subrange(0, 21) =~= PAYMENT_GATEWAY_REFUSED_PREFIX@);
    if starts_with(a, PAYMENT_GATEWAY_REFUSED_PREFIX@) {
        assert(a.subrange(0, 21)[7] == a[7]);
    }
    if starts_with(b, PAYMENT_DECLINED_CODE@) {
        assert(b.subrange(0, 15)[7] == b[7]);
    }
}

/// The code of a gateway failure stays readable by `rejection_code` with a status attached.
pub proof fn law_gateway_code_stays_readable(code: Seq<char>, status: Option<u16>, detail: Seq<char>)
    requires
        code == PAYMENT_GATEWAY_REFUSED_PREFIX@ || code == PAYMENT_DECLINED_CODE@,
    ensures
        invariant_code(gateway_message(code, status, detail)) == code,
{
    lemma_code_shape(code);
    lemma_literals();
    let msg = gateway_message(code, status, detail);
    let after = msg.subrange(code.len() as int, msg.len() as int);
    assert(msg =~= code + after);
    assert(after[0] == ':');
    lemma_first_index_after(code, after, ':');
    assert(msg.subrange(0, code.len() as int) =~= code);
    lemma_trim_no_ws(code);
}

/// A conflict built for any stream and version is recognised as one.
pub proof fn law_version_conflict_is_recognised(stream_name: Seq<char>, expected_version: int)
    ensures
        starts_with(version_conflict_message(stream_name, expected_version), VERSION_CONFLICT_PREFIX@),
{
    let m = version_conflict_message(stream_name, expected_version);
    assert(m.subrange(0, VERSION_CONFLICT_PREFIX@.len() as int) =~= VERSION_CONFLICT_PREFIX@);
}

} // verus!
