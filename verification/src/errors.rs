//! The failure shape every handler and process-manager leg returns: a catalogued rejection (code +
//! typed context), a legacy `"<Code>: <detail>"` invariant message, or a repository fault.

use vstd::prelude::*;
use crate::text::{chars_of, find_char, first_index, push_char};

verus! {

/// One value of a rejection's context.
#[derive(Debug, Clone, PartialEq, Eq)]
pub enum ContextValue {
    /// An aggregate or message identifier (a UUID, as its 128-bit value).
    Id(u128),
    /// An integer (amounts in minor units, counts, versions).
    Int(i64),
    /// Free text.
    Text(String),
    /// An explicitly absent value.
    Absent,
}

/// One named field of a rejection's context (the errors.yaml `context` field name).
#[derive(Debug, Clone, PartialEq, Eq)]
pub struct ContextField {
    pub key: String,
    pub value: ContextValue,
}

/// Why a command or a process-manager leg did not go through.
#[derive(Debug, Clone, PartialEq, Eq)]
pub enum DomainError {
    /// A catalogued business rejection: the stable errors.yaml code and its typed context.
    Rejected { code: String, context: Vec<ContextField> },
    /// A legacy string invariant, `"<Code>: <detail>"`.
    Invariant(String),
    /// A storage or adapter fault — never the caller's doing.
    Repository(String),
}

impl DomainError {
    /// The code of a catalogued rejection, if this is one.
    pub open spec fn rejected_code(self) -> Option<Seq<char>> {
        match self {
            DomainError::Rejected { code, .. } => Some(code@),
            _ => None,
        }
    }

    /// The value a catalogued rejection's context carries under `key`, if any.
    pub open spec fn context_value(self, key: Seq<char>) -> Option<ContextValue> {
        match self {
            DomainError::Rejected { context, .. } => {
                if exists|i: int| 0 <= i < context.len() && (#[trigger] context[i]).key@ == key {
                    Some(context[choose|i: int| 0 <= i < context.len() && (#[trigger] context[i]).key@ == key].value)
                } else {
                    None
                }
            }
            _ => None,
        }
    }
}

/// A context field.
pub fn field(key: &str, value: ContextValue) -> (f: ContextField)
    ensures
        f.key@ == key@,
        f.value == value,
{
    ContextField { key: String::from_str(key), value }
}

/// Builds the canonical rejection for an errors.yaml invariant.
pub fn reject(code: &str, context: Vec<ContextField>) -> (e: DomainError)
    ensures
        e.rejected_code() == Some(code@),
        e matches DomainError::Rejected { context: c, .. } && c@ == context@,
{
    DomainError::Rejected { code: String::from_str(code), context }
}

/// A rejection whose context is the single field `key = value`.
pub fn reject1(code: &str, key: &str, value: ContextValue) -> (e: DomainError)
    ensures
        e.rejected_code() == Some(code@),
        e.context_value(key@) == Some(value),
{
    let mut context: Vec<ContextField> = Vec::new();
    context.push(field(key, value));
    let e = reject(code, context);
    assert(e->context[0].key@ == key@);
    e
}

/// A rejection whose context is `k1 = v1, k2 = v2`.
pub fn reject2(code: &str, k1: &str, v1: ContextValue, k2: &str, v2: ContextValue) -> (e: DomainError)
    requires
        k1@ != k2@,
    ensures
        e.rejected_code() == Some(code@),
        e.context_value(k1@) == Some(v1),
        e.context_value(k2@) == Some(v2),
{
    let mut context: Vec<ContextField> = Vec::new();
    context.push(field(k1, v1));
    context.push(field(k2, v2));
    let e = reject(code, context);
    assert(e->context[0].key@ == k1@);
    assert(e->context[1].key@ == k2@);
    e
}

/// A rejection whose context is `k1 = v1, k2 = v2, k3 = v3`.
pub fn reject3(code: &str, k1: &str, v1: ContextValue, k2: &str, v2: ContextValue, k3: &str, v3: ContextValue)
    -> (e: DomainError)
    requires
        k1@ != k2@,
        k1@ != k3@,
        k2@ != k3@,
    ensures
        e.rejected_code() == Some(code@),
        e.context_value(k1@) == Some(v1),
        e.context_value(k2@) == Some(v2),
        e.context_value(k3@) == Some(v3),
{
    let mut context: Vec<ContextField> = Vec::new();
    context.push(field(k1, v1));
    context.push(field(k2, v2));
    context.push(field(k3, v3));
    let e = reject(code, context);
    assert(e->context[0].key@ == k1@);
    assert(e->context[1].key@ == k2@);
    assert(e->context[2].key@ == k3@);
    e
}

/// Whether `s` is empty once trimmed of white space.
pub fn is_blank(s: &String) -> (b: bool)
    ensures
        b == (trim(s@).len() == 0),
{
    let v = chars_of(s.as_str());
    let t = trim_range(&v, 0, v.len());
    proof {
        assert(v@.subrange(0, v@.len() as int) =~= v@);
    }
    t.unicode_len() == 0
}

/// A rejection whose context is `k1 = v1, k2 = v2, k3 = v3, k4 = v4`.
pub fn reject4(code: &str, k1: &str, v1: ContextValue, k2: &str, v2: ContextValue, k3: &str, v3: ContextValue,
    k4: &str, v4: ContextValue) -> (e: DomainError)
    requires
        k1@ != k2@,
        k1@ != k3@,
        k1@ != k4@,
        k2@ != k3@,
        k2@ != k4@,
        k3@ != k4@,
    ensures
        e.rejected_code() == Some(code@),
        e.context_value(k1@) == Some(v1),
        e.context_value(k2@) == Some(v2),
        e.context_value(k3@) == Some(v3),
        e.context_value(k4@) == Some(v4),
{
    let mut context: Vec<ContextField> = Vec::new();
    context.push(field(k1, v1));
    context.push(field(k2, v2));
    context.push(field(k3, v3));
    context.push(field(k4, v4));
    let e = reject(code, context);
    assert(e->context[0].key@ == k1@);
    assert(e->context[1].key@ == k2@);
    assert(e->context[2].key@ == k3@);
    assert(e->context[3].key@ == k4@);
    e
}

/// Whether the rejection's context carries the text `text` under `key`.
pub open spec fn has_text(e: DomainError, key: Seq<char>, text: Seq<char>) -> bool {
    e.context_value(key) matches Some(ContextValue::Text(s)) && s@ == text
}

/// A text context value.
pub fn text_value(s: &str) -> (v: ContextValue)
    ensures
        v matches ContextValue::Text(t) && t@ == s@,
{
    ContextValue::Text(String::from_str(s))
}

/// `char::is_whitespace`: the Unicode `White_Space` property.
pub open spec fn is_whitespace(c: char) -> bool {
    ||| ('\u{9}' <= c && c <= '\u{d}')
    ||| c == ' '
    ||| c == '\u{85}'
    ||| c == '\u{a0}'
    ||| c == '\u{1680}'
    ||| ('\u{2000}' <= c && c <= '\u{200a}')
    ||| c == '\u{2028}'
    ||| c == '\u{2029}'
    ||| c == '\u{202f}'
    ||| c == '\u{205f}'
    ||| c == '\u{3000}'
}

/// Whether `c` is whitespace (as `char::is_whitespace`).
pub fn char_is_whitespace(c: char) -> (b: bool)
    ensures
        b == is_whitespace(c),
{
    ('\u{9}' <= c && c <= '\u{d}') || c == ' ' || c == '\u{85}' || c == '\u{a0}' || c == '\u{1680}'
        || ('\u{2000}' <= c && c <= '\u{200a}') || c == '\u{2028}' || c == '\u{2029}'
        || c == '\u{202f}' || c == '\u{205f}' || c == '\u{3000}'
}

/// Number of leading whitespace characters of `s`.
pub open spec fn leading_ws(s: Seq<char>) -> nat
    decreases s.len(),
{
    if s.len() > 0 && is_whitespace(s[0]) { 1 + leading_ws(s.drop_first()) } else { 0 }
}

/// Number of trailing whitespace characters of `s`.
pub open spec fn trailing_ws(s: Seq<char>) -> nat
    decreases s.len(),
{
    if s.len() > 0 && is_whitespace(s.last()) { 1 + trailing_ws(s.drop_last()) } else { 0 }
}

/// `str::trim`: `s` without its leading and trailing whitespace.
pub open spec fn trim(s: Seq<char>) -> Seq<char> {
    let front = s.skip(leading_ws(s) as int);
    front.take(front.len() - trailing_ws(front))
}

pub proof fn lemma_leading_ws(s: Seq<char>, i: int)
    requires
        0 <= i <= s.len(),
        forall|j: int| 0 <= j < i ==> is_whitespace(#[trigger] s[j]),
        i == s.len() || !is_whitespace(s[i]),
    ensures
        leading_ws(s) == i,
    decreases i,
{
    if i > 0 {
        let t = s.drop_first();
        assert forall|j: int| 0 <= j < i - 1 implies is_whitespace(#[trigger] t[j]) by {
            assert(t[j] == s[j + 1]);
        }
        if i - 1 < t.len() {
            assert(t[i - 1] == s[i]);
        }
        lemma_leading_ws(t, i - 1);
    }
}

pub proof fn lemma_trailing_ws(s: Seq<char>, k: int)
    requires
        0 <= k <= s.len(),
        forall|j: int| s.len() - k <= j < s.len() ==> is_whitespace(#[trigger] s[j]),
        k == s.len() || !is_whitespace(s[s.len() - k - 1]),
    ensures
        trailing_ws(s) == k,
    decreases k,
{
    if k > 0 {
        let t = s.drop_last();
        assert forall|j: int| t.len() - (k - 1) <= j < t.len() implies is_whitespace(#[trigger] t[j]) by {
            assert(t[j] == s[j]);
        }
        if k - 1 < t.len() {
            assert(t[t.len() - (k - 1) - 1] == s[s.len() - k - 1]);
        }
        lemma_trailing_ws(t, k - 1);
    }
}

/// A sequence free of whitespace is its own trim.
pub proof fn lemma_trim_no_ws(s: Seq<char>)
    requires
        forall|j: int| 0 <= j < s.len() ==> !is_whitespace(#[trigger] s[j]),
    ensures
        trim(s) == s,
{
    lemma_leading_ws(s, 0);
    assert(s.skip(0) =~= s);
    lemma_trailing_ws(s, 0);
    assert(s.take(s.len() as int) =~= s);
}

/// The characters of `v` between `from` and `to`, trimmed of whitespace.
pub fn trim_range(v: &Vec<char>, from: usize, to: usize) -> (s: String)
    requires
        from <= to <= v.len(),
    ensures
        s@ == trim(v@.subrange(from as int, to as int)),
{
    let ghost seg = v@.subrange(from as int, to as int);
    let mut a = from;
    while a < to && char_is_whitespace(v[a])
        invariant
            from <= a <= to <= v.len(),
            seg == v@.subrange(from as int, to as int),
            forall|j: int| from <= j < a ==> is_whitespace(#[trigger] v@[j]),
        decreases to - a,
    {
        a += 1;
    }
    proof {
        assert forall|j: int| 0 <= j < a - from implies is_whitespace(#[trigger] seg[j]) by {
            assert(seg[j] == v@[from + j]);
        }
        if a < to {
            assert(seg[a - from] == v@[a as int]);
        }
        lemma_leading_ws(seg, a - from);
    }
    let ghost front = seg.skip(a - from);
    assert(front =~= v@.subrange(a as int, to as int));
    let mut b = to;
    while b > a && char_is_whitespace(v[b - 1])
        invariant
            a <= b <= to,
            to <= v.len(),
            forall|j: int| b <= j < to ==> is_whitespace(#[trigger] v@[j]),
        decreases b - a,
    {
        b -= 1;
    }
    proof {
        let k = (to - b) as int;
        assert forall|j: int| front.len() - k <= j < front.len() implies is_whitespace(#[trigger] front[j]) by {
            assert(front[j] == v@[a + j]);
        }
        if k < front.len() {
            assert(front[front.len() - k - 1] == v@[b - 1]);
        }
        lemma_trailing_ws(front, k);
    }
    let mut out = String::new();
    let mut i = a;
    while i < b
        invariant
            a <= i <= b <= to <= v.len(),
            out@ == v@.subrange(a as int, i as int),
        decreases b - i,
    {
        push_char(&mut out, v[i]);
        i += 1;
        assert(out@ =~= v@.subrange(a as int, i as int));
    }
    assert(front.take(front.len() - (to - b)) =~= v@.subrange(a as int, b as int));
    out
}

/// The text before the first `:` of `msg` (all of it when there is none), trimmed — the errors.yaml
/// code a legacy invariant message carries.
pub open spec fn invariant_code(msg: Seq<char>) -> Seq<char> {
    match first_index(msg, ':') {
        Some(i) => trim(msg.subrange(0, i)),
        None => trim(msg),
    }
}

/// What `rejection_code` answers.
pub open spec fn rejection_code_spec(err: DomainError) -> Option<Seq<char>> {
    match err {
        DomainError::Rejected { code, .. } => Some(code@),
        DomainError::Invariant(msg) => Some(invariant_code(msg@)),
        DomainError::Repository(_) => None,
    }
}

/// The errors.yaml code a command rejection carries, if this is one: first-class on a structured
/// rejection, parsed from the head of a legacy `"<Code>: <detail>"` invariant.
pub fn rejection_code(err: &DomainError) -> (r: Option<String>)
    ensures
        r matches Some(c) ==> rejection_code_spec(*err) == Some(c@),
        r is None <==> rejection_code_spec(*err) is None,
{
    match err {
        DomainError::Rejected { code, .. } => Some(code.clone()),
        DomainError::Invariant(msg) => {
            let v = chars_of(msg.as_str());
            match find_char(&v, ':') {
                Some(i) => Some(trim_range(&v, 0, i)),
                None => {
                    assert(v@.subrange(0, v@.len() as int) =~= v@);
                    Some(trim_range(&v, 0, v.len()))
                }
            }
        }
        DomainError::Repository(_) => None,
    }
}

/// The text of an error as logs and recorded failures carry it: a rejection's code, an invariant's
/// message, a repository fault's message.
pub open spec fn error_text_spec(err: DomainError) -> Seq<char> {
    match err {
        DomainError::Rejected { code, .. } => code@,
        DomainError::Invariant(msg) => msg@,
        DomainError::Repository(msg) => msg@,
    }
}

/// The text of an error (see `error_text_spec`).
pub fn error_text(err: &DomainError) -> (s: String)
    ensures
        s@ == error_text_spec(*err),
{
    match err {
        DomainError::Rejected { code, .. } => code.clone(),
        DomainError::Invariant(msg) => msg.clone(),
        DomainError::Repository(msg) => msg.clone(),
    }
}

} // verus!
