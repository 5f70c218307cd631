//! A first-order model of the JSON values the extraction pipeline reads and
//! writes.
//!
//! The pipeline only ever inspects the top level of a decoded object: whether
//! a key is present, whether its value is null, and the value's scalar shape.
//! A [`JsonValue`] therefore keeps scalars as plain values, keeps every
//! numeric literal as its source text, and collapses nested arrays and
//! objects into their rendered text, which the logic carries but never opens.

use vstd::prelude::*;
use vstd::string::StrSliceExecFns;

verus! {

/// One top-level value of a decoded JSON object.
#[derive(Debug, PartialEq, Eq)]
pub enum JsonValue {
    /// The JSON null.
    Null,
    /// A JSON boolean.
    Bool(bool),
    /// A JSON number, kept as the literal text it was written with.
    Num(String),
    /// A JSON string.
    Text(String),
    /// A nested array or object, kept as rendered JSON text.
    Composite(String),
}

impl Clone for JsonValue {
    /// Cloning keeps the value.
    fn clone(&self) -> (r: Self)
        ensures
            r == self,
    {
        match self {
            JsonValue::Null => JsonValue::Null,
            JsonValue::Bool(b) => JsonValue::Bool(*b),
            JsonValue::Num(s) => JsonValue::Num(s.clone()),
            JsonValue::Text(s) => JsonValue::Text(s.clone()),
            JsonValue::Composite(s) => JsonValue::Composite(s.clone()),
        }
    }
}

/// The key-value mapping a structured generation call produced.
///
/// Keys follow the decoder's order; a well-formed response never repeats a
/// key, and every reader takes the first occurrence in any case.
#[derive(Debug, PartialEq, Eq)]
pub struct ExtractionResult {
    pub fields: Vec<(String, JsonValue)>,
}

/// The first value bound to `key` at or after position `i`, if any.
pub open spec fn lookup_from(fields: Seq<(String, JsonValue)>, key: Seq<char>, i: int) -> Option<
    JsonValue,
>
    decreases fields.len() - i,
{
    if i < 0 || i >= fields.len() {
        None
    } else if fields[i].0@ == key {
        Some(fields[i].1)
    } else {
        lookup_from(fields, key, i + 1)
    }
}

/// The first value bound to `key`, if any.
pub open spec fn lookup_spec(fields: Seq<(String, JsonValue)>, key: Seq<char>) -> Option<
    JsonValue,
> {
    lookup_from(fields, key, 0)
}

impl ExtractionResult {
    /// The first value bound to `key`, if any.
    pub fn lookup<'a>(&'a self, key: &String) -> (r: Option<&'a JsonValue>)
        ensures
            match r {
                Some(v) => lookup_spec(self.fields@, key@) == Some(*v),
                None => lookup_spec(self.fields@, key@) is None,
            },
    {
        let n: usize = self.fields.len();
        let mut i: usize = 0;
        while i < n
            invariant
                i <= n,
                n == self.fields@.len(),
                lookup_from(self.fields@, key@, 0) == lookup_from(self.fields@, key@, i as int),
            decreases n - i,
        {
            if self.fields[i].0.eq(key) {
                assert(lookup_from(self.fields@, key@, i as int) == Some(self.fields@[i as int].1));
                return Some(&self.fields[i].1);
            }
            assert(lookup_from(self.fields@, key@, i as int) == lookup_from(
                self.fields@,
                key@,
                i as int + 1,
            ));
            i = i + 1;
        }
        None
    }

    /// The boolean bound to `key`, with absent, null or non-boolean values
    /// all reading as `false`.
    pub fn flag(&self, key: &String) -> (b: bool)
        ensures
            b == flag_spec(self.fields@, key@),
    {
        match self.lookup(key) {
            Some(v) => match v {
                JsonValue::Bool(b) => *b,
                _ => false,
            },
            None => false,
        }
    }
}

/// The boolean bound to `key`, defaulted to `false` when the key is absent or
/// bound to anything but a boolean.
pub open spec fn flag_spec(fields: Seq<(String, JsonValue)>, key: Seq<char>) -> bool {
    match lookup_spec(fields, key) {
        Some(JsonValue::Bool(b)) => b,
        _ => false,
    }
}

/// Whether `c` is a decimal digit.
pub open spec fn decimal_digit(c: char) -> bool {
    '0' <= c && c <= '9'
}

/// The position where the digit run of an integer literal would start: after
/// a leading minus sign, else at the front.
pub open spec fn digit_start(s: Seq<char>) -> int {
    if s.len() > 0 && s[0] == '-' {
        1
    } else {
        0
    }
}

/// Whether `s` is an optionally negated, non-empty run of decimal digits.
pub open spec fn integer_text(s: Seq<char>) -> bool {
    s.len() > digit_start(s) && (forall|i: int|
        digit_start(s) <= i < s.len() ==> decimal_digit(#[trigger] s[i]))
}

/// Decides [`integer_text`] on a string.
pub fn is_integer_text(s: &str) -> (b: bool)
    ensures
        b == integer_text(s@),
{
    let n: usize = s.unicode_len();
    let start: usize = if n > 0 && s.get_char(0) == '-' {
        1
    } else {
        0
    };
    assert(start == digit_start(s@));
    if n == start {
        return false;
    }
    let mut i: usize = start;
    while i < n
        invariant
            start <= i <= n,
            n == s@.len(),
            start == digit_start(s@),
            forall|j: int| start <= j < i ==> decimal_digit(#[trigger] s@[j]),
        decreases n - i,
    {
        let c = s.get_char(i);
        if !('0' <= c && c <= '9') {
            return false;
        }
        i = i + 1;
    }
    true
}

} // verus!
