//! JSON values as plain library data, read and written through serde_json.
use vstd::prelude::*;

use crate::digits::{all_digits, digits_value, is_digit};

verus! {

/// serde_json's value tree, carried only across the parsing wrapper.
#[verifier::external_type_specification]
#[verifier::external_body]
pub struct ExValue(serde_json::Value);

/// A JSON value. Numbers keep the text that serde_json prints for them;
/// object members keep the order in which serde_json hands them out.
#[derive(Debug)]
pub enum Json {
    Null,
    Bool(bool),
    Number(String),
    Str(String),
    Array(Vec<Json>),
    Object(Vec<(String, Json)>),
}

/// The value that serde_json parses from a text, if the text is JSON.
pub uninterp spec fn json_of(text: Seq<char>) -> Option<Json>;

/// The JSON string literal, quotes and escapes included, that serde_json
/// writes for a text.
pub uninterp spec fn json_string_literal(s: Seq<char>) -> Seq<char>;

/// Relies on serde_json::from_str into serde_json::Value: whether the text
/// parses, and to what, depends on the text alone.
#[verifier::external_body]
pub fn parse_json(text: &str) -> (r: Option<Json>)
    ensures
        r == json_of(text@),
{
    serde_json::from_str::<serde_json::Value>(text).ok().map(json_from_value)
}

/// Relies on serde_json's `Display` for `Value::String`: the quoted and
/// escaped form of a text, which depends on the text alone.
#[verifier::external_body]
pub fn json_quote(s: &str) -> (r: String)
    ensures
        r@ == json_string_literal(s@),
{
    serde_json::Value::String(s.to_string()).to_string()
}

/// Copies serde_json's value tree node for node into `Json`.
#[verifier::external_body]
fn json_from_value(v: serde_json::Value) -> Json {
    match v {
        serde_json::Value::Null => Json::Null,
        serde_json::Value::Bool(b) => Json::Bool(b),
        serde_json::Value::Number(n) => Json::Number(n.to_string()),
        serde_json::Value::String(s) => Json::Str(s),
        serde_json::Value::Array(a) => Json::Array(a.into_iter().map(json_from_value).collect()),
        serde_json::Value::Object(m) => Json::Object(
            m.into_iter().map(|(k, v)| (k, json_from_value(v))).collect(),
        ),
    }
}

/// The first member named `key`.
pub open spec fn member(ms: Seq<(String, Json)>, key: Seq<char>) -> Option<Json>
    decreases ms.len(),
{
    if ms.len() == 0 {
        None
    } else if ms[0].0@ == key {
        Some(ms[0].1)
    } else {
        member(ms.skip(1), key)
    }
}

/// The member `key` of an object; nothing for any other value.
pub open spec fn field(j: Json, key: Seq<char>) -> Option<Json> {
    match j {
        Json::Object(ms) => member(ms@, key),
        _ => None,
    }
}

/// The unsigned integer that a JSON number denotes, when it is one that fits
/// in 64 bits.
pub open spec fn json_u64(j: Json) -> Option<int> {
    match j {
        Json::Number(t) => if t@.len() > 0 && all_digits(t@) && digits_value(t@)
            <= u64::MAX {
            Some(digits_value(t@) as int)
        } else {
            None
        },
        _ => None,
    }
}

pub open spec fn json_text(j: Json) -> Option<Seq<char>> {
    match j {
        Json::Str(s) => Some(s@),
        _ => None,
    }
}

/// Looks up the member `key` of an object.
pub fn get_field<'a>(j: &'a Json, key: &str) -> (r: Option<&'a Json>)
    ensures
        match r {
            Some(v) => field(*j, key@) == Some(*v),
            None => field(*j, key@) is None,
        },
{
    match j {
        Json::Object(ms) => {
            let n = ms.len();
            let mut i: usize = 0;
            assert(ms@.skip(0) =~= ms@);
            while i < n
                invariant
                    i <= n,
                    n == ms@.len(),
                    *j == Json::Object(*ms),
                    member(ms@, key@) == member(ms@.skip(i as int), key@),
                decreases n - i,
            {
                let ghost rest = ms@.skip(i as int);
                assert(rest.len() > 0);
                assert(rest[0] == ms@[i as int]);
                if crate::text::text_eq(ms[i].0.as_str(), key) {
                    return Some(&ms[i].1);
                }
                assert(rest.skip(1) =~= ms@.skip(i + 1));
                i = i + 1;
            }
            assert(ms@.skip(n as int) =~= Seq::<(String, Json)>::empty());
            None
        },
        _ => None,
    }
}

/// Takes the member `key` out of an object.
pub fn take_field(j: Json, key: &str) -> (r: Option<Json>)
    ensures
        r == field(j, key@),
{
    match j {
        Json::Object(ms) => {
            let mut ms = ms;
            let ghost orig = ms@;
            let n = ms.len();
            let mut i: usize = 0;
            assert(ms@.skip(0) =~= ms@);
            while i < n
                invariant
                    i <= n,
                    n == ms@.len(),
                    ms@ == orig,
                    field(j, key@) == member(orig, key@),
                    member(orig, key@) == member(ms@.skip(i as int), key@),
                decreases n - i,
            {
                let ghost rest = ms@.skip(i as int);
                assert(rest.len() > 0);
                assert(rest[0] == ms@[i as int]);
                if crate::text::text_eq(ms[i].0.as_str(), key) {
                    let (_, v) = ms.remove(i);
                    return Some(v);
                }
                assert(rest.skip(1) =~= ms@.skip(i + 1));
                i = i + 1;
            }
            assert(ms@.skip(n as int) =~= Seq::<(String, Json)>::empty());
            None
        },
        _ => None,
    }
}

/// Reads a JSON number as an unsigned 64-bit integer.
pub fn get_u64(j: &Json) -> (r: Option<u64>)
    ensures
        match r {
            Some(v) => json_u64(*j) == Some(v as int),
            None => json_u64(*j) is None,
        },
{
    match j {
        Json::Number(t) => {
            let s = t.as_str();
            let n = s.unicode_len();
            if n == 0 {
                return None;
            }
            let mut acc: u128 = 0;
            let mut i: usize = 0;
            while i < n
                invariant
                    i <= n,
                    n == s@.len(),
                    s@ == t@,
                    *j == Json::Number(*t),
                    acc == digits_value(s@.take(i as int)),
                    all_digits(s@.take(i as int)),
                    acc <= u64::MAX,
                decreases n - i,
            {
                let c = s.get_char(i);
                if !('0' <= c && c <= '9') {
                    assert(!is_digit(t@[i as int]));
                    assert(!all_digits(t@));
                    return None;
                }
                let ghost pre = s@.take(i + 1);
                assert(pre.drop_last() =~= s@.take(i as int));
                assert(pre.last() == c);
                assert(all_digits(pre)) by {
                    assert forall|m: int| 0 <= m < pre.len() implies is_digit(#[trigger] pre[m]) by {
                        if m < i {
                            assert(pre[m] == s@.take(i as int)[m]);
                        }
                    }
                }
                acc = acc * 10 + (c as u32 - '0' as u32) as u128;
                if acc > 18446744073709551615u128 {
                    proof {
                        crate::fixed9::lemma_prefix_le(s@, i + 1);
                    }
                    return None;
                }
                i = i + 1;
            }
            assert(s@.take(n as int) =~= s@);
            Some(acc as u64)
        },
        _ => None,
    }
}

} // verus!
