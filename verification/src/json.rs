//! JSON text for values and errors. String literals come from serde_json;
//! numbers, the fixed words and the framing of arrays, objects and the error
//! itself are written here.

use crate::error::{cow_as_str, ErrorDetails, ErrorView};
use crate::text::{decimal, joined, push_decimal, push_signed_decimal, signed_decimal};
use crate::value::{ParameterMap, ParameterValue, ValueView};
use vstd::prelude::*;

verus! {

/// The JSON string literal that serde_json writes for a string, quotes and
/// escapes included, or `None` where serde_json reports an error for it.
pub uninterp spec fn json_string_text(s: Seq<char>) -> Option<Seq<char>>;

/// `serde_json::to_string` on a string slice. The result depends on the
/// characters of the slice alone, and it is there for every slice: a string
/// is written into a vector in memory, which takes every write, and the
/// string's own serialization reports no error.
#[verifier::external_body]
fn json_string(s: &str) -> (r: Option<String>)
    ensures
        r is Some,
        r.deep_view() == json_string_text(s@),
{
    serde_json::to_string(s).ok()
}

/// Whether every part is there.
pub open spec fn all_some(parts: Seq<Option<Seq<char>>>) -> bool {
    forall|i: int| 0 <= i < parts.len() ==> (#[trigger] parts[i]) is Some
}

/// The parts themselves, where every part is there.
pub open spec fn unwrapped(parts: Seq<Option<Seq<char>>>) -> Seq<Seq<char>> {
    Seq::new(parts.len(), |i: int| parts[i]->0)
}

/// The parts between `open` and `close` with a comma between each two, where
/// every part is there; nothing where one is missing.
pub open spec fn bracketed(open: Seq<char>, parts: Seq<Option<Seq<char>>>, close: Seq<char>)
    -> Option<Seq<char>> {
    if all_some(parts) {
        Some(open + joined(unwrapped(parts), ","@) + close)
    } else {
        None
    }
}

/// One member of an object, `key:value`, where both texts are there.
pub open spec fn member_text(key: Option<Seq<char>>, value: Option<Seq<char>>) -> Option<
    Seq<char>,
> {
    match (key, value) {
        (Some(k), Some(v)) => Some(k + ":"@ + v),
        _ => None,
    }
}

/// The JSON texts of the items of an array, in order.
pub open spec fn item_jsons(items: Seq<ValueView>) -> Seq<Option<Seq<char>>>
    decreases items,
{
    Seq::new(
        items.len(),
        |i: int|
            if 0 <= i < items.len() {
                json_value_text(items[i])
            } else {
                None
            },
    )
}

/// The JSON texts of the entries of an object, in order.
pub open spec fn entry_jsons(entries: Seq<(Seq<char>, ValueView)>) -> Seq<Option<Seq<char>>>
    decreases entries,
{
    Seq::new(
        entries.len(),
        |i: int|
            if 0 <= i < entries.len() {
                member_text(json_string_text(entries[i].0), json_value_text(entries[i].1))
            } else {
                None
            },
    )
}

/// The JSON text of a value: a string as its literal, an integer in decimal,
/// a float as its JSON token, a boolean as `true` or `false`, the null value
/// as `null`, an array as `[v1,v2]` and an object as `{"k1":v1,"k2":v2}` in
/// the order of its entries. Nothing where a string in it has no literal.
pub open spec fn json_value_text(value: ValueView) -> Option<Seq<char>>
    decreases value,
{
    match value {
        ValueView::String(s) => json_string_text(s),
        ValueView::Integer(i) => Some(signed_decimal(i as int)),
        ValueView::Float(f) => Some(f.json),
        ValueView::Boolean(b) => Some(
            if b {
                "true"@
            } else {
                "false"@
            },
        ),
        ValueView::Array(items) => bracketed("["@, item_jsons(items), "]"@),
        ValueView::Object(entries) => bracketed("{"@, entry_jsons(entries), "}"@),
        ValueView::Null => Some("null"@),
    }
}

/// The JSON object for an error from the texts of its parts: the code, the
/// name, the message and, where the error has parameters, the parameters.
/// Nothing where the text of a part is missing.
pub open spec fn envelope_text(
    code: u32,
    name: Option<Seq<char>>,
    message: Option<Seq<char>>,
    parameters: Option<Option<Seq<char>>>,
) -> Option<Seq<char>> {
    match (name, message, parameters) {
        (Some(n), Some(m), None) => Some(
            "{\"code\":"@ + decimal(code as nat) + ",\"name\":"@ + n + ",\"message\":"@ + m + "}"@,
        ),
        (Some(n), Some(m), Some(Some(p))) => Some(
            "{\"code\":"@ + decimal(code as nat) + ",\"name\":"@ + n + ",\"message\":"@ + m
                + ",\"parameters\":"@ + p + "}"@,
        ),
        _ => None,
    }
}

/// The JSON object for an error: its code, its name, its message with the
/// arguments filled in and, where it has parameters, its parameters. The
/// status, the arguments and the builder are no part of it.
pub open spec fn json_body(error: ErrorView) -> Option<Seq<char>> {
    envelope_text(
        error.code,
        json_string_text(error.name),
        json_string_text(error.formatted_message()),
        match error.parameters {
            Some(entries) => Some(json_value_text(ValueView::Object(entries))),
            None => None,
        },
    )
}

/// The JSON object that stands in where an error has no JSON text.
pub open spec fn fallback_text(code: u32) -> Seq<char> {
    "{\"error\":\"Failed to serialize error "@ + decimal(code as nat) + "\"}"@
}

/// The body of a JSON response: the JSON object for the error, or the
/// stand-in where there is none.
pub open spec fn body_or_fallback(code: u32, body: Option<Seq<char>>) -> Seq<char> {
    match body {
        Some(text) => text,
        None => fallback_text(code),
    }
}

/// One member of an object from the texts of its key and its value.
pub fn json_member(key: Option<String>, value: Option<String>) -> (r: Option<String>)
    ensures
        r.deep_view() == member_text(key.deep_view(), value.deep_view()),
{
    match (key, value) {
        (Some(k), Some(v)) => {
            let mut text = k;
            text.append(":");
            text.append(v.as_str());
            Some(text)
        },
        _ => None,
    }
}

/// The parts between `open` and `close`, with a comma between each two.
fn json_sequence(open: &str, parts: &Vec<Option<String>>, close: &str) -> (r: Option<String>)
    ensures
        r.deep_view() == bracketed(open@, parts.deep_view(), close@),
{
    let ghost texts = parts.deep_view();
    let mut out = String::new();
    out.append(open);
    let mut i: usize = 0;
    while i < parts.len()
        invariant
            i <= parts@.len(),
            texts == parts.deep_view(),
            forall|j: int| 0 <= j < i ==> (#[trigger] texts[j]) is Some,
            out@ == open@ + joined(unwrapped(texts).take(i as int), ","@),
        decreases parts@.len() - i,
    {
        match &parts[i] {
            Some(part) => {
                if i > 0 {
                    out.append(",");
                }
                out.append(part.as_str());
                proof {
                    assert(texts[i as int] == Some(part@));
                    assert(unwrapped(texts).take(i + 1).drop_last() =~= unwrapped(texts).take(
                        i as int,
                    ));
                    assert(unwrapped(texts).take(i + 1).last() == part@);
                }
            },
            None => {
                assert(texts[i as int] is None);
                return None;
            },
        }
        i += 1;
    }
    proof {
        assert(unwrapped(texts).take(i as int) =~= unwrapped(texts));
    }
    out.append(close);
    Some(out)
}

/// A JSON array from the texts of its items.
pub fn json_array(items: &Vec<Option<String>>) -> (r: Option<String>)
    ensures
        r.deep_view() == bracketed("["@, items.deep_view(), "]"@),
{
    json_sequence("[", items, "]")
}

/// A JSON object from the texts of its members.
pub fn json_object(members: &Vec<Option<String>>) -> (r: Option<String>)
    ensures
        r.deep_view() == bracketed("{"@, members.deep_view(), "}"@),
{
    json_sequence("{", members, "}")
}

/// The JSON object for an error from the texts of its parts.
pub fn json_envelope(
    code: u32,
    name: Option<String>,
    message: Option<String>,
    parameters: Option<Option<String>>,
) -> (r: Option<String>)
    ensures
        r.deep_view() == envelope_text(
            code,
            name.deep_view(),
            message.deep_view(),
            parameters.deep_view(),
        ),
{
    match (name, message) {
        (Some(n), Some(m)) => {
            let mut out = String::new();
            out.append("{\"code\":");
            push_decimal(&mut out, code as u64);
            out.append(",\"name\":");
            out.append(n.as_str());
            out.append(",\"message\":");
            out.append(m.as_str());
            match parameters {
                None => {},
                Some(Some(p)) => {
                    out.append(",\"parameters\":");
                    out.append(p.as_str());
                },
                Some(None) => {
                    return None;
                },
            }
            out.append("}");
            Some(out)
        },
        _ => None,
    }
}

/// The body of a JSON response from the JSON object for the error, where
/// there is one.
pub fn json_or_fallback(code: u32, body: Option<String>) -> (r: String)
    ensures
        r@ == body_or_fallback(code, body.deep_view()),
{
    match body {
        Some(text) => text,
        None => {
            let mut out = String::new();
            out.append("{\"error\":\"Failed to serialize error ");
            push_decimal(&mut out, code as u64);
            out.append("\"}");
            out
        },
    }
}

impl ParameterMap {
    /// The JSON object for the entries, in their order.
    pub fn to_json(&self) -> (r: Option<String>)
        ensures
            r is Some,
            r.deep_view() == json_value_text(ValueView::Object(self@)),
        decreases self,
    {
        let mut members: Vec<Option<String>> = Vec::new();
        let n = self.len();
        let mut i: usize = 0;
        while i < n
            invariant
                i <= n,
                n == self@.len(),
                members@.len() == i,
                forall|j: int|
                    0 <= j < i ==> (#[trigger] members@[j]).deep_view() == entry_jsons(self@)[j]
                        && members@[j] is Some,
            decreases n - i,
        {
            let (key, value) = self.entry(i);
            members.push(json_member(json_string(key), value.to_json()));
            i += 1;
        }
        assert(members.deep_view() =~= entry_jsons(self@));
        assert(all_some(members.deep_view())) by {
            assert forall|j: int| 0 <= j < members.deep_view().len() implies (
            #[trigger] members.deep_view()[j]) is Some by {
                assert(members@[j] is Some);
            }
        }
        json_object(&members)
    }
}

/// The JSON texts of the items, in order.
fn item_json_texts(items: &Vec<ParameterValue>) -> (r: Vec<Option<String>>)
    ensures
        r.deep_view() == item_jsons(crate::value::trees(items@)),
        all_some(r.deep_view()),
    decreases items,
{
    let mut parts: Vec<Option<String>> = Vec::new();
    let mut i: usize = 0;
    while i < items.len()
        invariant
            i <= items@.len(),
            parts@.len() == i,
            forall|j: int|
                0 <= j < i ==> (#[trigger] parts@[j]).deep_view() == json_value_text(items@[j]@)
                    && parts@[j] is Some,
        decreases items@.len() - i,
    {
        parts.push(items[i].to_json());
        i += 1;
    }
    assert(parts.deep_view() =~= item_jsons(crate::value::trees(items@)));
    assert forall|j: int| 0 <= j < parts.deep_view().len() implies (
    #[trigger] parts.deep_view()[j]) is Some by {
        assert(parts@[j] is Some);
    }
    parts
}

impl ParameterValue {
    /// The JSON text of the value. It is there for every value.
    pub fn to_json(&self) -> (r: Option<String>)
        ensures
            r is Some,
            r.deep_view() == json_value_text(self@),
        decreases self,
    {
        match self {
            ParameterValue::String(s) => json_string(s.as_str()),
            ParameterValue::Integer(i) => {
                let mut out = String::new();
                push_signed_decimal(&mut out, *i);
                Some(out)
            },
            ParameterValue::Float(f) => Some(f.json.clone()),
            ParameterValue::Boolean(b) => {
                if *b {
                    Some("true".to_owned())
                } else {
                    Some("false".to_owned())
                }
            },
            ParameterValue::Array(items) => {
                let parts = item_json_texts(items);
                json_array(&parts)
            },
            ParameterValue::Object(map) => map.to_json(),
            ParameterValue::Null => Some("null".to_owned()),
        }
    }
}

impl<'a> ErrorDetails<'a> {
    /// The JSON object for the error. It is there for every error.
    pub fn to_json(&self) -> (r: Option<String>)
        ensures
            r is Some,
            r.deep_view() == json_body(self@),
    {
        let name = json_string(cow_as_str(&self.name));
        let message = json_string(self.format_message().as_str());
        let parameters = match &self.parameters {
            Some(map) => Some(map.to_json()),
            None => None,
        };
        json_envelope(self.code, name, message, parameters)
    }
}

} // verus!
