//! JSON values, as far as the engine's API needs them: the tree of a document
//! and its compact text.

use crate::decimal::{decimal, decimal_i64};
use crate::text::str_eq;
use vstd::prelude::*;
use vstd::utf8::encode_utf8;

verus! {

/// A JSON document, as a mathematical value.
pub enum Json {
    Null,
    Bool(bool),
    Number(int),
    Str(Seq<char>),
    Array(Seq<Json>),
    Object(Seq<(Seq<char>, Json)>),
}

/// A JSON document. Numbers are the integers that fit 64 bits; the members of
/// an object keep their order.
#[derive(Debug, PartialEq, Eq)]
pub enum JsonValue {
    Null,
    Bool(bool),
    Number(i64),
    Str(String),
    Array(Vec<JsonValue>),
    Object(Vec<Member>),
}

/// One member of a JSON object.
#[derive(Debug, PartialEq, Eq)]
pub struct Member {
    pub key: String,
    pub value: JsonValue,
}

/// The documents that a list of values stands for, in order.
pub open spec fn items_view(items: Vec<JsonValue>) -> Seq<Json>
    decreases items,
{
    Seq::new(
        items@.len(),
        |i: int|
            if 0 <= i < items@.len() {
                items@[i].view()
            } else {
                Json::Null
            },
    )
}

/// The members that a list of members stands for, in order.
pub open spec fn members_view(members: Vec<Member>) -> Seq<(Seq<char>, Json)>
    decreases members,
{
    Seq::new(
        members@.len(),
        |i: int|
            if 0 <= i < members@.len() {
                (members@[i].key@, members@[i].value.view())
            } else {
                (Seq::empty(), Json::Null)
            },
    )
}

impl View for JsonValue {
    type V = Json;

    open spec fn view(&self) -> Json
        decreases self,
    {
        match self {
            JsonValue::Null => Json::Null,
            JsonValue::Bool(b) => Json::Bool(*b),
            JsonValue::Number(n) => Json::Number(*n as int),
            JsonValue::Str(s) => Json::Str(s@),
            JsonValue::Array(items) => Json::Array(items_view(*items)),
            JsonValue::Object(members) => Json::Object(members_view(*members)),
        }
    }
}

/// The value of the first of `members` whose key is `key`.
pub open spec fn member_of(members: Seq<(Seq<char>, Json)>, key: Seq<char>) -> Option<Json>
    decreases members.len(),
{
    if members.len() == 0 {
        None
    } else if members[0].0 == key {
        Some(members[0].1)
    } else {
        member_of(members.skip(1), key)
    }
}

impl Json {
    /// The member `key` of an object; none of anything else.
    pub open spec fn get(self, key: Seq<char>) -> Option<Json> {
        match self {
            Json::Object(members) => member_of(members, key),
            _ => None,
        }
    }

    /// The characters of a string; none of anything else.
    pub open spec fn as_str(self) -> Option<Seq<char>> {
        match self {
            Json::Str(s) => Some(s),
            _ => None,
        }
    }

    /// The truth value of a boolean; none of anything else.
    pub open spec fn as_bool(self) -> Option<bool> {
        match self {
            Json::Bool(b) => Some(b),
            _ => None,
        }
    }

    /// The integer of a number; none of anything else.
    pub open spec fn as_number(self) -> Option<int> {
        match self {
            Json::Number(n) => Some(n),
            _ => None,
        }
    }

    /// The items of an array; none of anything else.
    pub open spec fn as_array(self) -> Option<Seq<Json>> {
        match self {
            Json::Array(items) => Some(items),
            _ => None,
        }
    }

    /// The characters of the member `key`, where it is a string.
    pub open spec fn str_at(self, key: Seq<char>) -> Option<Seq<char>> {
        match self.get(key) {
            Some(value) => value.as_str(),
            None => None,
        }
    }

    /// The truth value of the member `key`, where it is a boolean.
    pub open spec fn bool_at(self, key: Seq<char>) -> Option<bool> {
        match self.get(key) {
            Some(value) => value.as_bool(),
            None => None,
        }
    }

    /// The integer of the member `key`, where it is a number.
    pub open spec fn number_at(self, key: Seq<char>) -> Option<int> {
        match self.get(key) {
            Some(value) => value.as_number(),
            None => None,
        }
    }
}

impl JsonValue {
    /// The member `key` of an object: the first, where several have that key.
    pub fn get(&self, key: &str) -> (r: Option<&JsonValue>)
        ensures
            match r {
                Some(value) => self@.get(key@) == Some(value@),
                None => self@.get(key@) is None,
            },
    {
        match self {
            JsonValue::Object(members) => {
                let ghost all = members_view(*members);
                let mut i: usize = 0;
                assert(all.skip(0) == all);
                while i < members.len()
                    invariant
                        i <= members.len(),
                        all == members_view(*members),
                        self@.get(key@) == member_of(all.skip(i as int), key@),
                    decreases members.len() - i,
                {
                    assert(all.skip(i as int)[0] == all[i as int]);
                    assert(all.skip(i as int).skip(1) == all.skip(i + 1));
                    if str_eq(members[i].key.as_str(), key) {
                        return Some(&members[i].value);
                    }
                    i = i + 1;
                }
                None
            },
            _ => None,
        }
    }

    /// The characters of a string.
    pub fn as_str(&self) -> (r: Option<&str>)
        ensures
            match r {
                Some(s) => self@.as_str() == Some(s@),
                None => self@.as_str() is None,
            },
    {
        match self {
            JsonValue::Str(s) => Some(s.as_str()),
            _ => None,
        }
    }

    /// The truth value of a boolean.
    pub fn as_bool(&self) -> (r: Option<bool>)
        ensures
            r == self@.as_bool(),
    {
        match self {
            JsonValue::Bool(b) => Some(*b),
            _ => None,
        }
    }

    /// The integer of a number.
    pub fn as_i64(&self) -> (r: Option<i64>)
        ensures
            match r {
                Some(n) => self@.as_number() == Some(n as int),
                None => self@.as_number() is None,
            },
    {
        match self {
            JsonValue::Number(n) => Some(*n),
            _ => None,
        }
    }

    /// The characters of the member `key`, where it is a string.
    pub fn str_at(&self, key: &str) -> (r: Option<&str>)
        ensures
            match r {
                Some(s) => self@.str_at(key@) == Some(s@),
                None => self@.str_at(key@) is None,
            },
    {
        match self.get(key) {
            Some(value) => value.as_str(),
            None => None,
        }
    }

    /// The truth value of the member `key`, where it is a boolean.
    pub fn bool_at(&self, key: &str) -> (r: Option<bool>)
        ensures
            r == self@.bool_at(key@),
    {
        match self.get(key) {
            Some(value) => value.as_bool(),
            None => None,
        }
    }

    /// The integer of the member `key`, where it is a number.
    pub fn i64_at(&self, key: &str) -> (r: Option<i64>)
        ensures
            match r {
                Some(n) => self@.number_at(key@) == Some(n as int),
                None => self@.number_at(key@) is None,
            },
    {
        match self.get(key) {
            Some(value) => value.as_i64(),
            None => None,
        }
    }

    /// The items of an array.
    pub fn as_array(&self) -> (r: Option<&Vec<JsonValue>>)
        ensures
            match r {
                Some(items) => self@.as_array() == Some(items_view(*items)),
                None => self@.as_array() is None,
            },
    {
        match self {
            JsonValue::Array(items) => Some(items),
            _ => None,
        }
    }
}

/// What `serde_json::to_vec` gives for a string: the text that it writes,
/// which is the string between double quotes with the characters escaped that
/// JSON does not allow there, or nothing where it fails.
pub uninterp spec fn json_string_text(s: Seq<char>) -> Option<Seq<u8>>;

/// `inner` between an opening and a closing mark.
pub open spec fn enclosed(open: Seq<char>, inner: Option<Seq<u8>>, close: Seq<char>) -> Option<
    Seq<u8>,
> {
    match inner {
        Some(text) => Some(encode_utf8(open) + text + encode_utf8(close)),
        None => None,
    }
}

/// The compact text of a document: no white space, the members of an object
/// in their order. There is none where the encoder fails on one of the
/// document's strings.
pub open spec fn json_text(value: Json) -> Option<Seq<u8>>
    decreases value,
{
    match value {
        Json::Null => Some(encode_utf8("null"@)),
        Json::Bool(true) => Some(encode_utf8("true"@)),
        Json::Bool(false) => Some(encode_utf8("false"@)),
        Json::Number(n) => Some(encode_utf8(decimal(n))),
        Json::Str(s) => json_string_text(s),
        Json::Array(items) => enclosed("["@, items_text(items), "]"@),
        Json::Object(members) => enclosed("{"@, members_text(members), "}"@),
    }
}

/// `last` after `before`, with a comma between them unless `last` is the
/// first.
pub open spec fn joined(before: Option<Seq<u8>>, last: Option<Seq<u8>>, first: bool) -> Option<
    Seq<u8>,
> {
    match (before, last) {
        (Some(before), Some(last)) => Some(
            if first {
                last
            } else {
                before + encode_utf8(","@) + last
            },
        ),
        _ => None,
    }
}

/// The texts of `items`, with a comma between one and the next.
pub open spec fn items_text(items: Seq<Json>) -> Option<Seq<u8>>
    decreases items,
{
    if items.len() == 0 {
        Some(Seq::empty())
    } else {
        joined(items_text(items.drop_last()), json_text(items.last()), items.len() == 1)
    }
}

/// The text of one member: the key as a string, a colon, the value.
pub open spec fn member_text(member: (Seq<char>, Json)) -> Option<Seq<u8>>
    decreases member,
{
    match (json_string_text(member.0), json_text(member.1)) {
        (Some(key), Some(value)) => Some(key + encode_utf8(":"@) + value),
        _ => None,
    }
}

/// The texts of `members`, with a comma between one and the next.
pub open spec fn members_text(members: Seq<(Seq<char>, Json)>) -> Option<Seq<u8>>
    decreases members,
{
    if members.len() == 0 {
        Some(Seq::empty())
    } else {
        joined(members_text(members.drop_last()), member_text(members.last()), members.len() == 1)
    }
}

/// A document could not be written as text.
#[derive(Debug, PartialEq, Eq)]
pub enum EncodeError {
    /// The encoder failed on a string.
    Text,
}

/// Whether `r` is what writing the text `text` to a buffer that held `before`
/// comes to, the buffer holding `after` now: success with the text appended,
/// or, where there is no text, failure with nothing taken away from what the
/// buffer held.
pub open spec fn wrote(
    r: Result<(), EncodeError>,
    before: Seq<u8>,
    after: Seq<u8>,
    text: Option<Seq<u8>>,
) -> bool {
    match text {
        Some(text) => r is Ok && after == before + text,
        None => r is Err && before.is_prefix_of(after),
    }
}

/// Calls `serde_json::to_vec` on a string and keeps the text it gives, if it
/// gives one. What the call gives depends on the string alone, and
/// `json_string_text` is the name of it; nothing else is claimed.
#[verifier::external_body]
fn string_to_vec(s: &str) -> (r: Option<Vec<u8>>)
    ensures
        match r {
            Some(text) => json_string_text(s@) == Some(text@),
            None => json_string_text(s@) is None,
        },
{
    serde_json::to_vec(s).ok()
}

/// Appends to `out` the text that the encoder gave for a string, or reports
/// that it gave none and leaves `out` as it was.
pub fn push_encoded(out: &mut Vec<u8>, encoded: Option<Vec<u8>>) -> (r: Result<(), EncodeError>)
    ensures
        match encoded {
            Some(text) => r is Ok && final(out)@ == old(out)@ + text@,
            None => r == Err::<(), EncodeError>(EncodeError::Text) && final(out)@ == old(out)@,
        },
{
    match encoded {
        Some(mut text) => {
            out.append(&mut text);
            Ok(())
        },
        None => Err(EncodeError::Text),
    }
}

/// Appends the text of a string to `out`; where the encoder fails on the
/// string, `out` stays as it was.
pub fn write_string(out: &mut Vec<u8>, s: &str) -> (r: Result<(), EncodeError>)
    ensures
        wrote(r, old(out)@, final(out)@, json_string_text(s@)),
        r is Err ==> final(out)@ == old(out)@,
{
    push_encoded(out, string_to_vec(s))
}

/// Where the text of one item is missing, so is the text of the list.
proof fn lemma_items_text_fails(items: Seq<Json>, i: int)
    requires
        0 <= i < items.len(),
        json_text(items[i]) is None,
    ensures
        items_text(items) is None,
    decreases items.len(),
{
    if i < items.len() - 1 {
        lemma_items_text_fails(items.drop_last(), i);
    }
}

/// Where the text of one member is missing, so is the text of the list.
proof fn lemma_members_text_fails(members: Seq<(Seq<char>, Json)>, i: int)
    requires
        0 <= i < members.len(),
        member_text(members[i]) is None,
    ensures
        members_text(members) is None,
    decreases members.len(),
{
    if i < members.len() - 1 {
        lemma_members_text_fails(members.drop_last(), i);
    }
}

/// Appends the compact text of a document to `out`. It fails where the
/// encoder fails on one of the document's strings, and only there; `out` then
/// still begins with what it held, followed by what was written up to the
/// failure.
pub fn write_json(out: &mut Vec<u8>, value: &JsonValue) -> (r: Result<(), EncodeError>)
    ensures
        wrote(r, old(out)@, final(out)@, json_text(value@)),
    decreases value,
{
    match value {
        JsonValue::Null => {
            out.extend_from_slice("null".as_bytes());
            assert(out@ == old(out)@ + json_text(value@)->Some_0);
            Ok(())
        },
        JsonValue::Bool(b) => {
            if *b {
                out.extend_from_slice("true".as_bytes());
            } else {
                out.extend_from_slice("false".as_bytes());
            }
            assert(out@ == old(out)@ + json_text(value@)->Some_0);
            Ok(())
        },
        JsonValue::Number(n) => {
            let numeral = decimal_i64(*n);
            out.extend_from_slice(numeral.as_str().as_bytes());
            assert(out@ == old(out)@ + json_text(value@)->Some_0);
            Ok(())
        },
        JsonValue::Str(s) => write_string(out, s.as_str()),
        JsonValue::Array(items) => {
            out.extend_from_slice("[".as_bytes());
            let ghost all = items_view(*items);
            let ghost start = out@;
            let mut i: usize = 0;
            while i < items.len()
                invariant
                    i <= items.len(),
                    all == items_view(*items),
                    value@ == Json::Array(all),
                    old(out)@.is_prefix_of(start),
                    items_text(all.take(i as int)) matches Some(text) && out@ == start + text,
                    decreases_to!(value => items),
                decreases items.len() - i,
            {
                let ghost before = out@;
                if i > 0 {
                    out.extend_from_slice(",".as_bytes());
                }
                let written = write_json(out, &items[i]);
                proof {
                    assert(all.take(i + 1).drop_last() == all.take(i as int));
                    assert(all.take(i + 1).last() == all[i as int]);
                    if written is Err {
                        lemma_items_text_fails(all, i as int);
                    }
                }
                match written {
                    Ok(()) => {},
                    Err(e) => {
                        return Err(e);
                    },
                }
                i = i + 1;
            }
            assert(all.take(i as int) == all);
            out.extend_from_slice("]".as_bytes());
            assert(out@ == old(out)@ + json_text(value@)->Some_0);
            Ok(())
        },
        JsonValue::Object(members) => {
            out.extend_from_slice("{".as_bytes());
            let ghost all = members_view(*members);
            let ghost start = out@;
            let mut i: usize = 0;
            while i < members.len()
                invariant
                    i <= members.len(),
                    all == members_view(*members),
                    value@ == Json::Object(all),
                    old(out)@.is_prefix_of(start),
                    members_text(all.take(i as int)) matches Some(text) && out@ == start + text,
                    decreases_to!(value => members),
                decreases members.len() - i,
            {
                let ghost before = out@;
                if i > 0 {
                    out.extend_from_slice(",".as_bytes());
                }
                let ghost separated = out@;
                proof {
                    assert(all.take(i + 1).drop_last() == all.take(i as int));
                    assert(all.take(i + 1).last() == all[i as int]);
                }
                match write_string(out, members[i].key.as_str()) {
                    Ok(()) => {},
                    Err(e) => {
                        proof {
                            lemma_members_text_fails(all, i as int);
                        }
                        return Err(e);
                    },
                }
                out.extend_from_slice(":".as_bytes());
                match write_json(out, &members[i].value) {
                    Ok(()) => {},
                    Err(e) => {
                        proof {
                            lemma_members_text_fails(all, i as int);
                        }
                        return Err(e);
                    },
                }
                proof {
                    assert(out@ == separated + member_text(all[i as int])->Some_0);
                }
                i = i + 1;
            }
            assert(all.take(i as int) == all);
            out.extend_from_slice("}".as_bytes());
            assert(out@ == old(out)@ + json_text(value@)->Some_0);
            Ok(())
        },
    }
}

/// The compact text of a document. It fails where the encoder fails on one
/// of the document's strings, and only there.
pub fn encode(value: &JsonValue) -> (r: Result<Vec<u8>, EncodeError>)
    ensures
        match json_text(value@) {
            Some(text) => r matches Ok(bytes) && bytes@ == text,
            None => r is Err,
        },
{
    let mut out: Vec<u8> = Vec::new();
    match write_json(&mut out, value) {
        Ok(()) => {
            assert(Seq::<u8>::empty() + json_text(value@)->Some_0 == json_text(value@)->Some_0);
            Ok(out)
        },
        Err(e) => Err(e),
    }
}

} // verus!
