//! Reading JSON documents.
//!
//! A document is kept as its text; values inside it are addressed by JSON
//! pointers (RFC 6901), and serde_json does the parsing. On top of that the
//! `JsonDecode` trait states, for each type the library decodes, when a value
//! at a pointer can be read as that type and which value it then reads as.
use vstd::prelude::*;
use crate::text::{decimal, unsigned_text};

verus! {

/// The kind of a JSON value.
#[derive(PartialEq, Eq, Structural, Clone, Copy, Debug)]
pub enum JsonKind {
    Null,
    Bool,
    Number,
    Text,
    Array,
    Object,
}

/// Whether serde_json accepts the text as one JSON document.
pub uninterp spec fn json_valid(text: Seq<char>) -> bool;

/// The kind of the value at `pointer` in the document `text`, if the text is a
/// document and the pointer addresses a value in it.
pub uninterp spec fn json_kind_at(text: Seq<char>, pointer: Seq<char>) -> Option<JsonKind>;

/// The string at `pointer` in the document `text`, if there is a string there.
pub uninterp spec fn json_string_at(text: Seq<char>, pointer: Seq<char>) -> Option<Seq<char>>;

/// The integer at `pointer` in the document `text`, if there is a number there
/// that is an integer within the range of `i64`.
pub uninterp spec fn json_int_at(text: Seq<char>, pointer: Seq<char>) -> Option<i64>;

/// The boolean at `pointer` in the document `text`, if there is one there.
pub uninterp spec fn json_bool_at(text: Seq<char>, pointer: Seq<char>) -> Option<bool>;

/// The length of the array at `pointer` in the document `text`, if there is an
/// array there.
pub uninterp spec fn json_len_at(text: Seq<char>, pointer: Seq<char>) -> Option<usize>;

/// Relies on serde_json::from_str into a `serde_json::Value`: it succeeds
/// exactly on the texts that hold one JSON document.
#[verifier::external_body]
pub(crate) fn is_json(text: &str) -> (r: bool)
    ensures
        r == json_valid(text@),
{
    serde_json::from_str::<serde_json::Value>(text).is_ok()
}

/// Relies on serde_json::from_str and serde_json::Value::pointer: the variant
/// of the value that the pointer addresses.
#[verifier::external_body]
fn kind_at(text: &str, pointer: &str) -> (r: Option<JsonKind>)
    ensures
        r == json_kind_at(text@, pointer@),
{
    match serde_json::from_str::<serde_json::Value>(text) {
        Ok(doc) => match doc.pointer(pointer) {
            Some(serde_json::Value::Null) => Some(JsonKind::Null),
            Some(serde_json::Value::Bool(_)) => Some(JsonKind::Bool),
            Some(serde_json::Value::Number(_)) => Some(JsonKind::Number),
            Some(serde_json::Value::String(_)) => Some(JsonKind::Text),
            Some(serde_json::Value::Array(_)) => Some(JsonKind::Array),
            Some(serde_json::Value::Object(_)) => Some(JsonKind::Object),
            None => None,
        },
        Err(_) => None,
    }
}

/// Relies on serde_json::Value::pointer and serde_json::Value::as_str: the
/// string that the pointer addresses.
#[verifier::external_body]
fn string_at(text: &str, pointer: &str) -> (r: Option<String>)
    ensures
        r is Some <==> json_string_at(text@, pointer@) is Some,
        r matches Some(s) ==> json_string_at(text@, pointer@) == Some(s@),
{
    match serde_json::from_str::<serde_json::Value>(text) {
        Ok(doc) => doc.pointer(pointer).and_then(serde_json::Value::as_str).map(String::from),
        Err(_) => None,
    }
}

/// Relies on serde_json::Value::pointer and serde_json::Value::as_i64: the
/// integer that the pointer addresses.
#[verifier::external_body]
fn int_at(text: &str, pointer: &str) -> (r: Option<i64>)
    ensures
        r == json_int_at(text@, pointer@),
{
    match serde_json::from_str::<serde_json::Value>(text) {
        Ok(doc) => doc.pointer(pointer).and_then(serde_json::Value::as_i64),
        Err(_) => None,
    }
}

/// Relies on serde_json::Value::pointer and serde_json::Value::as_bool: the
/// boolean that the pointer addresses.
#[verifier::external_body]
fn bool_at(text: &str, pointer: &str) -> (r: Option<bool>)
    ensures
        r == json_bool_at(text@, pointer@),
{
    match serde_json::from_str::<serde_json::Value>(text) {
        Ok(doc) => doc.pointer(pointer).and_then(serde_json::Value::as_bool),
        Err(_) => None,
    }
}

/// Relies on serde_json::Value::pointer and serde_json::Value::as_array: the
/// number of elements of the array that the pointer addresses.
#[verifier::external_body]
pub(crate) fn len_at(text: &str, pointer: &str) -> (r: Option<usize>)
    ensures
        r == json_len_at(text@, pointer@),
{
    match serde_json::from_str::<serde_json::Value>(text) {
        Ok(doc) => doc.pointer(pointer).and_then(serde_json::Value::as_array).map(Vec::len),
        Err(_) => None,
    }
}

/// The string as a JSON string literal: quoted, with the characters that
/// JSON requires escaped.
pub uninterp spec fn json_quoted(s: Seq<char>) -> Seq<char>;

/// Whether the text holds no quote, no backslash and no control character
/// below U+0020: the characters that a JSON string literal must escape.
pub open spec fn needs_no_escape(s: Seq<char>) -> bool {
    forall|i: int| 0 <= i < s.len() ==> s[i] != '"' && s[i] != '\\' && (s[i] as u32) >= 0x20
}

/// Relies on serde_json::to_string on a string, which writes it as a JSON
/// string literal and cannot fail for a string. Its escape table escapes only
/// the quote, the backslash and the characters below U+0020, so any other
/// text comes back between two quotes as it is.
#[verifier::external_body]
pub(crate) fn quote_json_string(s: &str) -> (r: String)
    ensures
        r@ == json_quoted(s@),
        needs_no_escape(s@) ==> r@ == seq!['"'] + s@ + seq!['"'],
{
    serde_json::to_string(s).unwrap_or_default()
}

/// The pointer to the member `key` of the object at `at`; `key` is written
/// with its leading slash, as in `"/Response"`.
pub open spec fn member(at: Seq<char>, key: Seq<char>) -> Seq<char> {
    at + key
}

/// The pointer to element `i` of the array at `at`.
pub open spec fn element(at: Seq<char>, i: nat) -> Seq<char> {
    at + "/"@ + decimal(i)
}

/// Whether nothing, or `null`, stands at the pointer.
pub open spec fn absent(text: Seq<char>, at: Seq<char>) -> bool {
    json_kind_at(text, at) is None || json_kind_at(text, at) == Some(JsonKind::Null)
}

/// Whether nothing at all stands at the pointer.
pub open spec fn missing(text: Seq<char>, at: Seq<char>) -> bool {
    json_kind_at(text, at) is None
}

/// Builds the pointer to a member of the object at `at`.
pub fn member_ptr(at: &str, key: &str) -> (r: String)
    ensures
        r@ == member(at@, key@),
{
    let s = String::from_str(at);
    s.concat(key)
}

/// Builds the pointer to element `i` of the array at `at`.
pub fn element_ptr(at: &str, i: usize) -> (r: String)
    ensures
        r@ == element(at@, i as nat),
{
    let s = String::from_str(at);
    let s = s.concat("/");
    let digits = unsigned_text(i as u64);
    s.concat(digits.as_str())
}

/// Whether nothing, or `null`, stands at the pointer.
pub fn is_absent(text: &str, at: &str) -> (r: bool)
    ensures
        r == absent(text@, at@),
{
    match kind_at(text, at) {
        None => true,
        Some(k) => k == JsonKind::Null,
    }
}

/// Whether nothing at all stands at the pointer.
pub fn is_missing(text: &str, at: &str) -> (r: bool)
    ensures
        r == missing(text@, at@),
{
    kind_at(text, at).is_none()
}

/// A type whose values can be read from a JSON value.
///
/// `decodable(text, at)` says when the value at pointer `at` of the document
/// `text` can be read as `Self`; `decodes_to(text, at, v)` says that `v` is
/// what it reads as.
pub trait JsonDecode: Sized {
    spec fn decodable(text: Seq<char>, at: Seq<char>) -> bool;

    spec fn decodes_to(text: Seq<char>, at: Seq<char>, v: Self) -> bool;

    fn decode_at(text: &str, at: &str) -> (r: Option<Self>)
        ensures
            r is Some <==> Self::decodable(text@, at@),
            r matches Some(v) ==> Self::decodes_to(text@, at@, v),
    ;
}

/// Whether the whole text is a JSON document that can be read as `T`.
pub open spec fn document_decodable<T: JsonDecode>(text: Seq<char>) -> bool {
    json_valid(text) && T::decodable(text, ""@)
}

/// Reads the whole document as a `T`.
pub fn decode_document<T: JsonDecode>(text: &str) -> (r: Option<T>)
    ensures
        r is Some <==> document_decodable::<T>(text@),
        r matches Some(v) ==> T::decodes_to(text@, ""@, v),
{
    if is_json(text) {
        T::decode_at(text, "")
    } else {
        None
    }
}

/// Whether the text is a JSON document whose value at `at` can be read as a
/// `T`.
pub open spec fn readable_at<T: JsonDecode>(text: Seq<char>, at: Seq<char>) -> bool {
    json_valid(text) && T::decodable(text, at)
}

/// Reads the value at `at` of the document as a `T`.
pub fn decode_document_at<T: JsonDecode>(text: &str, at: &str) -> (r: Option<T>)
    ensures
        r is Some <==> readable_at::<T>(text@, at@),
        r matches Some(v) ==> T::decodes_to(text@, at@, v),
{
    if is_json(text) {
        T::decode_at(text, at)
    } else {
        None
    }
}

impl JsonDecode for String {
    open spec fn decodable(text: Seq<char>, at: Seq<char>) -> bool {
        json_string_at(text, at) is Some
    }

    open spec fn decodes_to(text: Seq<char>, at: Seq<char>, v: String) -> bool {
        json_string_at(text, at) == Some(v@)
    }

    fn decode_at(text: &str, at: &str) -> (r: Option<String>) {
        string_at(text, at)
    }
}

impl JsonDecode for bool {
    open spec fn decodable(text: Seq<char>, at: Seq<char>) -> bool {
        json_bool_at(text, at) is Some
    }

    open spec fn decodes_to(text: Seq<char>, at: Seq<char>, v: bool) -> bool {
        json_bool_at(text, at) == Some(v)
    }

    fn decode_at(text: &str, at: &str) -> (r: Option<bool>) {
        bool_at(text, at)
    }
}

impl JsonDecode for i64 {
    open spec fn decodable(text: Seq<char>, at: Seq<char>) -> bool {
        json_int_at(text, at) is Some
    }

    open spec fn decodes_to(text: Seq<char>, at: Seq<char>, v: i64) -> bool {
        json_int_at(text, at) == Some(v)
    }

    fn decode_at(text: &str, at: &str) -> (r: Option<i64>) {
        int_at(text, at)
    }
}

impl JsonDecode for i32 {
    open spec fn decodable(text: Seq<char>, at: Seq<char>) -> bool {
        json_int_at(text, at) matches Some(n) && i32::MIN <= n <= i32::MAX
    }

    open spec fn decodes_to(text: Seq<char>, at: Seq<char>, v: i32) -> bool {
        json_int_at(text, at) == Some(v as i64)
    }

    fn decode_at(text: &str, at: &str) -> (r: Option<i32>) {
        match int_at(text, at) {
            Some(n) => if i32::MIN as i64 <= n && n <= i32::MAX as i64 {
                Some(n as i32)
            } else {
                None
            },
            None => None,
        }
    }
}

impl JsonDecode for i16 {
    open spec fn decodable(text: Seq<char>, at: Seq<char>) -> bool {
        json_int_at(text, at) matches Some(n) && i16::MIN <= n <= i16::MAX
    }

    open spec fn decodes_to(text: Seq<char>, at: Seq<char>, v: i16) -> bool {
        json_int_at(text, at) == Some(v as i64)
    }

    fn decode_at(text: &str, at: &str) -> (r: Option<i16>) {
        match int_at(text, at) {
            Some(n) => if i16::MIN as i64 <= n && n <= i16::MAX as i64 {
                Some(n as i16)
            } else {
                None
            },
            None => None,
        }
    }
}

impl JsonDecode for i8 {
    open spec fn decodable(text: Seq<char>, at: Seq<char>) -> bool {
        json_int_at(text, at) matches Some(n) && i8::MIN <= n <= i8::MAX
    }

    open spec fn decodes_to(text: Seq<char>, at: Seq<char>, v: i8) -> bool {
        json_int_at(text, at) == Some(v as i64)
    }

    fn decode_at(text: &str, at: &str) -> (r: Option<i8>) {
        match int_at(text, at) {
            Some(n) => if i8::MIN as i64 <= n && n <= i8::MAX as i64 {
                Some(n as i8)
            } else {
                None
            },
            None => None,
        }
    }
}

impl JsonDecode for u8 {
    open spec fn decodable(text: Seq<char>, at: Seq<char>) -> bool {
        json_int_at(text, at) matches Some(n) && 0 <= n <= u8::MAX
    }

    open spec fn decodes_to(text: Seq<char>, at: Seq<char>, v: u8) -> bool {
        json_int_at(text, at) == Some(v as i64)
    }

    fn decode_at(text: &str, at: &str) -> (r: Option<u8>) {
        match int_at(text, at) {
            Some(n) => if 0 <= n && n <= u8::MAX as i64 {
                Some(n as u8)
            } else {
                None
            },
            None => None,
        }
    }
}

impl<T: JsonDecode> JsonDecode for Option<T> {
    /// `null` and a missing value read as `None`; anything else must read as a
    /// `T`.
    open spec fn decodable(text: Seq<char>, at: Seq<char>) -> bool {
        absent(text, at) || T::decodable(text, at)
    }

    open spec fn decodes_to(text: Seq<char>, at: Seq<char>, v: Option<T>) -> bool {
        match v {
            None => absent(text, at),
            Some(x) => !absent(text, at) && T::decodes_to(text, at, x),
        }
    }

    fn decode_at(text: &str, at: &str) -> (r: Option<Option<T>>) {
        if is_absent(text, at) {
            Some(None)
        } else {
            match T::decode_at(text, at) {
                Some(x) => Some(Some(x)),
                None => None,
            }
        }
    }
}

impl<T: JsonDecode> JsonDecode for Vec<T> {
    /// An array each of whose elements reads as a `T`.
    open spec fn decodable(text: Seq<char>, at: Seq<char>) -> bool {
        json_len_at(text, at) matches Some(n) && forall|i: nat|
            i < n ==> #[trigger] T::decodable(text, element(at, i))
    }

    open spec fn decodes_to(text: Seq<char>, at: Seq<char>, v: Vec<T>) -> bool {
        json_len_at(text, at) == Some(v.len()) && forall|i: nat|
            i < v.len() ==> #[trigger] T::decodes_to(text, element(at, i), v@[i as int])
    }

    fn decode_at(text: &str, at: &str) -> (r: Option<Vec<T>>) {
        let n = match len_at(text, at) {
            Some(n) => n,
            None => return None,
        };
        let mut items: Vec<T> = Vec::new();
        let mut i: usize = 0;
        while i < n
            invariant
                i <= n,
                json_len_at(text@, at@) == Some(n),
                items.len() == i,
                forall|j: nat| j < i ==> #[trigger] T::decodable(text@, element(at@, j)),
                forall|j: nat| j < i ==> #[trigger] T::decodes_to(
                    text@,
                    element(at@, j),
                    items@[j as int],
                ),
            decreases n - i,
        {
            let ptr = element_ptr(at, i);
            match T::decode_at(text, ptr.as_str()) {
                Some(x) => items.push(x),
                None => return None,
            }
            i = i + 1;
        }
        Some(items)
    }
}

} // verus!
