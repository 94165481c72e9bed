//! BSON documents as the audit store takes and returns them. A document is
//! seen here as a map from field names to values; the functions below reach
//! into `bson::Document` and say, over that map, what each of its methods
//! does.

use bson::document::ValueAccessError;
use bson::oid::ObjectId;
use bson::{Bson, Document};
use chrono::{TimeZone, Utc};
use crate::credential::hex_digit;
use vstd::prelude::*;

verus! {

/// `bson::Document`, the document type of the store's driver. Nothing of
/// its inside is known here but what [`doc_fields`] names.
#[verifier::external_type_specification]
#[verifier::external_body]
pub struct ExDocument(bson::Document);

/// What a field of a document holds, for each kind of value that this
/// library reads or writes: null, a string, a boolean, an object id, a
/// date, or a document of its own. A date is held as milliseconds since the
/// Unix epoch, an object id as its 24 hexadecimal digits in lower case.
/// `Other` stands for every other kind of value.
pub enum Field {
    Null,
    Text(Seq<char>),
    Flag(bool),
    ObjectId(Seq<char>),
    DateTime(i64),
    Document(Map<Seq<char>, Field>),
    Other,
}

/// The fields that a `bson::Document` holds, each under its name. The order
/// in which the document keeps them is left out.
pub uninterp spec fn doc_fields(doc: Document) -> Map<Seq<char>, Field>;

/// The first instant that a document can hold as a date: the start of the
/// year -262143, the first of chrono's dates, in milliseconds since the
/// Unix epoch.
pub const MIN_MILLIS: i64 = -8_334_601_228_800_000;

/// The last instant that a document can hold as a date: the last
/// millisecond of the year 262142, the last of chrono's dates.
pub const MAX_MILLIS: i64 = 8_210_266_876_799_999;

/// Whether a document can hold `millis` as a date.
pub open spec fn is_storable_time(millis: i64) -> bool {
    MIN_MILLIS <= millis <= MAX_MILLIS
}

/// The hexadecimal digits of some bytes, two for each byte, in lower case.
pub open spec fn hex_of(bytes: Seq<u8>) -> Seq<char> {
    Seq::new(
        2 * bytes.len(),
        |i: int|
            if i % 2 == 0 {
                hex_digit(bytes[i / 2] as int / 16)
            } else {
                hex_digit(bytes[i / 2] as int % 16)
            },
    )
}

/// A value on its way into a document: what the functions of this library
/// hand to `Document::insert`.
pub enum Value {
    Null,
    Text(String),
    Flag(bool),
    /// An object id, by its twelve bytes.
    ObjectId([u8; 12]),
    DateTime(i64),
    Document(Document),
}

impl View for Value {
    type V = Field;

    open spec fn view(&self) -> Field {
        match *self {
            Value::Null => Field::Null,
            Value::Text(text) => Field::Text(text@),
            Value::Flag(flag) => Field::Flag(flag),
            Value::ObjectId(bytes) => Field::ObjectId(hex_of(bytes@)),
            Value::DateTime(millis) => Field::DateTime(millis),
            Value::Document(doc) => Field::Document(doc_fields(doc)),
        }
    }
}

impl Value {
    /// Whether a document can hold the value: every value but a date out of
    /// range.
    pub open spec fn is_storable(&self) -> bool {
        match *self {
            Value::DateTime(millis) => is_storable_time(millis),
            _ => true,
        }
    }
}

/// Why a field could not be read.
#[derive(Clone, Copy, Debug, PartialEq, Eq, Structural)]
pub enum AccessError {
    /// The document has no field of that name.
    NotPresent,
    /// The field holds a value of another kind than the one asked for.
    UnexpectedType,
}

/// What reading `key` as text gives.
pub open spec fn text_at(fields: Map<Seq<char>, Field>, key: Seq<char>) -> Result<
    Seq<char>,
    AccessError,
> {
    if !fields.contains_key(key) {
        Err(AccessError::NotPresent)
    } else {
        match fields[key] {
            Field::Text(text) => Ok(text),
            _ => Err(AccessError::UnexpectedType),
        }
    }
}

/// What reading `key` as an object id gives: its hexadecimal digits.
pub open spec fn object_id_at(fields: Map<Seq<char>, Field>, key: Seq<char>) -> Result<
    Seq<char>,
    AccessError,
> {
    if !fields.contains_key(key) {
        Err(AccessError::NotPresent)
    } else {
        match fields[key] {
            Field::ObjectId(hex) => Ok(hex),
            _ => Err(AccessError::UnexpectedType),
        }
    }
}

/// What reading `key` as a date gives: milliseconds since the Unix epoch.
pub open spec fn datetime_at(fields: Map<Seq<char>, Field>, key: Seq<char>) -> Result<
    i64,
    AccessError,
> {
    if !fields.contains_key(key) {
        Err(AccessError::NotPresent)
    } else {
        match fields[key] {
            Field::DateTime(millis) => Ok(millis),
            _ => Err(AccessError::UnexpectedType),
        }
    }
}

/// What reading `key` as a flag gives.
pub open spec fn flag_at(fields: Map<Seq<char>, Field>, key: Seq<char>) -> Result<
    bool,
    AccessError,
> {
    if !fields.contains_key(key) {
        Err(AccessError::NotPresent)
    } else {
        match fields[key] {
            Field::Flag(flag) => Ok(flag),
            _ => Err(AccessError::UnexpectedType),
        }
    }
}

/// Whether `key` is there and holds null.
pub open spec fn null_at(fields: Map<Seq<char>, Field>, key: Seq<char>) -> bool {
    fields.contains_key(key) && fields[key] == Field::Null
}

/// A document without fields.
pub open spec fn no_fields() -> Map<Seq<char>, Field> {
    Map::empty()
}

/// What was read as text, as the characters it holds.
pub open spec fn text_result(r: Result<String, AccessError>) -> Result<Seq<char>, AccessError> {
    match r {
        Ok(text) => Ok(text@),
        Err(e) => Err(e),
    }
}

/// `Document::new`: a document without fields.
#[verifier::external_body]
pub(crate) fn new_document() -> (doc: Document)
    ensures
        doc_fields(doc) == no_fields(),
{
    Document::new()
}

/// `Document::insert`: puts `value` under `key`, in place of what was there.
/// An object id goes in through `ObjectId::with_bytes`. A date goes in
/// through `TimeZone::timestamp_millis_opt`, which has no date for an
/// instant out of range; then nothing is inserted and `false` comes back.
#[verifier::external_body]
pub(crate) fn insert(doc: &mut Document, key: &str, value: Value) -> (stored: bool)
    ensures
        stored == value.is_storable(),
        stored ==> doc_fields(*final(doc)) == doc_fields(*old(doc)).insert(key@, value@),
        !stored ==> doc_fields(*final(doc)) == doc_fields(*old(doc)),
{
    let value = match value {
        Value::Null => Bson::Null,
        Value::Text(text) => Bson::String(text),
        Value::Flag(flag) => Bson::Boolean(flag),
        Value::ObjectId(bytes) => Bson::ObjectId(ObjectId::with_bytes(bytes)),
        Value::Document(inner) => Bson::Document(inner),
        Value::DateTime(millis) => match Utc.timestamp_millis_opt(millis).single() {
            Some(time) => Bson::DateTime(time),
            None => return false,
        },
    };
    doc.insert(key, value);
    true
}

/// `Document::is_null`: whether the field is there and holds null.
#[verifier::external_body]
pub(crate) fn is_null(doc: &Document, key: &str) -> (r: bool)
    ensures
        r == null_at(doc_fields(*doc), key@),
{
    doc.is_null(key)
}

/// `Document::get_str`: the text under `key`; an error where the field is
/// missing or holds something else.
#[verifier::external_body]
pub(crate) fn get_str(doc: &Document, key: &str) -> (r: Result<String, AccessError>)
    ensures
        text_result(r) == text_at(doc_fields(*doc), key@),
{
    match doc.get_str(key) {
        Ok(text) => Ok(text.to_string()),
        Err(ValueAccessError::NotPresent) => Err(AccessError::NotPresent),
        Err(_) => Err(AccessError::UnexpectedType),
    }
}

/// `Document::get_object_id`, then `ObjectId::to_hex`: the digits of the
/// object id under `key`; an error where the field is missing or holds
/// something else.
#[verifier::external_body]
pub(crate) fn get_object_id(doc: &Document, key: &str) -> (r: Result<String, AccessError>)
    ensures
        text_result(r) == object_id_at(doc_fields(*doc), key@),
{
    match doc.get_object_id(key) {
        Ok(id) => Ok(id.to_hex()),
        Err(ValueAccessError::NotPresent) => Err(AccessError::NotPresent),
        Err(_) => Err(AccessError::UnexpectedType),
    }
}

/// `Document::get_datetime`, then `DateTime::timestamp_millis`: the date
/// under `key`; an error where the field is missing or holds something else.
#[verifier::external_body]
pub(crate) fn get_datetime(doc: &Document, key: &str) -> (r: Result<i64, AccessError>)
    ensures
        r == datetime_at(doc_fields(*doc), key@),
{
    match doc.get_datetime(key) {
        Ok(time) => Ok(time.timestamp_millis()),
        Err(ValueAccessError::NotPresent) => Err(AccessError::NotPresent),
        Err(_) => Err(AccessError::UnexpectedType),
    }
}

/// `Document::get_bool`: the flag under `key`; an error where the field is
/// missing or holds something else.
#[verifier::external_body]
pub(crate) fn get_bool(doc: &Document, key: &str) -> (r: Result<bool, AccessError>)
    ensures
        r == flag_at(doc_fields(*doc), key@),
{
    match doc.get_bool(key) {
        Ok(flag) => Ok(flag),
        Err(ValueAccessError::NotPresent) => Err(AccessError::NotPresent),
        Err(_) => Err(AccessError::UnexpectedType),
    }
}

/// `Utc::now`, then `DateTime::timestamp_millis`: the current instant in
/// milliseconds since the Unix epoch. Which instant comes is not said; it is
/// one that a document can hold, as every date that `Utc::now` makes is.
/// `Utc::now` gives up where the machine's clock stands before 1970 or
/// beyond the last of chrono's dates.
#[verifier::external_body]
pub(crate) fn now_millis() -> (now: i64)
    ensures
        is_storable_time(now),
{
    Utc::now().timestamp_millis()
}

} // verus!
