//! Types used in BSON.

use vstd::prelude::*;

verus! {

/// The BSON types, as used by the `$type` query operator.
#[derive(Clone, Copy, Debug, PartialEq, Eq)]
pub enum Type {
    Double,
    String,
    Object,
    Array,
    BinaryData,
    Undefined,
    ObjectId,
    Boolean,
    Date,
    Null,
    Regex,
    DBPointer,
    JavaScript,
    Symbol,
    JavaScriptWithScope,
    I32,
    Timestamp,
    I64,
    Decimal128,
}

impl Type {
    /// The number that identifies the type in BSON.
    pub open spec fn spec_code(self) -> i32 {
        match self {
            Type::Double => 1,
            Type::String => 2,
            Type::Object => 3,
            Type::Array => 4,
            Type::BinaryData => 5,
            Type::Undefined => 6,
            Type::ObjectId => 7,
            Type::Boolean => 8,
            Type::Date => 9,
            Type::Null => 10,
            Type::Regex => 11,
            Type::DBPointer => 12,
            Type::JavaScript => 13,
            Type::Symbol => 14,
            Type::JavaScriptWithScope => 15,
            Type::I32 => 16,
            Type::Timestamp => 17,
            Type::I64 => 18,
            Type::Decimal128 => 19,
        }
    }

    /// Returns the number that identifies the type in BSON.
    pub fn code(&self) -> (r: i32)
        ensures
            r == self.spec_code(),
    {
        match self {
            Type::Double => 1,
            Type::String => 2,
            Type::Object => 3,
            Type::Array => 4,
            Type::BinaryData => 5,
            Type::Undefined => 6,
            Type::ObjectId => 7,
            Type::Boolean => 8,
            Type::Date => 9,
            Type::Null => 10,
            Type::Regex => 11,
            Type::DBPointer => 12,
            Type::JavaScript => 13,
            Type::Symbol => 14,
            Type::JavaScriptWithScope => 15,
            Type::I32 => 16,
            Type::Timestamp => 17,
            Type::I64 => 18,
            Type::Decimal128 => 19,
        }
    }
}

/// A double precision floating point number, held as its IEEE-754 bit pattern.
#[derive(Clone, Copy, Debug, PartialEq, Eq)]
pub struct Double {
    pub bits: u64,
}

impl Double {
    /// Constructs a `Double` from its IEEE-754 bit pattern.
    pub fn from_bits(bits: u64) -> (r: Self)
        ensures
            r.bits == bits,
    {
        Double { bits }
    }
}

/// A date: milliseconds since the Unix epoch, in UTC.
#[derive(Clone, Copy, Debug, PartialEq, Eq)]
pub struct Date {
    pub millis: i64,
}

impl Date {
    /// Constructs a `Date` from milliseconds since the Unix epoch.
    pub fn from_millis(millis: i64) -> (r: Self)
        ensures
            r.millis == millis,
    {
        Date { millis }
    }
}

/// A BSON timestamp.
#[derive(Clone, Copy, Debug, PartialEq, Eq)]
pub struct TimeStamp(pub i64);

/// A 12-byte object identifier.
#[derive(Clone, Copy, Debug, PartialEq, Eq)]
pub struct ObjectId {
    pub bytes: [u8; 12],
}

/// A hexadecimal digit, in either case.
pub open spec fn is_hex_digit(c: char) -> bool {
    ('0' <= c && c <= '9') || ('a' <= c && c <= 'f') || ('A' <= c && c <= 'F')
}

/// The value of a hexadecimal digit.
pub open spec fn hex_value(c: char) -> int {
    if '0' <= c && c <= '9' {
        (c as int) - ('0' as int)
    } else if 'a' <= c && c <= 'f' {
        (c as int) - ('a' as int) + 10
    } else {
        (c as int) - ('A' as int) + 10
    }
}

/// Text of an object identifier: 24 hexadecimal digits.
pub open spec fn is_object_id_text(s: Seq<char>) -> bool {
    s.len() == 24 && forall|i: int| 0 <= i < s.len() ==> is_hex_digit(#[trigger] s[i])
}

/// The `k`-th byte written by the hexadecimal text.
pub open spec fn hex_byte(s: Seq<char>, k: int) -> int {
    hex_value(s[2 * k]) * 16 + hex_value(s[2 * k + 1])
}

/// `bson::oid::ObjectId::with_string` followed by `ObjectId::bytes`: decodes 24 hexadecimal
/// digits (of either case) into 12 bytes, and fails on any other text.
#[verifier::external_body]
fn object_id_bytes_from_hex(s: &str) -> (r: Option<[u8; 12]>)
    ensures
        r is Some <==> is_object_id_text(s@),
        r matches Some(b) ==> forall|k: int| 0 <= k < 12 ==> #[trigger] b@[k] == hex_byte(s@, k),
{
    match bson::oid::ObjectId::with_string(s) {
        Ok(oid) => Some(oid.bytes()),
        Err(_) => None,
    }
}

/// `bson::oid::ObjectId::new` followed by `ObjectId::bytes`: a fresh identifier made of the time,
/// the process and a counter. The generator never fails (its counter step always gives `Ok`), so
/// the result is always `Some`; which bytes it holds is left open.
#[verifier::external_body]
fn fresh_object_id_bytes() -> (r: Option<[u8; 12]>)
    ensures
        r is Some,
{
    match bson::oid::ObjectId::new() {
        Ok(oid) => Some(oid.bytes()),
        Err(_) => None,
    }
}

impl ObjectId {
    /// Creates an ObjectID using a 12-byte (24-char) hexadecimal string.
    pub fn with_string(s: &str) -> (r: Option<Self>)
        ensures
            r is Some <==> is_object_id_text(s@),
            r matches Some(o) ==> forall|k: int| 0 <= k < 12 ==> #[trigger] o.bytes@[k] == hex_byte(s@, k),
    {
        match object_id_bytes_from_hex(s) {
            Some(bytes) => Some(ObjectId { bytes }),
            None => None,
        }
    }

    /// Generates a new ObjectID; generation always succeeds.
    pub fn generate() -> (r: Option<Self>)
        ensures
            r is Some,
    {
        match fresh_object_id_bytes() {
            Some(bytes) => Some(ObjectId { bytes }),
            None => None,
        }
    }
}

/// Texts that `chrono::DateTime<chrono::Utc>` parses (RFC 3339 dates with a time and offset).
pub uninterp spec fn is_date_text(s: Seq<char>) -> bool;

/// `str::parse::<chrono::DateTime<chrono::Utc>>`: whether the text is a date.
#[verifier::external_body]
pub(crate) fn parses_as_date(s: &str) -> (r: bool)
    ensures
        r == is_date_text(s@),
{
    s.parse::<chrono::DateTime<chrono::Utc>>().is_ok()
}

}
