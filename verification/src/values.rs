//! Scalar values of the API that are written as text: decimals, instants and identifiers.

use crate::json::{FromJson, Json, JsonValue};
use vstd::prelude::*;

verus! {

/// The unscaled digits and the scale that `bigdecimal` reads from `text`; `None` where it rejects
/// the text.
pub uninterp spec fn decimal_parts(text: Seq<char>) -> Option<(Seq<char>, i64)>;

/// The seconds since the Unix epoch, and the nanoseconds into that second, of the instant that
/// `chrono` reads from an RFC 3339 `text`; `None` where it rejects the text.
pub uninterp spec fn rfc3339_instant(text: Seq<char>) -> Option<(i64, u32)>;

/// The 128 bits of the identifier that `uuid` reads from `text`; `None` where it rejects the
/// text.
pub uninterp spec fn uuid_bits(text: Seq<char>) -> Option<u128>;

/// The hyphenated lower-case text that `uuid` writes for the identifier with these 128 bits.
pub uninterp spec fn uuid_text(bits: u128) -> Seq<char>;

/// `BigDecimal::from_str`, then `into_bigint_and_exponent`, the integer printed in decimal: the
/// parts that [`decimal_parts`] names for this text, and nothing exactly where it names none.
#[verifier::external_body]
fn read_decimal(text: &str) -> (r: Option<(String, i64)>)
    ensures
        match r {
            Some(parts) => decimal_parts(text@) == Some((parts.0@, parts.1)),
            None => decimal_parts(text@) is None,
        },
{
    let number = text.parse::<bigdecimal::BigDecimal>().ok()?;
    let (unscaled, scale) = number.into_bigint_and_exponent();
    Some((unscaled.to_string(), scale))
}

/// `chrono`'s `FromStr` of `DateTime<FixedOffset>`, then `timestamp` and
/// `timestamp_subsec_nanos`: the instant that [`rfc3339_instant`] names for this text, and
/// nothing exactly where it names none.
#[verifier::external_body]
fn read_instant(text: &str) -> (r: Option<(i64, u32)>)
    ensures
        r == rfc3339_instant(text@),
{
    let instant = text.parse::<chrono::DateTime<chrono::FixedOffset>>().ok()?;
    Some((instant.timestamp(), instant.timestamp_subsec_nanos()))
}

/// `Uuid::parse_str`, then `as_u128`: the bits that [`uuid_bits`] names for this text, and
/// nothing exactly where it names none.
#[verifier::external_body]
fn read_uuid(text: &str) -> (r: Option<u128>)
    ensures
        r == uuid_bits(text@),
{
    uuid::Uuid::parse_str(text).ok().map(|id| id.as_u128())
}

/// `Uuid::from_u128`, then `to_string`: the text that [`uuid_text`] names for these bits.
#[verifier::external_body]
fn write_uuid(bits: u128) -> (r: String)
    ensures
        r@ == uuid_text(bits),
{
    uuid::Uuid::from_u128(bits).to_string()
}

/// What a [`Decimal`] holds.
pub struct DecimalView {
    pub unscaled: Seq<char>,
    pub scale: i64,
}

/// A decimal number of any size, held exactly: the integer `unscaled`, written in decimal with
/// a leading `-` where it is negative, divided by ten to the power `scale`.
#[derive(Debug)]
pub struct Decimal {
    pub unscaled: String,
    pub scale: i64,
}

impl DeepView for Decimal {
    type V = DecimalView;

    open spec fn deep_view(&self) -> DecimalView {
        DecimalView { unscaled: self.unscaled@, scale: self.scale }
    }
}

impl DecimalView {
    /// The decimal that `text` denotes.
    pub open spec fn of(text: Seq<char>) -> Option<DecimalView> {
        match decimal_parts(text) {
            Some((unscaled, scale)) => Some(DecimalView { unscaled, scale }),
            None => None,
        }
    }
}

impl Decimal {
    /// Reads a decimal number, with or without a fraction and an exponent.
    pub fn parse(text: &str) -> (r: Option<Decimal>)
        ensures
            match DecimalView::of(text@) {
                Some(m) => r matches Some(x) && x.deep_view() == m,
                None => r is None,
            },
    {
        match read_decimal(text) {
            Some((unscaled, scale)) => Some(Decimal { unscaled, scale }),
            None => None,
        }
    }
}

/// A decimal is written as a string, or as a number, whose text is then read as it stands.
impl FromJson for Decimal {
    open spec fn decoded(value: JsonValue) -> Option<DecimalView> {
        match value {
            JsonValue::Text(t) => DecimalView::of(t),
            JsonValue::Number(t) => DecimalView::of(t),
            _ => None,
        }
    }

    fn from_json(tree: &Json) -> (r: Option<Decimal>) {
        match tree {
            Json::Text(t) => Decimal::parse(t.as_str()),
            Json::Number(t) => Decimal::parse(t.as_str()),
            _ => None,
        }
    }
}

/// An instant in UTC: seconds since the Unix epoch, and nanoseconds into that second.
#[derive(Clone, Copy, Debug, PartialEq, Eq, Structural)]
pub struct DateTime {
    pub seconds: i64,
    pub nanos: u32,
}

impl DeepView for DateTime {
    type V = DateTime;

    open spec fn deep_view(&self) -> DateTime {
        *self
    }
}

impl DateTime {
    /// The instant that an RFC 3339 `text` denotes.
    pub open spec fn of(text: Seq<char>) -> Option<DateTime> {
        match rfc3339_instant(text) {
            Some((seconds, nanos)) => Some(DateTime { seconds, nanos }),
            None => None,
        }
    }

    /// Reads an instant written as RFC 3339 says, with any offset.
    pub fn parse(text: &str) -> (r: Option<DateTime>)
        ensures
            r == DateTime::of(text@),
    {
        match read_instant(text) {
            Some((seconds, nanos)) => Some(DateTime { seconds, nanos }),
            None => None,
        }
    }
}

impl FromJson for DateTime {
    open spec fn decoded(value: JsonValue) -> Option<DateTime> {
        match value {
            JsonValue::Text(t) => DateTime::of(t),
            _ => None,
        }
    }

    fn from_json(tree: &Json) -> (r: Option<DateTime>) {
        match tree {
            Json::Text(t) => DateTime::parse(t.as_str()),
            _ => None,
        }
    }
}

/// An identifier of 128 bits.
#[derive(Clone, Copy, Debug, PartialEq, Eq, Structural)]
pub struct Uuid {
    pub bits: u128,
}

impl DeepView for Uuid {
    type V = Uuid;

    open spec fn deep_view(&self) -> Uuid {
        *self
    }
}

impl Uuid {
    /// The identifier that `text` denotes.
    pub open spec fn of(text: Seq<char>) -> Option<Uuid> {
        match uuid_bits(text) {
            Some(bits) => Some(Uuid { bits }),
            None => None,
        }
    }

    /// Reads an identifier.
    pub fn parse(text: &str) -> (r: Option<Uuid>)
        ensures
            r == Uuid::of(text@),
    {
        match read_uuid(text) {
            Some(bits) => Some(Uuid { bits }),
            None => None,
        }
    }

    /// The identifier in hyphenated lower-case form.
    pub fn to_text(&self) -> (r: String)
        ensures
            r@ == uuid_text(self.bits),
    {
        write_uuid(self.bits)
    }
}

impl FromJson for Uuid {
    open spec fn decoded(value: JsonValue) -> Option<Uuid> {
        match value {
            JsonValue::Text(t) => Uuid::of(t),
            _ => None,
        }
    }

    fn from_json(tree: &Json) -> (r: Option<Uuid>) {
        match tree {
            Json::Text(t) => Uuid::parse(t.as_str()),
            _ => None,
        }
    }
}

} // verus!
