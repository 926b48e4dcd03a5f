//! The loosely-typed values that gateway notification payloads carry, and the
//! lenient coercions the extractors apply to them.
//!
//! The wire declares no types: an entry's value arrives as a string, an
//! integral number, or a non-integral number, which the decoding edge hands
//! over as its decimal rendering. Extraction never fails; a value of the
//! wrong shape falls back to the field's default instead.

use vstd::prelude::*;

verus! {

/// A type-tagged value from a notification payload.
#[derive(Debug, PartialEq)]
pub enum MixedValue {
    /// A JSON string.
    Text(String),
    /// An integral JSON number.
    Whole(i64),
    /// A non-integral JSON number, carried as its decimal rendering.
    Decimal(String),
}

/// A numeric field pulled out of a payload: an integral value, or the
/// decimal rendering of a non-integral one.
#[derive(Debug, PartialEq)]
pub enum Numeric {
    Whole(i64),
    Decimal(String),
}

/// The numeric reading of a value: numbers pass through, a string silently
/// coerces to zero.
pub open spec fn numeric_of(v: MixedValue) -> Numeric {
    match v {
        MixedValue::Text(_) => Numeric::Whole(0),
        MixedValue::Whole(i) => Numeric::Whole(i),
        MixedValue::Decimal(d) => Numeric::Decimal(d),
    }
}

/// The numeric reading of an optional value; absence reads as zero.
pub open spec fn numeric_field(o: Option<MixedValue>) -> Numeric {
    match o {
        None => Numeric::Whole(0),
        Some(v) => numeric_of(v),
    }
}

/// The string reading of a value: only a string passes through.
pub open spec fn text_of(v: MixedValue) -> Seq<char> {
    match v {
        MixedValue::Text(s) => s@,
        _ => Seq::<char>::empty(),
    }
}

/// The string reading of an optional value; absence reads as empty.
pub open spec fn text_field(o: Option<MixedValue>) -> Seq<char> {
    match o {
        None => Seq::<char>::empty(),
        Some(v) => text_of(v),
    }
}

/// The rendering of a non-integral number; any other shape reads as empty.
pub open spec fn decimal_text_of(v: MixedValue) -> Seq<char> {
    match v {
        MixedValue::Decimal(d) => d@,
        _ => Seq::<char>::empty(),
    }
}

/// The non-integral rendering of an optional value; absence reads as empty.
pub open spec fn decimal_text_field(o: Option<MixedValue>) -> Seq<char> {
    match o {
        None => Seq::<char>::empty(),
        Some(v) => decimal_text_of(v),
    }
}

/// Coerces a value to a numeric field.
pub fn numeric_value(v: &MixedValue) -> (r: Numeric)
    ensures
        r == numeric_of(*v),
{
    match v {
        MixedValue::Text(_) => Numeric::Whole(0),
        MixedValue::Whole(i) => Numeric::Whole(*i),
        MixedValue::Decimal(d) => Numeric::Decimal(d.clone()),
    }
}

/// Coerces a value to a string field.
pub fn text_value(v: &MixedValue) -> (r: String)
    ensures
        r@ == text_of(*v),
{
    match v {
        MixedValue::Text(s) => s.clone(),
        _ => String::new(),
    }
}

/// Coerces a value to the rendering of a non-integral number.
pub fn decimal_text_value(v: &MixedValue) -> (r: String)
    ensures
        r@ == decimal_text_of(*v),
{
    match v {
        MixedValue::Decimal(d) => d.clone(),
        _ => String::new(),
    }
}

} // verus!
