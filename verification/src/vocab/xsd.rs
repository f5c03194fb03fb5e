//! Ready-to-use identifiers of the RDF-compatible XSD datatypes.
use vstd::prelude::*;
use vstd::string::*;
use crate::model::NamedNodeBuf;

verus! {

/// true, false
pub fn boolean() -> (r: NamedNodeBuf)
    ensures
        r@ == "http://www.w3.org/2001/XMLSchema#boolean"@,
{
    NamedNodeBuf::new_unchecked(String::from_str("http://www.w3.org/2001/XMLSchema#boolean"))
}

/// -128 to +127 (8 bit)
pub fn byte() -> (r: NamedNodeBuf)
    ensures
        r@ == "http://www.w3.org/2001/XMLSchema#byte"@,
{
    NamedNodeBuf::new_unchecked(String::from_str("http://www.w3.org/2001/XMLSchema#byte"))
}

/// Dates (yyyy-mm-dd) with or without timezone
pub fn date() -> (r: NamedNodeBuf)
    ensures
        r@ == "http://www.w3.org/2001/XMLSchema#date"@,
{
    NamedNodeBuf::new_unchecked(String::from_str("http://www.w3.org/2001/XMLSchema#date"))
}

/// Duration of time (days, hours, minutes, seconds only)
pub fn day_time_duration() -> (r: NamedNodeBuf)
    ensures
        r@ == "http://www.w3.org/2001/XMLSchema#dayTimeDuration"@,
{
    NamedNodeBuf::new_unchecked(String::from_str("http://www.w3.org/2001/XMLSchema#dayTimeDuration"))
}

/// Date and time with or without timezone
pub fn date_time() -> (r: NamedNodeBuf)
    ensures
        r@ == "http://www.w3.org/2001/XMLSchema#dateTime"@,
{
    NamedNodeBuf::new_unchecked(String::from_str("http://www.w3.org/2001/XMLSchema#dateTime"))
}

/// Date and time with required timezone
pub fn date_time_stamp() -> (r: NamedNodeBuf)
    ensures
        r@ == "http://www.w3.org/2001/XMLSchema#dateTimeStamp"@,
{
    NamedNodeBuf::new_unchecked(String::from_str("http://www.w3.org/2001/XMLSchema#dateTimeStamp"))
}

/// Arbitrary-precision decimal numbers
pub fn decimal() -> (r: NamedNodeBuf)
    ensures
        r@ == "http://www.w3.org/2001/XMLSchema#decimal"@,
{
    NamedNodeBuf::new_unchecked(String::from_str("http://www.w3.org/2001/XMLSchema#decimal"))
}

/// 64-bit floating point numbers incl. special values
pub fn double() -> (r: NamedNodeBuf)
    ensures
        r@ == "http://www.w3.org/2001/XMLSchema#double"@,
{
    NamedNodeBuf::new_unchecked(String::from_str("http://www.w3.org/2001/XMLSchema#double"))
}

/// Duration of time
pub fn duration() -> (r: NamedNodeBuf)
    ensures
        r@ == "http://www.w3.org/2001/XMLSchema#duration"@,
{
    NamedNodeBuf::new_unchecked(String::from_str("http://www.w3.org/2001/XMLSchema#duration"))
}

/// 32-bit floating point numbers incl. special values
pub fn float() -> (r: NamedNodeBuf)
    ensures
        r@ == "http://www.w3.org/2001/XMLSchema#float"@,
{
    NamedNodeBuf::new_unchecked(String::from_str("http://www.w3.org/2001/XMLSchema#float"))
}

/// Gregorian calendar day of the month
pub fn g_day() -> (r: NamedNodeBuf)
    ensures
        r@ == "http://www.w3.org/2001/XMLSchema#gDay"@,
{
    NamedNodeBuf::new_unchecked(String::from_str("http://www.w3.org/2001/XMLSchema#gDay"))
}

/// Gregorian calendar month
pub fn g_month() -> (r: NamedNodeBuf)
    ensures
        r@ == "http://www.w3.org/2001/XMLSchema#gMonth"@,
{
    NamedNodeBuf::new_unchecked(String::from_str("http://www.w3.org/2001/XMLSchema#gMonth"))
}

/// Gregorian calendar month and day
pub fn g_month_day() -> (r: NamedNodeBuf)
    ensures
        r@ == "http://www.w3.org/2001/XMLSchema#gMonthDay"@,
{
    NamedNodeBuf::new_unchecked(String::from_str("http://www.w3.org/2001/XMLSchema#gMonthDay"))
}

/// Gregorian calendar year
pub fn g_year() -> (r: NamedNodeBuf)
    ensures
        r@ == "http://www.w3.org/2001/XMLSchema#gYear"@,
{
    NamedNodeBuf::new_unchecked(String::from_str("http://www.w3.org/2001/XMLSchema#gYear"))
}

/// Gregorian calendar year and month
pub fn g_year_month() -> (r: NamedNodeBuf)
    ensures
        r@ == "http://www.w3.org/2001/XMLSchema#gYearMonth"@,
{
    NamedNodeBuf::new_unchecked(String::from_str("http://www.w3.org/2001/XMLSchema#gYearMonth"))
}

/// -2147483648 to +2147483647 (32 bit)
pub fn int_() -> (r: NamedNodeBuf)
    ensures
        r@ == "http://www.w3.org/2001/XMLSchema#int"@,
{
    NamedNodeBuf::new_unchecked(String::from_str("http://www.w3.org/2001/XMLSchema#int"))
}

/// Arbitrary-size integer numbers
pub fn integer() -> (r: NamedNodeBuf)
    ensures
        r@ == "http://www.w3.org/2001/XMLSchema#integer"@,
{
    NamedNodeBuf::new_unchecked(String::from_str("http://www.w3.org/2001/XMLSchema#integer"))
}

/// 64 bit signed integers
pub fn long() -> (r: NamedNodeBuf)
    ensures
        r@ == "http://www.w3.org/2001/XMLSchema#long"@,
{
    NamedNodeBuf::new_unchecked(String::from_str("http://www.w3.org/2001/XMLSchema#long"))
}

/// Integer numbers below 0
pub fn negative_integer() -> (r: NamedNodeBuf)
    ensures
        r@ == "http://www.w3.org/2001/XMLSchema#negativeInteger"@,
{
    NamedNodeBuf::new_unchecked(String::from_str("http://www.w3.org/2001/XMLSchema#negativeInteger"))
}

/// Integer numbers at least 0
pub fn non_negative_integer() -> (r: NamedNodeBuf)
    ensures
        r@ == "http://www.w3.org/2001/XMLSchema#nonNegativeInteger"@,
{
    NamedNodeBuf::new_unchecked(String::from_str("http://www.w3.org/2001/XMLSchema#nonNegativeInteger"))
}

/// Integer numbers at most 0
pub fn non_positive_integer() -> (r: NamedNodeBuf)
    ensures
        r@ == "http://www.w3.org/2001/XMLSchema#nonPositiveInteger"@,
{
    NamedNodeBuf::new_unchecked(String::from_str("http://www.w3.org/2001/XMLSchema#nonPositiveInteger"))
}

/// Integer numbers above 0
pub fn positive_integer() -> (r: NamedNodeBuf)
    ensures
        r@ == "http://www.w3.org/2001/XMLSchema#positiveInteger"@,
{
    NamedNodeBuf::new_unchecked(String::from_str("http://www.w3.org/2001/XMLSchema#positiveInteger"))
}

/// Times (hh:mm:ss.sss) with or without timezone
pub fn time() -> (r: NamedNodeBuf)
    ensures
        r@ == "http://www.w3.org/2001/XMLSchema#time"@,
{
    NamedNodeBuf::new_unchecked(String::from_str("http://www.w3.org/2001/XMLSchema#time"))
}

/// -32768 to +32767 (16 bit)
pub fn short() -> (r: NamedNodeBuf)
    ensures
        r@ == "http://www.w3.org/2001/XMLSchema#short"@,
{
    NamedNodeBuf::new_unchecked(String::from_str("http://www.w3.org/2001/XMLSchema#short"))
}

/// Character strings
pub fn string() -> (r: NamedNodeBuf)
    ensures
        r@ == "http://www.w3.org/2001/XMLSchema#string"@,
{
    NamedNodeBuf::new_unchecked(String::from_str("http://www.w3.org/2001/XMLSchema#string"))
}

/// 0 to 255 (8 bit)
pub fn unsigned_byte() -> (r: NamedNodeBuf)
    ensures
        r@ == "http://www.w3.org/2001/XMLSchema#unsignedByte"@,
{
    NamedNodeBuf::new_unchecked(String::from_str("http://www.w3.org/2001/XMLSchema#unsignedByte"))
}

/// 0 to 4294967295 (32 bit)
pub fn unsigned_int() -> (r: NamedNodeBuf)
    ensures
        r@ == "http://www.w3.org/2001/XMLSchema#unsignedInt"@,
{
    NamedNodeBuf::new_unchecked(String::from_str("http://www.w3.org/2001/XMLSchema#unsignedInt"))
}

/// 64 bit unsigned integers
pub fn unsigned_long() -> (r: NamedNodeBuf)
    ensures
        r@ == "http://www.w3.org/2001/XMLSchema#unsignedLong"@,
{
    NamedNodeBuf::new_unchecked(String::from_str("http://www.w3.org/2001/XMLSchema#unsignedLong"))
}

/// 0 to 65535 (16 bit)
pub fn unsigned_short() -> (r: NamedNodeBuf)
    ensures
        r@ == "http://www.w3.org/2001/XMLSchema#unsignedShort"@,
{
    NamedNodeBuf::new_unchecked(String::from_str("http://www.w3.org/2001/XMLSchema#unsignedShort"))
}

/// Duration of time (months and years only)
pub fn year_month_duration() -> (r: NamedNodeBuf)
    ensures
        r@ == "http://www.w3.org/2001/XMLSchema#yearMonthDuration"@,
{
    NamedNodeBuf::new_unchecked(String::from_str("http://www.w3.org/2001/XMLSchema#yearMonthDuration"))
}

} // verus!
