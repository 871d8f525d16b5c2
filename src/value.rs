//! JSON-shaped values of the SOVD side and their coercion to and from the
//! raw bytes of UDS payloads.

use vstd::prelude::*;
use vstd::utf8::{valid_utf8, decode_utf8};
use vstd::string::StringSliceAdditionalSpecFns;
use crate::error::Sovd2UdsError;
use crate::hex::{encode, hex_of};

verus! {

/// A JSON value as far as the adapter reads or builds it.
#[derive(Debug, Clone)]
pub enum SovdValue {
    Null,
    Bool(bool),
    /// A non-negative integer.
    UInt(u64),
    /// A negative integer.
    Signed(i64),
    /// A number with a fractional part or an exponent.
    Fractional,
    Text(String),
    /// An array or an object.
    Structured,
}

/// Mathematical form of a [`SovdValue`].
pub ghost enum ValueView {
    Null,
    Bool(bool),
    UInt(u64),
    Signed(i64),
    Fractional,
    Text(Seq<char>),
    Structured,
}

impl View for SovdValue {
    type V = ValueView;

    open spec fn view(&self) -> ValueView {
        match self {
            SovdValue::Null => ValueView::Null,
            SovdValue::Bool(b) => ValueView::Bool(*b),
            SovdValue::UInt(n) => ValueView::UInt(*n),
            SovdValue::Signed(n) => ValueView::Signed(*n),
            SovdValue::Fractional => ValueView::Fractional,
            SovdValue::Text(s) => ValueView::Text(s@),
            SovdValue::Structured => ValueView::Structured,
        }
    }
}

/// Declared type of a data item.
#[derive(Debug, Clone, Copy, PartialEq, Eq, Structural)]
pub enum DataType {
    Text,
    Number,
    Boolean,
    Hex,
}

/// The data type named `name`; any name but `string`, `number` and
/// `boolean` means hex.
pub open spec fn data_type_named(name: Seq<char>) -> DataType {
    if name == "string"@ {
        DataType::Text
    } else if name == "number"@ {
        DataType::Number
    } else if name == "boolean"@ {
        DataType::Boolean
    } else {
        DataType::Hex
    }
}

impl DataType {
    /// The data type named `name`: `string`, `number`, `boolean`, else hex.
    pub fn from_name(name: &str) -> (r: DataType)
        ensures
            r == data_type_named(name@),
    {
        if crate::text::str_eq(name, "string") {
            DataType::Text
        } else if crate::text::str_eq(name, "number") {
            DataType::Number
        } else if crate::text::str_eq(name, "boolean") {
            DataType::Boolean
        } else {
            DataType::Hex
        }
    }
}

/// Big-endian value of a 2-byte sequence.
pub open spec fn be16_value(b: Seq<u8>) -> u64 {
    (b[0] as int * 256 + b[1] as int) as u64
}

/// Big-endian value of a 4-byte sequence.
pub open spec fn be32_value(b: Seq<u8>) -> u64 {
    (((b[0] as int * 256 + b[1] as int) * 256 + b[2] as int) * 256 + b[3] as int) as u64
}

/// The SOVD value of raw bytes under a declared type: UTF-8 text or hex
/// when invalid; a big-endian number for 1, 2 or 4 bytes, else hex; a
/// boolean from the first byte; hex otherwise.
pub open spec fn coerce(data: Seq<u8>, t: DataType) -> ValueView {
    match t {
        DataType::Text => if valid_utf8(data) {
            ValueView::Text(decode_utf8(data))
        } else {
            ValueView::Text(hex_of(data))
        },
        DataType::Number => if data.len() == 1 {
            ValueView::UInt(data[0] as u64)
        } else if data.len() == 2 {
            ValueView::UInt(be16_value(data))
        } else if data.len() == 4 {
            ValueView::UInt(be32_value(data))
        } else {
            ValueView::Text(hex_of(data))
        },
        DataType::Boolean => ValueView::Bool(data.len() > 0 && data[0] != 0),
        DataType::Hex => ValueView::Text(hex_of(data)),
    }
}

/// Relies on `String::from_utf8`: it succeeds exactly on valid UTF-8, and
/// the string then holds the decoded characters.
#[verifier::external_body]
fn utf8_decode(bytes: &[u8]) -> (r: Option<String>)
    ensures
        r is Some <==> valid_utf8(bytes@),
        r matches Some(s) ==> s@ == decode_utf8(bytes@),
{
    String::from_utf8(bytes.to_vec()).ok()
}

/// Coerces raw UDS bytes to a SOVD value according to the declared type.
pub fn convert_uds_data_to_sovd(data: &[u8], data_type: DataType) -> (r: SovdValue)
    ensures
        r@ == coerce(data@, data_type),
{
    match data_type {
        DataType::Text => match utf8_decode(data) {
            Some(s) => SovdValue::Text(s),
            None => SovdValue::Text(encode(data)),
        },
        DataType::Number => {
            if data.len() == 1 {
                SovdValue::UInt(data[0] as u64)
            } else if data.len() == 2 {
                SovdValue::UInt(data[0] as u64 * 256 + data[1] as u64)
            } else if data.len() == 4 {
                SovdValue::UInt(
                    ((data[0] as u64 * 256 + data[1] as u64) * 256 + data[2] as u64) * 256
                        + data[3] as u64,
                )
            } else {
                SovdValue::Text(encode(data))
            }
        },
        DataType::Boolean => SovdValue::Bool(data.len() > 0 && data[0] != 0),
        DataType::Hex => SovdValue::Text(encode(data)),
    }
}

/// Minimal big-endian encoding of a non-negative integer: one byte up to
/// 255, two up to 65535, else four bytes of its low 32 bits.
pub open spec fn uint_bytes(n: u64) -> Seq<u8> {
    if n <= 255 {
        seq![n as u8]
    } else if n <= 65535 {
        seq![(n / 256) as u8, (n % 256) as u8]
    } else {
        let m = n % 0x1_0000_0000;
        seq![
            (m / 0x100_0000) as u8,
            ((m / 0x1_0000) % 256) as u8,
            ((m / 256) % 256) as u8,
            (m % 256) as u8,
        ]
    }
}

/// Routine parameter bytes of a value: `None` for a negative or
/// fractional number, null, an array or an object.
pub open spec fn value_bytes(v: ValueView) -> Option<Seq<u8>> {
    match v {
        ValueView::UInt(n) => Some(uint_bytes(n)),
        ValueView::Bool(b) => Some(seq![if b { 1u8 } else { 0u8 }]),
        ValueView::Text(s) => Some(vstd::utf8::encode_utf8(s)),
        _ => None,
    }
}

/// Serialises a value to routine parameter bytes; a number that is not a
/// non-negative integer, and any value but a number, boolean or string,
/// is an invalid request.
pub fn serialize_value_to_bytes(value: &SovdValue) -> (r: Result<Vec<u8>, Sovd2UdsError>)
    ensures
        match r {
            Ok(b) => value_bytes(value@) == Some(b@),
            Err(e) => value_bytes(value@) is None && e is InvalidRequest,
        },
{
    match value {
        SovdValue::UInt(i) => {
            let i = *i;
            if i <= 255 {
                let mut v: Vec<u8> = Vec::new();
                v.push(i as u8);
                assert(v@ =~= uint_bytes(i));
                Ok(v)
            } else if i <= 65535 {
                let mut v: Vec<u8> = Vec::new();
                v.push((i / 256) as u8);
                v.push((i % 256) as u8);
                assert(v@ =~= uint_bytes(i));
                Ok(v)
            } else {
                let m = i % 0x1_0000_0000;
                let mut v: Vec<u8> = Vec::new();
                v.push((m / 0x100_0000) as u8);
                v.push(((m / 0x1_0000) % 256) as u8);
                v.push(((m / 256) % 256) as u8);
                v.push((m % 256) as u8);
                assert(v@ =~= uint_bytes(i));
                Ok(v)
            }
        },
        SovdValue::Bool(b) => {
            let mut v: Vec<u8> = Vec::new();
            v.push(if *b { 1u8 } else { 0u8 });
            assert(v@ =~= seq![if *b { 1u8 } else { 0u8 }]);
            Ok(v)
        },
        SovdValue::Text(s) => {
            let bytes = s.as_str().as_bytes_vec();
            Ok(bytes)
        },
        SovdValue::Signed(_) | SovdValue::Fractional => Err(
            Sovd2UdsError::InvalidRequest(String::from_str("Invalid number value")),
        ),
        _ => Err(Sovd2UdsError::InvalidRequest(String::from_str("Unsupported value type"))),
    }
}

/// The text of an identifier read from an ECU (VIN, software or hardware
/// version); bytes that are not UTF-8 are a translation error.
pub fn identifier_text(data: &[u8]) -> (r: Result<String, Sovd2UdsError>)
    ensures
        match r {
            Ok(s) => valid_utf8(data@) && s@ == decode_utf8(data@),
            Err(e) => !valid_utf8(data@) && e is Translation,
        },
{
    match utf8_decode(data) {
        Some(s) => Ok(s),
        None => Err(Sovd2UdsError::Translation(String::from_str("identifier data is not valid UTF-8"))),
    }
}

} // verus!
