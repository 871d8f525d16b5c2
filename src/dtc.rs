//! Diagnostic trouble codes: formatting of the 3-byte code and parsing of
//! a report-by-status-mask response.

use vstd::prelude::*;
use crate::hex::{byte_hex, byte_literal, hex_char, hex_digit};

verus! {

/// Letter selected by the top two bits of the first code byte.
pub open spec fn dtc_prefix(b0: u8) -> char {
    let sel = b0 as int / 64;
    if sel == 0 { 'P' } else if sel == 1 { 'C' } else if sel == 2 { 'B' } else { 'U' }
}

/// The five-character code: prefix letter, bits 5-4 of the first byte,
/// its low nibble, then the high and low nibble of the second byte.
pub open spec fn dtc_code(b0: u8, b1: u8) -> Seq<char> {
    seq![
        dtc_prefix(b0),
        hex_char((b0 as int / 16) % 4),
        hex_char(b0 as int % 16),
        hex_char(b1 as int / 16),
        hex_char(b1 as int % 16),
    ]
}

/// Text returned for a code prefix shorter than three bytes.
pub open spec fn unknown_code() -> Seq<char> {
    seq!['U', 'N', 'K', 'N', 'O', 'W', 'N']
}

/// Description given to every parsed DTC.
pub open spec fn dtc_description_text() -> Seq<char> {
    seq![
        'D', 'i', 'a', 'g', 'n', 'o', 's', 't', 'i', 'c', ' ', 't', 'r', 'o', 'u', 'b', 'l', 'e',
        ' ', 'c', 'o', 'd', 'e',
    ]
}

/// Number of complete 4-byte records after the 1-byte availability mask.
pub open spec fn dtc_count(len: int) -> int {
    if len < 1 { 0 } else { (len - 1) / 4 }
}

/// Formats a DTC code prefix, as in `P0100`; `UNKNOWN` when fewer than
/// three bytes are given.
pub fn format_dtc(bytes: &[u8]) -> (r: String)
    ensures
        bytes@.len() < 3 ==> r@ == unknown_code(),
        bytes@.len() >= 3 ==> r@ == dtc_code(bytes@[0], bytes@[1]),
{
    if bytes.len() < 3 {
        proof {
            reveal_strlit("UNKNOWN");
        }
        let r = String::from_str("UNKNOWN");
        assert(r@ =~= unknown_code());
        return r;
    }
    let b0 = bytes[0];
    let b1 = bytes[1];
    let sel = b0 / 64;
    let mut s = if sel == 0 {
        proof { reveal_strlit("P"); }
        String::from_str("P")
    } else if sel == 1 {
        proof { reveal_strlit("C"); }
        String::from_str("C")
    } else if sel == 2 {
        proof { reveal_strlit("B"); }
        String::from_str("B")
    } else {
        proof { reveal_strlit("U"); }
        String::from_str("U")
    };
    assert(s@ =~= seq![dtc_prefix(b0)]);
    s.append(hex_digit((b0 / 16) % 4));
    s.append(hex_digit(b0 % 16));
    s.append(hex_digit(b1 / 16));
    s.append(hex_digit(b1 % 16));
    assert(s@ =~= dtc_code(b0, b1));
    s
}

/// Description of a DTC; the same text for every code.
pub fn get_dtc_description(_dtc: &str) -> (r: String)
    ensures
        r@ == dtc_description_text(),
{
    proof {
        reveal_strlit("Diagnostic trouble code");
    }
    let r = String::from_str("Diagnostic trouble code");
    assert(r@ =~= dtc_description_text());
    r
}

/// One parsed DTC record.
#[derive(Debug, Clone)]
pub struct DtcRecord {
    /// Five-character code such as `P0100`.
    pub code: String,
    /// Status mask byte.
    pub status: u8,
    pub description: String,
}

impl DtcRecord {
    /// The status byte written as `0x` and two hexadecimal digits.
    pub fn status_text(&self) -> (r: String)
        ensures
            r@ == seq!['0', 'x'] + byte_hex(self.status),
    {
        byte_literal(self.status)
    }
}

/// What record `i` of a report holds: code from bytes `1+4i`, `2+4i`,
/// status from byte `4+4i`.
pub open spec fn record_matches(rec: DtcRecord, data: Seq<u8>, i: int) -> bool {
    &&& rec.code@ == dtc_code(data[1 + 4 * i], data[2 + 4 * i])
    &&& rec.status == data[4 + 4 * i]
    &&& rec.description@ == dtc_description_text()
}

/// Parses a report-DTC-by-status-mask payload: skips the availability
/// mask byte, then reads 4-byte records; trailing bytes are discarded.
pub fn parse_dtc_data(data: &[u8]) -> (r: Vec<DtcRecord>)
    ensures
        r@.len() == dtc_count(data@.len() as int),
        forall|i: int| 0 <= i < r@.len() ==> record_matches(#[trigger] r@[i], data@, i),
{
    let mut dtcs: Vec<DtcRecord> = Vec::new();
    if data.len() < 1 {
        return dtcs;
    }
    let mut offset: usize = 1;
    while offset <= data.len() && data.len() - offset >= 4
        invariant
            1 <= offset <= data@.len() + 3,
            offset == 1 + 4 * dtcs@.len(),
            offset <= data@.len(),
            forall|i: int| 0 <= i < dtcs@.len() ==> record_matches(#[trigger] dtcs@[i], data@, i),
        decreases data@.len() - offset,
    {
        let code = format_dtc(&[data[offset], data[offset + 1], data[offset + 2]]);
        let description = get_dtc_description(code.as_str());
        let rec = DtcRecord { code, status: data[offset + 3], description };
        dtcs.push(rec);
        offset = offset + 4;
    }
    assert(dtcs@.len() == (data@.len() - 1) / 4);
    dtcs
}

} // verus!
