use sovd2uds_adapter::dtc::{format_dtc, get_dtc_description, parse_dtc_data};

#[test]
fn dtc_codes_format() {
    assert_eq!(format_dtc(&[0x01, 0x00, 0x00]), "P0100");
    assert_eq!(format_dtc(&[0x41, 0x23, 0x00]), "C0123");
    assert_eq!(format_dtc(&[0x82, 0xAB, 0x00]), "B02AB");
    assert_eq!(format_dtc(&[0xC0, 0x00, 0x00]), "U0000");
    assert_eq!(format_dtc(&[0xFF, 0xFF, 0xFF]), "U3FFF");
}

#[test]
fn short_code_is_unknown() {
    assert_eq!(format_dtc(&[0x01, 0x00]), "UNKNOWN");
    assert_eq!(format_dtc(&[]), "UNKNOWN");
}

#[test]
fn read_dtcs_parses_two_records() {
    let data = [0x00, 0x01, 0x00, 0x00, 0x08, 0x41, 0x23, 0x00, 0x0A];
    let recs = parse_dtc_data(&data);
    assert_eq!(recs.len(), 2);
    assert_eq!(recs[0].code, "P0100");
    assert_eq!(recs[0].status_text(), "0x08");
    assert_eq!(recs[0].description, "Diagnostic trouble code");
    assert_eq!(recs[1].code, "C0123");
    assert_eq!(recs[1].status, 0x0A);
    assert_eq!(recs[1].status_text(), "0x0A");
}

#[test]
fn dtc_parser_record_count() {
    for len in 0usize..20 {
        let data = vec![0x11u8; len];
        let expected = if len < 1 { 0 } else { (len - 1) / 4 };
        assert_eq!(parse_dtc_data(&data).len(), expected, "len {}", len);
    }
}

#[test]
fn trailing_bytes_are_discarded() {
    let data = [0xFF, 0x01, 0x00, 0x00, 0x2F, 0x41, 0x23];
    let recs = parse_dtc_data(&data);
    assert_eq!(recs.len(), 1);
    assert_eq!(recs[0].code, "P0100");
    assert_eq!(recs[0].status_text(), "0x2F");
}

#[test]
fn dtc_description_is_fixed() {
    assert_eq!(get_dtc_description("P0100"), "Diagnostic trouble code");
}
