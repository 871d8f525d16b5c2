use sovd2uds_adapter::error::Sovd2UdsError;
use sovd2uds_adapter::hex::{byte_literal, encode};
use sovd2uds_adapter::value::{convert_uds_data_to_sovd, identifier_text, serialize_value_to_bytes, DataType, SovdValue};

fn text(v: SovdValue) -> String {
    match v {
        SovdValue::Text(s) => s,
        other => panic!("not text: {:?}", other),
    }
}

fn uint(v: SovdValue) -> u64 {
    match v {
        SovdValue::UInt(n) => n,
        other => panic!("not a number: {:?}", other),
    }
}

#[test]
fn invalid_utf8_falls_back_to_hex() {
    assert_eq!(text(convert_uds_data_to_sovd(&[0xFF, 0xFE, 0xFD], DataType::Text)), "FFFEFD");
}

#[test]
fn valid_utf8_is_decoded() {
    assert_eq!(text(convert_uds_data_to_sovd(b"ABC", DataType::Text)), "ABC");
    assert_eq!(text(convert_uds_data_to_sovd("é€".as_bytes(), DataType::Text)), "é€");
    assert_eq!(text(convert_uds_data_to_sovd(&[], DataType::Text)), "");
}

#[test]
fn numbers_are_big_endian() {
    assert_eq!(uint(convert_uds_data_to_sovd(&[0x7F], DataType::Number)), 0x7F);
    assert_eq!(uint(convert_uds_data_to_sovd(&[0x12, 0x34], DataType::Number)), 0x1234);
    assert_eq!(uint(convert_uds_data_to_sovd(&[0xDE, 0xAD, 0xBE, 0xEF], DataType::Number)), 0xDEADBEEF);
    assert_eq!(text(convert_uds_data_to_sovd(&[1, 2, 3], DataType::Number)), "010203");
    assert_eq!(text(convert_uds_data_to_sovd(&[], DataType::Number)), "");
}

#[test]
fn booleans_read_the_first_byte() {
    assert!(matches!(convert_uds_data_to_sovd(&[0x00, 0x01], DataType::Boolean), SovdValue::Bool(false)));
    assert!(matches!(convert_uds_data_to_sovd(&[0x02], DataType::Boolean), SovdValue::Bool(true)));
    assert!(matches!(convert_uds_data_to_sovd(&[], DataType::Boolean), SovdValue::Bool(false)));
}

#[test]
fn hex_is_upper_case_without_separator() {
    assert_eq!(text(convert_uds_data_to_sovd(&[0x0a, 0xbc], DataType::Hex)), "0ABC");
    assert_eq!(encode(&[0x00, 0x9F, 0xA0]), "009FA0");
    assert_eq!(byte_literal(0x08), "0x08");
}

#[test]
fn data_type_names() {
    assert_eq!(DataType::from_name("string"), DataType::Text);
    assert_eq!(DataType::from_name("number"), DataType::Number);
    assert_eq!(DataType::from_name("boolean"), DataType::Boolean);
    assert_eq!(DataType::from_name("hex"), DataType::Hex);
    assert_eq!(DataType::from_name("anything"), DataType::Hex);
}

#[test]
fn values_serialise_minimally() {
    assert_eq!(serialize_value_to_bytes(&SovdValue::UInt(0)).unwrap(), vec![0x00]);
    assert_eq!(serialize_value_to_bytes(&SovdValue::UInt(255)).unwrap(), vec![0xFF]);
    assert_eq!(serialize_value_to_bytes(&SovdValue::UInt(256)).unwrap(), vec![0x01, 0x00]);
    assert_eq!(serialize_value_to_bytes(&SovdValue::UInt(65535)).unwrap(), vec![0xFF, 0xFF]);
    assert_eq!(serialize_value_to_bytes(&SovdValue::UInt(65536)).unwrap(), vec![0x00, 0x01, 0x00, 0x00]);
    assert_eq!(serialize_value_to_bytes(&SovdValue::UInt(0x1_2345_6789)).unwrap(), vec![0x23, 0x45, 0x67, 0x89]);
    assert_eq!(serialize_value_to_bytes(&SovdValue::Bool(true)).unwrap(), vec![1]);
    assert_eq!(serialize_value_to_bytes(&SovdValue::Bool(false)).unwrap(), vec![0]);
    assert_eq!(serialize_value_to_bytes(&SovdValue::Text("hé".to_string())).unwrap(), "hé".as_bytes().to_vec());
}

#[test]
fn unsupported_values_are_invalid_requests() {
    for v in [SovdValue::Signed(-1), SovdValue::Fractional, SovdValue::Null, SovdValue::Structured] {
        match serialize_value_to_bytes(&v) {
            Err(Sovd2UdsError::InvalidRequest(_)) => {}
            other => panic!("unexpected {:?}", other),
        }
    }
}

#[test]
fn identifier_text_requires_utf8() {
    assert_eq!(identifier_text(b"1.2.3").unwrap(), "1.2.3");
    assert!(matches!(identifier_text(&[0xC3]), Err(Sovd2UdsError::Translation(_))));
}
