use sovd2uds_adapter::error::{Sovd2UdsError, UdsNegativeResponseCode};
use sovd2uds_adapter::uds::{UdsRequest, UdsResponse, UdsServiceId};

#[test]
fn round_trip_keeps_sid_and_payload() {
    for sid in [0x00u8, 0x10, 0x22, 0x3E, 0x7E] {
        let req = UdsRequest { service_id: sid, data: vec![0xF1, 0x90, 0x00, 0xFF] };
        let frame = req.to_bytes();
        assert_eq!(frame, vec![sid, 0xF1, 0x90, 0x00, 0xFF]);
        let resp = UdsResponse::from_bytes(&frame).unwrap();
        assert!(resp.is_positive);
        assert_eq!(resp.service_id, sid);
        assert_eq!(resp.data, vec![0xF1, 0x90, 0x00, 0xFF]);
        assert_eq!(resp.nrc, None);
    }
}

#[test]
fn round_trip_with_empty_payload() {
    let req = UdsRequest::new(UdsServiceId::TesterPresent, vec![]);
    let frame = req.to_bytes();
    assert_eq!(frame, vec![0x3E]);
    let resp = UdsResponse::from_bytes(&frame).unwrap();
    assert!(resp.is_positive);
    assert_eq!(resp.service_id, 0x3E);
    assert!(resp.data.is_empty());
}

#[test]
fn negative_response_is_recognised() {
    for (s, n) in [(0x22u8, 0x31u8), (0x00, 0x00), (0xFF, 0xFF), (0x27, 0x35)] {
        let resp = UdsResponse::from_bytes(&[0x7F, s, n]).unwrap();
        assert!(!resp.is_positive);
        assert_eq!(resp.service_id, s);
        assert_eq!(resp.nrc, Some(n));
        assert!(resp.data.is_empty());
    }
}

#[test]
fn pending_negative_is_tagged() {
    let resp = UdsResponse::from_bytes(&[0x7F, 0x22, 0x78]).unwrap();
    assert!(resp.is_pending());
    let other = UdsResponse::from_bytes(&[0x7F, 0x22, 0x31]).unwrap();
    assert!(!other.is_pending());
    let positive = UdsResponse::from_bytes(&[0x62, 0x78]).unwrap();
    assert!(!positive.is_pending());
}

#[test]
fn empty_and_short_negative_frames_are_rejected() {
    assert!(UdsResponse::from_bytes(&[]).is_none());
    assert!(UdsResponse::from_bytes(&[0x7F]).is_none());
    assert!(UdsResponse::from_bytes(&[0x7F, 0x22]).is_none());
}

#[test]
fn positive_response_sid_adds_0x40() {
    assert_eq!(UdsServiceId::ReadDataByIdentifier.positive_response(), 0x62);
    assert_eq!(UdsServiceId::DiagnosticSessionControl.positive_response(), 0x50);
    assert_eq!(UdsServiceId::LinkControl.positive_response(), 0xC7);
    assert_eq!(UdsRequest::new(UdsServiceId::RoutineControl, vec![1]).service_id, 0x31);
}

#[test]
fn constructors_fill_fields() {
    let p = UdsResponse::new_positive(0x62, vec![1, 2]);
    assert!(p.is_positive && p.nrc.is_none() && p.data == vec![1, 2]);
    let n = UdsResponse::new_negative(0x22, 0x13);
    assert!(!n.is_positive && n.nrc == Some(0x13) && n.data.is_empty());
}

#[test]
fn nrc_table_lookup() {
    assert_eq!(UdsNegativeResponseCode::from_u8(0x78), Some(UdsNegativeResponseCode::RequestCorrectlyReceivedResponsePending));
    assert_eq!(UdsNegativeResponseCode::from_u8(0x21), Some(UdsNegativeResponseCode::BusyRepeatRequest));
    assert_eq!(UdsNegativeResponseCode::from_u8(0x00), None);
    assert_eq!(UdsNegativeResponseCode::SecurityAccessDenied.description(), "Security access denied");
    assert_eq!(UdsNegativeResponseCode::RequestCorrectlyReceivedResponsePending.description(), "Request correctly received, response pending");
}

#[test]
fn protocol_error_carries_description() {
    match Sovd2UdsError::protocol(0x22, 0x31) {
        Sovd2UdsError::UdsProtocol { service, nrc, description } => {
            assert_eq!(service, 0x22);
            assert_eq!(nrc, 0x31);
            assert_eq!(description, "Request out of range");
        }
        other => panic!("unexpected {:?}", other),
    }
    match Sovd2UdsError::protocol(0x22, 0x99) {
        Sovd2UdsError::UdsProtocol { description, .. } => assert_eq!(description, "Unknown negative response code"),
        other => panic!("unexpected {:?}", other),
    }
}

#[test]
fn error_status_codes() {
    assert_eq!(Sovd2UdsError::ComponentNotFound("x".to_string()).status_code(), 404);
    assert_eq!(Sovd2UdsError::DataItemNotFound("x".to_string()).status_code(), 404);
    assert_eq!(Sovd2UdsError::InvalidRequest("x".to_string()).status_code(), 400);
    assert_eq!(Sovd2UdsError::Timeout("x".to_string()).status_code(), 408);
    assert_eq!(Sovd2UdsError::Internal("x".to_string()).status_code(), 500);
    assert_eq!(Sovd2UdsError::protocol(0x22, 0x31).status_code(), 500);
}
