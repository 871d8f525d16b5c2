use sovd2uds_adapter::config::Config;
use sovd2uds_adapter::error::Sovd2UdsError;
use sovd2uds_adapter::session::{backoff_delay, calculate_security_key, EcuSession, SessionAction, TransportEvent, UdsOperation};

fn session() -> EcuSession {
    EcuSession::new(&Config::default(), "engine".to_string())
}

#[test]
fn transport_failures_are_retried_with_backoff() {
    let mut s = session();
    let op = UdsOperation::ReadDtcInformation(0x02);
    let (mut ex, first) = s.begin(&op);
    assert!(matches!(first, SessionAction::Send { delay_ms: 0, .. }));
    let mut delays = Vec::new();
    for _ in 0..3 {
        match s.handle(&mut ex, TransportEvent::Failure("timeout".to_string())) {
            SessionAction::Send { delay_ms, frame } => {
                assert_eq!(frame, vec![0x19, 0x02]);
                delays.push(delay_ms);
            }
            other => panic!("unexpected {:?}", other),
        }
    }
    assert_eq!(delays, vec![50, 100, 200]);
    match s.handle(&mut ex, TransportEvent::Failure("timeout".to_string())) {
        SessionAction::Complete(Err(Sovd2UdsError::UdsCommunication(m))) => assert_eq!(m, "timeout"),
        other => panic!("unexpected {:?}", other),
    }
}

#[test]
fn backoff_doubles_up_to_one_second() {
    let d: Vec<u32> = (0..8).map(backoff_delay).collect();
    assert_eq!(d, vec![50, 100, 200, 400, 800, 1000, 1000, 1000]);
}

#[test]
fn busy_is_repeated_once() {
    let mut s = session();
    let op = UdsOperation::EcuReset(0x01);
    let (mut ex, _) = s.begin(&op);
    match s.handle(&mut ex, TransportEvent::Response(vec![0x7F, 0x11, 0x21])) {
        SessionAction::Send { delay_ms, frame } => {
            assert_eq!(delay_ms, 100);
            assert_eq!(frame, vec![0x11, 0x01]);
        }
        other => panic!("unexpected {:?}", other),
    }
    match s.handle(&mut ex, TransportEvent::Response(vec![0x7F, 0x11, 0x21])) {
        SessionAction::Complete(Err(Sovd2UdsError::UdsProtocol { nrc, .. })) => assert_eq!(nrc, 0x21),
        other => panic!("unexpected {:?}", other),
    }
}

#[test]
fn pending_limit_is_a_timeout() {
    let mut s = session();
    let op = UdsOperation::ReadDataByIdentifier(0xF190);
    let (mut ex, _) = s.begin(&op);
    for _ in 0..10 {
        assert!(matches!(
            s.handle(&mut ex, TransportEvent::Response(vec![0x7F, 0x22, 0x78])),
            SessionAction::AwaitResponse
        ));
    }
    assert!(matches!(
        s.handle(&mut ex, TransportEvent::Response(vec![0x7F, 0x22, 0x78])),
        SessionAction::Complete(Err(Sovd2UdsError::Timeout(_)))
    ));
}

#[test]
fn negative_response_is_not_retried() {
    let mut s = session();
    let (mut ex, _) = s.begin(&UdsOperation::ReadDataByIdentifier(0x1234));
    match s.handle(&mut ex, TransportEvent::Response(vec![0x7F, 0x22, 0x31])) {
        SessionAction::Complete(Err(Sovd2UdsError::UdsProtocol { service, nrc, description })) => {
            assert_eq!((service, nrc), (0x22, 0x31));
            assert_eq!(description, "Request out of range");
        }
        other => panic!("unexpected {:?}", other),
    }
    assert!(matches!(
        s.handle(&mut ex, TransportEvent::Response(vec![0x62])),
        SessionAction::Complete(Err(Sovd2UdsError::Internal(_)))
    ));
}

#[test]
fn mismatched_positive_sid_is_rejected() {
    let mut s = session();
    let (mut ex, _) = s.begin(&UdsOperation::ReadDataByIdentifier(0xF190));
    assert!(matches!(
        s.handle(&mut ex, TransportEvent::Response(vec![0x50, 0x03])),
        SessionAction::Complete(Err(Sovd2UdsError::UdsCommunication(_)))
    ));
}

#[test]
fn malformed_frame_is_a_communication_error() {
    let mut s = session();
    let (mut ex, _) = s.begin(&UdsOperation::ReadDataByIdentifier(0xF190));
    assert!(matches!(
        s.handle(&mut ex, TransportEvent::Response(vec![])),
        SessionAction::Complete(Err(Sovd2UdsError::UdsCommunication(_)))
    ));
}

#[test]
fn session_control_updates_session_type() {
    let mut s = session();
    assert_eq!(s.state.current_session_type, 0x01);
    let (mut ex, first) = s.begin(&UdsOperation::DiagnosticSessionControl(0x03));
    match first {
        SessionAction::Send { frame, .. } => assert_eq!(frame, vec![0x10, 0x03]),
        other => panic!("unexpected {:?}", other),
    }
    match s.handle(&mut ex, TransportEvent::Response(vec![0x50, 0x03, 0x00, 0x32, 0x01, 0xF4])) {
        SessionAction::Complete(Ok(p)) => assert_eq!(p, vec![0x00, 0x32, 0x01, 0xF4]),
        other => panic!("unexpected {:?}", other),
    }
    assert_eq!(s.state.current_session_type, 0x03);
}

#[test]
fn operation_frames() {
    assert_eq!(UdsOperation::ReadDataByIdentifier(0xF190).frame(), vec![0x22, 0xF1, 0x90]);
    assert_eq!(UdsOperation::WriteDataByIdentifier(0x0102, vec![9]).frame(), vec![0x2E, 0x01, 0x02, 9]);
    assert_eq!(UdsOperation::ClearDiagnosticInformation(0x123456).frame(), vec![0x14, 0x12, 0x34, 0x56]);
    assert_eq!(UdsOperation::RoutineControl(0x01, 0x0201, vec![7, 8]).frame(), vec![0x31, 0x01, 0x02, 0x01, 7, 8]);
    assert_eq!(UdsOperation::SecurityAccess(0x01, vec![]).frame(), vec![0x27, 0x01]);
    assert_eq!(UdsOperation::EcuReset(0x03).frame(), vec![0x11, 0x03]);
}

#[test]
fn default_key_derivation_xors_0xaa() {
    assert_eq!(calculate_security_key(&[0x00, 0xFF, 0x12]), vec![0xAA, 0x55, 0xB8]);
    assert!(calculate_security_key(&[]).is_empty());
}

#[test]
fn session_uses_component_address() {
    let mut config = Config::default();
    let s = EcuSession::new(&config, "abs".to_string());
    assert_eq!(s.ecu_address(), 0x7E2);
    assert_eq!(s.component_id(), "abs");
    config.uds.default_address = 0x700;
    let t = EcuSession::new(&config, "unknown".to_string());
    assert_eq!(t.ecu_address(), 0x700);
}
