use sovd2uds_adapter::config::Config;
use sovd2uds_adapter::error::Sovd2UdsError;
use sovd2uds_adapter::models::{DtcManagementRequest, DtcResults, ServiceRequest};
use sovd2uds_adapter::service::plan_service;
use sovd2uds_adapter::session::{calculate_security_key, EcuSession, SessionAction, TransportEvent, UdsOperation};
use sovd2uds_adapter::translator::{DtcAction, SovdUdsTranslator};
use sovd2uds_adapter::value::SovdValue;

/// Runs an operation against scripted transport replies; returns the
/// frames sent, the seeds handed to the key hook, and the result.
fn drive(
    session: &mut EcuSession,
    op: &UdsOperation,
    replies: Vec<Result<Vec<u8>, String>>,
) -> (Vec<Vec<u8>>, Vec<Vec<u8>>, Result<Vec<u8>, Sovd2UdsError>) {
    let mut replies = replies.into_iter();
    let mut sent = Vec::new();
    let mut seeds = Vec::new();
    let (mut ex, mut action) = session.begin(op);
    loop {
        let event = match action {
            SessionAction::Send { frame, .. } => {
                sent.push(frame);
                match replies.next().expect("no reply scripted") {
                    Ok(f) => TransportEvent::Response(f),
                    Err(m) => TransportEvent::Failure(m),
                }
            }
            SessionAction::AwaitResponse => match replies.next().expect("no reply scripted") {
                Ok(f) => TransportEvent::Response(f),
                Err(m) => TransportEvent::Failure(m),
            },
            SessionAction::DeriveKey { seed, .. } => {
                let key = calculate_security_key(&seed);
                seeds.push(seed);
                TransportEvent::Key(key)
            }
            SessionAction::Complete(r) => return (sent, seeds, r),
        };
        action = session.handle(&mut ex, event);
    }
}

fn vin_reply(vin: &[u8]) -> Vec<u8> {
    let mut f = vec![0x62, 0xF1, 0x90];
    f.extend_from_slice(vin);
    f
}

#[test]
fn read_vin() {
    let config = Config::default();
    let translator = SovdUdsTranslator::new();
    let mut session = EcuSession::new(&config, "engine".to_string());
    let op = translator.plan_read_data_item("vin").unwrap();
    let vin = b"W0L00000000000000";
    let (sent, _, result) = drive(&mut session, &op, vec![Ok(vin_reply(vin))]);
    assert_eq!(sent, vec![vec![0x22, 0xF1, 0x90]]);
    let raw = result.unwrap();
    let value = translator.data_item_value("vin", &raw);
    assert_eq!(value.id, "vin");
    assert_eq!(value.name, "Vehicle Identification Number");
    assert_eq!(value.category, "identData");
    assert_eq!(value.quality.as_deref(), Some("good"));
    assert!(value.timestamp.is_some());
    match value.data {
        SovdValue::Text(s) => assert_eq!(s, "W0L00000000000000"),
        other => panic!("unexpected {:?}", other),
    }
}

#[test]
fn read_did_invalid_utf8_falls_back_to_hex() {
    let config = Config::default();
    let translator = SovdUdsTranslator::new();
    let mut session = EcuSession::new(&config, "engine".to_string());
    let op = translator.plan_read_data_item("vin").unwrap();
    let (_, _, result) = drive(&mut session, &op, vec![Ok(vin_reply(&[0xFF, 0xFE, 0xFD]))]);
    let value = translator.data_item_value("vin", &result.unwrap());
    match value.data {
        SovdValue::Text(s) => assert_eq!(s, "FFFEFD"),
        other => panic!("unexpected {:?}", other),
    }
}

#[test]
fn unknown_data_item_is_not_found() {
    let translator = SovdUdsTranslator::new();
    match translator.plan_read_data_item("odometer") {
        Err(e @ Sovd2UdsError::DataItemNotFound(_)) => assert_eq!(e.status_code(), 404),
        other => panic!("unexpected {:?}", other),
    }
}

#[test]
fn clear_all_dtcs() {
    let config = Config::default();
    let translator = SovdUdsTranslator::new();
    let mut session = EcuSession::new(&config, "engine".to_string());
    let request = DtcManagementRequest { action: "clear".to_string(), dtcs: None };
    let (action, op) = translator.plan_manage_dtcs(&request).unwrap();
    assert_eq!(action, DtcAction::Clear);
    let (sent, _, result) = drive(&mut session, &op, vec![Ok(vec![0x54])]);
    assert_eq!(sent, vec![vec![0x14, 0xFF, 0xFF, 0xFF]]);
    let resp = translator.finish_manage_dtcs(action, &result.unwrap());
    assert_eq!(resp.status, "success");
    assert_eq!(resp.action, "clear");
    assert!(resp.results.is_none());
    assert_eq!(resp.message.as_deref(), Some("All DTCs cleared successfully"));
}

#[test]
fn read_dtcs() {
    let config = Config::default();
    let translator = SovdUdsTranslator::new();
    let mut session = EcuSession::new(&config, "engine".to_string());
    let request = DtcManagementRequest { action: "read".to_string(), dtcs: None };
    let (action, op) = translator.plan_manage_dtcs(&request).unwrap();
    let reply = vec![0x59, 0x02, 0x00, 0x01, 0x00, 0x00, 0x08, 0x41, 0x23, 0x00, 0x0A];
    let (sent, _, result) = drive(&mut session, &op, vec![Ok(reply)]);
    assert_eq!(sent, vec![vec![0x19, 0x02]]);
    let payload = result.unwrap();
    assert_eq!(payload, vec![0x00, 0x01, 0x00, 0x00, 0x08, 0x41, 0x23, 0x00, 0x0A]);
    let resp = translator.finish_manage_dtcs(action, &payload);
    match resp.results {
        Some(DtcResults::Dtcs(recs)) => {
            assert_eq!(recs.len(), 2);
            assert_eq!(recs[0].code, "P0100");
            assert_eq!(recs[0].status_text(), "0x08");
            assert_eq!(recs[1].code, "C0123");
            assert_eq!(recs[1].status_text(), "0x0A");
        }
        other => panic!("unexpected {:?}", other),
    }
    assert_eq!(resp.message.as_deref(), Some("Found 2 DTCs"));
}

#[test]
fn freeze_frame_is_hex() {
    let translator = SovdUdsTranslator::new();
    let resp = translator.finish_manage_dtcs(DtcAction::FreezeFrame, &[0x04, 0xAB]);
    match resp.results {
        Some(DtcResults::FreezeFrame(h)) => assert_eq!(h, "04AB"),
        other => panic!("unexpected {:?}", other),
    }
    assert_eq!(resp.action, "freeze_frame");
}

#[test]
fn unknown_dtc_action_is_invalid() {
    let translator = SovdUdsTranslator::new();
    let request = DtcManagementRequest { action: "purge".to_string(), dtcs: None };
    match translator.plan_manage_dtcs(&request) {
        Err(Sovd2UdsError::InvalidRequest(m)) => assert_eq!(m, "Unknown DTC action: purge"),
        other => panic!("unexpected {:?}", other),
    }
}

#[test]
fn unknown_service_type() {
    let request = ServiceRequest { service_type: "nope".to_string(), parameters: None };
    match plan_service(&request) {
        Err(e) => {
            assert!(matches!(e, Sovd2UdsError::InvalidRequest(_)));
            assert_eq!(e.status_code(), 400);
        }
        Ok(k) => panic!("unexpected {:?}", k),
    }
}

#[test]
fn pending_handling() {
    let config = Config::default();
    let translator = SovdUdsTranslator::new();
    let mut session = EcuSession::new(&config, "engine".to_string());
    let op = translator.plan_read_data_item("vin").unwrap();
    let (sent, _, result) = drive(
        &mut session,
        &op,
        vec![Ok(vec![0x7F, 0x22, 0x78]), Ok(vin_reply(b"ABCDEFGHIJKLMNOP"))],
    );
    assert_eq!(sent.len(), 1);
    assert_eq!(result.unwrap(), b"ABCDEFGHIJKLMNOP".to_vec());
}

#[test]
fn security_gate_runs_seed_then_key_before_write() {
    let mut config = Config::default();
    config.security.require_security_access = true;
    config.security.security_level = 1;
    let mut session = EcuSession::new(&config, "engine".to_string());
    let op = UdsOperation::WriteDataByIdentifier(0xF190, vec![0x41, 0x42]);
    let (sent, seeds, result) = drive(
        &mut session,
        &op,
        vec![Ok(vec![0x67, 0x01, 0x12, 0x34]), Ok(vec![0x67, 0x02]), Ok(vec![0x6E, 0xF1, 0x90])],
    );
    assert_eq!(
        sent,
        vec![vec![0x27, 0x01], vec![0x27, 0x02, 0x12 ^ 0xAA, 0x34 ^ 0xAA], vec![0x2E, 0xF1, 0x90, 0x41, 0x42]]
    );
    assert_eq!(seeds, vec![vec![0x12, 0x34]]);
    assert!(result.is_ok());
    assert!(session.state.security_unlocked);
    let (sent, _, _) = drive(&mut session, &op, vec![Ok(vec![0x6E, 0xF1, 0x90])]);
    assert_eq!(sent, vec![vec![0x2E, 0xF1, 0x90, 0x41, 0x42]]);
}

#[test]
fn empty_seed_means_unlocked() {
    let mut config = Config::default();
    config.security.require_security_access = true;
    config.security.security_level = 3;
    let mut session = EcuSession::new(&config, "engine".to_string());
    let op = UdsOperation::WriteDataByIdentifier(0x0101, vec![0x01]);
    let (sent, seeds, result) = drive(&mut session, &op, vec![Ok(vec![0x67, 0x05]), Ok(vec![0x6E, 0x01, 0x01])]);
    assert_eq!(sent, vec![vec![0x27, 0x05], vec![0x2E, 0x01, 0x01, 0x01]]);
    assert!(seeds.is_empty());
    assert!(result.is_ok());
    assert!(session.state.security_unlocked);
}

#[test]
fn rejected_key_keeps_session_locked() {
    let mut config = Config::default();
    config.security.require_security_access = true;
    let mut session = EcuSession::new(&config, "engine".to_string());
    let op = UdsOperation::WriteDataByIdentifier(0x0101, vec![0x01]);
    let (sent, _, result) = drive(&mut session, &op, vec![Ok(vec![0x67, 0x01, 0x55]), Ok(vec![0x7F, 0x27, 0x35])]);
    assert_eq!(sent.len(), 2);
    match result {
        Err(Sovd2UdsError::UdsProtocol { service, nrc, description }) => {
            assert_eq!((service, nrc), (0x27, 0x35));
            assert_eq!(description, "Invalid key");
        }
        other => panic!("unexpected {:?}", other),
    }
    assert!(!session.state.security_unlocked);
}

#[test]
fn invalid_security_level_is_a_config_error() {
    let mut config = Config::default();
    config.security.require_security_access = true;
    config.security.security_level = 0;
    let mut session = EcuSession::new(&config, "engine".to_string());
    let op = UdsOperation::WriteDataByIdentifier(0x0101, vec![0x01]);
    let (sent, _, result) = drive(&mut session, &op, vec![]);
    assert!(sent.is_empty());
    assert!(matches!(result, Err(Sovd2UdsError::Config(_))));
}
