use sovd2uds_adapter::error::Sovd2UdsError;
use sovd2uds_adapter::models::ServiceRequest;
use sovd2uds_adapter::service::{plan_service, service_response, ServiceKind};
use sovd2uds_adapter::session::UdsOperation;
use sovd2uds_adapter::uds::{DiagnosticSessionType, EcuResetType};
use sovd2uds_adapter::value::SovdValue;

fn request(kind: &str, params: Vec<(&str, SovdValue)>) -> ServiceRequest {
    ServiceRequest {
        service_type: kind.to_string(),
        parameters: Some(params.into_iter().map(|(k, v)| (k.to_string(), v)).collect()),
    }
}

#[test]
fn session_control_is_planned() {
    let k = plan_service(&request("session_control", vec![("session_type", SovdValue::UInt(3))])).unwrap();
    assert_eq!(k, ServiceKind::SessionControl(DiagnosticSessionType::ExtendedDiagnosticSession));
    assert!(matches!(k.operation(), UdsOperation::DiagnosticSessionControl(3)));
    let resp = service_response(k);
    assert_eq!(resp.service_type, "session_control");
    assert_eq!(resp.status, "success");
    let results = resp.results.unwrap();
    assert_eq!(results[0].0, "session_type");
    assert!(matches!(&results[0].1, SovdValue::Text(s) if s == "0x03"));
}

#[test]
fn ecu_reset_is_planned() {
    let k = plan_service(&request("ecu_reset", vec![("reset_type", SovdValue::UInt(1))])).unwrap();
    assert_eq!(k, ServiceKind::EcuReset(EcuResetType::HardReset));
    assert!(matches!(k.operation(), UdsOperation::EcuReset(1)));
    let resp = service_response(k);
    assert!(resp.results.is_none());
    assert_eq!(resp.message.as_deref(), Some("ECU reset executed"));
}

#[test]
fn missing_or_bad_parameters_are_invalid() {
    match plan_service(&request("session_control", vec![])) {
        Err(Sovd2UdsError::InvalidRequest(m)) => assert_eq!(m, "Missing session_type parameter"),
        other => panic!("unexpected {:?}", other),
    }
    match plan_service(&request("session_control", vec![("session_type", SovdValue::UInt(9))])) {
        Err(Sovd2UdsError::InvalidRequest(m)) => assert_eq!(m, "Invalid session type: 0x09"),
        other => panic!("unexpected {:?}", other),
    }
    match plan_service(&request("ecu_reset", vec![("reset_type", SovdValue::UInt(4))])) {
        Err(Sovd2UdsError::InvalidRequest(m)) => assert_eq!(m, "Invalid reset type: 0x04"),
        other => panic!("unexpected {:?}", other),
    }
    assert!(plan_service(&request("ecu_reset", vec![("reset_type", SovdValue::Text("1".to_string()))])).is_err());
    let none = ServiceRequest { service_type: "ecu_reset".to_string(), parameters: None };
    assert!(plan_service(&none).is_err());
}

#[test]
fn parameter_byte_is_truncated() {
    let k = plan_service(&request("session_control", vec![("session_type", SovdValue::UInt(0x102))])).unwrap();
    assert_eq!(k, ServiceKind::SessionControl(DiagnosticSessionType::ProgrammingSession));
}
