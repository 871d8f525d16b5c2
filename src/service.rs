//! Generic diagnostic services requested over SOVD: session control and
//! ECU reset.

use vstd::prelude::*;
use crate::error::Sovd2UdsError;
use crate::models::{ServiceRequest, ServiceResponse, Timestamp};
use crate::session::UdsOperation;
use crate::hex::{byte_hex, byte_literal};
use crate::text::str_eq;
use crate::uds::{DiagnosticSessionType, EcuResetType};
use crate::value::{SovdValue, ValueView};

verus! {

/// A planned generic service.
#[derive(Debug, Clone, Copy, PartialEq, Eq, Structural)]
pub enum ServiceKind {
    SessionControl(DiagnosticSessionType),
    EcuReset(EcuResetType),
}

/// Value of the first parameter named `name`, if any.
pub open spec fn param_value(params: Seq<(String, SovdValue)>, name: Seq<char>) -> Option<ValueView>
    decreases params.len(),
{
    if params.len() == 0 {
        None
    } else if params[0].0@ == name {
        Some(params[0].1@)
    } else {
        param_value(params.drop_first(), name)
    }
}

/// Low byte of a parameter that is a non-negative integer.
pub open spec fn byte_param(params: Option<Vec<(String, SovdValue)>>, name: Seq<char>) -> Option<u8> {
    match params {
        Some(p) => match param_value(p@, name) {
            Some(ValueView::UInt(n)) => Some((n % 256) as u8),
            _ => None,
        },
        None => None,
    }
}

/// Session type of a sub-function byte.
pub open spec fn session_type_of(b: u8) -> Option<DiagnosticSessionType> {
    if b == 1 {
        Some(DiagnosticSessionType::DefaultSession)
    } else if b == 2 {
        Some(DiagnosticSessionType::ProgrammingSession)
    } else if b == 3 {
        Some(DiagnosticSessionType::ExtendedDiagnosticSession)
    } else if b == 4 {
        Some(DiagnosticSessionType::SafetySystemDiagnosticSession)
    } else {
        None
    }
}

/// Reset type of a sub-function byte; only hard, key-off-on and soft
/// resets may be requested.
pub open spec fn reset_type_of(b: u8) -> Option<EcuResetType> {
    if b == 1 {
        Some(EcuResetType::HardReset)
    } else if b == 2 {
        Some(EcuResetType::KeyOffOnReset)
    } else if b == 3 {
        Some(EcuResetType::SoftReset)
    } else {
        None
    }
}

/// The service a request asks for: `session_control` with a
/// `session_type` parameter, `ecu_reset` with a `reset_type` parameter.
pub open spec fn service_plan(request: ServiceRequest) -> Option<ServiceKind> {
    if request.service_type@ == "session_control"@ {
        match byte_param(request.parameters, "session_type"@) {
            Some(b) => match session_type_of(b) {
                Some(t) => Some(ServiceKind::SessionControl(t)),
                None => None,
            },
            None => None,
        }
    } else if request.service_type@ == "ecu_reset"@ {
        match byte_param(request.parameters, "reset_type"@) {
            Some(b) => match reset_type_of(b) {
                Some(t) => Some(ServiceKind::EcuReset(t)),
                None => None,
            },
            None => None,
        }
    } else {
        None
    }
}

/// Low byte of the non-negative integer parameter `name`.
fn find_byte_param(params: &Option<Vec<(String, SovdValue)>>, name: &str) -> (r: Option<u8>)
    ensures
        r == byte_param(*params, name@),
{
    match params {
        None => None,
        Some(p) => {
            let mut i: usize = 0;
            assert(p@.subrange(0, p@.len() as int) =~= p@);
            while i < p.len()
                invariant
                    *params == Some(*p),
                    i <= p@.len(),
                    param_value(p@, name@) == param_value(p@.subrange(i as int, p@.len() as int), name@),
                decreases p@.len() - i,
            {
                let ghost rest = p@.subrange(i as int, p@.len() as int);
                assert(rest.drop_first() =~= p@.subrange(i + 1, p@.len() as int));
                assert(rest[0] == p@[i as int]);
                if str_eq(p[i].0.as_str(), name) {
                    let v = &p[i].1;
                    return match v {
                        SovdValue::UInt(n) => {
                            let b = (*n % 256) as u8;
                            Some(b)
                        },
                        _ => None,
                    };
                }
                i = i + 1;
            }
            None
        },
    }
}

/// The service a request asks for; an unknown service type, a missing or
/// non-integer parameter, or an unsupported type byte is an invalid
/// request. Nothing is sent to an ECU in any of these cases.
pub fn plan_service(request: &ServiceRequest) -> (r: Result<ServiceKind, Sovd2UdsError>)
    ensures
        match r {
            Ok(k) => service_plan(*request) == Some(k),
            Err(e) => service_plan(*request) is None && e is InvalidRequest,
        },
{
    let service_type = request.service_type.as_str();
    if str_eq(service_type, "session_control") {
        let b = match find_byte_param(&request.parameters, "session_type") {
            Some(b) => b,
            None => {
                return Err(Sovd2UdsError::InvalidRequest(
                    String::from_str("Missing session_type parameter"),
                ));
            },
        };
        match DiagnosticSessionType::from_u8(b) {
            Some(t) => Ok(ServiceKind::SessionControl(t)),
            None => {
                let mut msg = String::from_str("Invalid session type: ");
                msg.append(byte_literal(b).as_str());
                Err(Sovd2UdsError::InvalidRequest(msg))
            },
        }
    } else if str_eq(service_type, "ecu_reset") {
        let b = match find_byte_param(&request.parameters, "reset_type") {
            Some(b) => b,
            None => {
                return Err(Sovd2UdsError::InvalidRequest(
                    String::from_str("Missing reset_type parameter"),
                ));
            },
        };
        if b == 1 {
            Ok(ServiceKind::EcuReset(EcuResetType::HardReset))
        } else if b == 2 {
            Ok(ServiceKind::EcuReset(EcuResetType::KeyOffOnReset))
        } else if b == 3 {
            Ok(ServiceKind::EcuReset(EcuResetType::SoftReset))
        } else {
            let mut msg = String::from_str("Invalid reset type: ");
            msg.append(byte_literal(b).as_str());
            Err(Sovd2UdsError::InvalidRequest(msg))
        }
    } else {
        let mut msg = String::from_str("Unknown service type: ");
        msg.append(service_type);
        Err(Sovd2UdsError::InvalidRequest(msg))
    }
}

/// The UDS operation of a service.
pub open spec fn service_op(k: ServiceKind) -> UdsOperation {
    match k {
        ServiceKind::SessionControl(t) => UdsOperation::DiagnosticSessionControl(t.spec_code()),
        ServiceKind::EcuReset(t) => UdsOperation::EcuReset(t.spec_code()),
    }
}

impl ServiceKind {
    /// The UDS operation that performs this service.
    pub fn operation(&self) -> (r: UdsOperation)
        ensures
            r == service_op(*self),
    {
        match self {
            ServiceKind::SessionControl(t) => UdsOperation::DiagnosticSessionControl(t.code()),
            ServiceKind::EcuReset(t) => UdsOperation::EcuReset(t.code()),
        }
    }
}

/// The response to a completed service. A session change reports the new
/// session type as `0x..`.
pub fn service_response(kind: ServiceKind) -> (r: ServiceResponse)
    ensures
        r.status@ == "success"@,
        r.timestamp is Some,
        match kind {
            ServiceKind::SessionControl(t) => r.service_type@ == "session_control"@
                && (r.results matches Some(v) && v@.len() == 1 && v@[0].0@ == "session_type"@
                    && v@[0].1@ == ValueView::Text(seq!['0', 'x'] + byte_hex(t.spec_code())))
                && (r.message matches Some(m) && m@ == "Session changed successfully"@),
            ServiceKind::EcuReset(_) => r.service_type@ == "ecu_reset"@ && r.results is None
                && (r.message matches Some(m) && m@ == "ECU reset executed"@),
        },
{
    match kind {
        ServiceKind::SessionControl(t) => {
            let mut results: Vec<(String, SovdValue)> = Vec::new();
            results.push((String::from_str("session_type"), SovdValue::Text(byte_literal(t.code()))));
            ServiceResponse {
                service_type: String::from_str("session_control"),
                status: String::from_str("success"),
                results: Some(results),
                message: Some(String::from_str("Session changed successfully")),
                timestamp: Some(Timestamp::now()),
            }
        },
        ServiceKind::EcuReset(_) => ServiceResponse {
            service_type: String::from_str("ecu_reset"),
            status: String::from_str("success"),
            results: None,
            message: Some(String::from_str("ECU reset executed")),
            timestamp: Some(Timestamp::now()),
        },
    }
}

} // verus!
