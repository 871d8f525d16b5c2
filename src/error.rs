//! Error taxonomy of the adapter and the table of UDS negative response codes.

use vstd::prelude::*;

verus! {

/// Errors of the adapter.
#[derive(Debug, Clone)]
pub enum Sovd2UdsError {
    /// Bad configuration key or value.
    Config(String),
    /// Transport construction, connect or disconnect failure, null
    /// response, exhausted retries.
    UdsCommunication(String),
    /// Negative response from the ECU.
    UdsProtocol { service: u8, nrc: u8, description: String },
    /// Unknown SOVD id, bad coercion, unsupported value type.
    Translation(String),
    ComponentNotFound(String),
    DataItemNotFound(String),
    InvalidRequest(String),
    Timeout(String),
    /// Failure at the boundary of the native transport library.
    Ffi(String),
    Io(String),
    Serialization(String),
    Internal(String),
}

/// HTTP status for each error kind: 404 for an unknown component or data
/// item, 400 for an invalid request, 408 for a timeout, 500 otherwise.
pub open spec fn error_status(e: Sovd2UdsError) -> u16 {
    match e {
        Sovd2UdsError::ComponentNotFound(_) => 404,
        Sovd2UdsError::DataItemNotFound(_) => 404,
        Sovd2UdsError::InvalidRequest(_) => 400,
        Sovd2UdsError::Timeout(_) => 408,
        _ => 500,
    }
}

impl Sovd2UdsError {
    /// HTTP status code under which this error is reported.
    pub fn status_code(&self) -> (r: u16)
        ensures
            r == error_status(*self),
    {
        match self {
            Sovd2UdsError::ComponentNotFound(_) => 404,
            Sovd2UdsError::DataItemNotFound(_) => 404,
            Sovd2UdsError::InvalidRequest(_) => 400,
            Sovd2UdsError::Timeout(_) => 408,
            _ => 500,
        }
    }

    /// The protocol error for a negative response to `service` with code
    /// `nrc`, described from the code table.
    pub fn protocol(service: u8, nrc: u8) -> (r: Sovd2UdsError)
        ensures
            r matches Sovd2UdsError::UdsProtocol { service: s, nrc: n, description: d }
                && s == service && n == nrc && d@ == nrc_text(nrc),
    {
        let description = match UdsNegativeResponseCode::from_u8(nrc) {
            Some(code) => String::from_str(code.description()),
            None => String::from_str("Unknown negative response code"),
        };
        Sovd2UdsError::UdsProtocol { service, nrc, description }
    }
}

/// Error body sent to HTTP clients.
#[derive(Debug, Clone)]
pub struct ErrorResponse {
    pub error: String,
    pub code: u16,
    pub details: Option<String>,
}

/// UDS negative response codes (NRC).
#[derive(Debug, Clone, Copy, PartialEq, Eq, Structural)]
pub enum UdsNegativeResponseCode {
    GeneralReject,
    ServiceNotSupported,
    SubFunctionNotSupported,
    IncorrectMessageLengthOrInvalidFormat,
    ResponseTooLong,
    BusyRepeatRequest,
    ConditionsNotCorrect,
    RequestSequenceError,
    NoResponseFromSubnetComponent,
    FailurePreventsExecutionOfRequestedAction,
    RequestOutOfRange,
    SecurityAccessDenied,
    InvalidKey,
    ExceedNumberOfAttempts,
    RequiredTimeDelayNotExpired,
    UploadDownloadNotAccepted,
    TransferDataSuspended,
    GeneralProgrammingFailure,
    WrongBlockSequenceCounter,
    RequestCorrectlyReceivedResponsePending,
    SubFunctionNotSupportedInActiveSession,
    ServiceNotSupportedInActiveSession,
}

/// The code whose byte is `value`, if the table has one.
pub open spec fn nrc_of(value: u8) -> Option<UdsNegativeResponseCode> {
    if value == 0x10 {
        Some(UdsNegativeResponseCode::GeneralReject)
    } else if value == 0x11 {
        Some(UdsNegativeResponseCode::ServiceNotSupported)
    } else if value == 0x12 {
        Some(UdsNegativeResponseCode::SubFunctionNotSupported)
    } else if value == 0x13 {
        Some(UdsNegativeResponseCode::IncorrectMessageLengthOrInvalidFormat)
    } else if value == 0x14 {
        Some(UdsNegativeResponseCode::ResponseTooLong)
    } else if value == 0x21 {
        Some(UdsNegativeResponseCode::BusyRepeatRequest)
    } else if value == 0x22 {
        Some(UdsNegativeResponseCode::ConditionsNotCorrect)
    } else if value == 0x24 {
        Some(UdsNegativeResponseCode::RequestSequenceError)
    } else if value == 0x25 {
        Some(UdsNegativeResponseCode::NoResponseFromSubnetComponent)
    } else if value == 0x26 {
        Some(UdsNegativeResponseCode::FailurePreventsExecutionOfRequestedAction)
    } else if value == 0x31 {
        Some(UdsNegativeResponseCode::RequestOutOfRange)
    } else if value == 0x33 {
        Some(UdsNegativeResponseCode::SecurityAccessDenied)
    } else if value == 0x35 {
        Some(UdsNegativeResponseCode::InvalidKey)
    } else if value == 0x36 {
        Some(UdsNegativeResponseCode::ExceedNumberOfAttempts)
    } else if value == 0x37 {
        Some(UdsNegativeResponseCode::RequiredTimeDelayNotExpired)
    } else if value == 0x70 {
        Some(UdsNegativeResponseCode::UploadDownloadNotAccepted)
    } else if value == 0x71 {
        Some(UdsNegativeResponseCode::TransferDataSuspended)
    } else if value == 0x72 {
        Some(UdsNegativeResponseCode::GeneralProgrammingFailure)
    } else if value == 0x73 {
        Some(UdsNegativeResponseCode::WrongBlockSequenceCounter)
    } else if value == 0x78 {
        Some(UdsNegativeResponseCode::RequestCorrectlyReceivedResponsePending)
    } else if value == 0x7E {
        Some(UdsNegativeResponseCode::SubFunctionNotSupportedInActiveSession)
    } else if value == 0x7F {
        Some(UdsNegativeResponseCode::ServiceNotSupportedInActiveSession)
    } else {
        None
    }
}

/// Human-readable description of a response code byte.
pub open spec fn nrc_text(value: u8) -> Seq<char> {
    match nrc_of(value) {
        Some(c) => c.spec_description(),
        None => "Unknown negative response code"@,
    }
}

impl UdsNegativeResponseCode {
    /// The code byte.
    pub open spec fn spec_code(self) -> u8 {
        match self {
            UdsNegativeResponseCode::GeneralReject => 0x10,
            UdsNegativeResponseCode::ServiceNotSupported => 0x11,
            UdsNegativeResponseCode::SubFunctionNotSupported => 0x12,
            UdsNegativeResponseCode::IncorrectMessageLengthOrInvalidFormat => 0x13,
            UdsNegativeResponseCode::ResponseTooLong => 0x14,
            UdsNegativeResponseCode::BusyRepeatRequest => 0x21,
            UdsNegativeResponseCode::ConditionsNotCorrect => 0x22,
            UdsNegativeResponseCode::RequestSequenceError => 0x24,
            UdsNegativeResponseCode::NoResponseFromSubnetComponent => 0x25,
            UdsNegativeResponseCode::FailurePreventsExecutionOfRequestedAction => 0x26,
            UdsNegativeResponseCode::RequestOutOfRange => 0x31,
            UdsNegativeResponseCode::SecurityAccessDenied => 0x33,
            UdsNegativeResponseCode::InvalidKey => 0x35,
            UdsNegativeResponseCode::ExceedNumberOfAttempts => 0x36,
            UdsNegativeResponseCode::RequiredTimeDelayNotExpired => 0x37,
            UdsNegativeResponseCode::UploadDownloadNotAccepted => 0x70,
            UdsNegativeResponseCode::TransferDataSuspended => 0x71,
            UdsNegativeResponseCode::GeneralProgrammingFailure => 0x72,
            UdsNegativeResponseCode::WrongBlockSequenceCounter => 0x73,
            UdsNegativeResponseCode::RequestCorrectlyReceivedResponsePending => 0x78,
            UdsNegativeResponseCode::SubFunctionNotSupportedInActiveSession => 0x7E,
            UdsNegativeResponseCode::ServiceNotSupportedInActiveSession => 0x7F,
        }
    }

    pub open spec fn spec_description(self) -> Seq<char> {
        match self {
            UdsNegativeResponseCode::GeneralReject => "General reject"@,
            UdsNegativeResponseCode::ServiceNotSupported => "Service not supported"@,
            UdsNegativeResponseCode::SubFunctionNotSupported => "Sub-function not supported"@,
            UdsNegativeResponseCode::IncorrectMessageLengthOrInvalidFormat => "Incorrect message length or invalid format"@,
            UdsNegativeResponseCode::ResponseTooLong => "Response too long"@,
            UdsNegativeResponseCode::BusyRepeatRequest => "Busy, repeat request"@,
            UdsNegativeResponseCode::ConditionsNotCorrect => "Conditions not correct"@,
            UdsNegativeResponseCode::RequestSequenceError => "Request sequence error"@,
            UdsNegativeResponseCode::NoResponseFromSubnetComponent => "No response from subnet component"@,
            UdsNegativeResponseCode::FailurePreventsExecutionOfRequestedAction => "Failure prevents execution of requested action"@,
            UdsNegativeResponseCode::RequestOutOfRange => "Request out of range"@,
            UdsNegativeResponseCode::SecurityAccessDenied => "Security access denied"@,
            UdsNegativeResponseCode::InvalidKey => "Invalid key"@,
            UdsNegativeResponseCode::ExceedNumberOfAttempts => "Exceed number of attempts"@,
            UdsNegativeResponseCode::RequiredTimeDelayNotExpired => "Required time delay not expired"@,
            UdsNegativeResponseCode::UploadDownloadNotAccepted => "Upload/download not accepted"@,
            UdsNegativeResponseCode::TransferDataSuspended => "Transfer data suspended"@,
            UdsNegativeResponseCode::GeneralProgrammingFailure => "General programming failure"@,
            UdsNegativeResponseCode::WrongBlockSequenceCounter => "Wrong block sequence counter"@,
            UdsNegativeResponseCode::RequestCorrectlyReceivedResponsePending => "Request correctly received, response pending"@,
            UdsNegativeResponseCode::SubFunctionNotSupportedInActiveSession => "Sub-function not supported in active session"@,
            UdsNegativeResponseCode::ServiceNotSupportedInActiveSession => "Service not supported in active session"@,
        }
    }

    /// The code whose byte is `value`; `None` for a byte outside the table.
    pub fn from_u8(value: u8) -> (r: Option<UdsNegativeResponseCode>)
        ensures
            r == nrc_of(value),
            r matches Some(c) ==> c.spec_code() == value,
    {
        match value {
            0x10 => Some(UdsNegativeResponseCode::GeneralReject),
            0x11 => Some(UdsNegativeResponseCode::ServiceNotSupported),
            0x12 => Some(UdsNegativeResponseCode::SubFunctionNotSupported),
            0x13 => Some(UdsNegativeResponseCode::IncorrectMessageLengthOrInvalidFormat),
            0x14 => Some(UdsNegativeResponseCode::ResponseTooLong),
            0x21 => Some(UdsNegativeResponseCode::BusyRepeatRequest),
            0x22 => Some(UdsNegativeResponseCode::ConditionsNotCorrect),
            0x24 => Some(UdsNegativeResponseCode::RequestSequenceError),
            0x25 => Some(UdsNegativeResponseCode::NoResponseFromSubnetComponent),
            0x26 => Some(UdsNegativeResponseCode::FailurePreventsExecutionOfRequestedAction),
            0x31 => Some(UdsNegativeResponseCode::RequestOutOfRange),
            0x33 => Some(UdsNegativeResponseCode::SecurityAccessDenied),
            0x35 => Some(UdsNegativeResponseCode::InvalidKey),
            0x36 => Some(UdsNegativeResponseCode::ExceedNumberOfAttempts),
            0x37 => Some(UdsNegativeResponseCode::RequiredTimeDelayNotExpired),
            0x70 => Some(UdsNegativeResponseCode::UploadDownloadNotAccepted),
            0x71 => Some(UdsNegativeResponseCode::TransferDataSuspended),
            0x72 => Some(UdsNegativeResponseCode::GeneralProgrammingFailure),
            0x73 => Some(UdsNegativeResponseCode::WrongBlockSequenceCounter),
            0x78 => Some(UdsNegativeResponseCode::RequestCorrectlyReceivedResponsePending),
            0x7E => Some(UdsNegativeResponseCode::SubFunctionNotSupportedInActiveSession),
            0x7F => Some(UdsNegativeResponseCode::ServiceNotSupportedInActiveSession),
            _ => None,
        }
    }

    /// Human-readable description of the code.
    pub fn description(&self) -> (r: &'static str)
        ensures
            r@ == self.spec_description(),
    {
        match self {
            UdsNegativeResponseCode::GeneralReject => "General reject",
            UdsNegativeResponseCode::ServiceNotSupported => "Service not supported",
            UdsNegativeResponseCode::SubFunctionNotSupported => "Sub-function not supported",
            UdsNegativeResponseCode::IncorrectMessageLengthOrInvalidFormat => "Incorrect message length or invalid format",
            UdsNegativeResponseCode::ResponseTooLong => "Response too long",
            UdsNegativeResponseCode::BusyRepeatRequest => "Busy, repeat request",
            UdsNegativeResponseCode::ConditionsNotCorrect => "Conditions not correct",
            UdsNegativeResponseCode::RequestSequenceError => "Request sequence error",
            UdsNegativeResponseCode::NoResponseFromSubnetComponent => "No response from subnet component",
            UdsNegativeResponseCode::FailurePreventsExecutionOfRequestedAction => "Failure prevents execution of requested action",
            UdsNegativeResponseCode::RequestOutOfRange => "Request out of range",
            UdsNegativeResponseCode::SecurityAccessDenied => "Security access denied",
            UdsNegativeResponseCode::InvalidKey => "Invalid key",
            UdsNegativeResponseCode::ExceedNumberOfAttempts => "Exceed number of attempts",
            UdsNegativeResponseCode::RequiredTimeDelayNotExpired => "Required time delay not expired",
            UdsNegativeResponseCode::UploadDownloadNotAccepted => "Upload/download not accepted",
            UdsNegativeResponseCode::TransferDataSuspended => "Transfer data suspended",
            UdsNegativeResponseCode::GeneralProgrammingFailure => "General programming failure",
            UdsNegativeResponseCode::WrongBlockSequenceCounter => "Wrong block sequence counter",
            UdsNegativeResponseCode::RequestCorrectlyReceivedResponsePending => "Request correctly received, response pending",
            UdsNegativeResponseCode::SubFunctionNotSupportedInActiveSession => "Sub-function not supported in active session",
            UdsNegativeResponseCode::ServiceNotSupportedInActiveSession => "Service not supported in active session",
        }
    }
}

} // verus!
