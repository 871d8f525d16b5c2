//! UDS data model and the request/response codec.

use vstd::prelude::*;

verus! {

/// Byte that opens every negative response frame.
pub const NEGATIVE_RESPONSE_SID: u8 = 0x7F;

/// Offset added to a request SID to form the positive response SID.
pub const POSITIVE_RESPONSE_OFFSET: u8 = 0x40;

/// Negative response code telling the client to keep waiting.
pub const NRC_RESPONSE_PENDING: u8 = 0x78;

/// UDS service identifiers (SID).
#[derive(Debug, Clone, Copy, PartialEq, Eq, Structural)]
pub enum UdsServiceId {
    DiagnosticSessionControl,
    EcuReset,
    SecurityAccess,
    CommunicationControl,
    TesterPresent,
    AccessTimingParameter,
    SecuredDataTransmission,
    ControlDTCSetting,
    ResponseOnEvent,
    LinkControl,
    ReadDataByIdentifier,
    ReadMemoryByAddress,
    ReadScalingDataByIdentifier,
    ReadDataByPeriodicIdentifier,
    DynamicallyDefineDataIdentifier,
    WriteDataByIdentifier,
    WriteMemoryByAddress,
    ClearDiagnosticInformation,
    ReadDTCInformation,
    InputOutputControlByIdentifier,
    RoutineControl,
    RequestDownload,
    RequestUpload,
    TransferData,
    RequestTransferExit,
}

impl UdsServiceId {
    /// The SID byte of this service.
    pub open spec fn spec_code(self) -> u8 {
        match self {
            UdsServiceId::DiagnosticSessionControl => 0x10,
            UdsServiceId::EcuReset => 0x11,
            UdsServiceId::SecurityAccess => 0x27,
            UdsServiceId::CommunicationControl => 0x28,
            UdsServiceId::TesterPresent => 0x3E,
            UdsServiceId::AccessTimingParameter => 0x83,
            UdsServiceId::SecuredDataTransmission => 0x84,
            UdsServiceId::ControlDTCSetting => 0x85,
            UdsServiceId::ResponseOnEvent => 0x86,
            UdsServiceId::LinkControl => 0x87,
            UdsServiceId::ReadDataByIdentifier => 0x22,
            UdsServiceId::ReadMemoryByAddress => 0x23,
            UdsServiceId::ReadScalingDataByIdentifier => 0x24,
            UdsServiceId::ReadDataByPeriodicIdentifier => 0x2A,
            UdsServiceId::DynamicallyDefineDataIdentifier => 0x2C,
            UdsServiceId::WriteDataByIdentifier => 0x2E,
            UdsServiceId::WriteMemoryByAddress => 0x3D,
            UdsServiceId::ClearDiagnosticInformation => 0x14,
            UdsServiceId::ReadDTCInformation => 0x19,
            UdsServiceId::InputOutputControlByIdentifier => 0x2F,
            UdsServiceId::RoutineControl => 0x31,
            UdsServiceId::RequestDownload => 0x34,
            UdsServiceId::RequestUpload => 0x35,
            UdsServiceId::TransferData => 0x36,
            UdsServiceId::RequestTransferExit => 0x37,
        }
    }

    /// The SID byte of this service.
    pub fn code(&self) -> (r: u8)
        ensures
            r == self.spec_code(),
    {
        match self {
            UdsServiceId::DiagnosticSessionControl => 0x10,
            UdsServiceId::EcuReset => 0x11,
            UdsServiceId::SecurityAccess => 0x27,
            UdsServiceId::CommunicationControl => 0x28,
            UdsServiceId::TesterPresent => 0x3E,
            UdsServiceId::AccessTimingParameter => 0x83,
            UdsServiceId::SecuredDataTransmission => 0x84,
            UdsServiceId::ControlDTCSetting => 0x85,
            UdsServiceId::ResponseOnEvent => 0x86,
            UdsServiceId::LinkControl => 0x87,
            UdsServiceId::ReadDataByIdentifier => 0x22,
            UdsServiceId::ReadMemoryByAddress => 0x23,
            UdsServiceId::ReadScalingDataByIdentifier => 0x24,
            UdsServiceId::ReadDataByPeriodicIdentifier => 0x2A,
            UdsServiceId::DynamicallyDefineDataIdentifier => 0x2C,
            UdsServiceId::WriteDataByIdentifier => 0x2E,
            UdsServiceId::WriteMemoryByAddress => 0x3D,
            UdsServiceId::ClearDiagnosticInformation => 0x14,
            UdsServiceId::ReadDTCInformation => 0x19,
            UdsServiceId::InputOutputControlByIdentifier => 0x2F,
            UdsServiceId::RoutineControl => 0x31,
            UdsServiceId::RequestDownload => 0x34,
            UdsServiceId::RequestUpload => 0x35,
            UdsServiceId::TransferData => 0x36,
            UdsServiceId::RequestTransferExit => 0x37,
        }
    }

    /// The SID byte that a positive response to this service carries.
    pub fn positive_response(&self) -> (r: u8)
        ensures
            r == self.spec_code() + POSITIVE_RESPONSE_OFFSET,
    {
        self.code() + POSITIVE_RESPONSE_OFFSET
    }
}

/// UDS diagnostic session types.
#[derive(Debug, Clone, Copy, PartialEq, Eq, Structural)]
pub enum DiagnosticSessionType {
    DefaultSession,
    ProgrammingSession,
    ExtendedDiagnosticSession,
    SafetySystemDiagnosticSession,
}

impl DiagnosticSessionType {
    pub open spec fn spec_code(self) -> u8 {
        match self {
            DiagnosticSessionType::DefaultSession => 0x01,
            DiagnosticSessionType::ProgrammingSession => 0x02,
            DiagnosticSessionType::ExtendedDiagnosticSession => 0x03,
            DiagnosticSessionType::SafetySystemDiagnosticSession => 0x04,
        }
    }

    /// The sub-function byte of this session type.
    pub fn code(&self) -> (r: u8)
        ensures
            r == self.spec_code(),
    {
        match self {
            DiagnosticSessionType::DefaultSession => 0x01,
            DiagnosticSessionType::ProgrammingSession => 0x02,
            DiagnosticSessionType::ExtendedDiagnosticSession => 0x03,
            DiagnosticSessionType::SafetySystemDiagnosticSession => 0x04,
        }
    }

    /// The session type whose sub-function byte is `value`, if any.
    pub fn from_u8(value: u8) -> (r: Option<DiagnosticSessionType>)
        ensures
            match r {
                Some(t) => t.spec_code() == value,
                None => 1 > value || value > 4,
            },
    {
        match value {
            0x01 => Some(DiagnosticSessionType::DefaultSession),
            0x02 => Some(DiagnosticSessionType::ProgrammingSession),
            0x03 => Some(DiagnosticSessionType::ExtendedDiagnosticSession),
            0x04 => Some(DiagnosticSessionType::SafetySystemDiagnosticSession),
            _ => None,
        }
    }
}

/// UDS ECU reset types.
#[derive(Debug, Clone, Copy, PartialEq, Eq, Structural)]
pub enum EcuResetType {
    HardReset,
    KeyOffOnReset,
    SoftReset,
    EnableRapidPowerShutDown,
    DisableRapidPowerShutDown,
}

impl EcuResetType {
    pub open spec fn spec_code(self) -> u8 {
        match self {
            EcuResetType::HardReset => 0x01,
            EcuResetType::KeyOffOnReset => 0x02,
            EcuResetType::SoftReset => 0x03,
            EcuResetType::EnableRapidPowerShutDown => 0x04,
            EcuResetType::DisableRapidPowerShutDown => 0x05,
        }
    }

    /// The sub-function byte of this reset type.
    pub fn code(&self) -> (r: u8)
        ensures
            r == self.spec_code(),
    {
        match self {
            EcuResetType::HardReset => 0x01,
            EcuResetType::KeyOffOnReset => 0x02,
            EcuResetType::SoftReset => 0x03,
            EcuResetType::EnableRapidPowerShutDown => 0x04,
            EcuResetType::DisableRapidPowerShutDown => 0x05,
        }
    }
}

/// UDS routine control types.
#[derive(Debug, Clone, Copy, PartialEq, Eq, Structural)]
pub enum RoutineControlType {
    StartRoutine,
    StopRoutine,
    RequestRoutineResults,
}

impl RoutineControlType {
    pub open spec fn spec_code(self) -> u8 {
        match self {
            RoutineControlType::StartRoutine => 0x01,
            RoutineControlType::StopRoutine => 0x02,
            RoutineControlType::RequestRoutineResults => 0x03,
        }
    }

    /// The sub-function byte of this routine control type.
    pub fn code(&self) -> (r: u8)
        ensures
            r == self.spec_code(),
    {
        match self {
            RoutineControlType::StartRoutine => 0x01,
            RoutineControlType::StopRoutine => 0x02,
            RoutineControlType::RequestRoutineResults => 0x03,
        }
    }
}

/// DTC status byte; the associated constants name its bits.
#[derive(Debug, Clone, Copy)]
pub struct DtcStatusMask(pub u8);

impl DtcStatusMask {
    pub const TEST_FAILED: u8 = 0x01;
    pub const TEST_FAILED_THIS_OPERATION_CYCLE: u8 = 0x02;
    pub const PENDING_DTC: u8 = 0x04;
    pub const CONFIRMED_DTC: u8 = 0x08;
    pub const TEST_NOT_COMPLETED_SINCE_LAST_CLEAR: u8 = 0x10;
    pub const TEST_FAILED_SINCE_LAST_CLEAR: u8 = 0x20;
    pub const TEST_NOT_COMPLETED_THIS_OPERATION_CYCLE: u8 = 0x40;
    pub const WARNING_INDICATOR_REQUESTED: u8 = 0x80;
}

/// The wire form of a request: the SID byte followed by the payload.
pub open spec fn encode_frame(sid: u8, payload: Seq<u8>) -> Seq<u8> {
    seq![sid] + payload
}

/// A UDS request: service identifier and payload.
#[derive(Debug, Clone)]
pub struct UdsRequest {
    pub service_id: u8,
    pub data: Vec<u8>,
}

impl UdsRequest {
    pub fn new(service_id: UdsServiceId, data: Vec<u8>) -> (r: UdsRequest)
        ensures
            r.service_id == service_id.spec_code(),
            r.data@ == data@,
    {
        UdsRequest { service_id: service_id.code(), data }
    }

    /// Encodes the request as a frame: the SID byte, then the payload.
    pub fn to_bytes(&self) -> (r: Vec<u8>)
        ensures
            r@ == encode_frame(self.service_id, self.data@),
    {
        let mut bytes: Vec<u8> = Vec::new();
        bytes.push(self.service_id);
        let mut i: usize = 0;
        while i < self.data.len()
            invariant
                i <= self.data@.len(),
                bytes@ == seq![self.service_id] + self.data@.subrange(0, i as int),
            decreases self.data@.len() - i,
        {
            bytes.push(self.data[i]);
            i = i + 1;
            assert(self.data@.subrange(0, i as int) == self.data@.subrange(0, i - 1 as int).push(self.data@[i - 1]));
        }
        assert(self.data@.subrange(0, self.data@.len() as int) == self.data@);
        bytes
    }
}

/// Mathematical form of a decoded response.
pub ghost struct ResponseView {
    pub service_id: u8,
    pub data: Seq<u8>,
    pub is_positive: bool,
    pub nrc: Option<u8>,
}

/// A positive response with the given SID byte and payload.
pub open spec fn positive_view(sid: u8, data: Seq<u8>) -> ResponseView {
    ResponseView { service_id: sid, data, is_positive: true, nrc: None }
}

/// A negative response echoing `sid` with code `nrc`.
pub open spec fn negative_view(sid: u8, nrc: u8) -> ResponseView {
    ResponseView { service_id: sid, data: Seq::empty(), is_positive: false, nrc: Some(nrc) }
}

/// What a frame decodes to: nothing for an empty frame or a negative
/// frame shorter than three bytes, else a negative or positive response.
pub open spec fn decode_frame(frame: Seq<u8>) -> Option<ResponseView> {
    if frame.len() == 0 {
        None
    } else if frame[0] == NEGATIVE_RESPONSE_SID {
        if frame.len() < 3 {
            None
        } else {
            Some(negative_view(frame[1], frame[2]))
        }
    } else {
        Some(positive_view(frame[0], frame.subrange(1, frame.len() as int)))
    }
}

/// A negative response is pending when its code is 0x78.
pub open spec fn view_is_pending(r: ResponseView) -> bool {
    !r.is_positive && r.nrc == Some(NRC_RESPONSE_PENDING)
}

/// A decoded UDS response.
#[derive(Debug, Clone)]
pub struct UdsResponse {
    pub service_id: u8,
    pub data: Vec<u8>,
    pub is_positive: bool,
    pub nrc: Option<u8>,
}

impl View for UdsResponse {
    type V = ResponseView;

    open spec fn view(&self) -> ResponseView {
        ResponseView {
            service_id: self.service_id,
            data: self.data@,
            is_positive: self.is_positive,
            nrc: self.nrc,
        }
    }
}

impl UdsResponse {
    pub fn new_positive(service_id: u8, data: Vec<u8>) -> (r: UdsResponse)
        ensures
            r@ == positive_view(service_id, data@),
    {
        UdsResponse { service_id, data, is_positive: true, nrc: None }
    }

    pub fn new_negative(service_id: u8, nrc: u8) -> (r: UdsResponse)
        ensures
            r@ == negative_view(service_id, nrc),
    {
        UdsResponse { service_id, data: Vec::new(), is_positive: false, nrc: Some(nrc) }
    }

    /// Decodes a response frame; `None` when the frame is empty or a
    /// negative frame is shorter than three bytes.
    pub fn from_bytes(bytes: &[u8]) -> (r: Option<UdsResponse>)
        ensures
            match r {
                Some(resp) => decode_frame(bytes@) == Some(resp@),
                None => decode_frame(bytes@) is None,
            },
    {
        if bytes.len() == 0 {
            return None;
        }
        let response_id = bytes[0];
        if response_id == NEGATIVE_RESPONSE_SID {
            if bytes.len() < 3 {
                return None;
            }
            return Some(UdsResponse::new_negative(bytes[1], bytes[2]));
        }
        let mut data: Vec<u8> = Vec::new();
        let mut i: usize = 1;
        while i < bytes.len()
            invariant
                1 <= i <= bytes@.len(),
                data@ == bytes@.subrange(1, i as int),
            decreases bytes@.len() - i,
        {
            data.push(bytes[i]);
            i = i + 1;
            assert(bytes@.subrange(1, i as int) == bytes@.subrange(1, i - 1 as int).push(bytes@[i - 1]));
        }
        Some(UdsResponse::new_positive(response_id, data))
    }

    /// True for a negative response whose code is "response pending".
    pub fn is_pending(&self) -> (r: bool)
        ensures
            r == view_is_pending(self@),
    {
        !self.is_positive && match self.nrc {
            Some(n) => n == NRC_RESPONSE_PENDING,
            None => false,
        }
    }
}

/// Decoding an encoded request whose SID is below 0x7F gives back a
/// positive response carrying the same SID and payload.
pub proof fn lemma_codec_round_trip(sid: u8, payload: Seq<u8>)
    requires
        sid <= 0x7E,
    ensures
        decode_frame(encode_frame(sid, payload)) == Some(positive_view(sid, payload)),
{
    let f = encode_frame(sid, payload);
    assert(f.subrange(1, f.len() as int) =~= payload);
}

/// A three-byte frame `[0x7F, s, n]` decodes to the negative response
/// echoing `s` with code `n`, for every `s` and `n`.
pub proof fn lemma_negative_frame_recognised(s: u8, n: u8)
    ensures
        decode_frame(seq![NEGATIVE_RESPONSE_SID, s, n]) == Some(negative_view(s, n)),
{
}

/// Every negative frame whose code is 0x78 decodes to a response tagged
/// as pending.
pub proof fn lemma_pending_tagged(frame: Seq<u8>)
    requires
        frame.len() >= 3,
        frame[0] == NEGATIVE_RESPONSE_SID,
        frame[2] == NRC_RESPONSE_PENDING,
    ensures
        decode_frame(frame) is Some,
        view_is_pending(decode_frame(frame)->Some_0),
{
}

} // verus!
