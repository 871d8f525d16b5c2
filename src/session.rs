//! Per-ECU session: the decisions taken around each UDS exchange, written
//! as a state machine. The caller performs each action on the transport
//! and reports what happened; the session answers with the next action.
//! One request is outstanding at a time: a new frame is only sent once the
//! previous one has been answered, has failed, or has been abandoned.

use vstd::prelude::*;
use crate::bytes::{append_bytes, copy_bytes, strip_prefix, strip_prefix_bytes};
use crate::config::Config;
use crate::error::Sovd2UdsError;
use crate::uds::{decode_frame, UdsResponse, NRC_RESPONSE_PENDING, POSITIVE_RESPONSE_OFFSET};

verus! {

pub const SID_DIAGNOSTIC_SESSION_CONTROL: u8 = 0x10;
pub const SID_ECU_RESET: u8 = 0x11;
pub const SID_CLEAR_DIAGNOSTIC_INFORMATION: u8 = 0x14;
pub const SID_READ_DTC_INFORMATION: u8 = 0x19;
pub const SID_READ_DATA_BY_IDENTIFIER: u8 = 0x22;
pub const SID_SECURITY_ACCESS: u8 = 0x27;
pub const SID_WRITE_DATA_BY_IDENTIFIER: u8 = 0x2E;
pub const SID_ROUTINE_CONTROL: u8 = 0x31;

/// Negative response code asking for the request to be repeated.
pub const NRC_BUSY_REPEAT_REQUEST: u8 = 0x21;
/// Pending responses tolerated for one request.
pub const MAX_PENDING_RESPONSES: u32 = 10;
/// Wait before repeating a request answered with busy-repeat-request.
pub const BUSY_RETRY_DELAY_MS: u32 = 100;
/// First back-off delay after a transport failure.
pub const BACKOFF_BASE_MS: u32 = 50;
/// Longest back-off delay.
pub const BACKOFF_CAP_MS: u32 = 1000;
/// Session type of an ECU that has not been switched.
pub const DEFAULT_SESSION_TYPE: u8 = 0x01;

/// A UDS service invocation.
#[derive(Debug, Clone)]
pub enum UdsOperation {
    ReadDataByIdentifier(u16),
    WriteDataByIdentifier(u16, Vec<u8>),
    DiagnosticSessionControl(u8),
    EcuReset(u8),
    ReadDtcInformation(u8),
    /// DTC group; its low 24 bits are sent.
    ClearDiagnosticInformation(u32),
    /// Control type, routine id, parameters.
    RoutineControl(u8, u16, Vec<u8>),
    /// Sub-function, key or other payload.
    SecurityAccess(u8, Vec<u8>),
}

/// Big-endian bytes of a 16-bit value.
pub open spec fn be16(v: u16) -> Seq<u8> {
    seq![(v / 256) as u8, (v % 256) as u8]
}

/// The request frame of an operation.
pub open spec fn op_frame(op: UdsOperation) -> Seq<u8> {
    match op {
        UdsOperation::ReadDataByIdentifier(did) => seq![SID_READ_DATA_BY_IDENTIFIER] + be16(did),
        UdsOperation::WriteDataByIdentifier(did, data) => seq![SID_WRITE_DATA_BY_IDENTIFIER]
            + be16(did) + data@,
        UdsOperation::DiagnosticSessionControl(t) => seq![SID_DIAGNOSTIC_SESSION_CONTROL, t],
        UdsOperation::EcuReset(t) => seq![SID_ECU_RESET, t],
        UdsOperation::ReadDtcInformation(sub) => seq![SID_READ_DTC_INFORMATION, sub],
        UdsOperation::ClearDiagnosticInformation(group) => seq![
            SID_CLEAR_DIAGNOSTIC_INFORMATION,
            ((group / 0x1_0000) % 256) as u8,
            ((group / 256) % 256) as u8,
            (group % 256) as u8,
        ],
        UdsOperation::RoutineControl(t, id, params) => seq![SID_ROUTINE_CONTROL, t] + be16(id)
            + params@,
        UdsOperation::SecurityAccess(sub, key) => seq![SID_SECURITY_ACCESS, sub] + key@,
    }
}

/// Bytes that a positive response echoes before the data proper: the DID
/// of a read or write, the sub-function of a session control, reset, DTC
/// report or security access, the control type and routine id of a
/// routine control.
pub open spec fn op_echo(op: UdsOperation) -> Seq<u8> {
    match op {
        UdsOperation::ReadDataByIdentifier(did) => be16(did),
        UdsOperation::WriteDataByIdentifier(did, _) => be16(did),
        UdsOperation::DiagnosticSessionControl(t) => seq![t],
        UdsOperation::EcuReset(t) => seq![t],
        UdsOperation::ReadDtcInformation(sub) => seq![sub],
        UdsOperation::ClearDiagnosticInformation(_) => Seq::empty(),
        UdsOperation::RoutineControl(t, id, _) => seq![t] + be16(id),
        UdsOperation::SecurityAccess(sub, _) => seq![sub],
    }
}

/// Operations behind the security gate.
pub open spec fn op_is_write(op: UdsOperation) -> bool {
    op is WriteDataByIdentifier
}

/// Session type that a successful operation switches to.
pub open spec fn op_session_after(op: UdsOperation) -> Option<u8> {
    match op {
        UdsOperation::DiagnosticSessionControl(t) => Some(t),
        _ => None,
    }
}

impl UdsOperation {
    /// The request frame: SID byte, then the payload (multi-byte fields
    /// big-endian).
    pub fn frame(&self) -> (r: Vec<u8>)
        ensures
            r@ == op_frame(*self),
    {
        let mut f: Vec<u8> = Vec::new();
        match self {
            UdsOperation::ReadDataByIdentifier(did) => {
                f.push(SID_READ_DATA_BY_IDENTIFIER);
                f.push((*did / 256) as u8);
                f.push((*did % 256) as u8);
            },
            UdsOperation::WriteDataByIdentifier(did, data) => {
                f.push(SID_WRITE_DATA_BY_IDENTIFIER);
                f.push((*did / 256) as u8);
                f.push((*did % 256) as u8);
                append_bytes(&mut f, data.as_slice());
            },
            UdsOperation::DiagnosticSessionControl(t) => {
                f.push(SID_DIAGNOSTIC_SESSION_CONTROL);
                f.push(*t);
            },
            UdsOperation::EcuReset(t) => {
                f.push(SID_ECU_RESET);
                f.push(*t);
            },
            UdsOperation::ReadDtcInformation(sub) => {
                f.push(SID_READ_DTC_INFORMATION);
                f.push(*sub);
            },
            UdsOperation::ClearDiagnosticInformation(group) => {
                f.push(SID_CLEAR_DIAGNOSTIC_INFORMATION);
                f.push(((*group / 0x1_0000) % 256) as u8);
                f.push(((*group / 256) % 256) as u8);
                f.push((*group % 256) as u8);
            },
            UdsOperation::RoutineControl(t, id, params) => {
                f.push(SID_ROUTINE_CONTROL);
                f.push(*t);
                f.push((*id / 256) as u8);
                f.push((*id % 256) as u8);
                append_bytes(&mut f, params.as_slice());
            },
            UdsOperation::SecurityAccess(sub, key) => {
                f.push(SID_SECURITY_ACCESS);
                f.push(*sub);
                append_bytes(&mut f, key.as_slice());
            },
        }
        assert(f@ =~= op_frame(*self));
        f
    }

    fn echo(&self) -> (r: Vec<u8>)
        ensures
            r@ == op_echo(*self),
    {
        let mut e: Vec<u8> = Vec::new();
        match self {
            UdsOperation::ReadDataByIdentifier(did) | UdsOperation::WriteDataByIdentifier(did, _) => {
                e.push((*did / 256) as u8);
                e.push((*did % 256) as u8);
            },
            UdsOperation::DiagnosticSessionControl(t) | UdsOperation::EcuReset(t)
            | UdsOperation::ReadDtcInformation(t) | UdsOperation::SecurityAccess(t, _) => {
                e.push(*t);
            },
            UdsOperation::RoutineControl(t, id, _) => {
                e.push(*t);
                e.push((*id / 256) as u8);
                e.push((*id % 256) as u8);
            },
            UdsOperation::ClearDiagnosticInformation(_) => {},
        }
        assert(e@ =~= op_echo(*self));
        e
    }
}

/// Default key derivation: every seed byte XOR 0xAA. A placeholder only;
/// deployments supply their own derivation.
pub fn calculate_security_key(seed: &[u8]) -> (r: Vec<u8>)
    ensures
        r@.len() == seed@.len(),
        forall|i: int| 0 <= i < seed@.len() ==> #[trigger] r@[i] == seed@[i] ^ 0xAAu8,
{
    let mut key: Vec<u8> = Vec::new();
    let mut i: usize = 0;
    while i < seed.len()
        invariant
            i <= seed@.len(),
            key@.len() == i,
            forall|j: int| 0 <= j < i ==> #[trigger] key@[j] == seed@[j] ^ 0xAAu8,
        decreases seed@.len() - i,
    {
        key.push(seed[i] ^ 0xAA);
        i = i + 1;
    }
    key
}

/// Back-off before retry `k` (counted from 0): 50 ms doubled per retry,
/// capped at 1 s.
pub open spec fn backoff_ms(k: nat) -> u32
    decreases k,
{
    if k == 0 {
        BACKOFF_BASE_MS
    } else {
        let p = 2 * backoff_ms((k - 1) as nat);
        if p > BACKOFF_CAP_MS { BACKOFF_CAP_MS } else { p as u32 }
    }
}

proof fn lemma_backoff_bounded(k: nat)
    ensures
        backoff_ms(k) <= BACKOFF_CAP_MS,
    decreases k,
{
    if k > 0 {
        lemma_backoff_bounded((k - 1) as nat);
    }
}

/// Back-off before retry `k`.
pub fn backoff_delay(k: u32) -> (r: u32)
    ensures
        r == backoff_ms(k as nat),
{
    let mut d: u32 = BACKOFF_BASE_MS;
    let mut j: u32 = 0;
    while j < k
        invariant
            j <= k,
            d == backoff_ms(j as nat),
        decreases k - j,
    {
        proof {
            lemma_backoff_bounded(j as nat);
        }
        let p = 2 * d;
        d = if p > BACKOFF_CAP_MS { BACKOFF_CAP_MS } else { p };
        j = j + 1;
    }
    d
}

/// What the session is waiting for.
#[derive(Debug, Clone, Copy, PartialEq, Eq, Structural)]
pub enum Phase {
    /// The seed request (sub-function 2L-1) is in flight.
    RequestSeed,
    /// The key-derivation hook is computing the key.
    AwaitKey,
    /// The key (sub-function 2L) is in flight.
    SendKey,
    /// The operation's own request is in flight.
    Main,
    /// The operation has completed.
    Finished,
}

/// Settings of a session that the exchanges do not change.
#[derive(Debug, Clone, Copy, PartialEq, Eq, Structural)]
pub struct SessionPolicy {
    pub require_security_access: bool,
    /// Security level L: seed sub-function 2L-1, key sub-function 2L.
    pub security_level: u8,
    /// Retries after a transport failure.
    pub max_retries: u32,
}

/// State of a session that exchanges update.
#[derive(Debug, Clone, Copy, PartialEq, Eq, Structural)]
pub struct SessionState {
    pub current_session_type: u8,
    pub security_unlocked: bool,
}

/// What the transport reports back.
#[derive(Debug, Clone)]
pub enum TransportEvent {
    /// A complete response frame.
    Response(Vec<u8>),
    /// Communication failure, null response or timeout.
    Failure(String),
    /// The key computed by the key-derivation hook.
    Key(Vec<u8>),
}

pub ghost enum EventView {
    Response(Seq<u8>),
    Failure,
    Key(Seq<u8>),
}

impl View for TransportEvent {
    type V = EventView;

    open spec fn view(&self) -> EventView {
        match self {
            TransportEvent::Response(f) => EventView::Response(f@),
            TransportEvent::Failure(_) => EventView::Failure,
            TransportEvent::Key(k) => EventView::Key(k@),
        }
    }
}

/// What the caller must do next.
#[derive(Debug)]
pub enum SessionAction {
    /// Wait `delay_ms`, then send `frame` and report its response.
    Send { delay_ms: u32, frame: Vec<u8> },
    /// Report a further response to the request in flight.
    AwaitResponse,
    /// Run the key-derivation hook on `seed` at `level`; report its key.
    DeriveKey { seed: Vec<u8>, level: u8 },
    /// The operation is over, with its result payload or error.
    Complete(Result<Vec<u8>, Sovd2UdsError>),
}

/// Kind of failure that ends an operation.
pub ghost enum FailKind {
    Protocol(u8, u8),
    Communication,
    Timeout,
    Config,
    Other,
}

pub ghost enum ActionView {
    Send(u32, Seq<u8>),
    AwaitResponse,
    DeriveKey(Seq<u8>, u8),
    Succeed(Seq<u8>),
    Fail(FailKind),
}

pub open spec fn fail_kind(e: Sovd2UdsError) -> FailKind {
    match e {
        Sovd2UdsError::UdsProtocol { service, nrc, .. } => FailKind::Protocol(service, nrc),
        Sovd2UdsError::UdsCommunication(_) => FailKind::Communication,
        Sovd2UdsError::Timeout(_) => FailKind::Timeout,
        Sovd2UdsError::Config(_) => FailKind::Config,
        _ => FailKind::Other,
    }
}

impl View for SessionAction {
    type V = ActionView;

    open spec fn view(&self) -> ActionView {
        match self {
            SessionAction::Send { delay_ms, frame } => ActionView::Send(*delay_ms, frame@),
            SessionAction::AwaitResponse => ActionView::AwaitResponse,
            SessionAction::DeriveKey { seed, level } => ActionView::DeriveKey(seed@, *level),
            SessionAction::Complete(Ok(v)) => ActionView::Succeed(v@),
            SessionAction::Complete(Err(e)) => ActionView::Fail(fail_kind(*e)),
        }
    }
}

/// One operation in progress on a session.
#[derive(Debug)]
pub struct Exchange {
    pub phase: Phase,
    /// Frame of the operation's own request.
    pub main_frame: Vec<u8>,
    /// Echo stripped from the operation's positive payload.
    pub echo: Vec<u8>,
    /// Session type taken on success.
    pub session_after: Option<u8>,
    /// Frame of the request in flight.
    pub in_flight: Vec<u8>,
    /// Pending responses received for the request in flight.
    pub pendings: u32,
    /// Transport failures retried for the request in flight.
    pub retries: u32,
    /// Whether the request in flight was already repeated after busy.
    pub busy_retried: bool,
}

pub ghost struct ExchangeView {
    pub phase: Phase,
    pub main_frame: Seq<u8>,
    pub echo: Seq<u8>,
    pub session_after: Option<u8>,
    pub in_flight: Seq<u8>,
    pub pendings: u32,
    pub retries: u32,
    pub busy_retried: bool,
}

impl View for Exchange {
    type V = ExchangeView;

    open spec fn view(&self) -> ExchangeView {
        ExchangeView {
            phase: self.phase,
            main_frame: self.main_frame@,
            echo: self.echo@,
            session_after: self.session_after,
            in_flight: self.in_flight@,
            pendings: self.pendings,
            retries: self.retries,
            busy_retried: self.busy_retried,
        }
    }
}

/// A security level whose sub-functions 2L-1 and 2L fit a byte.
pub open spec fn level_valid(level: u8) -> bool {
    1 <= level <= 127
}

pub open spec fn seed_frame(level: u8) -> Seq<u8> {
    seq![SID_SECURITY_ACCESS, (2 * level - 1) as u8]
}

pub open spec fn key_frame(level: u8, key: Seq<u8>) -> Seq<u8> {
    seq![SID_SECURITY_ACCESS, (2 * level) as u8] + key
}

/// The exchange `x` moved on to a new request `frame` in `phase`.
pub open spec fn with_request(x: ExchangeView, phase: Phase, frame: Seq<u8>) -> ExchangeView {
    ExchangeView { phase, in_flight: frame, pendings: 0, retries: 0, busy_retried: false, ..x }
}

pub open spec fn finished(x: ExchangeView) -> ExchangeView {
    ExchangeView { phase: Phase::Finished, ..x }
}

/// Whether a write must first unlock the session.
pub open spec fn needs_unlock(p: SessionPolicy, s: SessionState, op: UdsOperation) -> bool {
    p.require_security_access && !s.security_unlocked && op_is_write(op)
}

/// Exchange and first action of an operation.
pub open spec fn start(p: SessionPolicy, s: SessionState, op: UdsOperation) -> (ExchangeView, ActionView) {
    let x = ExchangeView {
        phase: Phase::Main,
        main_frame: op_frame(op),
        echo: op_echo(op),
        session_after: op_session_after(op),
        in_flight: op_frame(op),
        pendings: 0,
        retries: 0,
        busy_retried: false,
    };
    if needs_unlock(p, s, op) {
        if !level_valid(p.security_level) {
            (finished(x), ActionView::Fail(FailKind::Config))
        } else {
            let f = seed_frame(p.security_level);
            (with_request(x, Phase::RequestSeed, f), ActionView::Send(0, f))
        }
    } else {
        (x, ActionView::Send(0, op_frame(op)))
    }
}

/// Reaction to a decoded positive response that matches the request in
/// flight, by phase.
pub open spec fn on_positive(p: SessionPolicy, s: SessionState, x: ExchangeView, data: Seq<u8>) -> (SessionState, ExchangeView, ActionView) {
    match x.phase {
        Phase::RequestSeed => {
            let seed = strip_prefix(data, seq![x.in_flight[1]]);
            if seed.len() == 0 {
                (
                    SessionState { security_unlocked: true, ..s },
                    with_request(x, Phase::Main, x.main_frame),
                    ActionView::Send(0, x.main_frame),
                )
            } else {
                (s, ExchangeView { phase: Phase::AwaitKey, ..x }, ActionView::DeriveKey(seed, p.security_level))
            }
        },
        Phase::SendKey => (
            SessionState { security_unlocked: true, ..s },
            with_request(x, Phase::Main, x.main_frame),
            ActionView::Send(0, x.main_frame),
        ),
        _ => (
            match x.session_after {
                Some(t) => SessionState { current_session_type: t, ..s },
                None => s,
            },
            finished(x),
            ActionView::Succeed(strip_prefix(data, x.echo)),
        ),
    }
}

/// Reaction to a response frame while a request is in flight.
pub open spec fn on_response(p: SessionPolicy, s: SessionState, x: ExchangeView, f: Seq<u8>) -> (SessionState, ExchangeView, ActionView) {
    match decode_frame(f) {
        None => (s, finished(x), ActionView::Fail(FailKind::Communication)),
        Some(r) => if !r.is_positive {
            let nrc = r.nrc->Some_0;
            if nrc == NRC_RESPONSE_PENDING {
                if x.pendings < MAX_PENDING_RESPONSES {
                    (s, ExchangeView { pendings: (x.pendings + 1) as u32, ..x }, ActionView::AwaitResponse)
                } else {
                    (s, finished(x), ActionView::Fail(FailKind::Timeout))
                }
            } else if nrc == NRC_BUSY_REPEAT_REQUEST && !x.busy_retried {
                (
                    s,
                    ExchangeView { busy_retried: true, pendings: 0, ..x },
                    ActionView::Send(BUSY_RETRY_DELAY_MS, x.in_flight),
                )
            } else {
                (s, finished(x), ActionView::Fail(FailKind::Protocol(r.service_id, nrc)))
            }
        } else if r.service_id as int != x.in_flight[0] as int + POSITIVE_RESPONSE_OFFSET as int {
            (s, finished(x), ActionView::Fail(FailKind::Communication))
        } else {
            on_positive(p, s, x, r.data)
        },
    }
}

/// The session's transition on an event: new state, new exchange, next
/// action.
pub open spec fn step(p: SessionPolicy, s: SessionState, x: ExchangeView, e: EventView) -> (SessionState, ExchangeView, ActionView) {
    match x.phase {
        Phase::Finished => (s, x, ActionView::Fail(FailKind::Other)),
        Phase::AwaitKey => match e {
            EventView::Key(k) => {
                let f = key_frame(p.security_level, k);
                (s, with_request(x, Phase::SendKey, f), ActionView::Send(0, f))
            },
            _ => (s, finished(x), ActionView::Fail(FailKind::Other)),
        },
        _ => match e {
            EventView::Key(_) => (s, finished(x), ActionView::Fail(FailKind::Other)),
            EventView::Failure => if x.retries < p.max_retries {
                (
                    s,
                    ExchangeView { retries: (x.retries + 1) as u32, ..x },
                    ActionView::Send(backoff_ms(x.retries as nat), x.in_flight),
                )
            } else {
                (s, finished(x), ActionView::Fail(FailKind::Communication))
            },
            EventView::Response(f) => on_response(p, s, x, f),
        },
    }
}

/// Every request frame of an exchange that is not finished is non-empty,
/// the seed request has its sub-function byte, and the handshake runs only
/// at a valid security level.
pub open spec fn exchange_wf(x: ExchangeView, p: SessionPolicy) -> bool {
    &&& x.main_frame.len() >= 1
    &&& x.phase != Phase::Finished ==> x.in_flight.len() >= 1
    &&& x.phase == Phase::RequestSeed ==> x.in_flight.len() >= 2
    &&& (x.phase == Phase::RequestSeed || x.phase == Phase::AwaitKey || x.phase == Phase::SendKey)
        ==> level_valid(p.security_level)
}

/// The ECU session of one component.
#[derive(Debug)]
pub struct EcuSession {
    pub component_id: String,
    pub ecu_address: u32,
    pub policy: SessionPolicy,
    pub state: SessionState,
}

impl EcuSession {
    /// A session for `component_id`, addressed from the component table or
    /// the default address; in the default session type and locked. The
    /// transport is connected separately.
    pub fn new(config: &Config, component_id: String) -> (r: EcuSession)
        ensures
            r.component_id@ == component_id@,
            r.ecu_address == config.spec_component_address(component_id@),
            r.policy == (SessionPolicy {
                require_security_access: config.security.require_security_access,
                security_level: config.security.security_level,
                max_retries: config.uds.max_retries,
            }),
            r.state == (SessionState { current_session_type: DEFAULT_SESSION_TYPE, security_unlocked: false }),
    {
        let ecu_address = match config.get_component_address(component_id.as_str()) {
            Some(a) => a,
            None => config.uds.default_address,
        };
        EcuSession {
            component_id,
            ecu_address,
            policy: SessionPolicy {
                require_security_access: config.security.require_security_access,
                security_level: config.security.security_level,
                max_retries: config.uds.max_retries,
            },
            state: SessionState { current_session_type: DEFAULT_SESSION_TYPE, security_unlocked: false },
        }
    }

    pub fn component_id(&self) -> (r: &str)
        ensures
            r@ == self.component_id@,
    {
        self.component_id.as_str()
    }

    pub fn ecu_address(&self) -> (r: u32)
        ensures
            r == self.ecu_address,
    {
        self.ecu_address
    }

    /// Starts an operation: a write on a locked session that requires
    /// security access first requests a seed; otherwise the operation's
    /// own frame is sent.
    pub fn begin(&self, op: &UdsOperation) -> (r: (Exchange, SessionAction))
        ensures
            (r.0@, r.1@) == start(self.policy, self.state, *op),
            exchange_wf(r.0@, self.policy),
    {
        let main_frame = op.frame();
        let x = Exchange {
            phase: Phase::Main,
            main_frame: copy_bytes(main_frame.as_slice()),
            echo: op.echo(),
            session_after: match op {
                UdsOperation::DiagnosticSessionControl(t) => Some(*t),
                _ => None,
            },
            in_flight: main_frame,
            pendings: 0,
            retries: 0,
            busy_retried: false,
        };
        let is_write = match op {
            UdsOperation::WriteDataByIdentifier(_, _) => true,
            _ => false,
        };
        if self.policy.require_security_access && !self.state.security_unlocked && is_write {
            let level = self.policy.security_level;
            if level < 1 || level > 127 {
                let x = Exchange { phase: Phase::Finished, ..x };
                return (x, SessionAction::Complete(Err(Sovd2UdsError::Config(
                    String::from_str("security level must lie in 1..=127"),
                ))));
            }
            let mut f: Vec<u8> = Vec::new();
            f.push(SID_SECURITY_ACCESS);
            f.push(2 * level - 1);
            assert(f@ =~= seed_frame(level));
            let x = Exchange {
                phase: Phase::RequestSeed,
                in_flight: copy_bytes(f.as_slice()),
                ..x
            };
            return (x, SessionAction::Send { delay_ms: 0, frame: f });
        }
        let frame = copy_bytes(x.in_flight.as_slice());
        (x, SessionAction::Send { delay_ms: 0, frame })
    }

    /// Moves the exchange on after an event reported by the transport or
    /// the key-derivation hook.
    pub fn handle(&mut self, x: &mut Exchange, event: TransportEvent) -> (r: SessionAction)
        requires
            exchange_wf(old(x)@, old(self).policy),
        ensures
            (final(self).state, final(x)@, r@) == step(old(self).policy, old(self).state, old(x)@, event@),
            final(self).policy == old(self).policy,
            final(self).component_id == old(self).component_id,
            final(self).ecu_address == old(self).ecu_address,
            exchange_wf(final(x)@, final(self).policy),
    {
        match x.phase {
            Phase::Finished => {
                return SessionAction::Complete(Err(Sovd2UdsError::Internal(
                    String::from_str("operation already completed"),
                )));
            },
            Phase::AwaitKey => {
                match event {
                    TransportEvent::Key(key) => {
                        let mut f: Vec<u8> = Vec::new();
                        f.push(SID_SECURITY_ACCESS);
                        f.push(2 * self.policy.security_level);
                        append_bytes(&mut f, key.as_slice());
                        assert(f@ =~= key_frame(self.policy.security_level, key@));
                        x.phase = Phase::SendKey;
                        x.in_flight = copy_bytes(f.as_slice());
                        x.pendings = 0;
                        x.retries = 0;
                        x.busy_retried = false;
                        return SessionAction::Send { delay_ms: 0, frame: f };
                    },
                    _ => {
                        x.phase = Phase::Finished;
                        return SessionAction::Complete(Err(Sovd2UdsError::Internal(
                            String::from_str("expected a security key"),
                        )));
                    },
                }
            },
            _ => {},
        }
        match event {
            TransportEvent::Key(_) => {
                x.phase = Phase::Finished;
                SessionAction::Complete(Err(Sovd2UdsError::Internal(
                    String::from_str("unexpected security key"),
                )))
            },
            TransportEvent::Failure(msg) => {
                if x.retries < self.policy.max_retries {
                    let delay_ms = backoff_delay(x.retries);
                    x.retries = x.retries + 1;
                    SessionAction::Send { delay_ms, frame: copy_bytes(x.in_flight.as_slice()) }
                } else {
                    x.phase = Phase::Finished;
                    SessionAction::Complete(Err(Sovd2UdsError::UdsCommunication(msg)))
                }
            },
            TransportEvent::Response(frame) => self.handle_response(x, frame.as_slice()),
        }
    }

    fn handle_response(&mut self, x: &mut Exchange, f: &[u8]) -> (r: SessionAction)
        requires
            exchange_wf(old(x)@, old(self).policy),
            old(x)@.phase != Phase::Finished,
            old(x)@.phase != Phase::AwaitKey,
        ensures
            (final(self).state, final(x)@, r@) == on_response(old(self).policy, old(self).state, old(x)@, f@),
            final(self).policy == old(self).policy,
            final(self).component_id == old(self).component_id,
            final(self).ecu_address == old(self).ecu_address,
            exchange_wf(final(x)@, final(self).policy),
    {
        let resp = match UdsResponse::from_bytes(f) {
            None => {
                x.phase = Phase::Finished;
                return SessionAction::Complete(Err(Sovd2UdsError::UdsCommunication(
                    String::from_str("malformed response frame"),
                )));
            },
            Some(r) => r,
        };
        if !resp.is_positive {
            let nrc = match resp.nrc {
                Some(n) => n,
                None => 0,
            };
            if nrc == NRC_RESPONSE_PENDING {
                if x.pendings < MAX_PENDING_RESPONSES {
                    x.pendings = x.pendings + 1;
                    return SessionAction::AwaitResponse;
                }
                x.phase = Phase::Finished;
                return SessionAction::Complete(Err(Sovd2UdsError::Timeout(
                    String::from_str("too many response-pending replies"),
                )));
            }
            if nrc == NRC_BUSY_REPEAT_REQUEST && !x.busy_retried {
                x.busy_retried = true;
                x.pendings = 0;
                return SessionAction::Send {
                    delay_ms: BUSY_RETRY_DELAY_MS,
                    frame: copy_bytes(x.in_flight.as_slice()),
                };
            }
            x.phase = Phase::Finished;
            return SessionAction::Complete(Err(Sovd2UdsError::protocol(resp.service_id, nrc)));
        }
        if resp.service_id as u16 != x.in_flight[0] as u16 + POSITIVE_RESPONSE_OFFSET as u16 {
            x.phase = Phase::Finished;
            return SessionAction::Complete(Err(Sovd2UdsError::UdsCommunication(
                String::from_str("response does not match the request"),
            )));
        }
        self.handle_positive(x, resp.data.as_slice())
    }

    fn handle_positive(&mut self, x: &mut Exchange, data: &[u8]) -> (r: SessionAction)
        requires
            exchange_wf(old(x)@, old(self).policy),
            old(x)@.phase != Phase::Finished,
            old(x)@.phase != Phase::AwaitKey,
        ensures
            (final(self).state, final(x)@, r@) == on_positive(old(self).policy, old(self).state, old(x)@, data@),
            final(self).policy == old(self).policy,
            final(self).component_id == old(self).component_id,
            final(self).ecu_address == old(self).ecu_address,
            exchange_wf(final(x)@, final(self).policy),
    {
        match x.phase {
            Phase::RequestSeed => {
                let sub = [x.in_flight[1]];
                assert(sub@ =~= seq![x.in_flight@[1]]);
                let seed = strip_prefix_bytes(data, &sub);
                if seed.len() == 0 {
                    self.state.security_unlocked = true;
                    let frame = copy_bytes(x.main_frame.as_slice());
                    x.phase = Phase::Main;
                    x.in_flight = copy_bytes(x.main_frame.as_slice());
                    x.pendings = 0;
                    x.retries = 0;
                    x.busy_retried = false;
                    SessionAction::Send { delay_ms: 0, frame }
                } else {
                    x.phase = Phase::AwaitKey;
                    SessionAction::DeriveKey { seed, level: self.policy.security_level }
                }
            },
            Phase::SendKey => {
                self.state.security_unlocked = true;
                let frame = copy_bytes(x.main_frame.as_slice());
                x.phase = Phase::Main;
                x.in_flight = copy_bytes(x.main_frame.as_slice());
                x.pendings = 0;
                x.retries = 0;
                x.busy_retried = false;
                SessionAction::Send { delay_ms: 0, frame }
            },
            _ => {
                match x.session_after {
                    Some(t) => {
                        self.state.current_session_type = t;
                    },
                    None => {},
                }
                x.phase = Phase::Finished;
                SessionAction::Complete(Ok(strip_prefix_bytes(data, x.echo.as_slice())))
            },
        }
    }
}

/// Actions taken while the events `events` are reported, one per event,
/// and the state reached.
pub open spec fn run_from(p: SessionPolicy, s: SessionState, x: ExchangeView, events: Seq<EventView>) -> (SessionState, Seq<ActionView>)
    decreases events.len(),
{
    if events.len() == 0 {
        (s, Seq::empty())
    } else {
        let (s1, x1, a1) = step(p, s, x, events[0]);
        let (s2, rest) = run_from(p, s1, x1, events.drop_first());
        (s2, seq![a1] + rest)
    }
}

/// All actions of an operation, the first one included, when the events
/// `events` are reported, and the session state reached.
pub open spec fn run(p: SessionPolicy, s: SessionState, op: UdsOperation, events: Seq<EventView>) -> (SessionState, Seq<ActionView>) {
    let (x0, a0) = start(p, s, op);
    let (s1, acts) = run_from(p, s, x0, events);
    (s1, seq![a0] + acts)
}

proof fn lemma_run_from_unfold(p: SessionPolicy, s: SessionState, x: ExchangeView, events: Seq<EventView>)
    requires
        events.len() > 0,
    ensures
        run_from(p, s, x, events) == ({
            let (s1, x1, a1) = step(p, s, x, events[0]);
            let (s2, rest) = run_from(p, s1, x1, events.drop_first());
            (s2, seq![a1] + rest)
        }),
{
}

/// No step ever ends an operation with the response-pending code: a
/// pending reply is absorbed by the session.
pub proof fn lemma_pending_never_surfaces(p: SessionPolicy, s: SessionState, x: ExchangeView, e: EventView, sid: u8)
    requires
        exchange_wf(x, p),
    ensures
        step(p, s, x, e).2 != ActionView::Fail(FailKind::Protocol(sid, NRC_RESPONSE_PENDING)),
{
}

/// A pending reply to the request in flight makes the session wait for a
/// further response, unless the pending limit is reached, which is a
/// timeout.
pub proof fn lemma_pending_waits(p: SessionPolicy, s: SessionState, x: ExchangeView, f: Seq<u8>)
    requires
        exchange_wf(x, p),
        x.phase != Phase::Finished,
        x.phase != Phase::AwaitKey,
        f.len() >= 3,
        f[0] == 0x7F,
        f[2] == NRC_RESPONSE_PENDING,
    ensures
        x.pendings < MAX_PENDING_RESPONSES ==> step(p, s, x, EventView::Response(f)).2 == ActionView::AwaitResponse,
        x.pendings >= MAX_PENDING_RESPONSES ==> step(p, s, x, EventView::Response(f)).2 == ActionView::Fail(FailKind::Timeout),
        step(p, s, x, EventView::Response(f)).0 == s,
{
}

/// A write on a locked session that requires security access sends
/// exactly two security-access requests before the write: the seed
/// request (sub-function 2L-1), then, once the hook has turned the seed
/// into a key, that key (sub-function 2L). The session is then unlocked.
pub proof fn lemma_security_gate(p: SessionPolicy, s: SessionState, op: UdsOperation, seed: Seq<u8>, key: Seq<u8>)
    requires
        p.require_security_access,
        !s.security_unlocked,
        level_valid(p.security_level),
        op is WriteDataByIdentifier,
        seed.len() > 0,
    ensures
        ({
            let l = p.security_level;
            let events = seq![
                EventView::Response(seq![0x67u8, (2 * l - 1) as u8] + seed),
                EventView::Key(key),
                EventView::Response(seq![0x67u8, (2 * l) as u8]),
            ];
            &&& run(p, s, op, events).1 == seq![
                ActionView::Send(0, seed_frame(l)),
                ActionView::DeriveKey(seed, l),
                ActionView::Send(0, key_frame(l, key)),
                ActionView::Send(0, op_frame(op)),
            ]
            &&& run(p, s, op, events).0.security_unlocked
        }),
{
    let l = p.security_level;
    let r1 = seq![0x67u8, (2 * l - 1) as u8] + seed;
    let r3 = seq![0x67u8, (2 * l) as u8];
    let events = seq![EventView::Response(r1), EventView::Key(key), EventView::Response(r3)];
    let (x0, a0) = start(p, s, op);
    assert(r1.subrange(1, r1.len() as int).subrange(0, 1) =~= seq![(2 * l - 1) as u8]);
    assert(r1.subrange(1, r1.len() as int).subrange(1, r1.len() - 1) =~= seed);
    let (s1, x1, a1) = step(p, s, x0, events[0]);
    assert(a1 == ActionView::DeriveKey(seed, l));
    let (s2, x2, a2) = step(p, s1, x1, events[1]);
    let (s3, x3, a3) = step(p, s2, x2, events[2]);
    assert(key_frame(l, key)[0] == SID_SECURITY_ACCESS);
    assert(a3 == ActionView::Send(0, op_frame(op)));
    lemma_run_from_unfold(p, s, x0, events);
    lemma_run_from_unfold(p, s1, x1, events.drop_first());
    lemma_run_from_unfold(p, s2, x2, events.drop_first().drop_first());
    assert(events.drop_first().drop_first().drop_first().len() == 0);
    assert(run(p, s, op, events).1 =~= seq![a0, a1, a2, a3]);
}

/// A read answered first by a pending reply and then by the positive
/// response completes once, with the data that follows the echoed DID,
/// and leaves the session state unchanged.
pub proof fn lemma_pending_then_positive(p: SessionPolicy, s: SessionState, did: u16, data: Seq<u8>)
    ensures
        ({
            let op = UdsOperation::ReadDataByIdentifier(did);
            let events = seq![
                EventView::Response(seq![0x7Fu8, SID_READ_DATA_BY_IDENTIFIER, NRC_RESPONSE_PENDING]),
                EventView::Response(seq![0x62u8] + be16(did) + data),
            ];
            &&& run(p, s, op, events).1 == seq![
                ActionView::Send(0, op_frame(op)),
                ActionView::AwaitResponse,
                ActionView::Succeed(data),
            ]
            &&& run(p, s, op, events).0 == s
        }),
{
    let op = UdsOperation::ReadDataByIdentifier(did);
    let r2 = seq![0x62u8] + be16(did) + data;
    let events = seq![
        EventView::Response(seq![0x7Fu8, SID_READ_DATA_BY_IDENTIFIER, NRC_RESPONSE_PENDING]),
        EventView::Response(r2),
    ];
    let (x0, a0) = start(p, s, op);
    let (s1, x1, a1) = step(p, s, x0, events[0]);
    let payload = r2.subrange(1, r2.len() as int);
    assert(payload.subrange(0, 2) =~= be16(did));
    assert(payload.subrange(2, payload.len() as int) =~= data);
    let (s2, x2, a2) = step(p, s1, x1, events[1]);
    assert(a2 == ActionView::Succeed(data));
    lemma_run_from_unfold(p, s, x0, events);
    lemma_run_from_unfold(p, s1, x1, events.drop_first());
    assert(events.drop_first().drop_first().len() == 0);
    assert(run(p, s, op, events).1 =~= seq![a0, a1, a2]);
}

} // verus!
