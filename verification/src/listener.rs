//! Decision logic of the connection listener: which transport scheme an
//! endpoint listens with, how a connection's leading bytes select a handler,
//! what a routing directive forces, and how per-connection failures are kept
//! away from the accept loop.
//!
//! Scheme names are passed as their ASCII bytes. The surrounding runtime owns
//! the sockets; it asks these functions for every routing and supervision
//! decision and carries the answers out.

use vstd::prelude::*;

verus! {

/// Transport layering a bound endpoint applies to every accepted connection.
#[derive(Debug, Clone, Copy, PartialEq, Eq, Structural)]
pub enum ListenerKind {
    Tcp,
    Ws,
    Wss,
}

/// The downstream collaborator a connection is handed to.
#[derive(Debug, Clone, Copy, PartialEq, Eq, Structural)]
pub enum HandlerKind {
    /// Session-multiplexing handler for the framed protocol behind the
    /// `JET\0` magic prefix.
    Jet,
    /// Generic forwarding handler chosen by sniffing.
    Generic,
    /// Forwarding handler bound to the fixed destination of a routing
    /// directive.
    FixedRoute,
    /// WebSocket-aware forwarding handler of a routing directive.
    WebSocketRoute,
    /// Dedicated terminal-protocol handler of a routing directive.
    Rdp,
}

/// A per-connection failure. No value of this type ever stops an accept loop:
/// see `supervise`.
#[derive(Debug, Clone, Copy, PartialEq, Eq, Structural)]
pub enum ConnectionError {
    /// A single accept call failed.
    Accept,
    /// TLS or WebSocket negotiation failed.
    Handshake,
    /// A routing directive names a scheme no handler takes.
    UnsupportedScheme,
    /// The sniffed prefix names a protocol that is recognized but not served.
    NotImplemented,
    /// A downstream handler failed.
    Handler,
}

/// The ASCII bytes of the scheme `tcp`.
pub open spec fn spec_scheme_tcp() -> Seq<u8> {
    seq![0x74u8, 0x63u8, 0x70u8]
}

/// The ASCII bytes of the scheme `tls`.
pub open spec fn spec_scheme_tls() -> Seq<u8> {
    seq![0x74u8, 0x6Cu8, 0x73u8]
}

/// The ASCII bytes of the scheme `ws`.
pub open spec fn spec_scheme_ws() -> Seq<u8> {
    seq![0x77u8, 0x73u8]
}

/// The ASCII bytes of the scheme `wss`.
pub open spec fn spec_scheme_wss() -> Seq<u8> {
    seq![0x77u8, 0x73u8, 0x73u8]
}

/// The ASCII bytes of the scheme `rdp`.
pub open spec fn spec_scheme_rdp() -> Seq<u8> {
    seq![0x72u8, 0x64u8, 0x70u8]
}

/// Kind of listener a bind URL's scheme asks for; anything else is a fatal
/// bind-time error.
pub open spec fn spec_listener_kind_from_scheme(scheme: Seq<u8>) -> Option<ListenerKind> {
    if scheme == spec_scheme_tcp() {
        Some(ListenerKind::Tcp)
    } else if scheme == spec_scheme_ws() {
        Some(ListenerKind::Ws)
    } else if scheme == spec_scheme_wss() {
        Some(ListenerKind::Wss)
    } else {
        None
    }
}

/// Maps a bind URL's scheme (as ASCII bytes) to the kind of listener it asks
/// for. `None` is the only fatal error of the subsystem: the endpoint is
/// never created.
pub fn listener_kind_from_scheme(scheme: &[u8]) -> (r: Option<ListenerKind>)
    ensures
        r == spec_listener_kind_from_scheme(scheme@),
{
    if scheme.len() == 3 && scheme[0] == 0x74u8 && scheme[1] == 0x63u8 && scheme[2] == 0x70u8 {
        assert(scheme@ =~= spec_scheme_tcp());
        Some(ListenerKind::Tcp)
    } else if scheme.len() == 2 && scheme[0] == 0x77u8 && scheme[1] == 0x73u8 {
        assert(scheme@ =~= spec_scheme_ws());
        Some(ListenerKind::Ws)
    } else if scheme.len() == 3 && scheme[0] == 0x77u8 && scheme[1] == 0x73u8 && scheme[2] == 0x73u8 {
        assert(scheme@ =~= spec_scheme_wss());
        Some(ListenerKind::Wss)
    } else {
        assert(scheme@ != spec_scheme_tcp() && scheme@ != spec_scheme_ws() && scheme@
            != spec_scheme_wss());
        None
    }
}

/// Socket options applied to every listening socket and connection, all
/// best-effort except the backlog.
pub struct SocketTuning {
    /// Requested send buffer size, in bytes.
    pub send_buffer_size: u32,
    /// Requested receive buffer size, in bytes.
    pub recv_buffer_size: u32,
    /// Listen backlog of the bound socket.
    pub backlog: u32,
    /// Whether TCP no-delay is enabled on each accepted connection.
    pub nodelay: bool,
}

/// The tuning every endpoint applies before any application data flows.
pub fn socket_tuning() -> (r: SocketTuning)
    ensures
        r.send_buffer_size == 0x7FFFF,
        r.recv_buffer_size == 0x7FFFF,
        r.backlog == 64,
        r.nodelay == true,
{
    SocketTuning { send_buffer_size: 0x7FFFF, recv_buffer_size: 0x7FFFF, backlog: 64, nodelay: true }
}

/// One step of per-connection transport negotiation.
#[derive(Debug, Clone, Copy, PartialEq, Eq, Structural)]
pub enum NegotiationStep {
    /// Apply per-connection socket tuning.
    TuneSocket,
    /// Perform the server-side TLS handshake.
    TlsHandshake,
    /// Run the HTTP server loop that may upgrade to WebSocket framing.
    WsUpgrade,
    /// Peek the magic prefix and hand the stream to the chosen handler.
    SniffAndDispatch,
}

/// The negotiation steps of a connection accepted by an endpoint of `kind`,
/// in the order they must run: tuning before any data, TLS before the
/// WebSocket upgrade, and sniffing only on a fully negotiated stream.
pub fn negotiation_steps(kind: ListenerKind) -> (r: Vec<NegotiationStep>)
    ensures
        kind == ListenerKind::Tcp ==> r@ == seq![
            NegotiationStep::TuneSocket,
            NegotiationStep::SniffAndDispatch,
        ],
        kind == ListenerKind::Ws ==> r@ == seq![
            NegotiationStep::TuneSocket,
            NegotiationStep::WsUpgrade,
        ],
        kind == ListenerKind::Wss ==> r@ == seq![
            NegotiationStep::TuneSocket,
            NegotiationStep::TlsHandshake,
            NegotiationStep::WsUpgrade,
        ],
{
    let mut steps: Vec<NegotiationStep> = Vec::new();
    steps.push(NegotiationStep::TuneSocket);
    match kind {
        ListenerKind::Tcp => {
            steps.push(NegotiationStep::SniffAndDispatch);
        },
        ListenerKind::Ws => {
            steps.push(NegotiationStep::WsUpgrade);
        },
        ListenerKind::Wss => {
            steps.push(NegotiationStep::TlsHandshake);
            steps.push(NegotiationStep::WsUpgrade);
        },
    }
    steps
}

/// The magic prefix of the session-multiplexing protocol: `J`, `E`, `T`, NUL.
pub open spec fn spec_jet_magic() -> Seq<u8> {
    seq![0x4Au8, 0x45u8, 0x54u8, 0x00u8]
}

/// The magic prefix of the unimplemented multiplexed-tunnel protocol:
/// `J`, `M`, `U`, `X`.
pub open spec fn spec_jmux_magic() -> Seq<u8> {
    seq![0x4Au8, 0x4Du8, 0x55u8, 0x58u8]
}

/// What the leading bytes of a connection claim its protocol is.
#[derive(Debug, Clone, Copy, PartialEq, Eq, Structural)]
pub enum SniffedProtocol {
    /// The session-multiplexing magic prefix.
    Jet,
    /// The magic prefix of a recognized protocol that has no handler.
    Jmux,
    /// Anything else, shorter prefixes included.
    Unknown,
}

/// Protocol claimed by the peeked prefix of a connection.
pub open spec fn spec_sniff(peeked: Seq<u8>) -> SniffedProtocol {
    if peeked == spec_jet_magic() {
        SniffedProtocol::Jet
    } else if peeked == spec_jmux_magic() {
        SniffedProtocol::Jmux
    } else {
        SniffedProtocol::Unknown
    }
}

/// Classifies the peeked prefix of a connection. `peeked` is what a
/// non-consuming read of at most four bytes returned; the stream itself is
/// untouched.
pub fn sniff_protocol(peeked: &[u8]) -> (r: SniffedProtocol)
    ensures
        r == spec_sniff(peeked@),
{
    if peeked.len() == 4 && peeked[0] == 0x4A && peeked[1] == 0x45 && peeked[2] == 0x54 && peeked[3]
        == 0x00 {
        assert(peeked@ =~= spec_jet_magic());
        SniffedProtocol::Jet
    } else if peeked.len() == 4 && peeked[0] == 0x4A && peeked[1] == 0x4D && peeked[2] == 0x55
        && peeked[3] == 0x58 {
        assert(peeked@ =~= spec_jmux_magic());
        SniffedProtocol::Jmux
    } else {
        assert(peeked@ != spec_jet_magic() && peeked@ != spec_jmux_magic());
        SniffedProtocol::Unknown
    }
}

/// Handler selected by a peeked prefix: the magic of the session-multiplexing
/// protocol selects its handler, the magic of the unimplemented protocol
/// fails the connection, and everything else goes to the generic forwarder.
pub open spec fn spec_dispatch_from_peek(peeked: Seq<u8>) -> Result<HandlerKind, ConnectionError> {
    match spec_sniff(peeked) {
        SniffedProtocol::Jet => Ok(HandlerKind::Jet),
        SniffedProtocol::Jmux => Err(ConnectionError::NotImplemented),
        SniffedProtocol::Unknown => Ok(HandlerKind::Generic),
    }
}

/// Selects the handler of a sniffed connection. An error fails only this
/// connection; no handler sees any of its bytes.
pub fn dispatch_from_peek(peeked: &[u8]) -> (r: Result<HandlerKind, ConnectionError>)
    ensures
        r == spec_dispatch_from_peek(peeked@),
{
    match sniff_protocol(peeked) {
        SniffedProtocol::Jet => Ok(HandlerKind::Jet),
        SniffedProtocol::Jmux => Err(ConnectionError::NotImplemented),
        SniffedProtocol::Unknown => Ok(HandlerKind::Generic),
    }
}

/// Transport layers a routing directive stacks under the forwarded stream.
#[derive(Debug, Clone, Copy, PartialEq, Eq, Structural)]
pub struct TransportPlan {
    /// A server-side TLS handshake is performed first.
    pub tls: bool,
    /// The stream is promoted to WebSocket framing (after TLS, if any).
    pub websocket: bool,
}

/// Handler and transport layering for one connection.
#[derive(Debug, Clone, Copy, PartialEq, Eq, Structural)]
pub struct DispatchPlan {
    /// The collaborator that consumes the connection.
    pub handler: HandlerKind,
    /// The layers established before the handler sees the stream.
    pub transport: TransportPlan,
}

/// Handler and transport a routing directive's scheme forces, bypassing
/// sniffing entirely.
pub open spec fn spec_dispatch_from_directive(scheme: Seq<u8>) -> Result<
    DispatchPlan,
    ConnectionError,
> {
    if scheme == spec_scheme_tcp() {
        Ok(
            DispatchPlan {
                handler: HandlerKind::FixedRoute,
                transport: TransportPlan { tls: false, websocket: false },
            },
        )
    } else if scheme == spec_scheme_tls() {
        Ok(
            DispatchPlan {
                handler: HandlerKind::FixedRoute,
                transport: TransportPlan { tls: true, websocket: false },
            },
        )
    } else if scheme == spec_scheme_ws() {
        Ok(
            DispatchPlan {
                handler: HandlerKind::WebSocketRoute,
                transport: TransportPlan { tls: false, websocket: true },
            },
        )
    } else if scheme == spec_scheme_wss() {
        Ok(
            DispatchPlan {
                handler: HandlerKind::WebSocketRoute,
                transport: TransportPlan { tls: true, websocket: true },
            },
        )
    } else if scheme == spec_scheme_rdp() {
        Ok(
            DispatchPlan {
                handler: HandlerKind::Rdp,
                transport: TransportPlan { tls: false, websocket: false },
            },
        )
    } else {
        Err(ConnectionError::UnsupportedScheme)
    }
}

/// Selects handler and transport from a routing directive's scheme (as ASCII
/// bytes), without inspecting any connection bytes.
pub fn dispatch_from_directive(scheme: &[u8]) -> (r: Result<DispatchPlan, ConnectionError>)
    ensures
        r == spec_dispatch_from_directive(scheme@),
{
    if scheme.len() == 3 && scheme[0] == 0x74u8 && scheme[1] == 0x63u8 && scheme[2] == 0x70u8 {
        assert(scheme@ =~= spec_scheme_tcp());
        Ok(
            DispatchPlan {
                handler: HandlerKind::FixedRoute,
                transport: TransportPlan { tls: false, websocket: false },
            },
        )
    } else if scheme.len() == 3 && scheme[0] == 0x74u8 && scheme[1] == 0x6Cu8 && scheme[2]
        == 0x73u8 {
        assert(scheme@ =~= spec_scheme_tls());
        Ok(
            DispatchPlan {
                handler: HandlerKind::FixedRoute,
                transport: TransportPlan { tls: true, websocket: false },
            },
        )
    } else if scheme.len() == 2 && scheme[0] == 0x77u8 && scheme[1] == 0x73u8 {
        assert(scheme@ =~= spec_scheme_ws());
        Ok(
            DispatchPlan {
                handler: HandlerKind::WebSocketRoute,
                transport: TransportPlan { tls: false, websocket: true },
            },
        )
    } else if scheme.len() == 3 && scheme[0] == 0x77u8 && scheme[1] == 0x73u8 && scheme[2]
        == 0x73u8 {
        assert(scheme@ =~= spec_scheme_wss());
        Ok(
            DispatchPlan {
                handler: HandlerKind::WebSocketRoute,
                transport: TransportPlan { tls: true, websocket: true },
            },
        )
    } else if scheme.len() == 3 && scheme[0] == 0x72u8 && scheme[1] == 0x64u8 && scheme[2]
        == 0x70u8 {
        assert(scheme@ =~= spec_scheme_rdp());
        Ok(
            DispatchPlan {
                handler: HandlerKind::Rdp,
                transport: TransportPlan { tls: false, websocket: false },
            },
        )
    } else {
        assert(scheme@ != spec_scheme_tcp() && scheme@ != spec_scheme_tls() && scheme@
            != spec_scheme_ws() && scheme@ != spec_scheme_wss() && scheme@ != spec_scheme_rdp());
        Err(ConnectionError::UnsupportedScheme)
    }
}

/// The non-consumed prefix sniffing looks at: the first four bytes, or the
/// whole stream where it is shorter.
pub open spec fn spec_peek(stream: Seq<u8>) -> Seq<u8> {
    if stream.len() <= 4 {
        stream
    } else {
        stream.take(4)
    }
}

/// A stream whose first four bytes are the session-multiplexing magic is
/// dispatched to the session-multiplexing handler.
pub proof fn lemma_jet_prefix_selects_jet(stream: Seq<u8>)
    requires
        stream.len() >= 4,
        stream.take(4) == spec_jet_magic(),
    ensures
        spec_dispatch_from_peek(spec_peek(stream)) == Ok::<HandlerKind, ConnectionError>(
            HandlerKind::Jet,
        ),
{
    assert(spec_peek(stream) =~= stream.take(4));
}

/// A stream whose first four bytes are the magic of the unimplemented
/// protocol fails at once; no handler is selected.
pub proof fn lemma_jmux_prefix_is_refused(stream: Seq<u8>)
    requires
        stream.len() >= 4,
        stream.take(4) == spec_jmux_magic(),
    ensures
        spec_dispatch_from_peek(spec_peek(stream)) == Err::<HandlerKind, ConnectionError>(
            ConnectionError::NotImplemented,
        ),
{
    assert(spec_peek(stream) =~= stream.take(4));
    assert(spec_peek(stream) != spec_jet_magic());
}

/// A connection's byte stream buffered so that sniffing can look ahead
/// without consuming: the handler that finally takes the stream sees every
/// byte, the sniffed prefix included.
pub struct SniffStream {
    bytes: Vec<u8>,
}

impl View for SniffStream {
    type V = Seq<u8>;

    closed spec fn view(&self) -> Seq<u8> {
        self.bytes@
    }
}

impl SniffStream {
    /// Wraps the bytes buffered from a connection.
    pub fn new(bytes: Vec<u8>) -> (r: SniffStream)
        ensures
            r@ == bytes@,
    {
        SniffStream { bytes }
    }

    /// The non-consumed prefix sniffing looks at. Takes the stream by shared
    /// reference: peeking cannot move its read position.
    pub fn peek_prefix(&self) -> (r: Vec<u8>)
        ensures
            r@ == spec_peek(self@),
    {
        let mut prefix: Vec<u8> = Vec::new();
        let n: usize = if self.bytes.len() <= 4 {
            self.bytes.len()
        } else {
            4
        };
        let mut i: usize = 0;
        while i < n
            invariant
                i <= n,
                n <= self.bytes@.len(),
                prefix@ == self.bytes@.take(n as int).take(i as int),
            decreases n - i,
        {
            prefix.push(self.bytes[i]);
            i = i + 1;
        }
        assert(prefix@ =~= spec_peek(self@));
        prefix
    }

    /// Selects this connection's handler from its peeked prefix, leaving the
    /// stream exactly as it was.
    pub fn dispatch(&self) -> (r: Result<HandlerKind, ConnectionError>)
        ensures
            r == spec_dispatch_from_peek(spec_peek(self@)),
    {
        let prefix = self.peek_prefix();
        dispatch_from_peek(prefix.as_slice())
    }

    /// Hands the whole stream to its one handler, this connection's sniffed
    /// bytes first. Consumes the stream: no second handler can see it.
    pub fn into_bytes(self) -> (r: Vec<u8>)
        ensures
            r@ == self@,
    {
        self.bytes
    }
}

/// How an endpoint's accept loop runs: forever, or for exactly one
/// connection whose outcome the caller observes.
#[derive(Debug, Clone, Copy, PartialEq, Eq, Structural)]
pub enum ListenerMode {
    /// Accept forever; every failure is logged and the loop goes on.
    Continuous,
    /// Accept one connection and surface its outcome to the caller.
    SingleShot,
}

/// State of an endpoint's accept loop.
#[derive(Debug, Clone, Copy, PartialEq, Eq, Structural)]
pub enum SupervisorState {
    /// Waiting for the next connection.
    Accepting,
    /// Done: only a single-shot listener ever reaches this state.
    Stopped,
}

/// What the runtime reports back to the supervisor.
#[derive(Debug, Clone, Copy, PartialEq, Eq, Structural)]
pub enum SupervisorEvent {
    /// A connection was accepted.
    AcceptSucceeded,
    /// The accept call itself failed.
    AcceptFailed,
    /// A spawned connection ran to completion.
    ConnectionSucceeded,
    /// A spawned connection failed: handshake, sniffing or handler.
    ConnectionFailed(ConnectionError),
}

/// What the runtime must do next.
#[derive(Debug, Clone, Copy, PartialEq, Eq, Structural)]
pub enum SupervisorAction {
    /// Negotiate, sniff and dispatch the accepted connection in a unit of
    /// work of its own, so its fate cannot touch the accept loop.
    SpawnConnection,
    /// Handle the accepted connection before accepting again.
    HandleConnection,
    /// Log an accept failure.
    LogAcceptError,
    /// Log a per-connection failure, tagged with handler and peer.
    LogConnectionError(ConnectionError),
    /// Nothing to do.
    Nothing,
}

/// One supervision step: the next state of the accept loop, what the runtime
/// does, and the error surfaced to the caller, if any.
#[derive(Debug, Clone, Copy, PartialEq, Eq, Structural)]
pub struct SupervisorStep {
    /// State of the accept loop after the event.
    pub state: SupervisorState,
    /// Action the runtime carries out.
    pub action: SupervisorAction,
    /// The error handed to the caller; only a single-shot listener ever
    /// surfaces one.
    pub surfaced: Option<ConnectionError>,
}

/// Supervision policy of the accept loop.
pub open spec fn spec_supervise(mode: ListenerMode, event: SupervisorEvent) -> SupervisorStep {
    match (mode, event) {
        (ListenerMode::Continuous, SupervisorEvent::AcceptSucceeded) => SupervisorStep {
            state: SupervisorState::Accepting,
            action: SupervisorAction::SpawnConnection,
            surfaced: None,
        },
        (ListenerMode::Continuous, SupervisorEvent::AcceptFailed) => SupervisorStep {
            state: SupervisorState::Accepting,
            action: SupervisorAction::LogAcceptError,
            surfaced: None,
        },
        (ListenerMode::Continuous, SupervisorEvent::ConnectionSucceeded) => SupervisorStep {
            state: SupervisorState::Accepting,
            action: SupervisorAction::Nothing,
            surfaced: None,
        },
        (ListenerMode::Continuous, SupervisorEvent::ConnectionFailed(e)) => SupervisorStep {
            state: SupervisorState::Accepting,
            action: SupervisorAction::LogConnectionError(e),
            surfaced: None,
        },
        (ListenerMode::SingleShot, SupervisorEvent::AcceptSucceeded) => SupervisorStep {
            state: SupervisorState::Accepting,
            action: SupervisorAction::HandleConnection,
            surfaced: None,
        },
        (ListenerMode::SingleShot, SupervisorEvent::AcceptFailed) => SupervisorStep {
            state: SupervisorState::Stopped,
            action: SupervisorAction::Nothing,
            surfaced: Some(ConnectionError::Accept),
        },
        (ListenerMode::SingleShot, SupervisorEvent::ConnectionSucceeded) => SupervisorStep {
            state: SupervisorState::Stopped,
            action: SupervisorAction::Nothing,
            surfaced: None,
        },
        (ListenerMode::SingleShot, SupervisorEvent::ConnectionFailed(e)) => SupervisorStep {
            state: SupervisorState::Stopped,
            action: SupervisorAction::Nothing,
            surfaced: Some(e),
        },
    }
}

/// Decides what the accept loop does after `event`. A continuous listener
/// never surfaces an error and never leaves the accepting state, whatever
/// failed: it only logs. A single-shot listener hands its caller the exact
/// error of the one connection it accepted.
pub fn supervise(mode: ListenerMode, event: SupervisorEvent) -> (r: SupervisorStep)
    ensures
        r == spec_supervise(mode, event),
        mode == ListenerMode::Continuous ==> r.state == SupervisorState::Accepting && r.surfaced
            is None,
        (mode == ListenerMode::SingleShot && (event matches SupervisorEvent::ConnectionFailed(_)))
            ==> r.surfaced == Some(event->ConnectionFailed_0),
{
    match (mode, event) {
        (ListenerMode::Continuous, SupervisorEvent::AcceptSucceeded) => SupervisorStep {
            state: SupervisorState::Accepting,
            action: SupervisorAction::SpawnConnection,
            surfaced: None,
        },
        (ListenerMode::Continuous, SupervisorEvent::AcceptFailed) => SupervisorStep {
            state: SupervisorState::Accepting,
            action: SupervisorAction::LogAcceptError,
            surfaced: None,
        },
        (ListenerMode::Continuous, SupervisorEvent::ConnectionSucceeded) => SupervisorStep {
            state: SupervisorState::Accepting,
            action: SupervisorAction::Nothing,
            surfaced: None,
        },
        (ListenerMode::Continuous, SupervisorEvent::ConnectionFailed(e)) => SupervisorStep {
            state: SupervisorState::Accepting,
            action: SupervisorAction::LogConnectionError(e),
            surfaced: None,
        },
        (ListenerMode::SingleShot, SupervisorEvent::AcceptSucceeded) => SupervisorStep {
            state: SupervisorState::Accepting,
            action: SupervisorAction::HandleConnection,
            surfaced: None,
        },
        (ListenerMode::SingleShot, SupervisorEvent::AcceptFailed) => SupervisorStep {
            state: SupervisorState::Stopped,
            action: SupervisorAction::Nothing,
            surfaced: Some(ConnectionError::Accept),
        },
        (ListenerMode::SingleShot, SupervisorEvent::ConnectionSucceeded) => SupervisorStep {
            state: SupervisorState::Stopped,
            action: SupervisorAction::Nothing,
            surfaced: None,
        },
        (ListenerMode::SingleShot, SupervisorEvent::ConnectionFailed(e)) => SupervisorStep {
            state: SupervisorState::Stopped,
            action: SupervisorAction::Nothing,
            surfaced: Some(e),
        },
    }
}

/// However one connection failed, a continuous listener is accepting again
/// right after: a failed TLS handshake, an unsupported protocol or a crashed
/// handler never costs the endpoint its accept loop.
pub proof fn lemma_failure_never_stops_accepting(e: ConnectionError)
    ensures
        spec_supervise(ListenerMode::Continuous, SupervisorEvent::ConnectionFailed(e)).state
            == SupervisorState::Accepting,
        spec_supervise(ListenerMode::Continuous, SupervisorEvent::ConnectionFailed(e)).surfaced
            is None,
{
}

/// Every stream with any other prefix, shorter streams included, goes to the
/// generic forwarding handler.
pub proof fn lemma_other_prefix_selects_generic(stream: Seq<u8>)
    requires
        stream.len() < 4 || (stream.take(4) != spec_jet_magic() && stream.take(4)
            != spec_jmux_magic()),
    ensures
        spec_dispatch_from_peek(spec_peek(stream)) == Ok::<HandlerKind, ConnectionError>(
            HandlerKind::Generic,
        ),
{
    if stream.len() < 4 {
        assert(spec_peek(stream).len() < 4);
    } else {
        assert(spec_peek(stream) =~= stream.take(4));
    }
}

} // verus!

