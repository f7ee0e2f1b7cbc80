use gateway_core::listener::{
    dispatch_from_directive, dispatch_from_peek, listener_kind_from_scheme, negotiation_steps,
    sniff_protocol, socket_tuning, supervise, ConnectionError, DispatchPlan, HandlerKind,
    ListenerKind, ListenerMode, NegotiationStep, SniffStream, SniffedProtocol, SupervisorAction,
    SupervisorEvent, SupervisorState, TransportPlan,
};

#[test]
fn scheme_table() {
    assert_eq!(listener_kind_from_scheme(b"tcp"), Some(ListenerKind::Tcp));
    assert_eq!(listener_kind_from_scheme(b"ws"), Some(ListenerKind::Ws));
    assert_eq!(listener_kind_from_scheme(b"wss"), Some(ListenerKind::Wss));
    assert_eq!(listener_kind_from_scheme(b"http"), None);
    assert_eq!(listener_kind_from_scheme(b"tls"), None);
    assert_eq!(listener_kind_from_scheme(b""), None);
}

#[test]
fn sniff_magic_prefixes() {
    assert_eq!(sniff_protocol(&[0x4A, 0x45, 0x54, 0x00]), SniffedProtocol::Jet);
    assert_eq!(sniff_protocol(&[0x4A, 0x4D, 0x55, 0x58]), SniffedProtocol::Jmux);
    assert_eq!(sniff_protocol(&[0x00, 0x01, 0x02, 0x03]), SniffedProtocol::Unknown);
    assert_eq!(sniff_protocol(&[0x4A, 0x45, 0x54]), SniffedProtocol::Unknown);
    assert_eq!(sniff_protocol(&[]), SniffedProtocol::Unknown);
}

#[test]
fn jet_prefix_goes_to_jet_handler_with_stream_intact() {
    let stream = SniffStream::new(vec![0x4A, 0x45, 0x54, 0x00, 0x01, 0x02, 0x03]);
    assert_eq!(stream.peek_prefix(), vec![0x4A, 0x45, 0x54, 0x00]);
    assert_eq!(stream.dispatch(), Ok(HandlerKind::Jet));
    // Peeking and dispatching consumed nothing: the handler sees the magic
    // bytes and the payload exactly as they arrived.
    assert_eq!(stream.peek_prefix(), vec![0x4A, 0x45, 0x54, 0x00]);
    assert_eq!(stream.into_bytes(), vec![0x4A, 0x45, 0x54, 0x00, 0x01, 0x02, 0x03]);
}

#[test]
fn jmux_prefix_fails_and_endpoint_keeps_accepting() {
    let stream = SniffStream::new(vec![0x4A, 0x4D, 0x55, 0x58]);
    assert_eq!(stream.dispatch(), Err(ConnectionError::NotImplemented));

    // The failure is logged, never propagated: the loop accepts again.
    let step = supervise(
        ListenerMode::Continuous,
        SupervisorEvent::ConnectionFailed(ConnectionError::NotImplemented),
    );
    assert_eq!(step.state, SupervisorState::Accepting);
    assert_eq!(step.surfaced, None);
    assert_eq!(
        step.action,
        SupervisorAction::LogConnectionError(ConnectionError::NotImplemented)
    );

    // A fresh connection right afterwards dispatches normally.
    let next = SniffStream::new(vec![0x00, 0x01, 0x02, 0x03]);
    assert_eq!(next.dispatch(), Ok(HandlerKind::Generic));
}

#[test]
fn other_prefixes_go_to_generic_handler() {
    assert_eq!(dispatch_from_peek(&[0x00, 0x01, 0x02, 0x03]), Ok(HandlerKind::Generic));
    assert_eq!(dispatch_from_peek(&[0x4A, 0x45, 0x54, 0x01]), Ok(HandlerKind::Generic));
    // A stream shorter than the magic is generic too.
    assert_eq!(dispatch_from_peek(&[0x4A, 0x45]), Ok(HandlerKind::Generic));
    let short = SniffStream::new(vec![0x4A]);
    assert_eq!(short.dispatch(), Ok(HandlerKind::Generic));
}

#[test]
fn two_connections_are_independent() {
    let first = SniffStream::new(vec![0x4A, 0x45, 0x54, 0x00, 0xAA]);
    let second = SniffStream::new(vec![0x10, 0x20, 0x30, 0x40]);
    let first_handler = first.dispatch().unwrap();
    let second_handler = second.dispatch().unwrap();
    assert_eq!(first_handler, HandlerKind::Jet);
    assert_eq!(second_handler, HandlerKind::Generic);
    // Each connection's bytes go to its own handler, whole and unshared.
    assert_eq!(first.into_bytes(), vec![0x4A, 0x45, 0x54, 0x00, 0xAA]);
    assert_eq!(second.into_bytes(), vec![0x10, 0x20, 0x30, 0x40]);
}

#[test]
fn directive_table() {
    assert_eq!(
        dispatch_from_directive(b"tcp"),
        Ok(DispatchPlan {
            handler: HandlerKind::FixedRoute,
            transport: TransportPlan { tls: false, websocket: false },
        })
    );
    assert_eq!(
        dispatch_from_directive(b"tls"),
        Ok(DispatchPlan {
            handler: HandlerKind::FixedRoute,
            transport: TransportPlan { tls: true, websocket: false },
        })
    );
    assert_eq!(
        dispatch_from_directive(b"ws"),
        Ok(DispatchPlan {
            handler: HandlerKind::WebSocketRoute,
            transport: TransportPlan { tls: false, websocket: true },
        })
    );
    assert_eq!(
        dispatch_from_directive(b"wss"),
        Ok(DispatchPlan {
            handler: HandlerKind::WebSocketRoute,
            transport: TransportPlan { tls: true, websocket: true },
        })
    );
    assert_eq!(
        dispatch_from_directive(b"rdp"),
        Ok(DispatchPlan {
            handler: HandlerKind::Rdp,
            transport: TransportPlan { tls: false, websocket: false },
        })
    );
    assert_eq!(dispatch_from_directive(b"sftp"), Err(ConnectionError::UnsupportedScheme));
}

#[test]
fn tls_directive_forwards_after_tls_and_survives_bad_handshake() {
    // A `tls` directive reaches the fixed-destination forwarder only after a
    // TLS layer; a handshake that fails is logged and the endpoint accepts on.
    let plan = dispatch_from_directive(b"tls").unwrap();
    assert_eq!(plan.handler, HandlerKind::FixedRoute);
    assert!(plan.transport.tls);

    let step = supervise(
        ListenerMode::Continuous,
        SupervisorEvent::ConnectionFailed(ConnectionError::Handshake),
    );
    assert_eq!(step.state, SupervisorState::Accepting);
    assert_eq!(step.surfaced, None);
    let next = supervise(ListenerMode::Continuous, SupervisorEvent::AcceptSucceeded);
    assert_eq!(next.action, SupervisorAction::SpawnConnection);
}

#[test]
fn wss_endpoint_layers_tls_before_websocket() {
    assert_eq!(listener_kind_from_scheme(b"wss"), Some(ListenerKind::Wss));
    assert_eq!(
        negotiation_steps(ListenerKind::Wss),
        vec![
            NegotiationStep::TuneSocket,
            NegotiationStep::TlsHandshake,
            NegotiationStep::WsUpgrade,
        ]
    );
    assert_eq!(
        negotiation_steps(ListenerKind::Ws),
        vec![NegotiationStep::TuneSocket, NegotiationStep::WsUpgrade]
    );
    assert_eq!(
        negotiation_steps(ListenerKind::Tcp),
        vec![NegotiationStep::TuneSocket, NegotiationStep::SniffAndDispatch]
    );
}

#[test]
fn single_shot_surfaces_the_exact_error() {
    let errors = [
        ConnectionError::Handshake,
        ConnectionError::UnsupportedScheme,
        ConnectionError::NotImplemented,
        ConnectionError::Handler,
    ];
    for e in errors {
        let step = supervise(ListenerMode::SingleShot, SupervisorEvent::ConnectionFailed(e));
        assert_eq!(step.surfaced, Some(e));
        assert_eq!(step.state, SupervisorState::Stopped);

        let logged = supervise(ListenerMode::Continuous, SupervisorEvent::ConnectionFailed(e));
        assert_eq!(logged.surfaced, None);
        assert_eq!(logged.action, SupervisorAction::LogConnectionError(e));
    }
}

#[test]
fn accept_failures_are_logged_in_continuous_mode() {
    let step = supervise(ListenerMode::Continuous, SupervisorEvent::AcceptFailed);
    assert_eq!(step.state, SupervisorState::Accepting);
    assert_eq!(step.action, SupervisorAction::LogAcceptError);
    assert_eq!(step.surfaced, None);

    let single = supervise(ListenerMode::SingleShot, SupervisorEvent::AcceptFailed);
    assert_eq!(single.surfaced, Some(ConnectionError::Accept));
}

#[test]
fn socket_tuning_constants() {
    let tuning = socket_tuning();
    assert_eq!(tuning.send_buffer_size, 0x7FFFF);
    assert_eq!(tuning.recv_buffer_size, 0x7FFFF);
    assert_eq!(tuning.backlog, 64);
    assert!(tuning.nodelay);
}
