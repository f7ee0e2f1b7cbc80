use gateway_core::kdc::{KdcProxyController, KdcProxyError, KdcTransport};

#[test]
fn realm_check_is_case_insensitive() {
    // The comparison folds case: identical up to case means the same realm.
    assert_eq!(
        KdcProxyController::check_realm("EXAMPLE.COM", Some("example.com")),
        Ok(())
    );
    assert_eq!(
        KdcProxyController::check_realm("example.com", Some("EXAMPLE.COM")),
        Ok(())
    );
}

#[test]
fn realm_check_uses_full_unicode_folding() {
    // Full case folding maps the sharp s to a double s: a bytewise or even
    // simple-folding comparison would reject this pair.
    assert_eq!(KdcProxyController::check_realm("MASSE", Some("Ma\u{00DF}e")), Ok(()));
}

#[test]
fn realm_mismatch_is_rejected() {
    assert_eq!(
        KdcProxyController::check_realm("EXAMPLE.COM", Some("other.com")),
        Err(KdcProxyError::UnsupportedDomain)
    );
}

#[test]
fn missing_realm_is_bad_format() {
    assert_eq!(
        KdcProxyController::check_realm("EXAMPLE.COM", None),
        Err(KdcProxyError::BadFormat)
    );
}

#[test]
fn transport_selection() {
    assert_eq!(KdcProxyController::select_transport(b"tcp"), KdcTransport::Tcp);
    assert_eq!(KdcProxyController::select_transport(b"udp"), KdcTransport::Udp);
    assert_eq!(KdcProxyController::select_transport(b"kdc"), KdcTransport::Udp);
}

#[test]
fn udp_payload_drops_length_prefix() {
    assert_eq!(
        KdcProxyController::udp_payload(&[0x00, 0x00, 0x00, 0x02, 0x01, 0x02]),
        vec![0x01, 0x02]
    );
    assert_eq!(KdcProxyController::udp_payload(&[0x00, 0x00, 0x00, 0x00]), Vec::<u8>::new());
}

#[test]
fn kdc_reply_is_length_prefixed() {
    assert_eq!(
        KdcProxyController::frame_kdc_reply(&[0x09, 0x08, 0x07]),
        vec![0x00, 0x00, 0x00, 0x03, 0x09, 0x08, 0x07]
    );
    assert_eq!(KdcProxyController::frame_kdc_reply(&[]), vec![0x00, 0x00, 0x00, 0x00]);
}

#[test]
fn udp_reply_framing_matches_what_tcp_streams_carry() {
    // Over UDP the reply arrives bare; framing it yields exactly what the
    // same reply would look like when read off a TCP stream, so the proxy
    // answers identically over both transports.
    let reply = [0xAA, 0xBB, 0xCC, 0xDD];
    let framed = KdcProxyController::frame_kdc_reply(&reply);
    assert_eq!(framed.len(), reply.len() + 4);
    assert_eq!(&framed[4..], &reply);
    assert_eq!(KdcProxyController::udp_payload(&framed), reply.to_vec());
}
