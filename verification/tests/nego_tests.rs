use gateway_core::ber::DecodeError;
use gateway_core::nego::{
    parse_negotiation_request, parse_negotiation_response, parse_request_cookie,
    write_negotiation_request, write_negotiation_response, write_negotiation_response_error,
    NegotiationError, NegotiationFailureCodes, NegotiationRequestFlags, NegotiationResponseFlags,
    SecurityProtocol, X224TPDUType, NEGOTIATION_RESPONSE_LEN,
};

fn cookie_line(token: &[u8]) -> Vec<u8> {
    let mut line = b"Cookie: mstshash=".to_vec();
    line.extend_from_slice(token);
    line.extend_from_slice(b"\r\n");
    line
}

#[test]
fn request_with_data_block_round_trip() {
    let mut buf: Vec<u8> = Vec::new();
    let protocol = SecurityProtocol { bits: 3 };
    let flags = NegotiationRequestFlags::empty();
    write_negotiation_request(&mut buf, b"User", protocol, flags);

    let mut expected = cookie_line(b"User");
    expected.extend_from_slice(&[0x01, 0x00, 0x08, 0x00, 0x03, 0x00, 0x00, 0x00]);
    assert_eq!(buf, expected);

    let (cookie, parsed_flags, parsed_protocol) =
        parse_negotiation_request(X224TPDUType::ConnectionRequest, &buf).unwrap();
    assert_eq!(cookie, b"User".to_vec());
    assert_eq!(parsed_flags, flags);
    assert_eq!(parsed_protocol, protocol);
}

#[test]
fn request_without_data_block_defaults_to_rdp() {
    let mut buf: Vec<u8> = Vec::new();
    write_negotiation_request(
        &mut buf,
        b"User",
        SecurityProtocol::rdp(),
        NegotiationRequestFlags::empty(),
    );
    assert_eq!(buf, cookie_line(b"User"));

    let (cookie, flags, protocol) =
        parse_negotiation_request(X224TPDUType::ConnectionRequest, &buf).unwrap();
    assert_eq!(cookie, b"User".to_vec());
    assert_eq!(flags.bits, 0);
    assert_eq!(protocol.bits, 0);
}

#[test]
fn request_wrong_tpdu_type() {
    let buf = cookie_line(b"User");
    assert_eq!(
        parse_negotiation_request(X224TPDUType::Data, &buf),
        Err(DecodeError::InvalidData)
    );
}

#[test]
fn request_invalid_protocol_bits() {
    let mut buf = cookie_line(b"User");
    buf.extend_from_slice(&[0x01, 0x00, 0x08, 0x00, 0xFF, 0x00, 0x00, 0x00]);
    assert_eq!(
        parse_negotiation_request(X224TPDUType::ConnectionRequest, &buf),
        Err(DecodeError::InvalidData)
    );
}

#[test]
fn request_invalid_message_code() {
    let mut buf = cookie_line(b"User");
    buf.extend_from_slice(&[0x02, 0x00, 0x08, 0x00, 0x01, 0x00, 0x00, 0x00]);
    assert_eq!(
        parse_negotiation_request(X224TPDUType::ConnectionRequest, &buf),
        Err(DecodeError::InvalidData)
    );
}

#[test]
fn cookie_round_trip() {
    let buf = cookie_line(b"David");
    let (token, consumed) = parse_request_cookie(&buf).unwrap();
    assert_eq!(token, b"David".to_vec());
    assert_eq!(consumed, buf.len());
}

#[test]
fn cookie_bad_prefix() {
    assert_eq!(
        parse_request_cookie(b"Cookie: mstshash\x3B=x\r\n"),
        Err(DecodeError::InvalidData)
    );
    assert_eq!(parse_request_cookie(b"Cookie:"), Err(DecodeError::InvalidData));
}

#[test]
fn cookie_missing_line_feed() {
    assert_eq!(
        parse_request_cookie(b"Cookie: mstshash=David"),
        Err(DecodeError::UnexpectedEof)
    );
}

#[test]
fn response_round_trip() {
    let mut buf: Vec<u8> = Vec::new();
    let flags = NegotiationResponseFlags { bits: 0x02 };
    let protocol = SecurityProtocol::ssl();
    write_negotiation_response(&mut buf, flags, protocol);
    assert_eq!(buf, vec![0x02, 0x02, 0x08, 0x00, 0x01, 0x00, 0x00, 0x00]);
    assert_eq!(buf.len(), NEGOTIATION_RESPONSE_LEN);

    let (parsed_protocol, parsed_flags) =
        parse_negotiation_response(X224TPDUType::ConnectionConfirm, &buf).unwrap();
    assert_eq!(parsed_protocol, protocol);
    assert_eq!(parsed_flags, flags);
}

#[test]
fn response_failure_round_trip() {
    let mut buf: Vec<u8> = Vec::new();
    write_negotiation_response_error(&mut buf, NegotiationFailureCodes::SSLRequiredByServer);
    assert_eq!(buf, vec![0x03, 0x00, 0x08, 0x00, 0x01, 0x00, 0x00, 0x00]);

    assert_eq!(
        parse_negotiation_response(X224TPDUType::ConnectionConfirm, &buf),
        Err(NegotiationError::NegotiationFailure(
            NegotiationFailureCodes::SSLRequiredByServer
        ))
    );
}

#[test]
fn response_wrong_tpdu_type() {
    let buf = vec![0x02u8, 0x00, 0x08, 0x00, 0x01, 0x00, 0x00, 0x00];
    assert_eq!(
        parse_negotiation_response(X224TPDUType::ConnectionRequest, &buf),
        Err(NegotiationError::IOError(DecodeError::InvalidData))
    );
}

#[test]
fn response_truncated() {
    let buf = vec![0x02u8, 0x00, 0x08, 0x00];
    assert_eq!(
        parse_negotiation_response(X224TPDUType::ConnectionConfirm, &buf),
        Err(NegotiationError::IOError(DecodeError::UnexpectedEof))
    );
}

#[test]
fn response_invalid_flags() {
    let buf = vec![0x02u8, 0xE0, 0x08, 0x00, 0x01, 0x00, 0x00, 0x00];
    assert_eq!(
        parse_negotiation_response(X224TPDUType::ConnectionConfirm, &buf),
        Err(NegotiationError::IOError(DecodeError::InvalidData))
    );
}

#[test]
fn response_unknown_failure_code() {
    let buf = vec![0x03u8, 0x00, 0x08, 0x00, 0x07, 0x00, 0x00, 0x00];
    assert_eq!(
        parse_negotiation_response(X224TPDUType::ConnectionConfirm, &buf),
        Err(NegotiationError::IOError(DecodeError::InvalidData))
    );
}

#[test]
fn failure_codes_round_trip() {
    let codes = [
        NegotiationFailureCodes::SSLRequiredByServer,
        NegotiationFailureCodes::SSLNotAllowedByServer,
        NegotiationFailureCodes::SSLCertNotOnServer,
        NegotiationFailureCodes::InconsistentFlags,
        NegotiationFailureCodes::HybridRequiredByServer,
        NegotiationFailureCodes::SSLWithUserAuthRequiredByServer,
    ];
    for (i, code) in codes.iter().enumerate() {
        assert_eq!(code.to_u32(), (i + 1) as u32);
        assert_eq!(NegotiationFailureCodes::from_u32((i + 1) as u32), Some(*code));
    }
    assert_eq!(NegotiationFailureCodes::from_u32(0), None);
    assert_eq!(NegotiationFailureCodes::from_u32(7), None);
}

#[test]
fn security_protocol_bit_sets() {
    assert_eq!(SecurityProtocol::rdp().bits(), 0);
    assert_eq!(SecurityProtocol::ssl().bits(), 1);
    assert_eq!(SecurityProtocol::hybrid().bits(), 2);
    assert_eq!(SecurityProtocol::rdstls().bits(), 4);
    assert_eq!(SecurityProtocol::hybrid_ex().bits(), 8);
    assert_eq!(SecurityProtocol::from_bits(0x0F), Some(SecurityProtocol { bits: 0x0F }));
    assert_eq!(SecurityProtocol::from_bits(0x10), None);
    assert_eq!(NegotiationRequestFlags::from_bits(0x0B), Some(NegotiationRequestFlags { bits: 0x0B }));
    assert_eq!(NegotiationRequestFlags::from_bits(0x04), None);
    assert_eq!(NegotiationResponseFlags::from_bits(0x1F), Some(NegotiationResponseFlags { bits: 0x1F }));
    assert_eq!(NegotiationResponseFlags::from_bits(0x20), None);
}

#[test]
fn negotiation_error_from_decode_error() {
    let e: NegotiationError = NegotiationError::from(DecodeError::UnexpectedEof);
    assert_eq!(e, NegotiationError::IOError(DecodeError::UnexpectedEof));
}
