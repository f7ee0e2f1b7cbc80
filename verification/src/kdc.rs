//! Decisions of the Kerberos proxy endpoint: whether a proxied message may go
//! to the caller's KDC at all, over which transport, and how the KDC's reply
//! is framed on the way back. The HTTP plumbing and the sockets stay in the
//! surrounding runtime; it asks these functions for every decision.

use vstd::prelude::*;
use crate::listener::spec_scheme_tcp;

verus! {

/// Characters of `s` after full Unicode case folding.
pub uninterp spec fn full_fold(s: Seq<char>) -> Seq<char>;

/// Relies on focaccia::unicode_full_case_eq: it returns true exactly when the
/// full Unicode case foldings of the two strings are the same character
/// sequence.
#[verifier::external_body]
fn unicode_case_eq(left: &str, right: &str) -> (r: bool)
    ensures
        r == (full_fold(left@) == full_fold(right@)),
{
    focaccia::unicode_full_case_eq(left, right)
}

/// Rejections the proxy decides on its own, before any KDC is contacted.
#[derive(Debug, Clone, Copy, PartialEq, Eq, Structural)]
pub enum KdcProxyError {
    /// The proxied message names no target realm.
    BadFormat,
    /// The message's realm is not the realm the caller's token was issued
    /// for.
    UnsupportedDomain,
}

/// Transport used to reach the KDC server.
#[derive(Debug, Clone, Copy, PartialEq, Eq, Structural)]
pub enum KdcTransport {
    Tcp,
    Udp,
}

/// Big-endian bytes of a 32-bit value.
pub open spec fn spec_u32_be(value: u32) -> Seq<u8> {
    seq![
        (value / 0x1000000) as u8,
        ((value / 0x10000) % 0x100) as u8,
        ((value / 0x100) % 0x100) as u8,
        (value % 0x100) as u8,
    ]
}

/// The Kerberos proxy endpoint.
pub struct KdcProxyController;

impl KdcProxyController {
    /// Admits a proxied message only where it names a target realm and that
    /// realm is, up to Unicode case folding, the realm of the caller's token.
    pub fn check_realm(token_realm: &str, target_domain: Option<&str>) -> (r: Result<
        (),
        KdcProxyError,
    >)
        ensures
            match r {
                Ok(()) => match target_domain {
                    Some(realm) => full_fold(token_realm@) == full_fold(realm@),
                    None => false,
                },
                Err(KdcProxyError::BadFormat) => target_domain is None,
                Err(KdcProxyError::UnsupportedDomain) => match target_domain {
                    Some(realm) => full_fold(token_realm@) != full_fold(realm@),
                    None => false,
                },
            },
    {
        match target_domain {
            None => Err(KdcProxyError::BadFormat),
            Some(realm) => {
                if unicode_case_eq(token_realm, realm) {
                    Ok(())
                } else {
                    Err(KdcProxyError::UnsupportedDomain)
                }
            },
        }
    }

    /// Picks the transport to the KDC server from the scheme (as ASCII bytes)
    /// of the token's KDC URL: `tcp` connects, everything else datagrams.
    pub fn select_transport(scheme: &[u8]) -> (r: KdcTransport)
        ensures
            r == KdcTransport::Tcp <==> scheme@ == spec_scheme_tcp(),
    {
        if scheme.len() == 3 && scheme[0] == 0x74u8 && scheme[1] == 0x63u8 && scheme[2] == 0x70u8 {
            assert(scheme@ =~= spec_scheme_tcp());
            KdcTransport::Tcp
        } else {
            assert(scheme@ != spec_scheme_tcp());
            KdcTransport::Udp
        }
    }

    /// The bytes sent to the KDC over UDP: the proxied message without its
    /// four-byte length prefix, which datagrams do not carry.
    pub fn udp_payload(message: &[u8]) -> (r: Vec<u8>)
        requires
            message@.len() >= 4,
        ensures
            r@ == message@.skip(4),
    {
        let mut out: Vec<u8> = Vec::new();
        let mut i: usize = 4;
        while i < message.len()
            invariant
                4 <= i <= message@.len(),
                out@ == message@.subrange(4, i as int),
            decreases message@.len() - i,
        {
            out.push(message[i]);
            assert(out@ =~= message@.subrange(4, i + 1));
            i = i + 1;
        }
        assert(out@ =~= message@.skip(4));
        out
    }

    /// A KDC reply reassembled for the proxy: the reply's length as four
    /// big-endian bytes, then the reply itself. Used for replies read from a
    /// TCP stream and for datagram replies alike.
    pub fn frame_kdc_reply(payload: &[u8]) -> (r: Vec<u8>)
        requires
            payload@.len() <= u32::MAX,
        ensures
            r@ == spec_u32_be(payload@.len() as u32) + payload@,
    {
        let len = payload.len() as u32;
        let mut out: Vec<u8> = Vec::new();
        out.push((len / 0x1000000) as u8);
        out.push(((len / 0x10000) % 0x100) as u8);
        out.push(((len / 0x100) % 0x100) as u8);
        out.push((len % 0x100) as u8);
        assert(out@ =~= spec_u32_be(len));
        crate::ber::append_bytes(&mut out, payload);
        out
    }
}

} // verus!
