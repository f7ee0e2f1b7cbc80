//! RDP connection negotiation messages: the cookie-bearing negotiation
//! request, the negotiation response and the negotiation failure, encoded and
//! decoded over byte buffers.
//!
//! Writers append to a `Vec<u8>`; parsers take the bytes that followed the
//! X224 header, together with the TPDU type that header carried.

use vstd::prelude::*;
use crate::ber::DecodeError;

verus! {

/// Whole length of a negotiation request TPDU's variable part.
pub const NEGOTIATION_REQUEST_LEN: usize = 27;

/// Whole length of a negotiation response TPDU's variable part.
pub const NEGOTIATION_RESPONSE_LEN: usize = 8;

/// Length field every negotiation data block carries.
const RDP_NEG_DATA_LENGTH: u16 = 8;

/// Type of an X224 transport protocol data unit.
#[derive(Debug, Clone, Copy, PartialEq, Eq, Structural)]
pub enum X224TPDUType {
    ConnectionRequest,
    ConnectionConfirm,
    DisconnectRequest,
    Data,
    Error,
}

/// Set of security protocols offered or selected during negotiation, as a
/// bit set: 1 is SSL, 2 the hybrid protocol, 4 RDSTLS, 8 the extended hybrid
/// protocol, and the empty set is classic RDP security.
#[derive(Debug, Clone, Copy, PartialEq, Eq, Structural)]
pub struct SecurityProtocol {
    pub bits: u32,
}

impl SecurityProtocol {
    /// Whether `bits` only holds known protocol flags.
    pub open spec fn spec_valid(bits: u32) -> bool {
        bits & 0xF == bits
    }

    /// The set with no flags: classic RDP security.
    pub fn rdp() -> (r: SecurityProtocol)
        ensures
            r.bits == 0,
    {
        SecurityProtocol { bits: 0 }
    }

    /// The SSL flag.
    pub fn ssl() -> (r: SecurityProtocol)
        ensures
            r.bits == 1,
    {
        SecurityProtocol { bits: 1 }
    }

    /// The hybrid-protocol flag.
    pub fn hybrid() -> (r: SecurityProtocol)
        ensures
            r.bits == 2,
    {
        SecurityProtocol { bits: 2 }
    }

    /// The RDSTLS flag.
    pub fn rdstls() -> (r: SecurityProtocol)
        ensures
            r.bits == 4,
    {
        SecurityProtocol { bits: 4 }
    }

    /// The extended hybrid-protocol flag.
    pub fn hybrid_ex() -> (r: SecurityProtocol)
        ensures
            r.bits == 8,
    {
        SecurityProtocol { bits: 8 }
    }

    /// Accepts `bits` only where every set bit names a known protocol.
    pub fn from_bits(bits: u32) -> (r: Option<SecurityProtocol>)
        ensures
            r == if Self::spec_valid(bits) {
                Some(SecurityProtocol { bits })
            } else {
                None::<SecurityProtocol>
            },
    {
        if bits & 0xF == bits {
            Some(SecurityProtocol { bits })
        } else {
            None
        }
    }

    /// The raw bit set.
    pub fn bits(&self) -> (r: u32)
        ensures
            r == self.bits,
    {
        self.bits
    }
}

/// Flags of a negotiation request, as a bit set: 1 asks for restricted admin
/// mode, 2 for redirected authentication, 8 says correlation info follows.
#[derive(Debug, Clone, Copy, PartialEq, Eq, Structural)]
pub struct NegotiationRequestFlags {
    pub bits: u8,
}

impl NegotiationRequestFlags {
    /// Whether `bits` only holds known request flags.
    pub open spec fn spec_valid(bits: u8) -> bool {
        bits & 0x0B == bits
    }

    /// The empty set of flags.
    pub fn empty() -> (r: NegotiationRequestFlags)
        ensures
            r.bits == 0,
    {
        NegotiationRequestFlags { bits: 0 }
    }

    /// Accepts `bits` only where every set bit names a known flag.
    pub fn from_bits(bits: u8) -> (r: Option<NegotiationRequestFlags>)
        ensures
            r == if Self::spec_valid(bits) {
                Some(NegotiationRequestFlags { bits })
            } else {
                None::<NegotiationRequestFlags>
            },
    {
        if bits & 0x0B == bits {
            Some(NegotiationRequestFlags { bits })
        } else {
            None
        }
    }

    /// The raw bit set.
    pub fn bits(&self) -> (r: u8)
        ensures
            r == self.bits,
    {
        self.bits
    }
}

/// Flags of a negotiation response, as a bit set: 1 extended client data, 2
/// the graphics pipeline extension, 4 a reserved bit, 8 restricted admin
/// mode, 16 redirected authentication.
#[derive(Debug, Clone, Copy, PartialEq, Eq, Structural)]
pub struct NegotiationResponseFlags {
    pub bits: u8,
}

impl NegotiationResponseFlags {
    /// Whether `bits` only holds known response flags.
    pub open spec fn spec_valid(bits: u8) -> bool {
        bits & 0x1F == bits
    }

    /// The empty set of flags.
    pub fn empty() -> (r: NegotiationResponseFlags)
        ensures
            r.bits == 0,
    {
        NegotiationResponseFlags { bits: 0 }
    }

    /// Accepts `bits` only where every set bit names a known flag.
    pub fn from_bits(bits: u8) -> (r: Option<NegotiationResponseFlags>)
        ensures
            r == if Self::spec_valid(bits) {
                Some(NegotiationResponseFlags { bits })
            } else {
                None::<NegotiationResponseFlags>
            },
    {
        if bits & 0x1F == bits {
            Some(NegotiationResponseFlags { bits })
        } else {
            None
        }
    }

    /// The raw bit set.
    pub fn bits(&self) -> (r: u8)
        ensures
            r == self.bits,
    {
        self.bits
    }
}

/// Why a server refused the negotiation.
#[derive(Copy, Clone, Debug, PartialEq, Eq, Structural)]
pub enum NegotiationFailureCodes {
    SSLRequiredByServer,
    SSLNotAllowedByServer,
    SSLCertNotOnServer,
    InconsistentFlags,
    HybridRequiredByServer,
    SSLWithUserAuthRequiredByServer,
}

/// Wire code of a failure cause.
pub open spec fn spec_failure_code(code: NegotiationFailureCodes) -> u32 {
    match code {
        NegotiationFailureCodes::SSLRequiredByServer => 1,
        NegotiationFailureCodes::SSLNotAllowedByServer => 2,
        NegotiationFailureCodes::SSLCertNotOnServer => 3,
        NegotiationFailureCodes::InconsistentFlags => 4,
        NegotiationFailureCodes::HybridRequiredByServer => 5,
        NegotiationFailureCodes::SSLWithUserAuthRequiredByServer => 6,
    }
}

/// The failure cause a wire code names, if any: the inverse of
/// `spec_failure_code`.
pub open spec fn spec_failure_from_code(value: u32) -> Option<NegotiationFailureCodes> {
    if value == 1 {
        Some(NegotiationFailureCodes::SSLRequiredByServer)
    } else if value == 2 {
        Some(NegotiationFailureCodes::SSLNotAllowedByServer)
    } else if value == 3 {
        Some(NegotiationFailureCodes::SSLCertNotOnServer)
    } else if value == 4 {
        Some(NegotiationFailureCodes::InconsistentFlags)
    } else if value == 5 {
        Some(NegotiationFailureCodes::HybridRequiredByServer)
    } else if value == 6 {
        Some(NegotiationFailureCodes::SSLWithUserAuthRequiredByServer)
    } else {
        None
    }
}

impl NegotiationFailureCodes {
    /// The wire code of this cause.
    pub fn to_u32(&self) -> (r: u32)
        ensures
            r == spec_failure_code(*self),
    {
        match self {
            NegotiationFailureCodes::SSLRequiredByServer => 1,
            NegotiationFailureCodes::SSLNotAllowedByServer => 2,
            NegotiationFailureCodes::SSLCertNotOnServer => 3,
            NegotiationFailureCodes::InconsistentFlags => 4,
            NegotiationFailureCodes::HybridRequiredByServer => 5,
            NegotiationFailureCodes::SSLWithUserAuthRequiredByServer => 6,
        }
    }

    /// The cause a wire code names, if any.
    pub fn from_u32(value: u32) -> (r: Option<NegotiationFailureCodes>)
        ensures
            r == spec_failure_from_code(value),
    {
        if value == 1 {
            Some(NegotiationFailureCodes::SSLRequiredByServer)
        } else if value == 2 {
            Some(NegotiationFailureCodes::SSLNotAllowedByServer)
        } else if value == 3 {
            Some(NegotiationFailureCodes::SSLCertNotOnServer)
        } else if value == 4 {
            Some(NegotiationFailureCodes::InconsistentFlags)
        } else if value == 5 {
            Some(NegotiationFailureCodes::HybridRequiredByServer)
        } else if value == 6 {
            Some(NegotiationFailureCodes::SSLWithUserAuthRequiredByServer)
        } else {
            None
        }
    }
}

/// Failure of a negotiation exchange: either the bytes were not a valid
/// message, or the peer answered with a failure cause.
#[derive(Debug, Clone, Copy, PartialEq, Eq, Structural)]
pub enum NegotiationError {
    /// The stream ended early or held an invalid message.
    IOError(DecodeError),
    /// The server answered the request with a failure.
    NegotiationFailure(NegotiationFailureCodes),
}

impl From<DecodeError> for NegotiationError {
    fn from(e: DecodeError) -> (r: NegotiationError) {
        NegotiationError::IOError(e)
    }
}

impl vstd::std_specs::convert::FromSpecImpl<DecodeError> for NegotiationError {
    open spec fn obeys_from_spec() -> bool {
        true
    }

    open spec fn from_spec(e: DecodeError) -> NegotiationError {
        NegotiationError::IOError(e)
    }
}

/// Kind of negotiation message.
#[derive(Debug, Clone, Copy, PartialEq, Eq, Structural)]
pub enum NegotiationMessage {
    Request,
    Response,
    Failure,
}

/// Wire code of a negotiation message kind.
pub open spec fn spec_message_code(message: NegotiationMessage) -> u8 {
    match message {
        NegotiationMessage::Request => 1,
        NegotiationMessage::Response => 2,
        NegotiationMessage::Failure => 3,
    }
}

/// Little-endian bytes of a 16-bit value.
pub open spec fn spec_u16_le(value: u16) -> Seq<u8> {
    seq![(value % 0x100) as u8, (value / 0x100) as u8]
}

/// Little-endian bytes of a 32-bit value.
pub open spec fn spec_u32_le(value: u32) -> Seq<u8> {
    seq![
        (value % 0x100) as u8,
        ((value / 0x100) % 0x100) as u8,
        ((value / 0x10000) % 0x100) as u8,
        (value / 0x1000000) as u8,
    ]
}

/// A negotiation data block: message code, flags, a fixed length of 8, and a
/// 32-bit payload, all little-endian.
pub open spec fn spec_negotiation_data(message: NegotiationMessage, flags: u8, data: u32) -> Seq<
    u8,
> {
    seq![spec_message_code(message), flags] + spec_u16_le(8) + spec_u32_le(data)
}

fn write_negotiation_data(cursor: &mut Vec<u8>, message: NegotiationMessage, flags: u8, data: u32)
    ensures
        final(cursor)@ == old(cursor)@ + spec_negotiation_data(message, flags, data),
{
    let code: u8 = match message {
        NegotiationMessage::Request => 1,
        NegotiationMessage::Response => 2,
        NegotiationMessage::Failure => 3,
    };
    cursor.push(code);
    cursor.push(flags);
    cursor.push((RDP_NEG_DATA_LENGTH % 0x100) as u8);
    cursor.push((RDP_NEG_DATA_LENGTH / 0x100) as u8);
    cursor.push((data % 0x100) as u8);
    cursor.push(((data / 0x100) % 0x100) as u8);
    cursor.push(((data / 0x10000) % 0x100) as u8);
    cursor.push((data / 0x1000000) as u8);
}

/// The ASCII bytes of `Cookie: mstshash=`, which every negotiation request's
/// cookie line starts with.
pub open spec fn spec_cookie_prefix() -> Seq<u8> {
    seq![
        0x43u8,
        0x6Fu8,
        0x6Fu8,
        0x6Bu8,
        0x69u8,
        0x65u8,
        0x3Au8,
        0x20u8,
        0x6Du8,
        0x73u8,
        0x74u8,
        0x73u8,
        0x68u8,
        0x61u8,
        0x73u8,
        0x68u8,
        0x3Du8,
    ]
}

/// Encoding of a negotiation request: the cookie line, then a request data
/// block whenever a protocol beyond classic RDP security is offered.
pub open spec fn spec_negotiation_request(
    cookie: Seq<u8>,
    protocol: SecurityProtocol,
    flags: NegotiationRequestFlags,
) -> Seq<u8> {
    let line = spec_cookie_prefix() + cookie + seq![0x0Du8, 0x0Au8];
    if protocol.bits > 0 {
        line + spec_negotiation_data(NegotiationMessage::Request, flags.bits, protocol.bits)
    } else {
        line
    }
}

/// Appends a negotiation request carrying `cookie` (the identity token of the
/// cookie line, as bytes).
pub fn write_negotiation_request(
    buffer: &mut Vec<u8>,
    cookie: &[u8],
    protocol: SecurityProtocol,
    flags: NegotiationRequestFlags,
)
    ensures
        final(buffer)@ == old(buffer)@ + spec_negotiation_request(cookie@, protocol, flags),
{
    buffer.push(0x43);
    buffer.push(0x6F);
    buffer.push(0x6F);
    buffer.push(0x6B);
    buffer.push(0x69);
    buffer.push(0x65);
    buffer.push(0x3A);
    buffer.push(0x20);
    buffer.push(0x6D);
    buffer.push(0x73);
    buffer.push(0x74);
    buffer.push(0x73);
    buffer.push(0x68);
    buffer.push(0x61);
    buffer.push(0x73);
    buffer.push(0x68);
    buffer.push(0x3D);
    assert(buffer@ =~= old(buffer)@ + spec_cookie_prefix());
    crate::ber::append_bytes(buffer, cookie);
    buffer.push(0x0D);
    buffer.push(0x0A);
    assert(buffer@ =~= old(buffer)@ + spec_cookie_prefix() + cookie@ + seq![0x0Du8, 0x0Au8]);
    if protocol.bits() > 0 {
        write_negotiation_data(buffer, NegotiationMessage::Request, flags.bits, protocol.bits);
    }
}

/// Index of the first line feed in `s` at or after `from`, if any.
pub open spec fn spec_find_lf(s: Seq<u8>, from: int) -> Option<int>
    decreases s.len() - from,
{
    if from < 0 || from >= s.len() {
        None
    } else if s[from] == 0x0A {
        Some(from)
    } else {
        spec_find_lf(s, from + 1)
    }
}

proof fn lemma_find_lf_some(s: Seq<u8>, from: int, i: int)
    requires
        0 <= from <= i < s.len(),
        s[i] == 0x0A,
        forall|j: int| from <= j < i ==> s[j] != 0x0A,
    ensures
        spec_find_lf(s, from) == Some(i),
    decreases i - from,
{
    if from < i {
        lemma_find_lf_some(s, from + 1, i);
    }
}

proof fn lemma_find_lf_none(s: Seq<u8>, from: int)
    requires
        0 <= from,
        forall|j: int| from <= j < s.len() ==> s[j] != 0x0A,
    ensures
        spec_find_lf(s, from) == None::<int>,
    decreases s.len() - from,
{
    if from < s.len() {
        lemma_find_lf_none(s, from + 1);
    }
}

/// Result of decoding a cookie line from the front of `s`: the identity token
/// between `Cookie: mstshash=` and the line's last two bytes, and how many
/// bytes the whole line took. The byte before the line feed (normally the
/// carriage return) is dropped whatever it is; a line feed right after the
/// prefix yields an empty token.
pub open spec fn spec_parse_request_cookie(s: Seq<u8>) -> Result<(Seq<u8>, int), DecodeError> {
    if s.len() < 17 || s.take(17) != spec_cookie_prefix() {
        Err(DecodeError::InvalidData)
    } else {
        match spec_find_lf(s, 17) {
            None => Err(DecodeError::UnexpectedEof),
            Some(i) => Ok(
                (
                    s.subrange(
                        17,
                        if i >= 18 {
                            i - 1
                        } else {
                            17
                        },
                    ),
                    i + 1,
                ),
            ),
        }
    }
}

/// Copies `buf[from..to]` into a fresh vector.
fn copy_range(buf: &[u8], from: usize, to: usize) -> (r: Vec<u8>)
    requires
        from <= to <= buf@.len(),
    ensures
        r@ == buf@.subrange(from as int, to as int),
{
    let mut out: Vec<u8> = Vec::new();
    let mut i: usize = from;
    while i < to
        invariant
            from <= i <= to <= buf@.len(),
            out@ == buf@.subrange(from as int, i as int),
        decreases to - i,
    {
        out.push(buf[i]);
        assert(out@ =~= buf@.subrange(from as int, i + 1));
        i = i + 1;
    }
    out
}

/// Decodes the cookie line a negotiation request starts with, returning the
/// identity token and the position of the byte after the line feed.
pub fn parse_request_cookie(buf: &[u8]) -> (r: Result<(Vec<u8>, usize), DecodeError>)
    ensures
        match r {
            Ok(v) => 17 <= v.1 <= buf@.len() && spec_parse_request_cookie(buf@) == Ok::<
                (Seq<u8>, int),
                DecodeError,
            >((v.0@, v.1 as int)),
            Err(e) => spec_parse_request_cookie(buf@) == Err::<(Seq<u8>, int), DecodeError>(e),
        },
{
    if buf.len() < 17 {
        return Err(DecodeError::InvalidData);
    }
    let prefix_ok = buf[0] == 0x43 && buf[1] == 0x6F && buf[2] == 0x6F && buf[3] == 0x6B && buf[4]
        == 0x69 && buf[5] == 0x65 && buf[6] == 0x3A && buf[7] == 0x20 && buf[8] == 0x6D && buf[9]
        == 0x73 && buf[10] == 0x74 && buf[11] == 0x73 && buf[12] == 0x68 && buf[13] == 0x61
        && buf[14] == 0x73 && buf[15] == 0x68 && buf[16] == 0x3D;
    if !prefix_ok {
        assert(buf@.take(17) != spec_cookie_prefix()) by {
            if buf@.take(17) == spec_cookie_prefix() {
                assert(buf@.take(17)[0] == buf@[0]);
                assert(buf@.take(17)[1] == buf@[1]);
                assert(buf@.take(17)[2] == buf@[2]);
                assert(buf@.take(17)[3] == buf@[3]);
                assert(buf@.take(17)[4] == buf@[4]);
                assert(buf@.take(17)[5] == buf@[5]);
                assert(buf@.take(17)[6] == buf@[6]);
                assert(buf@.take(17)[7] == buf@[7]);
                assert(buf@.take(17)[8] == buf@[8]);
                assert(buf@.take(17)[9] == buf@[9]);
                assert(buf@.take(17)[10] == buf@[10]);
                assert(buf@.take(17)[11] == buf@[11]);
                assert(buf@.take(17)[12] == buf@[12]);
                assert(buf@.take(17)[13] == buf@[13]);
                assert(buf@.take(17)[14] == buf@[14]);
                assert(buf@.take(17)[15] == buf@[15]);
                assert(buf@.take(17)[16] == buf@[16]);
            }
        }
        return Err(DecodeError::InvalidData);
    }
    assert(buf@.take(17) =~= spec_cookie_prefix());
    let mut i: usize = 17;
    while i < buf.len() && buf[i] != 0x0A
        invariant
            17 <= i <= buf@.len(),
            forall|j: int| 17 <= j < i ==> buf@[j] != 0x0A,
        decreases buf@.len() - i,
    {
        i = i + 1;
    }
    if i >= buf.len() {
        proof {
            lemma_find_lf_none(buf@, 17);
        }
        return Err(DecodeError::UnexpectedEof);
    }
    proof {
        lemma_find_lf_some(buf@, 17, i as int);
    }
    let end: usize = if i >= 18 {
        i - 1
    } else {
        17
    };
    let cookie = copy_range(buf, 17, end);
    Ok((cookie, i + 1))
}

/// Little-endian value of the four bytes of `s` at `from`.
pub open spec fn spec_le32_value(s: Seq<u8>, from: int) -> int {
    s[from] + s[from + 1] * 0x100 + s[from + 2] * 0x10000 + s[from + 3] * 0x1000000
}

/// Result of decoding a negotiation request that followed an X224 header of
/// type `code`: the cookie's identity token, the request flags and the
/// offered protocols. A request whose data block is absent (fewer than eight
/// bytes after the cookie line) offers classic RDP security and no flags.
pub open spec fn spec_parse_negotiation_request(code: X224TPDUType, s: Seq<u8>) -> Result<
    (Seq<u8>, NegotiationRequestFlags, SecurityProtocol),
    DecodeError,
> {
    if code != X224TPDUType::ConnectionRequest {
        Err(DecodeError::InvalidData)
    } else {
        match spec_parse_request_cookie(s) {
            Err(e) => Err(e),
            Ok((cookie, consumed)) => {
                let rest = s.skip(consumed);
                if rest.len() >= 8 {
                    if rest[0] != spec_message_code(NegotiationMessage::Request) {
                        Err(DecodeError::InvalidData)
                    } else if !NegotiationRequestFlags::spec_valid(rest[1]) {
                        Err(DecodeError::InvalidData)
                    } else if !SecurityProtocol::spec_valid(spec_le32_value(rest, 4) as u32) {
                        Err(DecodeError::InvalidData)
                    } else {
                        Ok(
                            (
                                cookie,
                                NegotiationRequestFlags { bits: rest[1] },
                                SecurityProtocol { bits: spec_le32_value(rest, 4) as u32 },
                            ),
                        )
                    }
                } else {
                    Ok(
                        (
                            cookie,
                            NegotiationRequestFlags { bits: 0 },
                            SecurityProtocol { bits: 0 },
                        ),
                    )
                }
            },
        }
    }
}

/// Reads the little-endian 32-bit value at `from`.
fn read_u32_le(buf: &[u8], from: usize) -> (r: u32)
    requires
        from + 4 <= buf@.len(),
    ensures
        r == spec_le32_value(buf@, from as int),
{
    (buf[from] as u32) + (buf[from + 1] as u32) * 0x100 + (buf[from + 2] as u32) * 0x10000 + (buf[
        from + 3
    ] as u32) * 0x1000000
}

/// Decodes a negotiation request that followed an X224 header of type `code`.
pub fn parse_negotiation_request(code: X224TPDUType, buf: &[u8]) -> (r: Result<
    (Vec<u8>, NegotiationRequestFlags, SecurityProtocol),
    DecodeError,
>)
    ensures
        match r {
            Ok(v) => spec_parse_negotiation_request(code, buf@) == Ok::<
                (Seq<u8>, NegotiationRequestFlags, SecurityProtocol),
                DecodeError,
            >((v.0@, v.1, v.2)),
            Err(e) => spec_parse_negotiation_request(code, buf@) == Err::<
                (Seq<u8>, NegotiationRequestFlags, SecurityProtocol),
                DecodeError,
            >(e),
        },
{
    if code != X224TPDUType::ConnectionRequest {
        return Err(DecodeError::InvalidData);
    }
    let (cookie, consumed) = match parse_request_cookie(buf) {
        Ok(v) => v,
        Err(e) => {
            return Err(e);
        },
    };
    if buf.len() - consumed >= 8 {
        let ghost rest = buf@.skip(consumed as int);
        assert(rest[0] == buf@[consumed as int]);
        if buf[consumed] != 1 {
            return Err(DecodeError::InvalidData);
        }
        let flag_bits = buf[consumed + 1];
        if !(flag_bits & 0x0B == flag_bits) {
            return Err(DecodeError::InvalidData);
        }
        let protocol_bits = read_u32_le(buf, consumed + 4);
        assert(spec_le32_value(rest, 4) == spec_le32_value(buf@, consumed + 4));
        if !(protocol_bits & 0xF == protocol_bits) {
            return Err(DecodeError::InvalidData);
        }
        Ok(
            (
                cookie,
                NegotiationRequestFlags { bits: flag_bits },
                SecurityProtocol { bits: protocol_bits },
            ),
        )
    } else {
        Ok((cookie, NegotiationRequestFlags { bits: 0 }, SecurityProtocol { bits: 0 }))
    }
}

/// Result of decoding a negotiation response that followed an X224 header of
/// type `code`: the selected protocols and the response flags on success, the
/// server's failure cause where it refused, and the exact reason any invalid
/// stream was rejected.
pub open spec fn spec_parse_negotiation_response(code: X224TPDUType, s: Seq<u8>) -> Result<
    (SecurityProtocol, NegotiationResponseFlags),
    NegotiationError,
> {
    if code != X224TPDUType::ConnectionConfirm {
        Err(NegotiationError::IOError(DecodeError::InvalidData))
    } else if s.len() < 1 {
        Err(NegotiationError::IOError(DecodeError::UnexpectedEof))
    } else if !(s[0] == 1 || s[0] == 2 || s[0] == 3) {
        Err(NegotiationError::IOError(DecodeError::InvalidData))
    } else if s.len() < 2 {
        Err(NegotiationError::IOError(DecodeError::UnexpectedEof))
    } else if !NegotiationResponseFlags::spec_valid(s[1]) {
        Err(NegotiationError::IOError(DecodeError::InvalidData))
    } else if s.len() < 4 {
        Err(NegotiationError::IOError(DecodeError::UnexpectedEof))
    } else if s[0] == 2 {
        if s.len() < 8 {
            Err(NegotiationError::IOError(DecodeError::UnexpectedEof))
        } else if !SecurityProtocol::spec_valid(spec_le32_value(s, 4) as u32) {
            Err(NegotiationError::IOError(DecodeError::InvalidData))
        } else {
            Ok(
                (
                    SecurityProtocol { bits: spec_le32_value(s, 4) as u32 },
                    NegotiationResponseFlags { bits: s[1] },
                ),
            )
        }
    } else if s[0] == 3 {
        if s.len() < 8 {
            Err(NegotiationError::IOError(DecodeError::UnexpectedEof))
        } else {
            match spec_failure_from_code(spec_le32_value(s, 4) as u32) {
                Some(error) => Err(NegotiationError::NegotiationFailure(error)),
                None => Err(NegotiationError::IOError(DecodeError::InvalidData)),
            }
        }
    } else {
        Err(NegotiationError::IOError(DecodeError::InvalidData))
    }
}

/// Decodes a negotiation response that followed an X224 header of type
/// `code`. A well-formed failure message comes back as the server's failure
/// cause; every malformed stream comes back as the reason it was rejected.
pub fn parse_negotiation_response(code: X224TPDUType, buf: &[u8]) -> (r: Result<
    (SecurityProtocol, NegotiationResponseFlags),
    NegotiationError,
>)
    ensures
        r == spec_parse_negotiation_response(code, buf@),
{
    if code != X224TPDUType::ConnectionConfirm {
        return Err(NegotiationError::IOError(DecodeError::InvalidData));
    }
    if buf.len() < 1 {
        return Err(NegotiationError::IOError(DecodeError::UnexpectedEof));
    }
    let message = buf[0];
    if !(message == 1 || message == 2 || message == 3) {
        return Err(NegotiationError::IOError(DecodeError::InvalidData));
    }
    if buf.len() < 2 {
        return Err(NegotiationError::IOError(DecodeError::UnexpectedEof));
    }
    let flag_bits = buf[1];
    if !(flag_bits & 0x1F == flag_bits) {
        return Err(NegotiationError::IOError(DecodeError::InvalidData));
    }
    if buf.len() < 4 {
        return Err(NegotiationError::IOError(DecodeError::UnexpectedEof));
    }
    if message == 2 {
        if buf.len() < 8 {
            return Err(NegotiationError::IOError(DecodeError::UnexpectedEof));
        }
        let protocol_bits = read_u32_le(buf, 4);
        if !(protocol_bits & 0xF == protocol_bits) {
            return Err(NegotiationError::IOError(DecodeError::InvalidData));
        }
        Ok(
            (
                SecurityProtocol { bits: protocol_bits },
                NegotiationResponseFlags { bits: flag_bits },
            ),
        )
    } else if message == 3 {
        if buf.len() < 8 {
            return Err(NegotiationError::IOError(DecodeError::UnexpectedEof));
        }
        let value = read_u32_le(buf, 4);
        match NegotiationFailureCodes::from_u32(value) {
            Some(error) => Err(NegotiationError::NegotiationFailure(error)),
            None => Err(NegotiationError::IOError(DecodeError::InvalidData)),
        }
    } else {
        Err(NegotiationError::IOError(DecodeError::InvalidData))
    }
}

/// Reading back the little-endian bytes of a 32-bit value gives the value.
proof fn lemma_u32_le_round_trip(value: u32)
    ensures
        spec_le32_value(spec_u32_le(value), 0) == value,
{
    assert(value == (value % 0x100) + ((value / 0x100) % 0x100) * 0x100 + ((value / 0x10000)
        % 0x100) * 0x10000 + (value / 0x1000000) * 0x1000000) by (bit_vector);
}

/// Parsing a freshly written negotiation response yields back exactly the
/// flags and protocols that were written.
pub proof fn lemma_negotiation_response_round_trip(
    flags: NegotiationResponseFlags,
    protocol: SecurityProtocol,
)
    requires
        NegotiationResponseFlags::spec_valid(flags.bits),
        SecurityProtocol::spec_valid(protocol.bits),
    ensures
        spec_parse_negotiation_response(
            X224TPDUType::ConnectionConfirm,
            spec_negotiation_data(NegotiationMessage::Response, flags.bits, protocol.bits),
        ) == Ok::<(SecurityProtocol, NegotiationResponseFlags), NegotiationError>(
            (protocol, flags),
        ),
{
    let s = spec_negotiation_data(NegotiationMessage::Response, flags.bits, protocol.bits);
    lemma_u32_le_round_trip(protocol.bits);
    assert(spec_le32_value(s, 4) == spec_le32_value(spec_u32_le(protocol.bits), 0));
}

/// Parsing a freshly written negotiation failure yields back exactly the
/// failure cause that was written.
pub proof fn lemma_negotiation_failure_round_trip(error: NegotiationFailureCodes)
    ensures
        spec_parse_negotiation_response(
            X224TPDUType::ConnectionConfirm,
            spec_negotiation_data(NegotiationMessage::Failure, 0, spec_failure_code(error)),
        ) == Err::<(SecurityProtocol, NegotiationResponseFlags), NegotiationError>(
            NegotiationError::NegotiationFailure(error),
        ),
{
    let s = spec_negotiation_data(NegotiationMessage::Failure, 0, spec_failure_code(error));
    assert(0u8 & 0x1F == 0u8) by (bit_vector);
    lemma_u32_le_round_trip(spec_failure_code(error));
    assert(spec_le32_value(s, 4) == spec_le32_value(spec_u32_le(spec_failure_code(error)), 0));
    assert(spec_failure_from_code(spec_failure_code(error)) == Some(error)) by {
        match error {
            NegotiationFailureCodes::SSLRequiredByServer => {},
            NegotiationFailureCodes::SSLNotAllowedByServer => {},
            NegotiationFailureCodes::SSLCertNotOnServer => {},
            NegotiationFailureCodes::InconsistentFlags => {},
            NegotiationFailureCodes::HybridRequiredByServer => {},
            NegotiationFailureCodes::SSLWithUserAuthRequiredByServer => {},
        }
    }
}

/// Parsing a freshly written negotiation request yields back exactly the
/// cookie token, flags and protocols that were written — and a request
/// offering only classic RDP security comes back with empty flags, since its
/// data block is never written.
pub proof fn lemma_negotiation_request_round_trip(
    cookie: Seq<u8>,
    protocol: SecurityProtocol,
    flags: NegotiationRequestFlags,
)
    requires
        SecurityProtocol::spec_valid(protocol.bits),
        NegotiationRequestFlags::spec_valid(flags.bits),
        forall|i: int| 0 <= i < cookie.len() ==> cookie[i] != 0x0A,
    ensures
        spec_parse_negotiation_request(
            X224TPDUType::ConnectionRequest,
            spec_negotiation_request(cookie, protocol, flags),
        ) == Ok::<(Seq<u8>, NegotiationRequestFlags, SecurityProtocol), DecodeError>(
            if protocol.bits > 0 {
                (cookie, flags, protocol)
            } else {
                (cookie, NegotiationRequestFlags { bits: 0 }, SecurityProtocol { bits: 0 })
            },
        ),
{
    let s = spec_negotiation_request(cookie, protocol, flags);
    assert(s.take(17) =~= spec_cookie_prefix());
    let lf = 17 + cookie.len() as int + 1;
    assert(s[lf] == 0x0A);
    assert(forall|j: int| 17 <= j < lf ==> s[j] != 0x0A) by {
        assert(forall|j: int| 17 <= j < lf - 1 ==> s[j] == cookie[j - 17]);
        assert(s[lf - 1] == 0x0D);
    }
    lemma_find_lf_some(s, 17, lf);
    assert(spec_parse_request_cookie(s) == Ok::<(Seq<u8>, int), DecodeError>((cookie, lf + 1)))
        by {
        if cookie.len() > 0 {
            assert(s.subrange(17, lf - 1) =~= cookie);
        } else {
            assert(s.subrange(17, 17) =~= cookie);
        }
    }
    let rest = s.skip(lf + 1);
    if protocol.bits > 0 {
        assert(rest =~= spec_negotiation_data(
            NegotiationMessage::Request,
            flags.bits,
            protocol.bits,
        ));
        lemma_u32_le_round_trip(protocol.bits);
        assert(spec_le32_value(rest, 4) == spec_le32_value(spec_u32_le(protocol.bits), 0));
    } else {
        assert(rest =~= Seq::<u8>::empty());
    }
}

/// Appends a negotiation response selecting `protocol`.
pub fn write_negotiation_response(
    buffer: &mut Vec<u8>,
    flags: NegotiationResponseFlags,
    protocol: SecurityProtocol,
)
    ensures
        final(buffer)@ == old(buffer)@ + spec_negotiation_data(
            NegotiationMessage::Response,
            flags.bits,
            protocol.bits,
        ),
{
    write_negotiation_data(buffer, NegotiationMessage::Response, flags.bits, protocol.bits);
}

/// Appends a negotiation failure carrying `error`.
pub fn write_negotiation_response_error(buffer: &mut Vec<u8>, error: NegotiationFailureCodes)
    ensures
        final(buffer)@ == old(buffer)@ + spec_negotiation_data(
            NegotiationMessage::Failure,
            0,
            spec_failure_code(error),
        ),
{
    let code = error.to_u32();
    write_negotiation_data(buffer, NegotiationMessage::Failure, 0, code);
}

} // verus!
