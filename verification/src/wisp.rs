//! The Wisp tunnelling protocol: packet framing, and the policy that says
//! which targets a client may connect to.

use crate::ip;
use crate::text;
use vstd::prelude::*;
use vstd::slice::slice_subrange;
use vstd::utf8::{decode_utf8, valid_utf8};

verus! {

/// The kind of a packet.
#[derive(Debug, Clone, Copy, PartialEq, Eq, Structural)]
pub enum WispPacketType {
    Connect,
    Data,
    Continue,
    Close,
}

impl WispPacketType {
    /// The byte that stands for the kind on the wire.
    pub open spec fn code(self) -> u8 {
        match self {
            WispPacketType::Connect => 0x01,
            WispPacketType::Data => 0x02,
            WispPacketType::Continue => 0x03,
            WispPacketType::Close => 0x04,
        }
    }

    /// The kind that `val` stands for, if any.
    pub fn from_u8(val: u8) -> (r: Option<Self>)
        ensures
            match r {
                Some(kind) => kind.code() == val,
                None => forall|kind: WispPacketType| kind.code() != val,
            },
    {
        match val {
            0x01 => Some(WispPacketType::Connect),
            0x02 => Some(WispPacketType::Data),
            0x03 => Some(WispPacketType::Continue),
            0x04 => Some(WispPacketType::Close),
            _ => None,
        }
    }

    /// The byte that stands for the kind on the wire.
    #[verifier::when_used_as_spec(code)]
    pub fn to_u8(self) -> (b: u8)
        ensures
            b == self.code(),
    {
        match self {
            WispPacketType::Connect => 0x01,
            WispPacketType::Data => 0x02,
            WispPacketType::Continue => 0x03,
            WispPacketType::Close => 0x04,
        }
    }
}

/// The transport of a stream.
#[derive(Debug, Clone, Copy, PartialEq, Eq, Structural)]
pub enum StreamType {
    Tcp,
    Udp,
}

impl StreamType {
    /// The byte that stands for the transport on the wire.
    pub open spec fn code(self) -> u8 {
        match self {
            StreamType::Tcp => 0x01,
            StreamType::Udp => 0x02,
        }
    }

    /// The transport that `val` stands for, if any.
    pub fn from_u8(val: u8) -> (r: Option<Self>)
        ensures
            match r {
                Some(kind) => kind.code() == val,
                None => forall|kind: StreamType| kind.code() != val,
            },
    {
        match val {
            0x01 => Some(StreamType::Tcp),
            0x02 => Some(StreamType::Udp),
            _ => None,
        }
    }

    /// The byte that stands for the transport on the wire.
    #[verifier::when_used_as_spec(code)]
    pub fn to_u8(self) -> (b: u8)
        ensures
            b == self.code(),
    {
        match self {
            StreamType::Tcp => 0x01,
            StreamType::Udp => 0x02,
        }
    }
}

/// Why a stream was closed.
#[derive(Debug, Clone, Copy, PartialEq, Eq, Structural)]
pub enum CloseReason {
    Unknown,
    Voluntary,
    NetworkError,
    InvalidData,
    Forbidden,
    Timeout,
    ServerRefused,
    ServerUnreachable,
    HostUnreachable,
    ConnectionTimedOut,
    ConnectionResetByPeer,
    ConnectionRefused,
}

impl CloseReason {
    /// The byte that stands for the reason on the wire.
    pub open spec fn code(self) -> u8 {
        match self {
            CloseReason::Unknown => 0x01,
            CloseReason::Voluntary => 0x02,
            CloseReason::NetworkError => 0x03,
            CloseReason::InvalidData => 0x04,
            CloseReason::Forbidden => 0x05,
            CloseReason::Timeout => 0x06,
            CloseReason::ServerRefused => 0x41,
            CloseReason::ServerUnreachable => 0x42,
            CloseReason::HostUnreachable => 0x43,
            CloseReason::ConnectionTimedOut => 0x44,
            CloseReason::ConnectionResetByPeer => 0x45,
            CloseReason::ConnectionRefused => 0x47,
        }
    }

    /// The byte that stands for the reason on the wire.
    #[verifier::when_used_as_spec(code)]
    pub fn to_u8(self) -> (b: u8)
        ensures
            b == self.code(),
    {
        match self {
            CloseReason::Unknown => 0x01,
            CloseReason::Voluntary => 0x02,
            CloseReason::NetworkError => 0x03,
            CloseReason::InvalidData => 0x04,
            CloseReason::Forbidden => 0x05,
            CloseReason::Timeout => 0x06,
            CloseReason::ServerRefused => 0x41,
            CloseReason::ServerUnreachable => 0x42,
            CloseReason::HostUnreachable => 0x43,
            CloseReason::ConnectionTimedOut => 0x44,
            CloseReason::ConnectionResetByPeer => 0x45,
            CloseReason::ConnectionRefused => 0x47,
        }
    }
}

/// What a CONNECT packet asks for.
#[derive(Debug, Clone)]
pub struct ConnectPayload {
    pub stream_type: StreamType,
    pub port: u16,
    pub hostname: String,
}

/// The number that four bytes stand for, the lowest byte first.
pub open spec fn le_u32(b0: u8, b1: u8, b2: u8, b3: u8) -> int {
    b0 + 256 * b1 + 65536 * b2 + 16777216 * b3
}

/// The number that two bytes stand for, the lower byte first.
pub open spec fn le_u16(b0: u8, b1: u8) -> int {
    b0 + 256 * b1
}

/// The four bytes that stand for `x`, the lowest first.
pub open spec fn u32_le_bytes(x: u32) -> Seq<u8> {
    seq![
        (x % 256) as u8,
        ((x / 256) % 256) as u8,
        ((x / 65536) % 256) as u8,
        ((x / 16777216) % 256) as u8,
    ]
}

/// The bytes of a packet: kind, stream, payload.
pub open spec fn packet_bytes(kind: WispPacketType, stream_id: u32, payload: Seq<u8>) -> Seq<u8> {
    seq![kind.code()] + u32_le_bytes(stream_id) + payload
}

/// Splits a packet into its kind, its stream and its payload. `None` where
/// the data is shorter than the header or the kind is unknown.
pub fn parse_packet(data: &[u8]) -> (r: Option<(WispPacketType, u32, &[u8])>)
    ensures
        r is Some <==> data@.len() >= 5 && exists|kind: WispPacketType| kind.code() == data@[0],
        r matches Some(parts) ==> parts.0.code() == data@[0] && parts.1 == le_u32(
            data@[1],
            data@[2],
            data@[3],
            data@[4],
        ) && parts.2@ == data@.skip(5),
{
    if data.len() < 5 {
        return None;
    }
    let packet_type = match WispPacketType::from_u8(data[0]) {
        Some(kind) => kind,
        None => {
            return None;
        },
    };
    let stream_id: u32 = data[1] as u32 + 256 * (data[2] as u32) + 65536 * (data[3] as u32)
        + 16777216 * (data[4] as u32);
    let payload = slice_subrange(data, 5, data.len());
    assert(payload@ =~= data@.skip(5));
    Some((packet_type, stream_id, payload))
}

/// Reads the payload of a CONNECT packet: transport, port, host name.
/// `None` where it is shorter than four bytes, the transport is unknown or
/// the host name is not valid UTF-8.
pub fn parse_connect(payload: &[u8]) -> (r: Option<ConnectPayload>)
    ensures
        r is Some <==> payload@.len() >= 4 && (exists|kind: StreamType| kind.code() == payload@[0])
            && valid_utf8(payload@.skip(3)),
        r matches Some(c) ==> c.stream_type.code() == payload@[0] && c.port == le_u16(
            payload@[1],
            payload@[2],
        ) && c.hostname@ == decode_utf8(payload@.skip(3)),
{
    if payload.len() < 4 {
        return None;
    }
    let stream_type = match StreamType::from_u8(payload[0]) {
        Some(kind) => kind,
        None => {
            return None;
        },
    };
    let port: u16 = payload[1] as u16 + 256 * (payload[2] as u16);
    let name = slice_subrange(payload, 3, payload.len());
    assert(name@ =~= payload@.skip(3));
    match text::utf8_text(name) {
        Some(hostname) => Some(ConnectPayload { stream_type, port, hostname }),
        None => None,
    }
}

/// Appends the four bytes of `x` to `out`, the lowest first.
fn push_u32_le(out: &mut Vec<u8>, x: u32)
    ensures
        final(out)@ == old(out)@ + u32_le_bytes(x),
{
    out.push((x % 256) as u8);
    out.push(((x / 256) % 256) as u8);
    out.push(((x / 65536) % 256) as u8);
    out.push(((x / 16777216) % 256) as u8);
    assert(out@ =~= old(out)@ + u32_le_bytes(x));
}

/// A DATA packet for the stream with the payload `data`.
pub fn make_data_packet(stream_id: u32, data: &[u8]) -> (packet: Vec<u8>)
    ensures
        packet@ == packet_bytes(WispPacketType::Data, stream_id, data@),
{
    let mut packet: Vec<u8> = Vec::new();
    packet.push(WispPacketType::Data.to_u8());
    push_u32_le(&mut packet, stream_id);
    packet.extend_from_slice(data);
    assert(packet@ =~= packet_bytes(WispPacketType::Data, stream_id, data@));
    packet
}

/// A CONTINUE packet for the stream: the room left in the buffer.
pub fn make_continue_packet(stream_id: u32, buffer_remaining: u32) -> (packet: Vec<u8>)
    ensures
        packet@ == packet_bytes(
            WispPacketType::Continue,
            stream_id,
            u32_le_bytes(buffer_remaining),
        ),
{
    let mut packet: Vec<u8> = Vec::new();
    packet.push(WispPacketType::Continue.to_u8());
    push_u32_le(&mut packet, stream_id);
    push_u32_le(&mut packet, buffer_remaining);
    assert(packet@ =~= packet_bytes(
        WispPacketType::Continue,
        stream_id,
        u32_le_bytes(buffer_remaining),
    ));
    packet
}

/// A CLOSE packet for the stream with the reason.
pub fn make_close_packet(stream_id: u32, reason: CloseReason) -> (packet: Vec<u8>)
    ensures
        packet@ == packet_bytes(WispPacketType::Close, stream_id, seq![reason.code()]),
{
    let mut packet: Vec<u8> = Vec::new();
    packet.push(WispPacketType::Close.to_u8());
    push_u32_le(&mut packet, stream_id);
    packet.push(reason.to_u8());
    assert(packet@ =~= packet_bytes(WispPacketType::Close, stream_id, seq![reason.code()]));
    packet
}

/// The bytes of a number, read back, give the number.
pub proof fn lemma_u32_le_roundtrip(x: u32)
    ensures
        u32_le_bytes(x).len() == 4,
        le_u32(u32_le_bytes(x)[0], u32_le_bytes(x)[1], u32_le_bytes(x)[2], u32_le_bytes(x)[3])
            == x,
{
}

/// A packet that is made parses back into its kind, stream and payload.
pub proof fn lemma_packet_roundtrip(kind: WispPacketType, stream_id: u32, payload: Seq<u8>)
    ensures
        ({
            let bytes = packet_bytes(kind, stream_id, payload);
            &&& bytes.len() == 5 + payload.len()
            &&& bytes[0] == kind.code()
            &&& le_u32(bytes[1], bytes[2], bytes[3], bytes[4]) == stream_id
            &&& bytes.skip(5) == payload
        }),
{
    lemma_u32_le_roundtrip(stream_id);
    let bytes = packet_bytes(kind, stream_id, payload);
    assert(bytes[1] == u32_le_bytes(stream_id)[0]);
    assert(bytes[2] == u32_le_bytes(stream_id)[1]);
    assert(bytes[3] == u32_le_bytes(stream_id)[2]);
    assert(bytes[4] == u32_le_bytes(stream_id)[3]);
    assert(bytes.skip(5) =~= payload);
}

/// `host` is one of the three hosts that are always allowed.
pub open spec fn whitelisted(host: Seq<char>) -> bool {
    host == "auth.itunes.apple.com"@ || host == "buy.itunes.apple.com"@ || host
        == "init.itunes.apple.com"@
}

/// `host` is `p`, one or more decimal digits, and `-buy.itunes.apple.com`.
pub open spec fn pod_host(host: Seq<char>) -> bool {
    &&& host.len() >= 23
    &&& host[0] == 'p'
    &&& forall|i: int| 1 <= i < host.len() - 21 ==> text::is_digit(#[trigger] host[i])
    &&& text::has_suffix(host, "-buy.itunes.apple.com"@)
}

/// `host` names this machine.
pub open spec fn loopback(host: Seq<char>) -> bool {
    host == "localhost"@ || host == "127.0.0.1"@ || host == "::1"@ || host == "[::1]"@
        || text::has_suffix(host, ".localhost"@)
}

/// Whether `hostname` is a pod host, `p<digits>-buy.itunes.apple.com`.
pub fn is_pod_host(hostname: &str) -> (b: bool)
    ensures
        b == pod_host(hostname@),
{
    let v = text::chars_of(hostname);
    let suffix = text::chars_of("-buy.itunes.apple.com");
    proof {
        reveal_strlit("-buy.itunes.apple.com");
    }
    if v.len() < 23 || v[0] != 'p' || !text::ends_with(&v, &suffix) {
        return false;
    }
    let end = v.len() - 21;
    let mut i: usize = 1;
    while i < end
        invariant
            1 <= i <= end,
            end == v.len() - 21,
            v@ == hostname@,
            forall|k: int| 1 <= k < i ==> text::is_digit(#[trigger] v@[k]),
        decreases end - i,
    {
        if !text::char_is_digit(v[i]) {
            return false;
        }
        i += 1;
    }
    true
}

/// Whether `host` names this machine.
pub fn is_loopback(host: &str) -> (b: bool)
    ensures
        b == loopback(host@),
{
    let v = text::chars_of(host);
    let suffix = text::chars_of(".localhost");
    text::same_str(&v, "localhost") || text::same_str(&v, "127.0.0.1") || text::same_str(
        &v,
        "::1",
    ) || text::same_str(&v, "[::1]") || text::ends_with(&v, &suffix)
}

/// Whether `host` is a literal IP address.
pub fn is_ip_address(host: &str) -> (b: bool)
    ensures
        b == ip::is_ip_literal(host@),
{
    ip::is_ip_literal_host(host)
}

/// Why a target is refused, if it is: the checks are made in this order,
/// and the first that fails gives the message.
pub open spec fn target_fault(hostname: Seq<char>, port: u16) -> Option<Seq<char>> {
    if port != 443 {
        Some("Port "@ + text::decimal(port as nat) + " is not allowed (only 443)"@)
    } else if ip::is_ip_literal(hostname) {
        Some("Direct IP targets are not allowed"@)
    } else if loopback(hostname) {
        Some("Loopback targets are not allowed"@)
    } else if !whitelisted(hostname) && !pod_host(hostname) {
        Some("Hostname "@ + hostname + " is not in the whitelist"@)
    } else {
        None
    }
}

/// The target may be connected to: port 443 of a whitelisted host or a pod
/// host.
pub open spec fn target_allowed(hostname: Seq<char>, port: u16) -> bool {
    port == 443 && !ip::is_ip_literal(hostname) && !loopback(hostname) && (whitelisted(hostname)
        || pod_host(hostname))
}

/// Checks the target of a CONNECT packet against the policy.
pub fn validate_wisp_target(hostname: &str, port: u16) -> (r: Result<(), String>)
    ensures
        crate::security::fault_view(r) == target_fault(hostname@, port),
        r is Ok <==> target_allowed(hostname@, port),
{
    if port != 443 {
        let mut message = text::chars_of("Port ");
        text::push_decimal(&mut message, port as u64, 0);
        text::push_str(&mut message, " is not allowed (only 443)");
        assert(text::decimal_padded(port as nat, 0) == text::decimal(port as nat));
        return Err(text::string_of(&message));
    }
    if is_ip_address(hostname) {
        return Err("Direct IP targets are not allowed".to_owned());
    }
    if is_loopback(hostname) {
        return Err("Loopback targets are not allowed".to_owned());
    }
    let v = text::chars_of(hostname);
    let listed = text::same_str(&v, "auth.itunes.apple.com") || text::same_str(
        &v,
        "buy.itunes.apple.com",
    ) || text::same_str(&v, "init.itunes.apple.com");
    if !listed && !is_pod_host(hostname) {
        let mut message = text::chars_of("Hostname ");
        text::push_all(&mut message, &v);
        text::push_str(&mut message, " is not in the whitelist");
        return Err(text::string_of(&message));
    }
    Ok(())
}

} // verus!
