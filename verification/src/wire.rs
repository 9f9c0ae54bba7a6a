//! The binary layout of mapping requests and of the gateway's replies.

use vstd::prelude::*;

verus! {

/// Version byte of every datagram.
pub const VERSION: u8 = 0;

/// Length of a mapping request.
pub const REQUEST_LEN: usize = 12;

/// Length of a mapping reply.
pub const RESPONSE_LEN: usize = 16;

/// Added to a request's opcode to give the opcode of its reply.
pub const REPLY_FLAG: u8 = 128;

/// The transport protocol whose port is mapped.
#[derive(Clone, Copy, Debug, PartialEq, Eq, Structural)]
pub enum Protocol {
    Udp,
    Tcp,
}

impl Protocol {
    /// Opcode of a request for this protocol.
    pub open spec fn request_opcode(self) -> u8 {
        match self {
            Protocol::Udp => 1,
            Protocol::Tcp => 2,
        }
    }

    /// Opcode of the reply to a request for this protocol.
    pub open spec fn reply_opcode(self) -> u8 {
        (self.request_opcode() + REPLY_FLAG) as u8
    }

    /// The opcode of a request: 1 to map a UDP port, 2 to map a TCP port.
    pub fn opcode(self) -> (op: u8)
        ensures
            op == self.request_opcode(),
    {
        match self {
            Protocol::Udp => 1,
            Protocol::Tcp => 2,
        }
    }

    /// The opcode of the reply: that of the request with the top bit set.
    pub fn response_opcode(self) -> (op: u8)
        ensures
            op == self.reply_opcode(),
            op == self.request_opcode() | REPLY_FLAG,
    {
        let op: u8 = self.opcode();
        assert(op < 128 ==> (op | 128u8) == op + 128) by (bit_vector);
        op | REPLY_FLAG
    }
}

/// The more significant byte of a port number.
pub open spec fn high_byte(port: u16) -> u8 {
    (port / 256) as u8
}

/// The less significant byte of a port number.
pub open spec fn low_byte(port: u16) -> u8 {
    (port % 256) as u8
}

/// The port number written as two bytes in network order.
pub open spec fn port_of(high: u8, low: u8) -> u16 {
    (high * 256 + low) as u16
}

/// Byte `index` of a 32-bit number in network order, byte 0 first.
pub open spec fn quad_byte(value: u32, index: int) -> u8 {
    if index == 0 {
        (value / 16777216) as u8
    } else if index == 1 {
        (value / 65536 % 256) as u8
    } else if index == 2 {
        (value / 256 % 256) as u8
    } else {
        (value % 256) as u8
    }
}

/// The 32-bit number written as four bytes in network order.
pub open spec fn quad_of(b0: u8, b1: u8, b2: u8, b3: u8) -> u32 {
    (b0 * 16777216 + b1 * 65536 + b2 * 256 + b3) as u32
}

/// What a client asks of the gateway.
#[derive(Clone, Copy, Debug, PartialEq, Eq, Structural)]
pub struct MappingRequest {
    pub protocol: Protocol,
    pub internal_port: u16,
    /// 0 leaves the choice to the gateway.
    pub requested_external_port: u16,
    pub lifetime_seconds: u32,
}

impl MappingRequest {
    /// A request names a port of the host: port 0 cannot be mapped.
    pub open spec fn is_valid(self) -> bool {
        self.internal_port != 0
    }

    /// Makes a request, unless it names internal port 0.
    pub fn new(
        protocol: Protocol,
        internal_port: u16,
        requested_external_port: u16,
        lifetime_seconds: u32,
    ) -> (made: Option<MappingRequest>)
        ensures
            made == if internal_port == 0 {
                None
            } else {
                Some(
                    MappingRequest {
                        protocol,
                        internal_port,
                        requested_external_port,
                        lifetime_seconds,
                    },
                )
            },
            made is Some ==> made->Some_0.is_valid(),
    {
        if internal_port == 0 {
            None
        } else {
            Some(
                MappingRequest { protocol, internal_port, requested_external_port, lifetime_seconds },
            )
        }
    }

    /// The datagram that carries this request.
    pub open spec fn bytes(self) -> Seq<u8> {
        seq![
            VERSION,
            self.protocol.request_opcode(),
            0u8,
            0u8,
            high_byte(self.internal_port),
            low_byte(self.internal_port),
            high_byte(self.requested_external_port),
            low_byte(self.requested_external_port),
            quad_byte(self.lifetime_seconds, 0),
            quad_byte(self.lifetime_seconds, 1),
            quad_byte(self.lifetime_seconds, 2),
            quad_byte(self.lifetime_seconds, 3),
        ]
    }
}

/// Frames a mapping request: version, opcode, two reserved zero bytes, then
/// the internal port, the requested external port and the lifetime, each in
/// network byte order.
pub fn encode_request(req: &MappingRequest) -> (datagram: Vec<u8>)
    ensures
        datagram@ == req.bytes(),
        datagram@.len() == REQUEST_LEN,
{
    let mut datagram: Vec<u8> = Vec::with_capacity(REQUEST_LEN);
    datagram.push(VERSION);
    datagram.push(req.protocol.opcode());
    datagram.push(0);
    datagram.push(0);
    datagram.push((req.internal_port / 256) as u8);
    datagram.push((req.internal_port % 256) as u8);
    datagram.push((req.requested_external_port / 256) as u8);
    datagram.push((req.requested_external_port % 256) as u8);
    datagram.push((req.lifetime_seconds / 16777216) as u8);
    datagram.push((req.lifetime_seconds / 65536 % 256) as u8);
    datagram.push((req.lifetime_seconds / 256 % 256) as u8);
    datagram.push((req.lifetime_seconds % 256) as u8);
    assert(datagram@ =~= req.bytes());
    datagram
}

/// What the gateway answered.
#[derive(Clone, Copy, Debug, PartialEq, Eq, Structural)]
pub struct MappingResponse {
    pub protocol: Protocol,
    pub internal_port: u16,
    pub external_port: u16,
    pub granted_lifetime_seconds: u32,
    /// 0 for a granted mapping, else the gateway's reason for declining.
    pub result_code: u16,
    /// Seconds since the gateway last started.
    pub server_epoch: u32,
}

impl MappingResponse {
    /// A granted mapping names the external port that was opened.
    pub open spec fn well_formed(self) -> bool {
        self.result_code == 0 ==> self.external_port != 0
    }

    /// The datagram that carries this reply.
    pub open spec fn bytes(self) -> Seq<u8> {
        seq![
            VERSION,
            self.protocol.reply_opcode(),
            high_byte(self.result_code),
            low_byte(self.result_code),
            quad_byte(self.server_epoch, 0),
            quad_byte(self.server_epoch, 1),
            quad_byte(self.server_epoch, 2),
            quad_byte(self.server_epoch, 3),
            high_byte(self.internal_port),
            low_byte(self.internal_port),
            high_byte(self.external_port),
            low_byte(self.external_port),
            quad_byte(self.granted_lifetime_seconds, 0),
            quad_byte(self.granted_lifetime_seconds, 1),
            quad_byte(self.granted_lifetime_seconds, 2),
            quad_byte(self.granted_lifetime_seconds, 3),
        ]
    }

    /// What the result code of this reply says.
    pub fn result_kind(&self) -> (kind: ResultKind)
        ensures
            kind == ResultKind::of(self.result_code),
    {
        ResultKind::from_code(self.result_code)
    }

    /// The reply of a gateway that grants `req` as asked, on `external_port`.
    pub open spec fn granting(req: MappingRequest, external_port: u16, server_epoch: u32) -> Self {
        MappingResponse {
            protocol: req.protocol,
            internal_port: req.internal_port,
            external_port,
            granted_lifetime_seconds: req.lifetime_seconds,
            result_code: 0,
            server_epoch,
        }
    }
}

/// What a result code says, by the protocol's table of result codes.
#[derive(Clone, Copy, Debug, PartialEq, Eq, Structural)]
pub enum ResultKind {
    /// Code 0: the mapping was granted.
    Success,
    /// Code 1: the gateway does not speak this version.
    UnsupportedVersion,
    /// Code 2: the gateway supports mapping but refuses it here.
    NotAuthorized,
    /// Code 3: the gateway itself has no connection.
    NetworkFailure,
    /// Code 4: the gateway has no resources left for another mapping.
    OutOfResources,
    /// Code 5: the gateway does not know the opcode.
    UnsupportedOpcode,
    /// Any other code.
    Undefined,
}

impl ResultKind {
    /// The kind that a result code stands for.
    pub open spec fn of(code: u16) -> ResultKind {
        if code == 0 {
            ResultKind::Success
        } else if code == 1 {
            ResultKind::UnsupportedVersion
        } else if code == 2 {
            ResultKind::NotAuthorized
        } else if code == 3 {
            ResultKind::NetworkFailure
        } else if code == 4 {
            ResultKind::OutOfResources
        } else if code == 5 {
            ResultKind::UnsupportedOpcode
        } else {
            ResultKind::Undefined
        }
    }

    /// Looks a result code up in the table.
    pub fn from_code(code: u16) -> (kind: ResultKind)
        ensures
            kind == ResultKind::of(code),
    {
        match code {
            0 => ResultKind::Success,
            1 => ResultKind::UnsupportedVersion,
            2 => ResultKind::NotAuthorized,
            3 => ResultKind::NetworkFailure,
            4 => ResultKind::OutOfResources,
            5 => ResultKind::UnsupportedOpcode,
            _ => ResultKind::Undefined,
        }
    }

    /// The kind in words.
    pub open spec fn description_of(self) -> Seq<char> {
        match self {
            ResultKind::Success => "success"@,
            ResultKind::UnsupportedVersion => "unsupported version"@,
            ResultKind::NotAuthorized => "not authorized"@,
            ResultKind::NetworkFailure => "network failure"@,
            ResultKind::OutOfResources => "out of resources"@,
            ResultKind::UnsupportedOpcode => "unsupported opcode"@,
            ResultKind::Undefined => "undefined error"@,
        }
    }

    /// The kind in words, for messages.
    pub fn description(self) -> (text: String)
        ensures
            text@ == self.description_of(),
    {
        match self {
            ResultKind::Success => "success".to_owned(),
            ResultKind::UnsupportedVersion => "unsupported version".to_owned(),
            ResultKind::NotAuthorized => "not authorized".to_owned(),
            ResultKind::NetworkFailure => "network failure".to_owned(),
            ResultKind::OutOfResources => "out of resources".to_owned(),
            ResultKind::UnsupportedOpcode => "unsupported opcode".to_owned(),
            ResultKind::Undefined => "undefined error".to_owned(),
        }
    }
}

/// Why a datagram is no reply to the request that was sent.
#[derive(Clone, Copy, Debug, PartialEq, Eq, Structural)]
pub enum CodecError {
    /// Fewer than sixteen bytes.
    Truncated,
    /// The version byte is not 0.
    UnsupportedVersion,
    /// The opcode is not that of a reply to the request that was sent.
    OpcodeMismatch,
    /// The reply reports success and names external port 0.
    ZeroExternalPort,
}

/// The fields that the first sixteen bytes of a reply to a `sent` request hold.
pub open spec fn reply_fields(bytes: Seq<u8>, sent: Protocol) -> MappingResponse
    recommends
        bytes.len() >= RESPONSE_LEN,
{
    MappingResponse {
        protocol: sent,
        internal_port: port_of(bytes[8], bytes[9]),
        external_port: port_of(bytes[10], bytes[11]),
        granted_lifetime_seconds: quad_of(bytes[12], bytes[13], bytes[14], bytes[15]),
        result_code: port_of(bytes[2], bytes[3]),
        server_epoch: quad_of(bytes[4], bytes[5], bytes[6], bytes[7]),
    }
}

/// What a datagram means to a client that sent a request for `sent`.
pub open spec fn decoded(bytes: Seq<u8>, sent: Protocol) -> Result<MappingResponse, CodecError> {
    if bytes.len() < RESPONSE_LEN {
        Err(CodecError::Truncated)
    } else if bytes[0] != VERSION {
        Err(CodecError::UnsupportedVersion)
    } else if bytes[1] != sent.reply_opcode() {
        Err(CodecError::OpcodeMismatch)
    } else if !reply_fields(bytes, sent).well_formed() {
        Err(CodecError::ZeroExternalPort)
    } else {
        Ok(reply_fields(bytes, sent))
    }
}

fn read_port(bytes: &[u8], at: usize) -> (port: u16)
    requires
        at + 2 <= bytes@.len(),
    ensures
        port == port_of(bytes@[at as int], bytes@[at + 1]),
{
    let high: u16 = bytes[at] as u16;
    let low: u16 = bytes[at + 1] as u16;
    high * 256 + low
}

fn read_quad(bytes: &[u8], at: usize) -> (value: u32)
    requires
        at + 4 <= bytes@.len(),
    ensures
        value == quad_of(bytes@[at as int], bytes@[at + 1], bytes@[at + 2], bytes@[at + 3]),
{
    let b0: u32 = bytes[at] as u32;
    let b1: u32 = bytes[at + 1] as u32;
    let b2: u32 = bytes[at + 2] as u32;
    let b3: u32 = bytes[at + 3] as u32;
    b0 * 16777216 + b1 * 65536 + b2 * 256 + b3
}

/// Parses the reply to a request for `sent`.
///
/// A datagram of sixteen bytes or more, with version 0 and the opcode of a
/// reply to `sent`, decodes whatever its result code is; what follows the
/// sixteenth byte is not read. Only a reply that reports success without an
/// external port is turned down on its contents.
pub fn decode_response(bytes: &[u8], sent: Protocol) -> (res: Result<MappingResponse, CodecError>)
    ensures
        res == decoded(bytes@, sent),
        res is Ok ==> res->Ok_0.well_formed(),
{
    if bytes.len() < RESPONSE_LEN {
        return Err(CodecError::Truncated);
    }
    if bytes[0] != VERSION {
        return Err(CodecError::UnsupportedVersion);
    }
    if bytes[1] != sent.response_opcode() {
        return Err(CodecError::OpcodeMismatch);
    }
    let response = MappingResponse {
        protocol: sent,
        internal_port: read_port(bytes, 8),
        external_port: read_port(bytes, 10),
        granted_lifetime_seconds: read_quad(bytes, 12),
        result_code: read_port(bytes, 2),
        server_epoch: read_quad(bytes, 4),
    };
    if response.result_code == 0 && response.external_port == 0 {
        return Err(CodecError::ZeroExternalPort);
    }
    Ok(response)
}

/// Frames a reply as a gateway does: version, reply opcode, result code,
/// epoch, internal port, external port and granted lifetime.
pub fn encode_response(response: &MappingResponse) -> (datagram: Vec<u8>)
    ensures
        datagram@ == response.bytes(),
        datagram@.len() == RESPONSE_LEN,
{
    let mut datagram: Vec<u8> = Vec::with_capacity(RESPONSE_LEN);
    datagram.push(VERSION);
    datagram.push(response.protocol.response_opcode());
    datagram.push((response.result_code / 256) as u8);
    datagram.push((response.result_code % 256) as u8);
    datagram.push((response.server_epoch / 16777216) as u8);
    datagram.push((response.server_epoch / 65536 % 256) as u8);
    datagram.push((response.server_epoch / 256 % 256) as u8);
    datagram.push((response.server_epoch % 256) as u8);
    datagram.push((response.internal_port / 256) as u8);
    datagram.push((response.internal_port % 256) as u8);
    datagram.push((response.external_port / 256) as u8);
    datagram.push((response.external_port % 256) as u8);
    datagram.push((response.granted_lifetime_seconds / 16777216) as u8);
    datagram.push((response.granted_lifetime_seconds / 65536 % 256) as u8);
    datagram.push((response.granted_lifetime_seconds / 256 % 256) as u8);
    datagram.push((response.granted_lifetime_seconds % 256) as u8);
    assert(datagram@ =~= response.bytes());
    datagram
}

/// Two bytes in network order read back as the port they were written from.
pub proof fn lemma_port_bytes(port: u16)
    ensures
        port_of(high_byte(port), low_byte(port)) == port,
{
}

/// Four bytes in network order read back as the number they were written from.
pub proof fn lemma_quad_bytes(value: u32)
    ensures
        quad_of(
            quad_byte(value, 0),
            quad_byte(value, 1),
            quad_byte(value, 2),
            quad_byte(value, 3),
        ) == value,
{
}

/// A well-formed reply, framed and parsed by the client that sent a request
/// for the same protocol, comes back field for field.
pub proof fn lemma_response_round_trip(response: MappingResponse)
    requires
        response.well_formed(),
    ensures
        decoded(response.bytes(), response.protocol) == Ok::<MappingResponse, CodecError>(response),
{
    lemma_port_bytes(response.internal_port);
    lemma_port_bytes(response.external_port);
    lemma_port_bytes(response.result_code);
    lemma_quad_bytes(response.server_epoch);
    lemma_quad_bytes(response.granted_lifetime_seconds);
}

/// When a gateway grants a valid request as asked and frames its reply, the
/// client reads back the protocol, the internal port and the lifetime that it
/// asked for, and the external port and epoch that the gateway chose.
pub proof fn lemma_granted_request_round_trip(
    req: MappingRequest,
    external_port: u16,
    server_epoch: u32,
)
    requires
        req.is_valid(),
        external_port != 0,
    ensures
        decoded(MappingResponse::granting(req, external_port, server_epoch).bytes(), req.protocol)
            == Ok::<MappingResponse, CodecError>(
            MappingResponse {
                protocol: req.protocol,
                internal_port: req.internal_port,
                external_port,
                granted_lifetime_seconds: req.lifetime_seconds,
                result_code: 0,
                server_epoch,
            },
        ),
{
    lemma_response_round_trip(MappingResponse::granting(req, external_port, server_epoch));
}

} // verus!
