//! The decisions of the HTTP front end: who may ask, what is asked of the
//! gateway, and what the caller is told.
//!
//! A request to forward a port is checked and turned into an exchange with
//! the gateway; how that exchange ended is turned into the reply. Reading
//! the request and running the exchange are left to the server.

use crate::client::{ClientError, Exchange, ExchangeModel, Outcome, ProtocolClient};
use crate::text::{decimal, decimal_text, lowercase_of, rfc3339, rfc3339_of, to_lowercase};
use crate::wire::{MappingRequest, Protocol};
use vstd::prelude::*;
use vstd::string::StringExecFns;

verus! {

/// Status of a reply that carries a mapping.
pub const STATUS_OK: u16 = 200;

/// Status of a reply to a request that cannot be met as it is written.
pub const STATUS_BAD_REQUEST: u16 = 400;

/// Status of a reply to a request without the right token.
pub const STATUS_UNAUTHORIZED: u16 = 401;

/// Status of a reply when the gateway could not be asked or declined.
pub const STATUS_INTERNAL_SERVER_ERROR: u16 = 500;

/// The address of the gateway as it is configured.
#[derive(Clone, Copy, Debug, PartialEq, Eq, Structural)]
pub enum GatewayAddress {
    /// An IPv4 address as a 32-bit number.
    V4(u32),
    /// An IPv6 address as a 128-bit number. No such gateway can be asked.
    V6(u128),
}

/// What the service is configured with, fixed when it starts.
#[derive(Clone, Debug)]
pub struct ServiceConfig {
    pub gateway: GatewayAddress,
    /// The longest lifetime that is asked of the gateway, if there is a limit.
    pub max_duration: Option<u32>,
    /// The token that callers have to present, if any is required.
    pub token: Option<String>,
}

/// The body of a request to forward a port.
#[derive(Clone, Debug, PartialEq, Eq)]
pub struct ForwardRequest {
    pub internal_port: u16,
    pub protocol: String,
    pub duration: u32,
}

/// The body of the reply that reports a mapping.
#[derive(Clone, Debug, PartialEq, Eq)]
pub struct ForwardResponse {
    pub internal_port: u16,
    pub external_port: u16,
    pub protocol: String,
    pub duration: u32,
}

/// The body of the reply to a health check.
#[derive(Clone, Debug, PartialEq, Eq)]
pub struct HealthResponse {
    pub status: String,
    pub timestamp: String,
}

/// The body of a reply that reports a failure.
#[derive(Clone, Debug, PartialEq, Eq)]
pub struct ErrorResponse {
    pub error: String,
}

/// Why a request to forward a port was not met.
#[derive(Clone, Copy, Debug, PartialEq, Eq, Structural)]
pub enum ForwardError {
    /// A token is required and the request did not present it.
    Unauthorized,
    /// The configured gateway has an IPv6 address.
    UnsupportedGateway,
    /// The protocol is neither `tcp` nor `udp`.
    InvalidProtocol,
    /// The exchange with the gateway failed.
    Client(ClientError),
}

/// The limit that a configured maximum duration stands for.
pub open spec fn limit_of(max_duration: i32) -> Option<u32> {
    if max_duration == -1 {
        None
    } else if max_duration >= 0 {
        Some(max_duration as u32)
    } else {
        Some((max_duration + 0x1_0000_0000) as u32)
    }
}

/// Reads the configured maximum duration: -1 stands for no limit, and any
/// other number is taken as an unsigned 32-bit number of seconds, so that a
/// negative one wraps round to a large limit.
pub fn duration_limit(max_duration: i32) -> (limit: Option<u32>)
    ensures
        limit == limit_of(max_duration),
{
    if max_duration == -1 {
        None
    } else if max_duration >= 0 {
        Some(max_duration as u32)
    } else {
        let wrapped: i64 = max_duration as i64 + 0x1_0000_0000;
        Some(wrapped as u32)
    }
}

/// The log filter that a configured level stands for.
pub open spec fn log_filter_of(level: Seq<char>) -> Seq<char> {
    if level == "debug"@ {
        "debug"@
    } else {
        "natpmp_server="@ + level + ",tower_http=info"@
    }
}

/// Turns the configured log level into a filter: `debug` opens every
/// target, any other level applies to the service alone and leaves the
/// HTTP layer at `info`.
pub fn log_filter(level: &str) -> (filter: String)
    ensures
        filter@ == log_filter_of(level@),
{
    let level = level.to_owned();
    if level == "debug".to_owned() {
        level
    } else {
        let mut filter = "natpmp_server=".to_owned();
        filter.append(level.as_str());
        filter.append(",tower_http=info");
        filter
    }
}

/// The header value that presents `token`.
pub open spec fn bearer_of(token: Seq<char>) -> Seq<char> {
    "Bearer "@ + token
}

/// Whether a request with this `Authorization` header may be served when
/// this token is configured.
pub open spec fn authorized(authorization: Option<&str>, token: Option<String>) -> bool {
    match token {
        None => true,
        Some(token) => match authorization {
            Some(presented) => presented@ == bearer_of(token@),
            None => false,
        },
    }
}

/// Checks the `Authorization` header against the configured token.
///
/// Without a configured token every request passes. With one, the header
/// has to be there and to read `Bearer`, one space and the token, letter
/// for letter.
pub fn check_authorization(
    authorization: Option<&str>,
    expected_token: &Option<String>,
) -> (ok: bool)
    ensures
        ok == authorized(authorization, *expected_token),
{
    match expected_token {
        None => true,
        Some(token) => match authorization {
            Some(presented) => {
                let expected = "Bearer ".to_owned().concat(token.as_str());
                let presented = presented.to_owned();
                presented == expected
            },
            None => false,
        },
    }
}

/// The lifetime that is asked of the gateway: what the caller asked for,
/// cut down to the limit where there is one.
pub open spec fn clamped(requested: u32, limit: Option<u32>) -> u32 {
    match limit {
        Some(max) => if requested <= max {
            requested
        } else {
            max
        },
        None => requested,
    }
}

/// Cuts a requested duration down to the configured limit.
pub fn clamp_duration(requested: u32, limit: Option<u32>) -> (duration: u32)
    ensures
        duration == clamped(requested, limit),
{
    match limit {
        Some(max) => if requested <= max {
            requested
        } else {
            max
        },
        None => requested,
    }
}

/// The protocol that a lowercase name stands for.
pub open spec fn protocol_named(name: Seq<char>) -> Option<Protocol> {
    if name == "tcp"@ {
        Some(Protocol::Tcp)
    } else if name == "udp"@ {
        Some(Protocol::Udp)
    } else {
        None
    }
}

impl Protocol {
    /// The name of the protocol in requests and replies.
    pub open spec fn name_of(self) -> Seq<char> {
        match self {
            Protocol::Tcp => "tcp"@,
            Protocol::Udp => "udp"@,
        }
    }

    /// The name of the protocol: `tcp` or `udp`.
    pub fn name(self) -> (name: String)
        ensures
            name@ == self.name_of(),
    {
        match self {
            Protocol::Tcp => "tcp".to_owned(),
            Protocol::Udp => "udp".to_owned(),
        }
    }

    /// Reads a protocol from its name in lower case: `tcp` or `udp`.
    pub fn from_name(name: &str) -> (protocol: Option<Protocol>)
        ensures
            protocol == protocol_named(name@),
    {
        let name = name.to_owned();
        if name == "tcp".to_owned() {
            Some(Protocol::Tcp)
        } else if name == "udp".to_owned() {
            Some(Protocol::Udp)
        } else {
            None
        }
    }
}

/// Reads a protocol from its name in any case: the name is put into lower
/// case and then has to be `tcp` or `udp`.
pub fn parse_protocol(name: &str) -> (protocol: Option<Protocol>)
    ensures
        protocol == protocol_named(lowercase_of(name@)),
{
    let lower = to_lowercase(name);
    Protocol::from_name(lower.as_str())
}

/// What a request to forward a port leads to, once its protocol is read:
/// the failure that it is answered with, or the exchange that is opened
/// with the gateway. The gateway is left to choose the external port, and
/// the lifetime asked for is the requested duration cut down to the
/// configured limit.
pub open spec fn forward_plan(
    config: ServiceConfig,
    authorization: Option<&str>,
    internal_port: u16,
    protocol: Option<Protocol>,
    duration: u32,
) -> Result<ExchangeModel, ForwardError> {
    if !authorized(authorization, config.token) {
        Err(ForwardError::Unauthorized)
    } else {
        match (config.gateway, protocol) {
            (GatewayAddress::V6(_), _) => Err(ForwardError::UnsupportedGateway),
            (GatewayAddress::V4(_), None) => Err(ForwardError::InvalidProtocol),
            (GatewayAddress::V4(gateway), Some(protocol)) => if internal_port == 0 {
                Err(ForwardError::Client(ClientError::InvalidArgument))
            } else {
                Ok(
                    ExchangeModel::opened(
                        MappingRequest {
                            protocol,
                            internal_port,
                            requested_external_port: 0,
                            lifetime_seconds: clamped(duration, config.max_duration),
                        },
                        gateway,
                    ),
                )
            },
        }
    }
}

/// Whether `res` is what `plan` asks for.
pub open spec fn follows_plan(
    res: Result<Exchange, ForwardError>,
    plan: Result<ExchangeModel, ForwardError>,
) -> bool {
    match res {
        Ok(exchange) => plan == Ok::<ExchangeModel, ForwardError>(exchange@),
        Err(error) => plan == Err::<ExchangeModel, ForwardError>(error),
    }
}

/// Checks a request to forward a port whose protocol has been read, and
/// opens the exchange with the gateway.
///
/// The checks come in this order: the token, the family of the gateway's
/// address, the protocol, the internal port. Nothing is sent before all of
/// them have passed.
pub fn open_forward(
    config: &ServiceConfig,
    authorization: Option<&str>,
    internal_port: u16,
    protocol: Option<Protocol>,
    duration: u32,
) -> (res: Result<Exchange, ForwardError>)
    ensures
        follows_plan(
            res,
            forward_plan(*config, authorization, internal_port, protocol, duration),
        ),
{
    if !check_authorization(authorization, &config.token) {
        return Err(ForwardError::Unauthorized);
    }
    let lifetime = clamp_duration(duration, config.max_duration);
    let gateway = match config.gateway {
        GatewayAddress::V4(address) => address,
        GatewayAddress::V6(_) => {
            return Err(ForwardError::UnsupportedGateway);
        },
    };
    let protocol = match protocol {
        Some(protocol) => protocol,
        None => {
            return Err(ForwardError::InvalidProtocol);
        },
    };
    let client = ProtocolClient::new(gateway);
    match client.request_mapping(protocol, internal_port, 0, lifetime) {
        Ok(exchange) => Ok(exchange),
        Err(error) => Err(ForwardError::Client(error)),
    }
}

/// Checks a request to forward a port and opens the exchange with the
/// gateway: reads the protocol from its name in any case, then goes on as
/// [`open_forward`] does.
pub fn begin_forward(
    config: &ServiceConfig,
    authorization: Option<&str>,
    payload: &ForwardRequest,
) -> (res: Result<Exchange, ForwardError>)
    ensures
        follows_plan(
            res,
            forward_plan(
                *config,
                authorization,
                payload.internal_port,
                protocol_named(lowercase_of(payload.protocol@)),
                payload.duration,
            ),
        ),
{
    let protocol = parse_protocol(payload.protocol.as_str());
    open_forward(config, authorization, payload.internal_port, protocol, payload.duration)
}

/// Turns the outcome of an exchange into the reply to the request that
/// began it.
///
/// A mapping is reported with the internal port, the protocol and the
/// lifetime of the request and the external port that the gateway opened;
/// a failure of the exchange is handed on.
pub fn finish_forward(
    request: &MappingRequest,
    outcome: Outcome,
) -> (res: Result<ForwardResponse, ForwardError>)
    ensures
        match outcome {
            Ok(reply) => {
                &&& res is Ok
                &&& res->Ok_0.internal_port == request.internal_port
                &&& res->Ok_0.external_port == reply.external_port
                &&& res->Ok_0.protocol@ == request.protocol.name_of()
                &&& res->Ok_0.duration == request.lifetime_seconds
            },
            Err(error) => res == Err::<ForwardResponse, ForwardError>(ForwardError::Client(error)),
        },
{
    match outcome {
        Ok(reply) => Ok(
            ForwardResponse {
                internal_port: request.internal_port,
                external_port: reply.external_port,
                protocol: request.protocol.name(),
                duration: request.lifetime_seconds,
            },
        ),
        Err(error) => Err(ForwardError::Client(error)),
    }
}

impl ForwardError {
    /// The status of the reply that reports this failure: 401 without the
    /// right token, 400 for what the caller wrote wrongly, 500 for
    /// everything that went wrong between the service and the gateway.
    pub open spec fn status_of(self) -> u16 {
        match self {
            ForwardError::Unauthorized => STATUS_UNAUTHORIZED,
            ForwardError::InvalidProtocol => STATUS_BAD_REQUEST,
            ForwardError::Client(ClientError::InvalidArgument) => STATUS_BAD_REQUEST,
            ForwardError::UnsupportedGateway => STATUS_INTERNAL_SERVER_ERROR,
            ForwardError::Client(_) => STATUS_INTERNAL_SERVER_ERROR,
        }
    }

    /// The HTTP status of the reply that reports this failure.
    pub fn status(self) -> (status: u16)
        ensures
            status == self.status_of(),
    {
        match self {
            ForwardError::Unauthorized => STATUS_UNAUTHORIZED,
            ForwardError::InvalidProtocol => STATUS_BAD_REQUEST,
            ForwardError::Client(ClientError::InvalidArgument) => STATUS_BAD_REQUEST,
            ForwardError::UnsupportedGateway => STATUS_INTERNAL_SERVER_ERROR,
            ForwardError::Client(_) => STATUS_INTERNAL_SERVER_ERROR,
        }
    }

    /// The message of the reply that reports this failure. A refusal of the
    /// gateway is reported with its result code and what the code says.
    pub open spec fn message_of(self) -> Seq<char> {
        match self {
            ForwardError::Unauthorized => "Unauthorized"@,
            ForwardError::UnsupportedGateway => "IPv6 gateways not supported"@,
            ForwardError::InvalidProtocol => "protocol must be tcp or udp"@,
            ForwardError::Client(ClientError::InvalidArgument) => "internal_port must not be 0"@,
            ForwardError::Client(ClientError::NoResponse) => "Failed to read port mapping response"@,
            ForwardError::Client(ClientError::Io) => "Failed to send port mapping request"@,
            ForwardError::Client(ClientError::GatewayRejected { code }) =>
                "Gateway rejected the port mapping request with result code "@ + decimal_text(
                    code as nat,
                ) + ": "@ + crate::wire::ResultKind::of(code).description_of(),
        }
    }

    /// The message of the reply that reports this failure.
    pub fn message(self) -> (message: String)
        ensures
            message@ == self.message_of(),
    {
        match self {
            ForwardError::Unauthorized => "Unauthorized".to_owned(),
            ForwardError::UnsupportedGateway => "IPv6 gateways not supported".to_owned(),
            ForwardError::InvalidProtocol => "protocol must be tcp or udp".to_owned(),
            ForwardError::Client(ClientError::InvalidArgument) =>
                "internal_port must not be 0".to_owned(),
            ForwardError::Client(ClientError::NoResponse) =>
                "Failed to read port mapping response".to_owned(),
            ForwardError::Client(ClientError::Io) =>
                "Failed to send port mapping request".to_owned(),
            ForwardError::Client(ClientError::GatewayRejected { code }) => {
                let mut message =
                    "Gateway rejected the port mapping request with result code ".to_owned();
                let number = decimal(code);
                message.append(number.as_str());
                message.append(": ");
                let kind = crate::wire::ResultKind::from_code(code).description();
                message.append(kind.as_str());
                message
            },
        }
    }

    /// The body of the reply that reports this failure.
    pub fn response(self) -> (body: ErrorResponse)
        ensures
            body.error@ == self.message_of(),
    {
        ErrorResponse { error: self.message() }
    }
}

/// The reply to a health check that was made at the moment that
/// `timestamp` names.
pub fn health_at(timestamp: String) -> (body: HealthResponse)
    ensures
        body.status@ == "healthy"@,
        body.timestamp@ == timestamp@,
{
    HealthResponse { status: "healthy".to_owned(), timestamp }
}

/// The reply to a health check that was made `secs` seconds and `nanos`
/// nanoseconds after the start of 1970 in UTC: the status `healthy` and
/// that moment in RFC 3339. `None` where the moment cannot be written.
pub fn health(secs: i64, nanos: u32) -> (body: Option<HealthResponse>)
    ensures
        match rfc3339_of(secs as int, nanos as int) {
            Some(written) => {
                &&& body is Some
                &&& body->Some_0.status@ == "healthy"@
                &&& body->Some_0.timestamp@ == written
            },
            None => body is None,
        },
{
    match rfc3339(secs, nanos) {
        Some(timestamp) => Some(health_at(timestamp)),
        None => None,
    }
}

} // verus!
