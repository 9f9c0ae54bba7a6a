use natpmp_server::client::{Action, ClientError, Event};
use natpmp_server::service::{
    begin_forward, check_authorization, clamp_duration, duration_limit, finish_forward, health,
    health_at, log_filter, open_forward, parse_protocol, ForwardError, ForwardRequest, ForwardResponse,
    GatewayAddress, ServiceConfig, STATUS_BAD_REQUEST, STATUS_INTERNAL_SERVER_ERROR, STATUS_OK,
    STATUS_UNAUTHORIZED,
};
use natpmp_server::text::decimal;
use natpmp_server::wire::{encode_response, MappingRequest, MappingResponse, Protocol};

const GATEWAY: u32 = 0x0a00_0001;

fn config(max_duration: Option<u32>, token: Option<&str>) -> ServiceConfig {
    ServiceConfig {
        gateway: GatewayAddress::V4(GATEWAY),
        max_duration,
        token: token.map(|t| t.to_string()),
    }
}

fn payload(internal_port: u16, protocol: &str, duration: u32) -> ForwardRequest {
    ForwardRequest { internal_port, protocol: protocol.to_string(), duration }
}

fn failure(res: Result<natpmp_server::client::Exchange, ForwardError>) -> ForwardError {
    match res {
        Err(error) => error,
        Ok(_) => panic!("the request was accepted"),
    }
}

#[test]
fn without_a_token_every_request_passes() {
    assert!(check_authorization(None, &None));
    assert!(check_authorization(Some("Bearer anything"), &None));
    assert!(check_authorization(Some(""), &None));
}

#[test]
fn token_has_to_be_presented_as_bearer() {
    let token = Some("s3cret".to_string());
    assert!(check_authorization(Some("Bearer s3cret"), &token));
    assert!(!check_authorization(None, &token));
    assert!(!check_authorization(Some("s3cret"), &token));
    assert!(!check_authorization(Some("bearer s3cret"), &token));
    assert!(!check_authorization(Some("Bearer  s3cret"), &token));
    assert!(!check_authorization(Some("Bearer s3cret "), &token));
    assert!(!check_authorization(Some("Bearer s3cre"), &token));
    assert!(!check_authorization(Some("Bearer S3CRET"), &token));
    assert!(!check_authorization(Some(""), &token));
}

#[test]
fn empty_token_is_still_a_token() {
    let token = Some(String::new());
    assert!(check_authorization(Some("Bearer "), &token));
    assert!(!check_authorization(Some("Bearer"), &token));
    assert!(!check_authorization(None, &token));
}

#[test]
fn duration_is_cut_down_to_the_limit() {
    assert_eq!(clamp_duration(300, Some(300)), 300);
    assert_eq!(clamp_duration(301, Some(300)), 300);
    assert_eq!(clamp_duration(299, Some(300)), 299);
    assert_eq!(clamp_duration(0, Some(300)), 0);
    assert_eq!(clamp_duration(5, Some(0)), 0);
    assert_eq!(clamp_duration(u32::MAX, Some(u32::MAX)), u32::MAX);
    assert_eq!(clamp_duration(u32::MAX, None), u32::MAX);
    assert_eq!(clamp_duration(86_400, None), 86_400);
}

#[test]
fn minus_one_stands_for_no_limit() {
    assert_eq!(duration_limit(-1), None);
    assert_eq!(duration_limit(300), Some(300));
    assert_eq!(duration_limit(0), Some(0));
    assert_eq!(duration_limit(i32::MAX), Some(2_147_483_647));
    assert_eq!(duration_limit(-2), Some(4_294_967_294));
    assert_eq!(duration_limit(i32::MIN), Some(2_147_483_648));
}

#[test]
fn log_level_becomes_a_filter() {
    assert_eq!(log_filter("debug"), "debug");
    assert_eq!(log_filter("info"), "natpmp_server=info,tower_http=info");
    assert_eq!(log_filter("warn"), "natpmp_server=warn,tower_http=info");
    assert_eq!(log_filter("DEBUG"), "natpmp_server=DEBUG,tower_http=info");
    assert_eq!(log_filter(""), "natpmp_server=,tower_http=info");
}

#[test]
fn protocol_is_read_in_any_case() {
    assert_eq!(parse_protocol("tcp"), Some(Protocol::Tcp));
    assert_eq!(parse_protocol("udp"), Some(Protocol::Udp));
    assert_eq!(parse_protocol("TCP"), Some(Protocol::Tcp));
    assert_eq!(parse_protocol("Udp"), Some(Protocol::Udp));
    assert_eq!(parse_protocol("uDP"), Some(Protocol::Udp));
    assert_eq!(parse_protocol("icmp"), None);
    assert_eq!(parse_protocol(""), None);
    assert_eq!(parse_protocol(" tcp"), None);
    assert_eq!(parse_protocol("tcp6"), None);
}

#[test]
fn protocol_name_is_lower_case() {
    assert_eq!(Protocol::from_name("tcp"), Some(Protocol::Tcp));
    assert_eq!(Protocol::from_name("udp"), Some(Protocol::Udp));
    assert_eq!(Protocol::from_name("TCP"), None);
    assert_eq!(Protocol::from_name("Udp"), None);
    assert_eq!(Protocol::from_name(""), None);
    assert_eq!(Protocol::Tcp.name(), "tcp");
    assert_eq!(Protocol::Udp.name(), "udp");
}

#[test]
fn forward_of_tcp_8080_reports_the_external_port() {
    let config = config(Some(300), None);
    let mut exchange = begin_forward(&config, None, &payload(8080, "tcp", 300)).unwrap();
    assert_eq!(
        exchange.start(),
        Action::Send {
            datagram: vec![0, 2, 0, 0, 0x1f, 0x90, 0, 0, 0, 0, 0x01, 0x2c],
            timeout_ms: 250,
        }
    );
    assert_eq!(exchange.destination(), (GATEWAY, 5351));
    let granted = MappingResponse {
        protocol: Protocol::Tcp,
        internal_port: 8080,
        external_port: 45000,
        granted_lifetime_seconds: 300,
        result_code: 0,
        server_epoch: 1,
    };
    let outcome = match exchange.step(&Event::Datagram(encode_response(&granted))) {
        Action::Finish(outcome) => outcome,
        other => panic!("the exchange goes on: {:?}", other),
    };
    assert_eq!(
        finish_forward(&exchange.request(), outcome),
        Ok(ForwardResponse {
            internal_port: 8080,
            external_port: 45000,
            protocol: "tcp".to_string(),
            duration: 300,
        })
    );
    assert_eq!(STATUS_OK, 200);
}

#[test]
fn forward_of_port_zero_is_rejected_before_anything_is_sent() {
    let config = config(Some(300), None);
    let error = failure(begin_forward(&config, None, &payload(0, "tcp", 300)));
    assert_eq!(error, ForwardError::Client(ClientError::InvalidArgument));
    assert_eq!(error.status(), 400);
    assert_eq!(error.message(), "internal_port must not be 0");
}

#[test]
fn forward_without_reply_fails_with_no_response() {
    let config = config(Some(300), None);
    let mut exchange = begin_forward(&config, None, &payload(8080, "tcp", 300)).unwrap();
    let mut action = exchange.start();
    let mut sent = 0;
    let outcome = loop {
        match action {
            Action::Send { .. } => {
                sent += 1;
                action = exchange.step(&Event::TimedOut);
            }
            Action::Wait => panic!("nothing arrived, so there is nothing to wait on"),
            Action::Finish(outcome) => break outcome,
        }
    };
    assert_eq!(sent, 9);
    let error = finish_forward(&exchange.request(), outcome).unwrap_err();
    assert_eq!(error, ForwardError::Client(ClientError::NoResponse));
    assert_eq!(error.status(), 500);
}

#[test]
fn forward_asks_for_the_clamped_duration_and_any_external_port() {
    let config = config(Some(300), None);
    let exchange = begin_forward(&config, None, &payload(22, "UDP", 86_400)).unwrap();
    assert_eq!(
        exchange.request(),
        MappingRequest {
            protocol: Protocol::Udp,
            internal_port: 22,
            requested_external_port: 0,
            lifetime_seconds: 300,
        }
    );
    let unlimited = ServiceConfig { max_duration: None, ..config };
    let exchange = begin_forward(&unlimited, None, &payload(22, "udp", 86_400)).unwrap();
    assert_eq!(exchange.request().lifetime_seconds, 86_400);
}

#[test]
fn forward_reports_the_duration_that_was_asked_of_the_gateway() {
    let request = MappingRequest {
        protocol: Protocol::Udp,
        internal_port: 22,
        requested_external_port: 0,
        lifetime_seconds: 300,
    };
    let granted = MappingResponse {
        protocol: Protocol::Udp,
        internal_port: 22,
        external_port: 2222,
        granted_lifetime_seconds: 120,
        result_code: 0,
        server_epoch: 0,
    };
    assert_eq!(
        finish_forward(&request, Ok(granted)),
        Ok(ForwardResponse {
            internal_port: 22,
            external_port: 2222,
            protocol: "udp".to_string(),
            duration: 300,
        })
    );
}

#[test]
fn forward_needs_the_token() {
    let config = config(Some(300), Some("s3cret"));
    let good = payload(8080, "tcp", 300);
    assert_eq!(failure(begin_forward(&config, None, &good)), ForwardError::Unauthorized);
    assert_eq!(
        failure(begin_forward(&config, Some("Bearer wrong"), &good)),
        ForwardError::Unauthorized
    );
    assert!(begin_forward(&config, Some("Bearer s3cret"), &good).is_ok());
}

#[test]
fn forward_checks_token_then_gateway_then_protocol_then_port() {
    let locked = ServiceConfig {
        gateway: GatewayAddress::V6(1),
        max_duration: Some(300),
        token: Some("s3cret".to_string()),
    };
    let bad = payload(0, "icmp", 300);
    assert_eq!(failure(begin_forward(&locked, None, &bad)), ForwardError::Unauthorized);
    assert_eq!(
        failure(begin_forward(&locked, Some("Bearer s3cret"), &bad)),
        ForwardError::UnsupportedGateway
    );
    let v4 = ServiceConfig { gateway: GatewayAddress::V4(GATEWAY), ..locked };
    assert_eq!(
        failure(begin_forward(&v4, Some("Bearer s3cret"), &bad)),
        ForwardError::InvalidProtocol
    );
    assert_eq!(
        failure(begin_forward(&v4, Some("Bearer s3cret"), &payload(0, "tcp", 300))),
        ForwardError::Client(ClientError::InvalidArgument)
    );
}

#[test]
fn forward_with_a_protocol_already_read() {
    let config = config(None, None);
    assert_eq!(
        failure(open_forward(&config, None, 8080, None, 300)),
        ForwardError::InvalidProtocol
    );
    let exchange = open_forward(&config, None, 8080, Some(Protocol::Tcp), 300).unwrap();
    assert_eq!(exchange.request().protocol, Protocol::Tcp);
    assert_eq!(exchange.request().lifetime_seconds, 300);
}

#[test]
fn failures_have_their_status() {
    assert_eq!(ForwardError::Unauthorized.status(), STATUS_UNAUTHORIZED);
    assert_eq!(ForwardError::Unauthorized.status(), 401);
    assert_eq!(ForwardError::InvalidProtocol.status(), STATUS_BAD_REQUEST);
    assert_eq!(ForwardError::InvalidProtocol.status(), 400);
    assert_eq!(ForwardError::Client(ClientError::InvalidArgument).status(), 400);
    assert_eq!(ForwardError::UnsupportedGateway.status(), STATUS_INTERNAL_SERVER_ERROR);
    assert_eq!(ForwardError::UnsupportedGateway.status(), 500);
    assert_eq!(ForwardError::Client(ClientError::NoResponse).status(), 500);
    assert_eq!(ForwardError::Client(ClientError::Io).status(), 500);
    assert_eq!(ForwardError::Client(ClientError::GatewayRejected { code: 2 }).status(), 500);
}

#[test]
fn failures_have_their_message() {
    assert_eq!(ForwardError::Unauthorized.message(), "Unauthorized");
    assert_eq!(ForwardError::UnsupportedGateway.message(), "IPv6 gateways not supported");
    assert_eq!(ForwardError::InvalidProtocol.message(), "protocol must be tcp or udp");
    assert_eq!(
        ForwardError::Client(ClientError::NoResponse).message(),
        "Failed to read port mapping response"
    );
    assert_eq!(
        ForwardError::Client(ClientError::Io).message(),
        "Failed to send port mapping request"
    );
    assert_eq!(
        ForwardError::Client(ClientError::GatewayRejected { code: 3 }).message(),
        "Gateway rejected the port mapping request with result code 3: network failure"
    );
    assert_eq!(
        ForwardError::Client(ClientError::GatewayRejected { code: 65535 }).message(),
        "Gateway rejected the port mapping request with result code 65535: undefined error"
    );
    assert_eq!(ForwardError::InvalidProtocol.response().error, "protocol must be tcp or udp");
}

#[test]
fn refusal_is_handed_on_with_its_code() {
    let request = MappingRequest {
        protocol: Protocol::Tcp,
        internal_port: 8080,
        requested_external_port: 0,
        lifetime_seconds: 300,
    };
    assert_eq!(
        finish_forward(&request, Err(ClientError::GatewayRejected { code: 4 })),
        Err(ForwardError::Client(ClientError::GatewayRejected { code: 4 }))
    );
}

#[test]
fn numbers_are_written_in_decimal() {
    assert_eq!(decimal(0), "0");
    assert_eq!(decimal(7), "7");
    assert_eq!(decimal(9), "9");
    assert_eq!(decimal(10), "10");
    assert_eq!(decimal(405), "405");
    assert_eq!(decimal(1000), "1000");
    assert_eq!(decimal(65535), "65535");
    for number in [0u16, 1, 99, 100, 101, 5351, 9999, 10000, 65534] {
        assert_eq!(decimal(number), format!("{}", number));
    }
}

#[test]
fn health_reports_the_moment_in_rfc_3339() {
    let body = health(1_431_648_000, 0).unwrap();
    assert_eq!(body.status, "healthy");
    assert_eq!(body.timestamp, "2015-05-15T00:00:00+00:00");
    let body = health(0, 500_000_000).unwrap();
    assert_eq!(body.timestamp, "1970-01-01T00:00:00.500+00:00");
    let body = health(-1, 0).unwrap();
    assert_eq!(body.timestamp, "1969-12-31T23:59:59+00:00");
}

#[test]
fn health_of_a_moment_that_cannot_be_written_is_none() {
    assert_eq!(health(i64::MAX, 0), None);
    assert_eq!(health(i64::MIN, 0), None);
    assert_eq!(health(0, 2_000_000_000), None);
}

#[test]
fn health_at_a_given_timestamp() {
    let body = health_at("2024-01-01T00:00:00+00:00".to_string());
    assert_eq!(body.status, "healthy");
    assert_eq!(body.timestamp, "2024-01-01T00:00:00+00:00");
}
