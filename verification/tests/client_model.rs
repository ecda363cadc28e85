use unix_http_client::error::{Error, ErrorAndResponse, Fault};
use unix_http_client::exchange::{resolve_exchange, status_is_success, ExchangeEvent};
use unix_http_client::lifecycle::{driver_outcome, ConnectAttempt, DriverJoin, Lifecycle};
use unix_http_client::request::{build_request, request_uri, Method};

fn fault(canceled: bool, message: &str) -> Fault {
    Fault { canceled, message: message.to_string() }
}

#[test]
fn request_uri_prepends_authority() {
    assert_eq!(request_uri("/nolanv"), "http://unix.socket/nolanv");
    assert_eq!(request_uri(""), "http://unix.socket");
}

#[test]
fn build_request_keeps_every_part() {
    let headers = vec![
        ("accept".to_string(), "text/plain".to_string()),
        ("x-tag".to_string(), "one".to_string()),
        ("x-tag".to_string(), "two".to_string()),
    ];
    let plan = build_request("/nolanv", Method::Post, headers.clone(), Some(vec![1u8, 2, 3]));
    assert_eq!(plan.method, Method::Post);
    assert_eq!(plan.uri, "http://unix.socket/nolanv");
    assert_eq!(plan.headers, headers);
    assert_eq!(plan.body, vec![1u8, 2, 3]);
}

#[test]
fn build_request_absent_body_is_empty() {
    let plan = build_request("/nolanv", Method::Get, Vec::new(), None);
    assert_eq!(plan.body, Vec::<u8>::new());
    assert!(plan.headers.is_empty());
}

#[test]
fn success_range_bounds() {
    assert!(!status_is_success(199));
    assert!(status_is_success(200));
    assert!(status_is_success(299));
    assert!(!status_is_success(300));
    assert!(!status_is_success(404));
    assert!(!status_is_success(500));
}

#[test]
fn successful_exchange_yields_status_and_body() {
    let body = "Hello nolanv".as_bytes().to_vec();
    let result = resolve_exchange(ExchangeEvent::Completed(200, body.clone()));
    match result {
        Ok((status, got)) => {
            assert_eq!(status, 200);
            assert_eq!(got, body);
        }
        Err(_) => panic!("a 200 exchange must resolve successfully"),
    }
}

#[test]
fn not_found_is_response_unsuccessful() {
    let body = "no such endpoint".as_bytes().to_vec();
    let result = resolve_exchange(ExchangeEvent::Completed(404, body.clone()));
    match result {
        Err(ErrorAndResponse::ResponseUnsuccessful(status, got)) => {
            assert_eq!(status, 404);
            assert_eq!(got, body);
        }
        _ => panic!("a 404 exchange must resolve to ResponseUnsuccessful"),
    }
}

#[test]
fn build_failure_maps_to_request_build() {
    let result = resolve_exchange(ExchangeEvent::BuildFailed(fault(false, "bad header bytes")));
    match result {
        Err(ErrorAndResponse::InternalError(Error::RequestBuild(f))) => {
            assert!(!f.canceled);
            assert_eq!(f.message, "bad header bytes");
        }
        _ => panic!("a build failure must resolve to InternalError(RequestBuild)"),
    }
}

#[test]
fn collect_failure_maps_to_response_collect() {
    let result = resolve_exchange(ExchangeEvent::CollectFailed(fault(false, "body stream broke")));
    assert!(matches!(
        result,
        Err(ErrorAndResponse::InternalError(Error::ResponseCollect(_)))
    ));
}

#[test]
fn send_failure_keeps_cancellation_classification() {
    let result = resolve_exchange(ExchangeEvent::SendFailed(fault(true, "connection reset")));
    match result {
        Err(ErrorAndResponse::InternalError(Error::RequestSend(f))) => {
            assert!(f.is_canceled());
            assert_eq!(f.message, "connection reset");
        }
        _ => panic!("a send failure must resolve to InternalError(RequestSend)"),
    }
}

#[test]
fn dial_failure_creates_no_client() {
    let attempt = ConnectAttempt::DialFailed(fault(false, "No such file or directory"));
    let result = Lifecycle::establish("/tmp/absent.sock".to_string(), attempt);
    match result {
        Err(Error::SocketConnectionInitiation(f)) => {
            assert_eq!(f.message, "No such file or directory");
        }
        _ => panic!("a failed dial must yield SocketConnectionInitiation and no client"),
    }
}

#[test]
fn handshake_failure_creates_no_client() {
    let attempt = ConnectAttempt::HandshakeFailed(fault(false, "not an HTTP peer"));
    let result = Lifecycle::establish("/tmp/server.sock".to_string(), attempt);
    assert!(matches!(result, Err(Error::Handshake(_))));
}

#[test]
fn establish_binds_path_and_is_usable() {
    let client = Lifecycle::establish("/tmp/server.sock".to_string(), ConnectAttempt::Established)
        .expect("an established attempt yields a client");
    assert_eq!(client.socket_path(), "/tmp/server.sock");
    assert!(client.is_usable());
}

#[test]
fn sequential_requests_resolve_in_order() {
    let mut client =
        Lifecycle::establish("/tmp/server.sock".to_string(), ConnectAttempt::Established)
            .expect("an established attempt yields a client");
    for i in 0..20 {
        let endpoint = format!("/nolanv{}", i);
        let expected = format!("Hello nolanv{}", i).into_bytes();
        let plan = build_request(&endpoint, Method::Get, Vec::new(), None);
        assert_eq!(plan.uri, format!("http://unix.socket/nolanv{}", i));
        let result = client.resolve_send(ExchangeEvent::Completed(200, expected.clone()));
        match result {
            Ok((status, body)) => {
                assert_eq!(status, 200);
                assert_eq!(body, expected);
            }
            Err(_) => panic!("a 200 exchange must resolve successfully"),
        }
        assert!(client.is_usable());
    }
}

#[test]
fn send_failure_latches_unusable() {
    let mut client =
        Lifecycle::establish("/tmp/server.sock".to_string(), ConnectAttempt::Established)
            .expect("an established attempt yields a client");
    let result = client.resolve_send(ExchangeEvent::SendFailed(fault(true, "server went away")));
    assert!(matches!(
        result,
        Err(ErrorAndResponse::InternalError(Error::RequestSend(_)))
    ));
    assert!(!client.is_usable());

    let again = client.resolve_send(ExchangeEvent::Completed(200, b"late".to_vec()));
    assert!(again.is_ok());
    assert!(!client.is_usable(), "a dead sender handle never becomes usable again");
}

#[test]
fn abort_returns_captured_outcome() {
    let client = Lifecycle::establish("/tmp/server.sock".to_string(), ConnectAttempt::Established)
        .expect("an established attempt yields a client");
    let outcome = client.abort(DriverJoin::Produced(Error::SocketConnectionClosed(None)));
    assert!(matches!(outcome, Some(Error::SocketConnectionClosed(None))));
}

#[test]
fn abort_of_cancelled_driver_yields_nothing() {
    let client = Lifecycle::establish("/tmp/server.sock".to_string(), ConnectAttempt::Established)
        .expect("an established attempt yields a client");
    let outcome = client.abort(DriverJoin::Cancelled);
    assert!(outcome.is_none());
}

#[test]
fn driver_outcome_wraps_the_transport_fault() {
    let graceful = driver_outcome(None);
    assert!(matches!(graceful, Error::SocketConnectionClosed(None)));

    let broken = driver_outcome(Some(fault(false, "connection reset by peer")));
    match broken {
        Error::SocketConnectionClosed(Some(f)) => {
            assert_eq!(f.message, "connection reset by peer")
        }
        _ => panic!("a transport fault must be carried in SocketConnectionClosed"),
    }
}

#[test]
fn reconnect_keeps_path_and_restores_usability() {
    let mut client =
        Lifecycle::establish("/tmp/server.sock".to_string(), ConnectAttempt::Established)
            .expect("an established attempt yields a client");

    let result = client.resolve_send(ExchangeEvent::SendFailed(fault(true, "server stopped")));
    match result {
        Err(ErrorAndResponse::InternalError(Error::RequestSend(f))) => assert!(f.is_canceled()),
        _ => panic!("a send failure must resolve to InternalError(RequestSend)"),
    }
    assert!(!client.is_usable());

    let mut fresh = client
        .reconnect(DriverJoin::Cancelled, ConnectAttempt::Established)
        .expect("reconnect against a restarted server yields a client");
    assert_eq!(fresh.socket_path(), "/tmp/server.sock");
    assert!(fresh.is_usable());

    let body = "Hello nolanv".as_bytes().to_vec();
    match fresh.resolve_send(ExchangeEvent::Completed(200, body.clone())) {
        Ok((status, got)) => {
            assert_eq!(status, 200);
            assert_eq!(got, body);
        }
        Err(_) => panic!("a request after reconnect must succeed"),
    }
}

#[test]
fn reconnect_against_still_missing_server_fails() {
    let client = Lifecycle::establish("/tmp/server.sock".to_string(), ConnectAttempt::Established)
        .expect("an established attempt yields a client");
    let result = client.reconnect(
        DriverJoin::Cancelled,
        ConnectAttempt::DialFailed(fault(false, "Connection refused")),
    );
    assert!(matches!(result, Err(Error::SocketConnectionInitiation(_))));
}
