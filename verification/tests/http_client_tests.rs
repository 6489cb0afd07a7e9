use http_client::address::Address;
use http_client::connection::{
    ConnectError, Connection, MockConnection, MockConnectionFactory, TransportError,
    UvConnectionFactory, is_eof, make_read_handle,
};
use http_client::http_client::{
    DnsError, HttpRequest, MockDnsResolver, RequestError, RequestEvent, sequence, uv_http_request,
    Uri,
};

fn eof_error() -> TransportError {
    TransportError { err_name: String::from("EOF"), err_msg: String::from("") }
}

fn reset_error() -> TransportError {
    TransportError { err_name: String::from("ECONNRESET"), err_msg: String::from("connection reset") }
}

fn good_connection(chunks: Vec<Vec<u8>>) -> MockConnection {
    MockConnection {
        write_error: None,
        read_start_error: None,
        read_stop_error: None,
        chunks,
        terminal_error: eof_error(),
        delivered: 0,
    }
}

fn uri(host: &str, path: &str) -> Uri {
    Uri { host: String::from(host), path: String::from(path) }
}

#[test]
fn test_resolve_error() {
    let resolver = MockDnsResolver { answer: Err(DnsError::GetAddrUnknownError) };
    let factory = MockConnectionFactory { connect_result: Ok(good_connection(vec![])) };
    let request = HttpRequest::new(resolver, factory, uri("example.com_not_real", "/"));
    let events = sequence(request);
    assert_eq!(events, vec![RequestEvent::Error(RequestError::ErrorDnsResolution)]);
}

#[test]
fn test_connect_error() {
    // This address is invalid because the first octet
    // of a class A address cannot be 0
    let resolver = MockDnsResolver { answer: Ok(vec![Address::V4(0, 42, 42, 42)]) };
    let factory = MockConnectionFactory { connect_result: Err(ConnectError::ConnectionRefused) };
    let request = HttpRequest::new(resolver, factory, uri("0.42.42.42", "/"));
    let events = sequence(request);
    assert_eq!(events, vec![RequestEvent::Error(RequestError::ErrorConnect)]);
}

#[test]
fn test_connect_success() {
    let resolver = MockDnsResolver { answer: Ok(vec![Address::V4(93, 184, 216, 34)]) };
    let factory = MockConnectionFactory {
        connect_result: Ok(good_connection(vec![
            b"HTTP/1.0 200 OK\r\n\r\n".to_vec(),
            b"hello".to_vec(),
        ])),
    };
    let request = HttpRequest::new(resolver, factory, uri("example.com", "/"));
    let events = sequence(request);
    for event in &events {
        assert!(!matches!(event, RequestEvent::Error(_)));
    }
}

#[test]
fn test_payload_events_in_arrival_order() {
    let resolver = MockDnsResolver { answer: Ok(vec![Address::V4(10, 0, 0, 1)]) };
    let factory = MockConnectionFactory {
        connect_result: Ok(good_connection(vec![b"first".to_vec(), b"second".to_vec()])),
    };
    let request = HttpRequest::new(resolver, factory, uri("example.com", "/index.html"));
    let events = sequence(request);
    assert_eq!(
        events,
        vec![
            RequestEvent::Payload(Some(b"first".to_vec())),
            RequestEvent::Payload(Some(b"second".to_vec())),
        ]
    );
}

#[test]
fn test_empty_address_list() {
    let resolver = MockDnsResolver { answer: Ok(vec![]) };
    let factory = MockConnectionFactory { connect_result: Ok(good_connection(vec![])) };
    let request = HttpRequest::new(resolver, factory, uri("example.com", "/"));
    let events = sequence(request);
    assert_eq!(events, vec![RequestEvent::Error(RequestError::ErrorMisc)]);
}

#[test]
fn test_no_ipv4_candidate() {
    let resolver = MockDnsResolver {
        answer: Ok(vec![Address::V6(0x2606, 0x2800, 0x220, 0x1, 0x248, 0x1893, 0x25c8, 0x1946)]),
    };
    let factory = MockConnectionFactory { connect_result: Ok(good_connection(vec![])) };
    let request = HttpRequest::new(resolver, factory, uri("example.com", "/"));
    let events = sequence(request);
    assert_eq!(events, vec![RequestEvent::Error(RequestError::ErrorMisc)]);
}

#[test]
fn test_v6_skipped_v4_selected() {
    // The V6 entry comes first, but the driver must select the V4 entry
    // and go on to the connect step.
    let resolver = MockDnsResolver {
        answer: Ok(vec![
            Address::V6(0x2606, 0x2800, 0x220, 0x1, 0x248, 0x1893, 0x25c8, 0x1946),
            Address::V4(93, 184, 216, 34),
        ]),
    };
    let factory = MockConnectionFactory { connect_result: Err(ConnectError::ConnectionRefused) };
    let request = HttpRequest::new(resolver, factory, uri("example.com", "/"));
    let events = sequence(request);
    assert_eq!(events, vec![RequestEvent::Error(RequestError::ErrorConnect)]);
}

#[test]
fn test_write_failure() {
    let mut conn = good_connection(vec![]);
    conn.write_error = Some(reset_error());
    let resolver = MockDnsResolver { answer: Ok(vec![Address::V4(10, 0, 0, 1)]) };
    let factory = MockConnectionFactory { connect_result: Ok(conn) };
    let request = HttpRequest::new(resolver, factory, uri("example.com", "/"));
    let events = sequence(request);
    assert_eq!(events, vec![RequestEvent::Error(RequestError::ErrorMisc)]);
}

#[test]
fn test_read_start_failure() {
    let mut conn = good_connection(vec![]);
    conn.read_start_error = Some(reset_error());
    let resolver = MockDnsResolver { answer: Ok(vec![Address::V4(10, 0, 0, 1)]) };
    let factory = MockConnectionFactory { connect_result: Ok(conn) };
    let request = HttpRequest::new(resolver, factory, uri("example.com", "/"));
    let events = sequence(request);
    assert_eq!(events, vec![RequestEvent::Error(RequestError::ErrorMisc)]);
}

#[test]
fn test_read_error_is_last_event() {
    let mut conn = good_connection(vec![b"partial".to_vec()]);
    conn.terminal_error = reset_error();
    let resolver = MockDnsResolver { answer: Ok(vec![Address::V4(10, 0, 0, 1)]) };
    let factory = MockConnectionFactory { connect_result: Ok(conn) };
    let request = HttpRequest::new(resolver, factory, uri("example.com", "/"));
    let events = sequence(request);
    assert_eq!(
        events,
        vec![
            RequestEvent::Payload(Some(b"partial".to_vec())),
            RequestEvent::Error(RequestError::ErrorMisc),
        ]
    );
    let errors = events
        .iter()
        .filter(|e| matches!(e, RequestEvent::Error(_)))
        .count();
    assert_eq!(errors, 1);
    assert!(matches!(events.last(), Some(RequestEvent::Error(_))));
}

#[test]
fn test_mock_factory_short_circuits_to_connect_error() {
    // A factory whose connect refuses every input: the run must stop at
    // the connect error, and with no connection handed out there is
    // nothing whose write or read could have been invoked.
    let resolver = MockDnsResolver { answer: Ok(vec![Address::V4(127, 0, 0, 1)]) };
    let factory = MockConnectionFactory {
        connect_result: Err(ConnectError::GenericConnectErr(
            String::from("refused"),
            String::from("no route"),
        )),
    };
    let request = HttpRequest::new(resolver, factory, uri("localhost", "/"));
    let events = sequence(request);
    assert_eq!(events, vec![RequestEvent::Error(RequestError::ErrorConnect)]);
}

#[test]
fn test_begin_idempotent() {
    let resolver = MockDnsResolver { answer: Ok(vec![Address::V4(10, 0, 0, 1)]) };
    let factory = MockConnectionFactory {
        connect_result: Ok(good_connection(vec![b"alpha".to_vec(), b"beta".to_vec()])),
    };
    let request = HttpRequest::new(resolver, factory, uri("example.com", "/"));
    let mut first: Vec<RequestEvent> = Vec::new();
    request.begin(&mut first);
    let mut second: Vec<RequestEvent> = Vec::new();
    request.begin(&mut second);
    assert_eq!(first, second);
}

#[test]
fn test_begin_appends_to_existing_events() {
    let resolver = MockDnsResolver { answer: Err(DnsError::GetAddrUnknownError) };
    let factory = MockConnectionFactory { connect_result: Ok(good_connection(vec![])) };
    let request = HttpRequest::new(resolver, factory, uri("example.com_not_real", "/"));
    let mut events = vec![RequestEvent::Payload(None)];
    request.begin(&mut events);
    assert_eq!(
        events,
        vec![
            RequestEvent::Payload(None),
            RequestEvent::Error(RequestError::ErrorDnsResolution),
        ]
    );
}

#[test]
fn test_uv_http_request_carries_uri() {
    let request = uv_http_request(uri("example.com", "/"));
    assert_eq!(request.uri.host, String::from("example.com"));
    assert_eq!(request.uri.path, String::from("/"));
    assert!(matches!(request.connection_factory, UvConnectionFactory::UvConnectionFactory));
}

#[test]
fn test_is_eof() {
    assert!(is_eof(&eof_error()));
    assert!(!is_eof(&reset_error()));
    assert!(!is_eof(&TransportError {
        err_name: String::from("eof"),
        err_msg: String::from(""),
    }));
}

#[test]
fn test_read_stop_failure_emits_no_event() {
    // The driver discards the read-stop result on the normal exit path, so
    // a scripted read-stop failure changes nothing in the event stream.
    let mut conn = good_connection(vec![b"data".to_vec()]);
    conn.read_stop_error = Some(reset_error());
    let resolver = MockDnsResolver { answer: Ok(vec![Address::V4(10, 0, 0, 1)]) };
    let factory = MockConnectionFactory { connect_result: Ok(conn) };
    let request = HttpRequest::new(resolver, factory, uri("example.com", "/"));
    let events = sequence(request);
    assert_eq!(events, vec![RequestEvent::Payload(Some(b"data".to_vec()))]);
}

#[test]
fn test_mock_read_stop_scripted_result() {
    let mut conn = good_connection(vec![]);
    conn.read_stop_error = Some(reset_error());
    let handle = make_read_handle();
    match conn.read_stop_(handle) {
        Err(e) => assert_eq!(e.err_name, String::from("ECONNRESET")),
        Ok(_) => panic!("expected the scripted read-stop error"),
    }
    let mut ok_conn = good_connection(vec![]);
    let ok_handle = make_read_handle();
    assert!(matches!(ok_conn.read_stop_(ok_handle), Ok(())));
}

#[test]
fn test_mock_connection_delivers_then_terminates() {
    let mut conn = good_connection(vec![b"one".to_vec(), b"two".to_vec()]);
    let handle = make_read_handle();
    match conn.recv_(&handle) {
        Ok(chunk) => assert_eq!(chunk, b"one".to_vec()),
        Err(_) => panic!("expected the first chunk"),
    }
    match conn.recv_(&handle) {
        Ok(chunk) => assert_eq!(chunk, b"two".to_vec()),
        Err(_) => panic!("expected the second chunk"),
    }
    match conn.recv_(&handle) {
        Err(e) => assert!(is_eof(&e)),
        Ok(_) => panic!("expected the terminal error after the chunks"),
    }
}
