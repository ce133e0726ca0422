use ping_ingest::config::bind_or_default;
use ping_ingest::handler::{handle_request, Handled};
use ping_ingest::logfmt::{log_file_name, timestamp_string, two_digit_string, Date, Timestamp};
use ping_ingest::route::{dispatch, Method, Route};

#[test]
fn ping_returns_hello() {
    let path = b"/ping".to_vec();
    let body = Vec::new();
    match handle_request(Method::Get, &path, &body) {
        Handled::Replied(reply) => {
            assert_eq!(reply.response.status, 200);
            assert_eq!(reply.response.body, "Hello World");
            assert!(reply.log.is_none());
        },
        _ => panic!("GET /ping must reach the health handler"),
    }
}

#[test]
fn ping_ignores_any_body() {
    let path = b"/ping".to_vec();
    let body = b"ignored".to_vec();
    match handle_request(Method::Get, &path, &body) {
        Handled::Replied(reply) => {
            assert_eq!(reply.response.status, 200);
            assert_eq!(reply.response.body, "Hello World");
        },
        _ => panic!("GET /ping must reach the health handler"),
    }
}

#[test]
fn json_ok_logs_path_and_value() {
    let path = b"/json/anything".to_vec();
    let body = b"{\"a\":1}".to_vec();
    match handle_request(Method::Post, &path, &body) {
        Handled::Replied(reply) => {
            assert_eq!(reply.response.status, 200);
            assert_eq!(reply.response.body, "");
            let rec = reply.log.expect("a log record is owed on success");
            assert_eq!(rec.path, b"/json/anything".to_vec());
            assert_eq!(rec.payload, "{\"a\":1}");
        },
        _ => panic!("POST /json/anything with valid JSON must reply"),
    }
}

#[test]
fn json_payload_is_rendered_not_echoed() {
    let path = b"/json/anything".to_vec();
    let body = b" { \"a\" :   1 } ".to_vec();
    match handle_request(Method::Post, &path, &body) {
        Handled::Replied(reply) => {
            let rec = reply.log.expect("a log record is owed on success");
            assert_eq!(rec.payload, "{\"a\":1}");
        },
        _ => panic!("whitespace around valid JSON must still parse"),
    }
}

#[test]
fn json_wildcard_spans_segments() {
    let path = b"/json/x/y/z".to_vec();
    assert_eq!(dispatch(Method::Post, &path), Route::JsonIngest);
    let body = b"[1,2,3]".to_vec();
    match handle_request(Method::Post, &path, &body) {
        Handled::Replied(reply) => {
            assert_eq!(reply.response.status, 200);
            let rec = reply.log.expect("a log record is owed on success");
            assert_eq!(rec.path, b"/json/x/y/z".to_vec());
            assert_eq!(rec.payload, "[1,2,3]");
        },
        _ => panic!("a multi-segment wildcard path must be routed"),
    }
}

#[test]
fn bad_json_aborts_request_only() {
    let path = b"/json/anything".to_vec();
    let body = b"not-json".to_vec();
    match handle_request(Method::Post, &path, &body) {
        Handled::Aborted(_) => {},
        _ => panic!("a malformed body must abort the request"),
    }
    // The next request is unaffected.
    let ping = b"/ping".to_vec();
    let empty = Vec::new();
    match handle_request(Method::Get, &ping, &empty) {
        Handled::Replied(reply) => {
            assert_eq!(reply.response.status, 200);
            assert_eq!(reply.response.body, "Hello World");
        },
        _ => panic!("GET /ping must still answer after an aborted request"),
    }
}

#[test]
fn empty_body_aborts() {
    let path = b"/json/anything".to_vec();
    let body = Vec::new();
    match handle_request(Method::Post, &path, &body) {
        Handled::Aborted(_) => {},
        _ => panic!("an empty body is not JSON and must abort the request"),
    }
}

#[test]
fn unmatched_requests_are_not_routed() {
    let empty = Vec::new();
    let cases: Vec<(Method, &[u8])> = vec![
        (Method::Post, b"/ping"),
        (Method::Get, b"/json/x"),
        (Method::Get, b"/pingg"),
        (Method::Post, b"/json/"),
        (Method::Post, b"/json"),
        (Method::Other, b"/ping"),
        (Method::Get, b"/"),
    ];
    for (method, path) in cases {
        let p = path.to_vec();
        assert_eq!(dispatch(method, &p), Route::NoMatch);
        match handle_request(method, &p, &empty) {
            Handled::NotRouted => {},
            _ => panic!("an unmatched request must fall to the default reply"),
        }
    }
}

#[test]
fn bind_defaults_when_omitted() {
    let c = bind_or_default(None);
    assert_eq!(c.bind, "127.0.0.1:5800");
}

#[test]
fn bind_uses_supplied_address() {
    let c = bind_or_default(Some("0.0.0.0:9000".to_string()));
    assert_eq!(c.bind, "0.0.0.0:9000");
}

#[test]
fn log_file_is_named_by_day() {
    let d = Date { year: 2026, month: 10, day: 12 };
    assert_eq!(log_file_name(&d), "app.log.2026-10-12");
}

#[test]
fn restart_after_midnight_names_a_new_file() {
    let before = Date { year: 2026, month: 10, day: 12 };
    let after = Date { year: 2026, month: 10, day: 13 };
    assert_ne!(log_file_name(&before), log_file_name(&after));
    assert_eq!(log_file_name(&after), "app.log.2026-10-13");
}

#[test]
fn year_boundary_names_a_new_file() {
    let before = Date { year: 2025, month: 12, day: 31 };
    let after = Date { year: 2026, month: 1, day: 1 };
    assert_ne!(log_file_name(&before), log_file_name(&after));
    assert_eq!(log_file_name(&after), "app.log.2026-01-01");
}

#[test]
fn timestamps_are_zero_padded_millisecond_local_time() {
    let t = Timestamp {
        date: Date { year: 2026, month: 1, day: 2 },
        hour: 3,
        minute: 4,
        second: 5,
        milli: 6,
    };
    assert_eq!(timestamp_string(&t), "2026-01-02T03:04:05.006");
}

#[test]
fn two_digit_fields_are_padded() {
    assert_eq!(two_digit_string(7), "07");
    assert_eq!(two_digit_string(42), "42");
}
