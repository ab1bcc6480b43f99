use bytes::Bytes;
use nexus_runtime::http_types;
use nexus_runtime::host_log::{HostLog, LogLevel, LogSink, Severity};
use nexus_runtime::model::{Header, HttpRequest, HttpResponse};

fn header(name: &str, value: &str) -> Header {
    Header { name: name.to_string(), value: value.to_string() }
}

#[test]
fn request_takes_whatever_converts() {
    let from_slices = HttpRequest::new("GET", "/a", vec![header("h", "v")], vec![1u8, 2, 3]);
    assert_eq!(from_slices.method, "GET");
    assert_eq!(from_slices.uri, "/a");
    assert_eq!(from_slices.headers.len(), 1);
    assert_eq!(from_slices.headers[0].name, "h");
    assert_eq!(from_slices.headers[0].value, "v");
    assert_eq!(&from_slices.body[..], &[1u8, 2, 3]);

    let owned = HttpRequest::new(
        String::from("POST"),
        String::from("/b"),
        Vec::new(),
        Bytes::from_static(b"xyz"),
    );
    assert_eq!(owned.method, "POST");
    assert_eq!(owned.uri, "/b");
    assert!(owned.headers.is_empty());
    assert_eq!(&owned.body[..], b"xyz");
}

#[test]
fn lowering_keeps_every_part_in_order() {
    let request = HttpRequest::new(
        "PUT",
        "/x?y=1",
        vec![header("a", "1"), header("b", "2"), header("a", "3")],
        vec![0u8, 255, 7],
    );
    let lowered = http_types::HttpRequest::from(request);
    assert_eq!(lowered.method, "PUT");
    assert_eq!(lowered.uri, "/x?y=1");
    let names: Vec<(&str, &str)> =
        lowered.headers.iter().map(|h| (h.name.as_str(), h.value.as_str())).collect();
    assert_eq!(names, vec![("a", "1"), ("b", "2"), ("a", "3")]);
    assert_eq!(lowered.body, vec![0u8, 255, 7]);
}

#[test]
fn lifting_keeps_every_part_in_order() {
    let response = http_types::HttpResponse {
        status: 418,
        headers: vec![
            http_types::HttpHeader { name: "p".to_string(), value: "q".to_string() },
            http_types::HttpHeader { name: "r".to_string(), value: "s".to_string() },
        ],
        body: vec![9, 8],
    };
    let lifted = HttpResponse::from(response);
    assert_eq!(lifted.status, 418);
    assert_eq!(lifted.headers.len(), 2);
    assert_eq!(lifted.headers[0].name, "p");
    assert_eq!(lifted.headers[1].value, "s");
    assert_eq!(&lifted.body[..], &[9u8, 8]);
}

#[test]
fn header_round_trip() {
    let there = http_types::HttpHeader::from(header("name", "value"));
    assert_eq!(there.name, "name");
    assert_eq!(there.value, "value");
    let back = Header::from(there);
    assert_eq!(back.name, "name");
    assert_eq!(back.value, "value");
}

#[test]
fn clones_hold_the_same() {
    let request = HttpRequest::new("GET", "/", vec![header("h", "v")], vec![5u8]);
    let copy = request.clone();
    assert_eq!(copy.method, request.method);
    assert_eq!(copy.uri, request.uri);
    assert_eq!(copy.headers[0].name, "h");
    assert_eq!(copy.headers[0].value, "v");
    assert_eq!(copy.body, request.body);

    let response =
        HttpResponse { status: 204, headers: vec![header("h", "v")], body: Bytes::from(vec![6u8]) };
    let copy = response.clone();
    assert_eq!(copy.status, 204);
    assert_eq!(copy.headers.len(), 1);
    assert_eq!(copy.body, response.body);
}

#[test]
fn log_lines_stay_in_order() {
    let log = HostLog::new().write(LogLevel::Warn, "first").write(LogLevel::Trace, "second");
    let records = log.into_records();
    assert_eq!(records.len(), 2);
    assert_eq!(records[0].level, LogLevel::Warn);
    assert_eq!(records[0].message, "first");
    assert_eq!(records[1].level, LogLevel::Trace);
    assert_eq!(records[1].message, "second");
}

#[test]
fn trace_is_passed_on_as_debug() {
    assert_eq!(LogLevel::Trace.severity(), Severity::Debug);
    assert_eq!(LogLevel::Debug.severity(), Severity::Debug);
    assert_eq!(LogLevel::Info.severity(), Severity::Info);
    assert_eq!(LogLevel::Warn.severity(), Severity::Warn);
    assert_eq!(LogLevel::Error.severity(), Severity::Error);
}
