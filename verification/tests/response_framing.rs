use metrics_exporter::exporter::fallback_body_bytes;
use metrics_exporter::render_response;
use metrics_exporter::MetricsServer;
use metrics_exporter::SnapshotOutcome;

fn split_response(response: &[u8]) -> (Vec<u8>, Vec<u8>) {
    let blank = response
        .windows(4)
        .position(|w| w == b"\r\n\r\n")
        .expect("response has no blank line");
    (response[..blank + 4].to_vec(), response[blank + 4..].to_vec())
}

fn content_length_of(header: &[u8]) -> usize {
    let text = String::from_utf8(header.to_vec()).expect("header is not UTF-8");
    let line = text
        .lines()
        .find(|l| l.starts_with("Content-Length: "))
        .expect("no Content-Length header");
    line["Content-Length: ".len()..].parse().expect("length is not a number")
}

#[test]
fn response_for_small_body_is_exact() {
    let body: Vec<u8> = b"abc".to_vec();
    let response = render_response(&body);
    let expected = b"HTTP/1.1 200 OK\r\nContent-Type: text/plain; version=0.0.4; charset=utf-8\r\nContent-Length: 3\r\nConnection: close\r\n\r\nabc".to_vec();
    assert_eq!(response, expected);
}

#[test]
fn response_for_empty_body_is_exact() {
    let body: Vec<u8> = Vec::new();
    let response = render_response(&body);
    let expected = b"HTTP/1.1 200 OK\r\nContent-Type: text/plain; version=0.0.4; charset=utf-8\r\nContent-Length: 0\r\nConnection: close\r\n\r\n".to_vec();
    assert_eq!(response, expected);
}

#[test]
fn response_always_begins_with_status_line() {
    let bodies: Vec<Vec<u8>> = vec![
        Vec::new(),
        b"# HELP up\nup 1\n".to_vec(),
        vec![0u8; 2000],
        (0u8..=255).collect(),
    ];
    for body in bodies {
        let response = render_response(&body);
        assert!(response.starts_with(b"HTTP/1.1 200 OK\r\n"));
    }
}

#[test]
fn content_length_equals_bytes_after_blank_line() {
    let bodies: Vec<Vec<u8>> = vec![
        Vec::new(),
        b"x".to_vec(),
        vec![b'm'; 10],
        vec![b'm'; 1024],
        vec![b'm'; 12345],
    ];
    for body in bodies {
        let response = render_response(&body);
        let (header, rest) = split_response(&response);
        assert_eq!(content_length_of(&header), rest.len());
        assert_eq!(rest.len(), body.len());
    }
}

#[test]
fn body_is_served_verbatim() {
    let body: Vec<u8> = (0u8..=255).collect();
    let response = render_response(&body);
    let (_, rest) = split_response(&response);
    assert_eq!(rest, body);
}

#[test]
fn rendered_snapshot_is_the_body() {
    let body: Vec<u8> = b"# HELP connections\nconnections 7\n".to_vec();
    let response = MetricsServer::response_for(&SnapshotOutcome::Rendered(body.clone()));
    let (_, rest) = split_response(&response);
    assert_eq!(rest, body);
}

#[test]
fn lock_failure_serves_fallback_with_exact_length() {
    let response = MetricsServer::response_for(&SnapshotOutcome::Unavailable);
    assert!(response.starts_with(b"HTTP/1.1 200 OK\r\n"));
    let (header, rest) = split_response(&response);
    assert_eq!(rest, b"# error reading telemetry\n".to_vec());
    assert_eq!(content_length_of(&header), rest.len());
    assert_eq!(fallback_body_bytes(), b"# error reading telemetry\n".to_vec());
}

#[test]
fn drained_bytes_play_no_part() {
    let body: Vec<u8> = b"up 1\n".to_vec();
    let silent: Vec<u8> = Vec::new();
    let chatty: Vec<u8> = vec![b'A'; 2000];
    let a = MetricsServer::handle_connection(&silent, &SnapshotOutcome::Rendered(body.clone()));
    let b = MetricsServer::handle_connection(&chatty, &SnapshotOutcome::Rendered(body.clone()));
    assert_eq!(a, b);
    assert!(a.starts_with(b"HTTP/1.1 200 OK\r\n"));
    let (header, rest) = split_response(&a);
    assert_eq!(content_length_of(&header), rest.len());
}
