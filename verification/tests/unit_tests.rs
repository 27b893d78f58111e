//! Unit tests for the buffers, the retry encoder and the adapter.

use session_driver::adapter::build_http_request;
use session_driver::adapter::first_line;
use session_driver::adapter::is_response_start;
use session_driver::buffer::IncomingBuffer;
use session_driver::buffer::OutgoingBuffer;
use session_driver::engine::EncodeKind;
use session_driver::engine::SessionEngine;
use session_driver::retry::try_or_resize_and_retry;
use session_driver::script::ScriptState;
use session_driver::script::ScriptStep;
use session_driver::script::ScriptedEngine;
use session_driver::script::ScriptedTransport;

fn filled_incoming(bytes: &[u8], capacity: usize) -> IncomingBuffer {
    let mut transport = ScriptedTransport::new(vec![bytes.to_vec()]);
    let mut incoming = IncomingBuffer::new(capacity);
    let n = incoming.recv_from(&mut transport).unwrap();
    assert_eq!(n, bytes.len());
    incoming
}

#[test]
fn compact_with_zero_discard_changes_nothing() {
    let mut incoming = filled_incoming(&[1, 2, 3, 4], 8);
    incoming.compact(0);
    assert_eq!(incoming.used(), 4);
    assert_eq!(incoming.unread(), &[1, 2, 3, 4]);
}

#[test]
fn compact_with_everything_discarded_empties_the_buffer() {
    let mut incoming = filled_incoming(&[1, 2, 3, 4], 8);
    incoming.compact(4);
    assert_eq!(incoming.used(), 0);
    assert_eq!(incoming.unread(), &[] as &[u8]);
}

#[test]
fn compact_shifts_the_remainder_to_the_front() {
    let mut incoming = filled_incoming(&[10, 20, 30, 40, 50], 8);
    incoming.compact(2);
    assert_eq!(incoming.unread(), &[30, 40, 50]);
    incoming.compact(1);
    assert_eq!(incoming.unread(), &[40, 50]);
}

#[test]
fn receive_appends_after_the_held_bytes() {
    let mut transport = ScriptedTransport::new(vec![vec![1, 2], vec![3]]);
    let mut incoming = IncomingBuffer::new(8);
    assert_eq!(incoming.recv_from(&mut transport).unwrap(), 2);
    assert_eq!(incoming.recv_from(&mut transport).unwrap(), 1);
    assert_eq!(incoming.unread(), &[1, 2, 3]);
    // The script is exhausted: further receives read zero bytes.
    assert_eq!(incoming.recv_from(&mut transport).unwrap(), 0);
    assert_eq!(incoming.unread(), &[1, 2, 3]);
}

#[test]
fn receive_takes_only_what_fits() {
    let mut transport = ScriptedTransport::new(vec![vec![7; 10]]);
    let mut incoming = IncomingBuffer::new(4);
    assert_eq!(incoming.recv_from(&mut transport).unwrap(), 4);
    assert_eq!(incoming.used(), 4);
}

fn engine_demanding(need: usize) -> ScriptedEngine {
    let mut engine = ScriptedEngine::new(vec![ScriptStep {
        discard: 0,
        state: ScriptState::Encode { need },
        records: Vec::new(),
    }]);
    engine.process_tls_records(&[]).unwrap();
    engine
}

#[test]
fn retry_grows_exactly_to_the_demanded_size() {
    // The encode demands 100 free bytes against a 4-byte buffer: one
    // resize to exactly 0 + 100 bytes, then success.
    let mut engine = engine_demanding(100);
    let mut outgoing = OutgoingBuffer::new(4);
    let written =
        try_or_resize_and_retry(&mut engine, EncodeKind::Handshake, &[], &mut outgoing).unwrap();
    assert_eq!(written, 100);
    assert_eq!(outgoing.used(), 100);
    assert_eq!(outgoing.capacity(), 100);
}

#[test]
fn retry_grows_from_a_partly_used_buffer() {
    let mut engine = engine_demanding(4);
    let mut outgoing = OutgoingBuffer::new(4);
    try_or_resize_and_retry(&mut engine, EncodeKind::Handshake, &[], &mut outgoing).unwrap();
    assert_eq!(outgoing.used(), 4);
    assert_eq!(outgoing.capacity(), 4);

    let mut engine = engine_demanding(10);
    let written =
        try_or_resize_and_retry(&mut engine, EncodeKind::Handshake, &[], &mut outgoing).unwrap();
    assert_eq!(written, 10);
    assert_eq!(outgoing.used(), 14);
    // Grown to queued bytes plus the demand, not larger.
    assert_eq!(outgoing.capacity(), 14);
}

#[test]
fn retry_leaves_a_sufficient_buffer_alone() {
    let mut engine = engine_demanding(5);
    let mut outgoing = OutgoingBuffer::new(1024);
    let written =
        try_or_resize_and_retry(&mut engine, EncodeKind::Handshake, &[], &mut outgoing).unwrap();
    assert_eq!(written, 5);
    assert_eq!(outgoing.used(), 5);
    assert_eq!(outgoing.capacity(), 1024);
}

#[test]
fn the_outgoing_buffer_accounts_for_its_space() {
    let mut engine = engine_demanding(6);
    let mut outgoing = OutgoingBuffer::new(16);
    assert_eq!(outgoing.capacity(), 16);
    assert_eq!(outgoing.free_len(), 16);
    try_or_resize_and_retry(&mut engine, EncodeKind::Handshake, &[], &mut outgoing).unwrap();
    assert_eq!(outgoing.used(), 6);
    assert_eq!(outgoing.free_len(), 10);
    assert_eq!(outgoing.capacity(), 16);
}

#[test]
fn send_over_drains_the_outgoing_buffer() {
    let mut engine = engine_demanding(3);
    let mut outgoing = OutgoingBuffer::new(16);
    try_or_resize_and_retry(&mut engine, EncodeKind::Handshake, &[], &mut outgoing).unwrap();
    assert_eq!(outgoing.used(), 3);
    let mut transport = ScriptedTransport::new(Vec::new());
    outgoing.send_over(&mut transport).unwrap();
    assert_eq!(outgoing.used(), 0);
    assert_eq!(transport.sent().len(), 1);
    assert_eq!(transport.sent()[0].len(), 3);
}

#[test]
fn response_start_needs_the_http_marker() {
    assert!(is_response_start(b"HTTP/1.1 200 OK"));
    assert!(is_response_start(b"HTTP"));
    assert!(!is_response_start(b"HTT"));
    assert!(!is_response_start(b"xHTTP/1.1"));
    assert!(!is_response_start(b""));
    assert!(!is_response_start(b"(.. continued ..)"));
}

#[test]
fn first_line_stops_at_the_line_break() {
    assert_eq!(first_line(b"HTTP/1.1 200 OK\r\nDate: x"), b"HTTP/1.1 200 OK".to_vec());
    assert_eq!(first_line(b"no line break"), b"no line break".to_vec());
    assert_eq!(first_line(b"bare\nnewline"), b"bare".to_vec());
    assert_eq!(first_line(b""), Vec::<u8>::new());
    assert_eq!(first_line(b"\r\n"), Vec::<u8>::new());
}

#[test]
fn the_request_has_the_exact_expected_bytes() {
    let r = build_http_request(b"example.com");
    let expected = b"GET / HTTP/1.1\r\nHost: example.com\r\nConnection: close\r\nAccept-Encoding: identity\r\n\r\n";
    assert_eq!(r, expected.to_vec());
}
