//! Scenario tests that drive whole sessions over scripted
//! collaborators.

use session_driver::adapter::build_http_request;
use session_driver::buffer::IncomingBuffer;
use session_driver::buffer::OutgoingBuffer;
use session_driver::driver::converse;
use session_driver::driver::SessionOptions;
use session_driver::engine::AppDataRecord;
use session_driver::engine::EncodeError;
use session_driver::engine::EngineError;
use session_driver::engine::TransportError;
use session_driver::error::SessionError;
use session_driver::script::ScriptState;
use session_driver::script::ScriptStep;
use session_driver::script::ScriptedEngine;
use session_driver::script::ScriptedTransport;
use session_driver::script::CLOSE_FIRST;
use session_driver::script::CLOSE_SECOND;
use session_driver::script::HANDSHAKE_FILL;

fn step(discard: usize, state: ScriptState) -> ScriptStep {
    ScriptStep { discard, state, records: Vec::new() }
}

fn data_step(discard: usize, records: Vec<AppDataRecord>) -> ScriptStep {
    ScriptStep { discard, state: ScriptState::Data, records }
}

fn options(max_iterations: usize, send_early_data: bool) -> SessionOptions {
    SessionOptions {
        max_iterations,
        send_early_data,
        early_data: b"hello".to_vec(),
        request: build_http_request(b"example.com"),
    }
}

const RESPONSE: &[u8] = b"HTTP/1.1 200 OK\r\nContent-Length: 0\r\n\r\n";

/// The engine part of the end-to-end exchange: handshake encode,
/// transmit carrying the request, a read, one decrypted response
/// record that discards the `wire` bytes read, then the close path.
fn end_to_end_script(wire_len: usize) -> Vec<ScriptStep> {
    let record = AppDataRecord { discard: wire_len, payload: RESPONSE.to_vec() };
    vec![
        step(0, ScriptState::Encode { need: 5 }),
        step(0, ScriptState::Transmit { offer_early: false, offer_app: true }),
        step(0, ScriptState::NeedData),
        data_step(0, vec![record]),
        step(0, ScriptState::Traffic),
        step(0, ScriptState::Closed),
    ]
}

#[test]
fn end_to_end_exchange() {
    let wire: Vec<u8> = vec![0x17; 10];
    let mut engine = ScriptedEngine::new(end_to_end_script(wire.len()));
    let mut transport = ScriptedTransport::new(vec![wire]);
    let mut incoming = IncomingBuffer::new(64);
    let mut outgoing = OutgoingBuffer::new(1024);
    let opts = options(20, false);

    let outcome = converse(&mut engine, &mut transport, &mut incoming, &mut outgoing, &opts)
        .expect("session should close cleanly");

    assert!(outcome.sent_request);
    assert!(outcome.received_response);
    assert!(!outcome.sent_early_data);
    assert_eq!(outcome.response_first_line.as_deref(), Some(b"HTTP/1.1 200 OK".as_slice()));
    assert_eq!(incoming.used(), 0);
    assert_eq!(outgoing.used(), 0);

    // Exactly two transmissions: handshake bytes plus the one payload,
    // then the close signal.
    let sent = transport.sent();
    assert_eq!(sent.len(), 2);
    let mut first = vec![HANDSHAKE_FILL; 5];
    first.extend_from_slice(&build_http_request(b"example.com"));
    assert_eq!(sent[0], first);
    assert_eq!(sent[1], vec![CLOSE_FIRST, CLOSE_SECOND]);
}

/// Needs one `NeedData` iteration per chunk of the same byte stream.
fn chunked_script(chunks: &[Vec<u8>]) -> Vec<ScriptStep> {
    let wire_len: usize = chunks.iter().map(|c| c.len()).sum();
    let record = AppDataRecord { discard: wire_len, payload: RESPONSE.to_vec() };
    let mut steps = vec![
        step(0, ScriptState::Encode { need: 5 }),
        step(0, ScriptState::Transmit { offer_early: false, offer_app: true }),
    ];
    for _ in chunks {
        steps.push(step(0, ScriptState::NeedData));
    }
    steps.push(data_step(0, vec![record]));
    steps.push(step(0, ScriptState::Traffic));
    steps.push(step(0, ScriptState::Closed));
    steps
}

#[test]
fn chunking_does_not_change_the_outcome() {
    let stream: Vec<u8> = (0u8..10).collect();
    let fragmentations: Vec<Vec<usize>> = vec![
        vec![10],
        vec![5, 5],
        vec![3, 3, 3, 1],
        vec![1, 1, 1, 1, 1, 1, 1, 1, 1, 1],
        vec![9, 1],
    ];
    for sizes in fragmentations {
        let mut chunks: Vec<Vec<u8>> = Vec::new();
        let mut at = 0;
        for s in &sizes {
            chunks.push(stream[at..at + s].to_vec());
            at += s;
        }
        let mut engine = ScriptedEngine::new(chunked_script(&chunks));
        let mut transport = ScriptedTransport::new(chunks);
        let mut incoming = IncomingBuffer::new(64);
        let mut outgoing = OutgoingBuffer::new(1024);
        let opts = options(30, false);

        let outcome = converse(&mut engine, &mut transport, &mut incoming, &mut outgoing, &opts)
            .expect("every fragmentation should close cleanly");
        assert!(outcome.sent_request, "fragmentation {:?}", sizes);
        assert!(outcome.received_response, "fragmentation {:?}", sizes);
        assert_eq!(
            outcome.response_first_line.as_deref(),
            Some(b"HTTP/1.1 200 OK".as_slice()),
            "fragmentation {:?}",
            sizes
        );
        assert_eq!(incoming.used(), 0);
        assert_eq!(outgoing.used(), 0);
        assert_eq!(transport.sent().len(), 2);
    }
}

#[test]
fn capacity_exhaustion_is_a_capacity_error() {
    // A 16-byte incoming buffer, an engine that wants more data every
    // iteration without ever discarding, and a peer with plenty to
    // send: the driver must fail with the capacity error, not
    // truncate or overflow.
    let steps: Vec<ScriptStep> = (0..6).map(|_| step(0, ScriptState::NeedData)).collect();
    let mut engine = ScriptedEngine::new(steps);
    let mut transport = ScriptedTransport::new(vec![vec![1; 8], vec![2; 8], vec![3; 8]]);
    let mut incoming = IncomingBuffer::new(16);
    let mut outgoing = OutgoingBuffer::new(64);
    let opts = options(20, false);

    let r = converse(&mut engine, &mut transport, &mut incoming, &mut outgoing, &opts);
    assert_eq!(r.unwrap_err(), SessionError::CapacityExhausted);
    assert_eq!(incoming.used(), 16);
}

#[test]
fn livelock_hits_the_iteration_bound() {
    // The engine perpetually asks for more data and the transport
    // perpetually has none: the driver must abort via the iteration
    // bound, not hang.
    let steps: Vec<ScriptStep> = (0..50).map(|_| step(0, ScriptState::NeedData)).collect();
    let mut engine = ScriptedEngine::new(steps);
    let mut transport = ScriptedTransport::new(Vec::new());
    let mut incoming = IncomingBuffer::new(16);
    let mut outgoing = OutgoingBuffer::new(64);
    let opts = options(20, false);

    let r = converse(&mut engine, &mut transport, &mut incoming, &mut outgoing, &opts);
    assert_eq!(r.unwrap_err(), SessionError::IterationLimit);
}

#[test]
fn early_data_goes_first_and_only_once() {
    let wire: Vec<u8> = vec![0x17; 10];
    let record = AppDataRecord { discard: wire.len(), payload: RESPONSE.to_vec() };
    // The engine offers the early-data capability on two transmit
    // states; the driver must use it exactly once, before the main
    // payload in the same outgoing buffer.
    let steps = vec![
        step(0, ScriptState::Encode { need: 5 }),
        step(0, ScriptState::Transmit { offer_early: true, offer_app: true }),
        step(0, ScriptState::Transmit { offer_early: true, offer_app: false }),
        step(0, ScriptState::NeedData),
        data_step(0, vec![record]),
        step(0, ScriptState::Traffic),
        step(0, ScriptState::Closed),
    ];
    let mut engine = ScriptedEngine::new(steps);
    let mut transport = ScriptedTransport::new(vec![wire]);
    let mut incoming = IncomingBuffer::new(64);
    let mut outgoing = OutgoingBuffer::new(1024);
    let opts = options(20, true);

    let outcome = converse(&mut engine, &mut transport, &mut incoming, &mut outgoing, &opts)
        .expect("early-data session should close cleanly");
    assert!(outcome.sent_early_data);

    let sent = transport.sent();
    assert_eq!(sent.len(), 3);
    let mut first = vec![HANDSHAKE_FILL; 5];
    first.extend_from_slice(b"hello");
    first.extend_from_slice(&build_http_request(b"example.com"));
    assert_eq!(sent[0], first);
    // The second offer found the flag set: nothing was queued again.
    assert!(sent[1].is_empty());
    let early_occurrences = sent
        .iter()
        .flat_map(|v| v.windows(5).filter(|w| *w == b"hello"))
        .count();
    assert_eq!(early_occurrences, 1);
}

#[test]
fn configured_early_data_that_never_happens_is_a_defect() {
    let wire: Vec<u8> = vec![0x17; 10];
    let mut engine = ScriptedEngine::new(end_to_end_script(wire.len()));
    let mut transport = ScriptedTransport::new(vec![wire]);
    let mut incoming = IncomingBuffer::new(64);
    let mut outgoing = OutgoingBuffer::new(1024);
    let opts = options(20, true);

    let r = converse(&mut engine, &mut transport, &mut incoming, &mut outgoing, &opts);
    assert_eq!(r.unwrap_err(), SessionError::ExitInvariantViolated);
}

#[test]
fn closing_before_the_exchange_is_a_defect() {
    let mut engine = ScriptedEngine::new(vec![step(0, ScriptState::Closed)]);
    let mut transport = ScriptedTransport::new(Vec::new());
    let mut incoming = IncomingBuffer::new(16);
    let mut outgoing = OutgoingBuffer::new(16);
    let opts = options(20, false);

    let r = converse(&mut engine, &mut transport, &mut incoming, &mut outgoing, &opts);
    assert_eq!(r.unwrap_err(), SessionError::ExitInvariantViolated);
}

#[test]
fn engine_failure_is_fatal() {
    let mut engine = ScriptedEngine::new(vec![step(0, ScriptState::Fail)]);
    let mut transport = ScriptedTransport::new(Vec::new());
    let mut incoming = IncomingBuffer::new(16);
    let mut outgoing = OutgoingBuffer::new(16);
    let opts = options(20, false);

    let r = converse(&mut engine, &mut transport, &mut incoming, &mut outgoing, &opts);
    assert_eq!(r.unwrap_err(), SessionError::Engine(EngineError::Malformed));
}

#[test]
fn a_state_outside_the_set_is_fatal() {
    let mut engine = ScriptedEngine::new(vec![step(0, ScriptState::Other)]);
    let mut transport = ScriptedTransport::new(Vec::new());
    let mut incoming = IncomingBuffer::new(16);
    let mut outgoing = OutgoingBuffer::new(16);
    let opts = options(20, false);

    let r = converse(&mut engine, &mut transport, &mut incoming, &mut outgoing, &opts);
    assert_eq!(r.unwrap_err(), SessionError::UnexpectedState);
}

#[test]
fn discarding_more_than_held_is_fatal() {
    let mut engine = ScriptedEngine::new(vec![step(3, ScriptState::NeedData)]);
    let mut transport = ScriptedTransport::new(vec![vec![9; 2]]);
    let mut incoming = IncomingBuffer::new(16);
    let mut outgoing = OutgoingBuffer::new(16);
    let opts = options(20, false);

    let r = converse(&mut engine, &mut transport, &mut incoming, &mut outgoing, &opts);
    assert_eq!(r.unwrap_err(), SessionError::DiscardOverflow);
}

#[test]
fn a_failing_transport_write_is_fatal() {
    let steps = vec![
        step(0, ScriptState::Encode { need: 5 }),
        step(0, ScriptState::Transmit { offer_early: false, offer_app: true }),
    ];
    let mut engine = ScriptedEngine::new(steps);
    let mut transport = ScriptedTransport::closed();
    let mut incoming = IncomingBuffer::new(16);
    let mut outgoing = OutgoingBuffer::new(1024);
    let opts = options(20, false);

    let r = converse(&mut engine, &mut transport, &mut incoming, &mut outgoing, &opts);
    assert_eq!(r.unwrap_err(), SessionError::Transport(TransportError::Closed));
}

#[test]
fn a_failing_transport_read_is_fatal() {
    let mut engine = ScriptedEngine::new(vec![step(0, ScriptState::NeedData)]);
    let mut transport = ScriptedTransport::closed();
    let mut incoming = IncomingBuffer::new(16);
    let mut outgoing = OutgoingBuffer::new(16);
    let opts = options(20, false);

    let r = converse(&mut engine, &mut transport, &mut incoming, &mut outgoing, &opts);
    assert_eq!(r.unwrap_err(), SessionError::Transport(TransportError::Closed));
}

#[test]
fn an_unrecoverable_encode_failure_is_fatal() {
    let mut engine =
        ScriptedEngine::new_rejecting(vec![step(0, ScriptState::Encode { need: 5 })]);
    let mut transport = ScriptedTransport::new(Vec::new());
    let mut incoming = IncomingBuffer::new(16);
    let mut outgoing = OutgoingBuffer::new(64);
    let opts = options(20, false);

    let r = converse(&mut engine, &mut transport, &mut incoming, &mut outgoing, &opts);
    assert_eq!(r.unwrap_err(), SessionError::Encode(EncodeError::Rejected));
}

#[test]
fn exhausted_script_reports_the_session_closed() {
    let mut engine = ScriptedEngine::new(Vec::new());
    let mut transport = ScriptedTransport::new(Vec::new());
    let mut incoming = IncomingBuffer::new(16);
    let mut outgoing = OutgoingBuffer::new(16);
    let opts = options(20, false);

    // Immediate close without any exchange: the exit invariants fail.
    let r = converse(&mut engine, &mut transport, &mut incoming, &mut outgoing, &opts);
    assert_eq!(r.unwrap_err(), SessionError::ExitInvariantViolated);
}
