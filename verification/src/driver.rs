//! The session driver: the state dispatch loop.
//!
//! Each iteration queries the engine for the next state, performs the
//! side effect that state demands, unconditionally applies the
//! reported discard to the incoming buffer, and counts the iteration
//! against the configured bound. The loop ends on the terminal state
//! or on the designed close path; every other exit is a fatal error.

use vstd::prelude::*;

use crate::adapter::encrypt_http_request;
use crate::adapter::first_line;
use crate::adapter::is_response_start;
use crate::buffer::IncomingBuffer;
use crate::buffer::OutgoingBuffer;
use crate::engine::ConnectionState;
use crate::engine::EncodeKind;
use crate::engine::SessionEngine;
use crate::engine::Transport;
use crate::error::SessionError;
use crate::retry::try_or_resize_and_retry;

verus! {

/// The immutable per-session configuration.
pub struct SessionOptions {
    /// Fatal-abort bound on dispatch iterations, a livelock guard.
    pub max_iterations: usize,
    /// Whether the session is expected to send early data; checked
    /// against what actually happened when the session ends.
    pub send_early_data: bool,
    /// The one-shot early-data payload.
    pub early_data: Vec<u8>,
    /// The one-shot application payload.
    pub request: Vec<u8>,
}

/// What a completed session did.
#[derive(Debug)]
pub struct SessionOutcome {
    pub sent_request: bool,
    pub received_response: bool,
    pub sent_early_data: bool,
    /// Dispatch iterations the session took.
    pub iterations: usize,
    /// First line of the first record that began a response.
    pub response_first_line: Option<Vec<u8>>,
}

/// Runs one session to completion.
///
/// On success the driver owes its caller the exit invariants: exactly
/// one application payload was sent, a response was observed, early
/// data was sent exactly when configured, and both buffers are fully
/// drained. The incoming buffer is never reallocated; the outgoing
/// buffer never shrinks.
pub fn converse<E: SessionEngine, T: Transport>(
    engine: &mut E,
    transport: &mut T,
    incoming: &mut IncomingBuffer,
    outgoing: &mut OutgoingBuffer,
    options: &SessionOptions,
) -> (r: Result<SessionOutcome, SessionError>)
    requires
        old(incoming).wf(),
        old(outgoing).wf(),
    ensures
        final(incoming).wf(),
        final(outgoing).wf(),
        final(incoming).capacity_spec() == old(incoming).capacity_spec(),
        final(outgoing).capacity_spec() >= old(outgoing).capacity_spec(),
        match r {
            Ok(outcome) => {
                &&& outcome.sent_request
                &&& outcome.received_response
                &&& outcome.sent_early_data == options.send_early_data
                &&& outcome.iterations <= options.max_iterations
                &&& final(incoming)@ == Seq::<u8>::empty()
                &&& final(outgoing)@ == Seq::<u8>::empty()
            },
            Err(_) => true,
        },
        options.max_iterations == 0 ==> r == Err::<SessionOutcome, SessionError>(
            SessionError::IterationLimit,
        ),
{
    let mut open_connection = true;
    let mut sent_request = false;
    let mut received_response = false;
    let mut sent_early_data = false;
    let mut iter_count: usize = 0;
    let mut response_first_line: Option<Vec<u8>> = None;
    let empty_payload: Vec<u8> = Vec::new();

    while open_connection
        invariant
            incoming.wf(),
            outgoing.wf(),
            incoming.capacity_spec() == old(incoming).capacity_spec(),
            outgoing.capacity_spec() >= old(outgoing).capacity_spec(),
            iter_count <= options.max_iterations,
            !open_connection ==> iter_count >= 1,
        decreases options.max_iterations - iter_count,
    {
        if iter_count >= options.max_iterations {
            return Err(SessionError::IterationLimit);
        }
        let status = match engine.process_tls_records(incoming.unread()) {
            Ok(status) => status,
            Err(e) => {
                return Err(SessionError::Engine(e));
            },
        };
        let mut discard = status.discard;

        match status.state {
            ConnectionState::AppDataAvailable => {
                let mut draining = true;
                while draining
                    invariant
                        incoming.wf(),
                        outgoing.wf(),
                        incoming.capacity_spec() == old(incoming).capacity_spec(),
                        outgoing.capacity_spec() >= old(outgoing).capacity_spec(),
                        iter_count < options.max_iterations,
                    decreases engine.records_remaining() + (if draining {
                        1nat
                    } else {
                        0nat
                    }),
                {
                    match engine.next_record() {
                        None => {
                            draining = false;
                        },
                        Some(Err(e)) => {
                            return Err(SessionError::Engine(e));
                        },
                        Some(Ok(record)) => {
                            if usize::MAX - discard < record.discard {
                                return Err(SessionError::DiscardOverflow);
                            }
                            discard = discard + record.discard;
                            if is_response_start(record.payload.as_slice()) {
                                if response_first_line.is_none() {
                                    response_first_line = Some(
                                        first_line(record.payload.as_slice()),
                                    );
                                }
                            }
                            received_response = true;
                        },
                    }
                }
            },
            ConnectionState::MustEncodeTlsData => {
                let _written = match try_or_resize_and_retry(
                    engine,
                    EncodeKind::Handshake,
                    empty_payload.as_slice(),
                    outgoing,
                ) {
                    Ok(written) => written,
                    Err(e) => {
                        return Err(e);
                    },
                };
            },
            ConnectionState::MustTransmitTlsData { may_encrypt_early_data, may_encrypt_app_data } => {
                if may_encrypt_early_data && !sent_early_data {
                    let _written = match try_or_resize_and_retry(
                        engine,
                        EncodeKind::EarlyData,
                        options.early_data.as_slice(),
                        outgoing,
                    ) {
                        Ok(written) => written,
                        Err(e) => {
                            return Err(e);
                        },
                    };
                    sent_early_data = true;
                }
                if may_encrypt_app_data {
                    match encrypt_http_request(
                        &mut sent_request,
                        engine,
                        outgoing,
                        options.request.as_slice(),
                    ) {
                        Ok(_queued) => (),
                        Err(e) => {
                            return Err(e);
                        },
                    }
                }
                match outgoing.send_over(transport) {
                    Ok(()) => (),
                    Err(e) => {
                        return Err(SessionError::Transport(e));
                    },
                }
                engine.transmit_done();
            },
            ConnectionState::NeedsMoreTlsData => {
                match recv_tls(transport, incoming) {
                    Ok(_read) => (),
                    Err(e) => {
                        return Err(e);
                    },
                }
            },
            ConnectionState::TrafficTransit => {
                let queued = match encrypt_http_request(
                    &mut sent_request,
                    engine,
                    outgoing,
                    options.request.as_slice(),
                ) {
                    Ok(queued) => queued,
                    Err(e) => {
                        return Err(e);
                    },
                };
                if queued {
                    match outgoing.send_over(transport) {
                        Ok(()) => (),
                        Err(e) => {
                            return Err(SessionError::Transport(e));
                        },
                    }
                    match recv_tls(transport, incoming) {
                        Ok(_read) => (),
                        Err(e) => {
                            return Err(e);
                        },
                    }
                } else if !received_response {
                    // The payload went out in a preceding transmit
                    // state and the reply is still pending.
                    match recv_tls(transport, incoming) {
                        Ok(_read) => (),
                        Err(e) => {
                            return Err(e);
                        },
                    }
                } else {
                    let _written = match try_or_resize_and_retry(
                        engine,
                        EncodeKind::CloseNotify,
                        empty_payload.as_slice(),
                        outgoing,
                    ) {
                        Ok(written) => written,
                        Err(e) => {
                            return Err(e);
                        },
                    };
                    match outgoing.send_over(transport) {
                        Ok(()) => (),
                        Err(e) => {
                            return Err(SessionError::Transport(e));
                        },
                    }
                    open_connection = false;
                }
            },
            ConnectionState::ConnectionClosed => {
                open_connection = false;
            },
            ConnectionState::Other => {
                return Err(SessionError::UnexpectedState);
            },
        }

        if discard > incoming.used() {
            return Err(SessionError::DiscardOverflow);
        }
        incoming.compact(discard);

        iter_count = iter_count + 1;
    }

    if !sent_request || !received_response {
        return Err(SessionError::ExitInvariantViolated);
    }
    if sent_early_data != options.send_early_data {
        return Err(SessionError::ExitInvariantViolated);
    }
    if incoming.used() != 0 || outgoing.used() != 0 {
        return Err(SessionError::ExitInvariantViolated);
    }
    proof {
        assert(incoming@ =~= Seq::<u8>::empty());
        assert(outgoing@ =~= Seq::<u8>::empty());
    }
    Ok(
        SessionOutcome {
            sent_request,
            received_response,
            sent_early_data,
            iterations: iter_count,
            response_first_line,
        },
    )
}

/// Receives more session bytes, failing when the incoming buffer has
/// no space left before the call.
pub fn recv_tls<T: Transport>(transport: &mut T, incoming: &mut IncomingBuffer) -> (r: Result<
    usize,
    SessionError,
>)
    requires
        old(incoming).wf(),
    ensures
        final(incoming).wf(),
        final(incoming).capacity_spec() == old(incoming).capacity_spec(),
        match r {
            Ok(n) => {
                &&& final(incoming)@.len() == old(incoming)@.len() + n
                &&& final(incoming)@.subrange(0, old(incoming)@.len() as int) == old(incoming)@
            },
            Err(SessionError::CapacityExhausted) => {
                &&& old(incoming)@.len() == old(incoming).capacity_spec()
                &&& final(incoming)@ == old(incoming)@
            },
            Err(SessionError::Transport(_)) => final(incoming)@ == old(incoming)@,
            Err(_) => false,
        },
        old(incoming)@.len() == old(incoming).capacity_spec() ==> r == Err::<
            usize,
            SessionError,
        >(SessionError::CapacityExhausted),
{
    if incoming.used() == incoming.capacity() {
        return Err(SessionError::CapacityExhausted);
    }
    match incoming.recv_from(transport) {
        Ok(n) => Ok(n),
        Err(e) => Err(SessionError::Transport(e)),
    }
}

} // verus!
