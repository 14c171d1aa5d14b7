//! Per-connection handling: which body a connection is served, and the one
//! compute step between draining a request and writing the response.

use vstd::prelude::*;
use vstd::string::StrSliceExecFns;
use vstd::string::StringSliceAdditionalSpecFns;
use crate::response::render_response;
use crate::response::response_bytes;

verus! {

/// The outcome of one read of the telemetry lock: a rendered snapshot, or
/// nothing when the lock could not be acquired.
pub enum SnapshotOutcome {
    Rendered(Vec<u8>),
    Unavailable,
}

/// The fixed body served when the telemetry lock cannot be acquired.
pub open spec fn fallback_body() -> Seq<u8> {
    "# error reading telemetry\n".spec_bytes()
}

/// The body a snapshot outcome is served with: the rendering when the lock
/// was read, the fixed fallback when it was not.
pub open spec fn body_of(outcome: SnapshotOutcome) -> Seq<u8> {
    match outcome {
        SnapshotOutcome::Rendered(b) => b@,
        SnapshotOutcome::Unavailable => fallback_body(),
    }
}

/// What one connection is served, as a function of the bytes the client
/// sent and of the body behind the snapshot outcome. The drained bytes do
/// not occur on the right-hand side: they play no part.
pub open spec fn connection_response(drained: Seq<u8>, snapshot_body: Seq<u8>) -> Seq<u8> {
    response_bytes(snapshot_body)
}

/// How many bytes of a request the worker drains, at most, before it
/// responds; the rest is discarded with the connection.
pub const DRAIN_BUFFER_LEN: usize = 1024;

/// The fixed fallback body as bytes.
pub fn fallback_body_bytes() -> (r: Vec<u8>)
    ensures
        r@ == fallback_body(),
{
    "# error reading telemetry\n".as_bytes_vec()
}

pub struct MetricsServer;

impl MetricsServer {
    /// The complete response owed to a snapshot outcome: the rendered
    /// snapshot, or the fixed fallback, behind the fixed header.
    pub fn response_for(outcome: &SnapshotOutcome) -> (r: Vec<u8>)
        ensures
            r@ == response_bytes(body_of(*outcome)),
    {
        match outcome {
            SnapshotOutcome::Rendered(body) => render_response(body),
            SnapshotOutcome::Unavailable => {
                let fb = fallback_body_bytes();
                render_response(&fb)
            },
        }
    }

    /// One connection's compute step, between the drain and the write. The
    /// drained request bytes are taken only to be discarded: the response
    /// depends on the snapshot outcome alone.
    pub fn handle_connection(drained: &Vec<u8>, outcome: &SnapshotOutcome) -> (r: Vec<u8>)
        ensures
            r@ == connection_response(drained@, body_of(*outcome)),
    {
        Self::response_for(outcome)
    }
}

/// When the telemetry lock cannot be acquired the exchange still completes
/// normally: the body served is the fixed fallback, behind the usual status
/// line and a `Content-Length` that denotes the fallback's exact length.
pub proof fn lemma_lock_failure_served_with_fallback()
    ensures
        body_of(SnapshotOutcome::Unavailable) == fallback_body(),
        response_bytes(fallback_body()).take(crate::response::status_line().len() as int)
            == crate::response::status_line(),
        response_bytes(fallback_body()).skip(
            crate::response::header_bytes(fallback_body().len()).len() as int,
        ) == fallback_body(),
        crate::response::decimal_value(crate::response::decimal_rep(fallback_body().len()))
            == fallback_body().len(),
{
    crate::response::lemma_response_starts_with_status_line(fallback_body());
    crate::response::lemma_body_verbatim(fallback_body());
    crate::response::lemma_decimal_rep_value(fallback_body().len());
}

/// Whatever bytes a client sends before reading — none at all, or more
/// than the drain buffer holds — its response begins with the status line
/// `HTTP/1.1 200 OK\r\n`.
pub proof fn lemma_any_request_answered_with_status_line(drained: Seq<u8>, snapshot_body: Seq<u8>)
    ensures
        connection_response(drained, snapshot_body).len()
            >= crate::response::status_line().len(),
        connection_response(drained, snapshot_body).take(
            crate::response::status_line().len() as int,
        ) == crate::response::status_line(),
{
    crate::response::lemma_response_starts_with_status_line(snapshot_body);
}

/// Two sequential connections never share state: whatever bytes each client
/// sent, connections served from the same snapshot body receive the same
/// response, and neither affects the other's outcome.
pub proof fn lemma_connections_independent(
    drained_a: Seq<u8>,
    drained_b: Seq<u8>,
    snapshot_body: Seq<u8>,
)
    ensures
        connection_response(drained_a, snapshot_body) == connection_response(
            drained_b,
            snapshot_body,
        ),
{
}

} // verus!
