//! A minimal, always-on telemetry exporter.
//!
//! The library holds the verified core of a tiny HTTP endpoint that serves a
//! Prometheus text snapshot: composing a complete `HTTP/1.1 200 OK` response
//! around a body, choosing the body from the outcome of a telemetry lock
//! read (a fixed fallback when the lock is unavailable), the per-connection
//! state machine of the worker, and the throttling rule for accept-error
//! logging. The sockets and the worker thread themselves live outside the
//! library and call into it with plain values.

pub mod exporter;
pub mod response;
pub mod throttle;
pub mod worker;

pub use exporter::MetricsServer;
pub use exporter::SnapshotOutcome;
pub use exporter::DRAIN_BUFFER_LEN;
pub use response::render_response;
pub use throttle::LogThrottle;
pub use throttle::ACCEPT_LOG_THROTTLE_SECS;
