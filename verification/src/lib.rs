//! Batching and delivery engine of a telemetry export client.
//!
//! Log and span records are buffered, grouped into batches under a
//! configurable policy, and driven to a remote ingestion endpoint by a
//! per-stream delivery state machine that retries, backs off, splits
//! oversized payloads, or gives up, depending on what the transport reports.
//!
//! The engine performs no I/O. It says which request to issue next and how
//! long to wait; the caller issues the request and reports what came back.

pub mod api;
pub mod endpoint;
pub mod laws;
pub mod request;
pub mod response;
pub mod round;
pub mod session;
pub mod state;
pub mod tracker;

pub use api::{Api, NextRequest};
pub use endpoint::{ApiEndpoint, RecordKind};
pub use request::{
    assemble_request, build_request, encode_json_array, request_headers, to_gz, Request,
};
pub use response::{parse_retry_after, Outcome, ResponseClass};
pub use round::{combine, FlushAction, FlushRound};
pub use session::{backoff_secs, DeliverySession, SessionStatus, MAX_BACKOFF_RETRIES};
pub use state::{PushOutcome, DEFAULT_MIN_ITEMS};
pub use tracker::{BatchMode, BatchTracker};
