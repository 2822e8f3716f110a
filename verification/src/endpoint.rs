//! Where requests go: the ingestion endpoint of each record kind in each
//! region.

use vstd::prelude::*;
use vstd::string::StringExecFns;

verus! {

/// The region of the ingestion service, or a service of the caller's own.
#[derive(Debug)]
pub enum ApiEndpoint {
    /// United States, the default.
    US,
    /// European Union.
    EU,
    /// A base URL supplied by the caller, scheme included.
    Custom(String),
}

/// The two kinds of record, each with an endpoint and headers of its own.
#[derive(Clone, Copy, Debug)]
pub enum RecordKind {
    Log,
    Span,
}

impl Default for ApiEndpoint {
    fn default() -> (endpoint: ApiEndpoint)
        ensures
            endpoint == ApiEndpoint::US,
    {
        ApiEndpoint::US
    }
}

/// The base URL under which records of `kind` are taken in `endpoint`.
pub open spec fn spec_base_url(endpoint: ApiEndpoint, kind: RecordKind) -> Seq<char> {
    match endpoint {
        ApiEndpoint::US => match kind {
            RecordKind::Log => "https://log-api.newrelic.com"@,
            RecordKind::Span => "https://trace-api.newrelic.com"@,
        },
        ApiEndpoint::EU => match kind {
            RecordKind::Log => "https://log-api.eu.newrelic.com"@,
            RecordKind::Span => "https://trace-api.eu.newrelic.com"@,
        },
        ApiEndpoint::Custom(domain) => domain@,
    }
}

/// The path, below the base URL, to which records of `kind` are posted.
pub open spec fn spec_ingest_path(kind: RecordKind) -> Seq<char> {
    match kind {
        RecordKind::Log => "/log/v1"@,
        RecordKind::Span => "/trace/v1"@,
    }
}

/// The URL to which a batch of `kind` is posted in `endpoint`.
pub open spec fn spec_request_url(endpoint: ApiEndpoint, kind: RecordKind) -> Seq<char> {
    spec_base_url(endpoint, kind) + spec_ingest_path(kind)
}

impl Clone for ApiEndpoint {
    fn clone(&self) -> (copy: ApiEndpoint)
        ensures
            copy == *self,
    {
        match self {
            ApiEndpoint::US => ApiEndpoint::US,
            ApiEndpoint::EU => ApiEndpoint::EU,
            ApiEndpoint::Custom(domain) => ApiEndpoint::Custom(domain.clone()),
        }
    }
}

impl ApiEndpoint {
    /// The base URL under which records of `kind` are taken.
    pub fn base_url(&self, kind: RecordKind) -> (url: String)
        ensures
            url@ == spec_base_url(*self, kind),
    {
        match self {
            ApiEndpoint::US => match kind {
                RecordKind::Log => String::from_str("https://log-api.newrelic.com"),
                RecordKind::Span => String::from_str("https://trace-api.newrelic.com"),
            },
            ApiEndpoint::EU => match kind {
                RecordKind::Log => String::from_str("https://log-api.eu.newrelic.com"),
                RecordKind::Span => String::from_str("https://trace-api.eu.newrelic.com"),
            },
            ApiEndpoint::Custom(domain) => domain.clone(),
        }
    }

    /// The URL to which a batch of `kind` is posted.
    pub fn request_url(&self, kind: RecordKind) -> (url: String)
        ensures
            url@ == spec_request_url(*self, kind),
    {
        let base = self.base_url(kind);
        match kind {
            RecordKind::Log => base.concat("/log/v1"),
            RecordKind::Span => base.concat("/trace/v1"),
        }
    }
}

} // verus!
