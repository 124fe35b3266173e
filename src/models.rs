//! The data the proxy exchanges with its callers and with the upstream
//! spreadsheet service.

use vstd::prelude::*;

verus! {

/// Settings the proxy runs with.
pub struct Config {
    pub google_api_key: String,
    pub port: u16,
    pub host: String,
    pub cache_ttl_seconds: u64,
    pub request_timeout_seconds: u64,
    pub rate_limit_per_minute: u32,
}

/// A cached payload and when it was made, in milliseconds of a monotonic
/// clock.
pub struct CacheEntry {
    pub data: String,
    pub timestamp: u64,
}

/// The success envelope.
pub struct ApiResponse<T> {
    pub transaction_code: String,
    pub status: u16,
    pub data: T,
}

/// The error envelope.
pub struct ErrorResponse {
    pub transaction_code: String,
    pub status: u16,
    pub error: String,
}

/// The upstream values response.
pub struct SheetsApiResponse {
    pub values: Option<Vec<Vec<String>>>,
    pub error: Option<ErrorDetails>,
}

/// A structured error reported by the upstream service.
pub struct ErrorDetails {
    pub message: String,
    pub status: Option<String>,
}

/// The upstream spreadsheet metadata response.
pub struct SheetMetadata {
    pub sheets: Vec<Sheet>,
    pub error: Option<ErrorDetails>,
}

/// One sheet of a spreadsheet.
pub struct Sheet {
    pub properties: SheetProperties,
}

/// The properties of a sheet that the proxy reads.
pub struct SheetProperties {
    pub title: String,
}

/// Why a request failed.
#[derive(PartialEq, Eq, Structural, Clone, Copy, Debug)]
pub enum FailureKind {
    TransportFailure,
    MalformedUpstreamResponse,
    UpstreamRejected(u16),
    InvalidOrdinal,
    SheetNotFound,
    RateLimited,
    SerializationFailure,
}

impl FailureKind {
    /// The HTTP status that reports this failure.
    pub open spec fn status_of(self) -> u16 {
        match self {
            FailureKind::TransportFailure => 500,
            FailureKind::MalformedUpstreamResponse => 500,
            FailureKind::UpstreamRejected(s) => s,
            FailureKind::InvalidOrdinal => 400,
            FailureKind::SheetNotFound => 404,
            FailureKind::RateLimited => 429,
            FailureKind::SerializationFailure => 500,
        }
    }

    /// The HTTP status that reports this failure.
    pub fn status(&self) -> (r: u16)
        ensures
            r == self.status_of(),
    {
        match self {
            FailureKind::TransportFailure => 500,
            FailureKind::MalformedUpstreamResponse => 500,
            FailureKind::UpstreamRejected(s) => *s,
            FailureKind::InvalidOrdinal => 400,
            FailureKind::SheetNotFound => 404,
            FailureKind::RateLimited => 429,
            FailureKind::SerializationFailure => 500,
        }
    }
}

/// A failure with the message shown to the caller.
pub struct Failure {
    pub kind: FailureKind,
    pub message: String,
}

impl Failure {
    /// The error envelope for this failure.
    pub fn into_response(self, transaction_code: String) -> (r: ErrorResponse)
        ensures
            r.transaction_code == transaction_code,
            r.status == self.kind.status_of(),
            r.error == self.message,
    {
        let status = self.kind.status();
        ErrorResponse { transaction_code, status, error: self.message }
    }
}

/// `context`, a colon and a space, then `detail`.
pub open spec fn described(context: Seq<char>, detail: Seq<char>) -> Seq<char> {
    context + ": "@ + detail
}

impl Failure {
    /// A failure of `kind` whose message is `context: detail`.
    pub fn described(kind: FailureKind, context: &str, detail: &str) -> (r: Failure)
        ensures
            r.kind == kind,
            r.message@ == described(context@, detail@),
    {
        let mut message = String::from_str(context);
        message.append(": ");
        message.append(detail);
        Failure { kind, message }
    }

    /// The upstream service could not be reached.
    pub fn transport(context: &str, detail: &str) -> (r: Failure)
        ensures
            r.kind == FailureKind::TransportFailure,
            r.kind.status_of() == 500,
            r.message@ == described(context@, detail@),
    {
        Failure::described(FailureKind::TransportFailure, context, detail)
    }

    /// The upstream body did not have the expected shape.
    pub fn malformed(context: &str, detail: &str) -> (r: Failure)
        ensures
            r.kind == FailureKind::MalformedUpstreamResponse,
            r.kind.status_of() == 500,
            r.message@ == described(context@, detail@),
    {
        Failure::described(FailureKind::MalformedUpstreamResponse, context, detail)
    }

    /// The success envelope could not be serialized.
    pub fn serialization(detail: &str) -> (r: Failure)
        ensures
            r.kind == FailureKind::SerializationFailure,
            r.kind.status_of() == 500,
            r.message@ == described("Failed to serialize response"@, detail@),
    {
        Failure::described(FailureKind::SerializationFailure, "Failed to serialize response", detail)
    }
}

} // verus!
