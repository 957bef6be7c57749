use vstd::prelude::*;
use vstd::string::StringExecFns;

verus! {

/// Failures of the gateway, by kind.
#[derive(Debug)]
pub enum Error {
    /// A backend reported a failure of its own.
    Provider(String),
    /// The connection to a backend failed; worth retrying.
    Network(String),
    /// A backend answered with a non-success HTTP status.
    BackendStatus { status: u16, body: String },
    /// A payload could not be encoded or decoded.
    Serialization(String),
    /// Missing or invalid credentials or endpoint.
    Configuration(String),
    Authentication(String),
    RateLimit(String),
    /// Not enough GPU memory, with both figures in thousandths of a GB.
    InsufficientResources { required_mgb: u64, available_mgb: i128 },
    /// GPU telemetry could not be read.
    TelemetryUnavailable(String),
    ModelNotFound(String),
    BackendUnavailable(String),
    /// The backend cannot perform the requested lifecycle transition.
    UnsupportedOperation(String),
    /// Every candidate backend failed; the names in the order tried and the
    /// last failure.
    AllProvidersFailed { attempted: Vec<String>, original_error: Box<Error> },
    InvalidRequest(String),
    Timeout(String),
    Internal(String),
}

/// Machine-readable name of the kind of a failure.
pub open spec fn kind_name_of(e: Error) -> Seq<char> {
    match e {
        Error::Provider(_) => "provider_error"@,
        Error::Network(_) => "transport_error"@,
        Error::BackendStatus { .. } => "backend_status"@,
        Error::Serialization(_) => "serialization_error"@,
        Error::Configuration(_) => "configuration_error"@,
        Error::Authentication(_) => "authentication_error"@,
        Error::RateLimit(_) => "rate_limit"@,
        Error::InsufficientResources { .. } => "insufficient_resources"@,
        Error::TelemetryUnavailable(_) => "telemetry_unavailable"@,
        Error::ModelNotFound(_) => "model_not_found"@,
        Error::BackendUnavailable(_) => "backend_unavailable"@,
        Error::UnsupportedOperation(_) => "unsupported_operation"@,
        Error::AllProvidersFailed { .. } => "all_backends_failed"@,
        Error::InvalidRequest(_) => "invalid_request"@,
        Error::Timeout(_) => "timeout"@,
        Error::Internal(_) => "internal_error"@,
    }
}

/// Whether a failure of this kind may pass on a second attempt.
pub open spec fn retryable(e: Error) -> bool {
    match e {
        Error::Network(_) | Error::RateLimit(_) | Error::Timeout(_) | Error::BackendUnavailable(_) => true,
        Error::BackendStatus { status, .. } => 500 <= status <= 599,
        _ => false,
    }
}

/// HTTP status under which a failure of this kind is reported to callers.
pub open spec fn status_of(e: Error) -> u16 {
    match e {
        Error::ModelNotFound(_) => 404,
        Error::BackendUnavailable(_) => 503,
        Error::InsufficientResources { .. } => 507,
        Error::InvalidRequest(_) => 400,
        Error::Authentication(_) => 401,
        Error::RateLimit(_) => 429,
        Error::Timeout(_) => 504,
        Error::UnsupportedOperation(_) => 501,
        Error::Provider(_) | Error::Network(_) | Error::BackendStatus { .. } | Error::Serialization(_)
        | Error::AllProvidersFailed { .. } => 502,
        Error::Configuration(_) | Error::TelemetryUnavailable(_) | Error::Internal(_) => 500,
    }
}

/// Outcome of a backend's HTTP answer: success for a 2xx status, otherwise
/// a status failure that carries the status and the body.
pub fn check_status(status: u16, body: &str) -> (r: Result<(), Error>)
    ensures
        200 <= status <= 299 ==> r is Ok,
        !(200 <= status <= 299) ==> (r matches Err(Error::BackendStatus { status: s, body: b }) && s == status && b@ == body@),
{
    if 200 <= status && status <= 299 {
        Ok(())
    } else {
        Err(Error::BackendStatus { status, body: String::from_str(body) })
    }
}

impl Error {
    /// HTTP status under which this failure is reported.
    pub fn status_code(&self) -> (r: u16)
        ensures
            r == status_of(*self),
    {
        match self {
            Error::ModelNotFound(_) => 404,
            Error::BackendUnavailable(_) => 503,
            Error::InsufficientResources { .. } => 507,
            Error::InvalidRequest(_) => 400,
            Error::Authentication(_) => 401,
            Error::RateLimit(_) => 429,
            Error::Timeout(_) => 504,
            Error::UnsupportedOperation(_) => 501,
            Error::Provider(_) | Error::Network(_) | Error::BackendStatus { .. } | Error::Serialization(_)
            | Error::AllProvidersFailed { .. } => 502,
            Error::Configuration(_) | Error::TelemetryUnavailable(_) | Error::Internal(_) => 500,
        }
    }

    /// Machine-readable name of the kind of failure.
    pub fn kind_name(&self) -> (r: &'static str)
        ensures
            r@ == kind_name_of(*self),
    {
        match self {
            Error::Provider(_) => "provider_error",
            Error::Network(_) => "transport_error",
            Error::BackendStatus { .. } => "backend_status",
            Error::Serialization(_) => "serialization_error",
            Error::Configuration(_) => "configuration_error",
            Error::Authentication(_) => "authentication_error",
            Error::RateLimit(_) => "rate_limit",
            Error::InsufficientResources { .. } => "insufficient_resources",
            Error::TelemetryUnavailable(_) => "telemetry_unavailable",
            Error::ModelNotFound(_) => "model_not_found",
            Error::BackendUnavailable(_) => "backend_unavailable",
            Error::UnsupportedOperation(_) => "unsupported_operation",
            Error::AllProvidersFailed { .. } => "all_backends_failed",
            Error::InvalidRequest(_) => "invalid_request",
            Error::Timeout(_) => "timeout",
            Error::Internal(_) => "internal_error",
        }
    }

    /// A provider failure carrying `msg`.
    pub fn provider(msg: &str) -> (r: Error)
        ensures
            r matches Error::Provider(m) && m@ == msg@,
    {
        Error::Provider(String::from_str(msg))
    }

    /// A configuration failure carrying `msg`.
    pub fn configuration(msg: &str) -> (r: Error)
        ensures
            r matches Error::Configuration(m) && m@ == msg@,
    {
        Error::Configuration(String::from_str(msg))
    }

    /// An authentication failure carrying `msg`.
    pub fn authentication(msg: &str) -> (r: Error)
        ensures
            r matches Error::Authentication(m) && m@ == msg@,
    {
        Error::Authentication(String::from_str(msg))
    }

    /// A rate-limit failure carrying `msg`.
    pub fn rate_limit(msg: &str) -> (r: Error)
        ensures
            r matches Error::RateLimit(m) && m@ == msg@,
    {
        Error::RateLimit(String::from_str(msg))
    }

    /// A shortfall of GPU memory: what was required and what was free.
    pub fn insufficient_resources(required_mgb: u64, available_mgb: i128) -> (r: Error)
        ensures
            r == (Error::InsufficientResources { required_mgb, available_mgb }),
    {
        Error::InsufficientResources { required_mgb, available_mgb }
    }

    /// An unknown model, named by `msg`.
    pub fn model_not_found(msg: &str) -> (r: Error)
        ensures
            r matches Error::ModelNotFound(m) && m@ == msg@,
    {
        Error::ModelNotFound(String::from_str(msg))
    }

    /// An unreachable backend, named by `msg`.
    pub fn backend_unavailable(msg: &str) -> (r: Error)
        ensures
            r matches Error::BackendUnavailable(m) && m@ == msg@,
    {
        Error::BackendUnavailable(String::from_str(msg))
    }

    /// A malformed request, explained by `msg`.
    pub fn invalid_request(msg: &str) -> (r: Error)
        ensures
            r matches Error::InvalidRequest(m) && m@ == msg@,
    {
        Error::InvalidRequest(String::from_str(msg))
    }

    /// A timed-out operation, named by `msg`.
    pub fn timeout(msg: &str) -> (r: Error)
        ensures
            r matches Error::Timeout(m) && m@ == msg@,
    {
        Error::Timeout(String::from_str(msg))
    }

    /// An internal failure carrying `msg`.
    pub fn internal(msg: &str) -> (r: Error)
        ensures
            r matches Error::Internal(m) && m@ == msg@,
    {
        Error::Internal(String::from_str(msg))
    }

    /// Whether the failure may pass on another attempt or another backend:
    /// transport failures, rate limits, timeouts, unavailable backends and
    /// 5xx statuses.
    pub fn is_retryable(&self) -> (r: bool)
        ensures
            r == retryable(*self),
    {
        match self {
            Error::Network(_) | Error::RateLimit(_) | Error::Timeout(_) | Error::BackendUnavailable(_) => true,
            Error::BackendStatus { status, .. } => 500 <= *status && *status <= 599,
            _ => false,
        }
    }

    /// Whether the failure is a shortfall of resources.
    pub fn is_resource_issue(&self) -> (r: bool)
        ensures
            r == (*self is InsufficientResources),
    {
        match self {
            Error::InsufficientResources { .. } => true,
            _ => false,
        }
    }
}

} // verus!
