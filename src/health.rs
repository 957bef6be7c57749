use vstd::prelude::*;
use vstd::string::StringExecFns;

use crate::error::Error;
use crate::ext::duration_from_secs;
use crate::text::text_eq;

verus! {

/// Settings of the client of the llama.cpp server.
#[derive(Debug, Clone)]
pub struct LlamaCppConfig {
    pub base_url: String,
    /// Generous, for large model loads.
    pub timeout_secs: u64,
}

/// Client-side view of the llama.cpp server: where it is and how long to
/// wait for it; the HTTP client itself belongs to the caller.
#[derive(Debug, Clone)]
pub struct LlamaCppBackend {
    pub config: LlamaCppConfig,
}

/// Health report of the llama.cpp server.
#[derive(Debug, Clone)]
pub struct ServerHealth {
    pub status: String,
    pub slots_idle: Option<u32>,
    pub slots_processing: Option<u32>,
}

/// One request slot of the llama.cpp server.
#[derive(Debug, Clone)]
pub struct SlotInfo {
    pub id: u32,
    pub state: String,
    pub task_id: Option<u32>,
}

/// Status of one backend in the service's health report.
#[derive(Debug, Clone)]
pub struct BackendStatus {
    pub available: bool,
    pub ready: bool,
    pub details: Option<String>,
}

/// Statuses of the backends in the service's health report.
#[derive(Debug, Clone)]
pub struct BackendHealthStatus {
    pub llamacpp: BackendStatus,
}

/// The service's health report.
#[derive(Debug, Clone)]
pub struct HealthResponse {
    /// "healthy", "degraded" or "unhealthy".
    pub status: String,
    pub backends: BackendHealthStatus,
}

/// Overall status of a backend that is (or not) available and ready.
pub open spec fn overall_status(available: bool, ready: bool) -> Seq<char> {
    if available && ready {
        "healthy"@
    } else if available {
        "degraded"@
    } else {
        "unhealthy"@
    }
}

impl LlamaCppConfig {
    /// The local server on port 8080, with a five-minute timeout.
    pub fn new() -> (r: LlamaCppConfig)
        ensures
            r.base_url@ == "http://127.0.0.1:8080"@,
            r.timeout_secs == 300,
    {
        LlamaCppConfig { base_url: String::from_str("http://127.0.0.1:8080"), timeout_secs: 300 }
    }

    /// URL of `path` on the server.
    pub fn url(&self, path: &str) -> (r: String)
        ensures
            r@ == self.base_url@ + path@,
    {
        let mut r = self.base_url.clone();
        r.append(path);
        r
    }

    /// The request timeout.
    pub fn timeout(&self) -> (r: std::time::Duration) {
        duration_from_secs(self.timeout_secs)
    }
}

impl Default for LlamaCppConfig {
    fn default() -> (r: LlamaCppConfig)
        ensures
            r.base_url@ == "http://127.0.0.1:8080"@,
            r.timeout_secs == 300,
    {
        LlamaCppConfig::new()
    }
}

impl LlamaCppBackend {
    /// The backend at `config`; refuses an empty base URL.
    pub fn new(config: LlamaCppConfig) -> (r: Result<LlamaCppBackend, Error>)
        ensures
            r is Ok <==> config.base_url@.len() > 0,
            r matches Ok(b) ==> b.config == config,
            r matches Err(e) ==> e is Configuration,
    {
        if config.base_url.as_str().is_empty() {
            return Err(Error::configuration("llama.cpp base URL is empty"));
        }
        Ok(LlamaCppBackend { config })
    }

    /// The backend at the default settings.
    pub fn with_defaults() -> (r: Result<LlamaCppBackend, Error>)
        ensures
            r matches Ok(b) && b.config.base_url@ == "http://127.0.0.1:8080"@ && b.config.timeout_secs == 300,
    {
        proof {
            reveal_strlit("http://127.0.0.1:8080");
        }
        LlamaCppBackend::new(LlamaCppConfig::new())
    }

    /// Base URL of the server.
    pub fn base_url(&self) -> (r: &str)
        ensures
            r@ == self.config.base_url@,
    {
        self.config.base_url.as_str()
    }
}

impl ServerHealth {
    /// Whether the server reports itself ready for inference.
    pub fn is_ready(&self) -> (r: bool)
        ensures
            r == (self.status@ == "ok"@ || self.status@ == "ready"@),
    {
        text_eq(self.status.as_str(), "ok") || text_eq(self.status.as_str(), "ready")
    }
}

/// Status of the llama.cpp backend from what was learnt of it: no client
/// means unavailable; a ready answer means available and ready; a health
/// answer that is not ready means available only; no answer means neither.
pub fn llamacpp_status(client_ok: bool, ready: bool, health_answered: bool) -> (r: BackendStatus)
    ensures
        r.available == (client_ok && (ready || health_answered)),
        r.ready == (client_ok && ready),
        r.details.is_some(),
{
    if !client_ok {
        BackendStatus { available: false, ready: false, details: Some(String::from_str("Backend initialization failed")) }
    } else if ready {
        BackendStatus { available: true, ready: true, details: Some(String::from_str("llama-server is running and ready")) }
    } else if health_answered {
        BackendStatus {
            available: true,
            ready: false,
            details: Some(String::from_str("llama-server available but not ready")),
        }
    } else {
        BackendStatus { available: false, ready: false, details: Some(String::from_str("Connection failed")) }
    }
}

impl HealthResponse {
    /// The report for the llama.cpp backend's status: healthy when it is
    /// available and ready, degraded when only available, else unhealthy.
    pub fn from_llamacpp(llamacpp: BackendStatus) -> (r: HealthResponse)
        ensures
            r.status@ == overall_status(llamacpp.available, llamacpp.ready),
            r.backends.llamacpp == llamacpp,
    {
        let status = if llamacpp.available && llamacpp.ready {
            String::from_str("healthy")
        } else if llamacpp.available {
            String::from_str("degraded")
        } else {
            String::from_str("unhealthy")
        };
        HealthResponse { status, backends: BackendHealthStatus { llamacpp } }
    }
}

} // verus!
