use vstd::prelude::*;
use vstd::string::StringExecFns;

use crate::ext::now_timestamp;

verus! {

/// Load above which a backend counts as overloaded, in tenths of a percent.
pub const OVERLOAD_THRESHOLD_TENTHS: u32 = 800;

/// Kind of deployment behind a backend.
#[derive(Debug, Clone, Copy, PartialEq, Eq, Structural)]
pub enum ProviderType {
    Cloud,
    Local,
    Hybrid,
}

/// Outcome of a health probe.
#[derive(Debug, Clone, Copy, PartialEq, Eq, Structural)]
pub enum HealthState {
    Healthy,
    /// Reachable, but answering with server errors.
    Degraded,
    Unhealthy,
}

/// Result of one health check.
#[derive(Debug, Clone)]
pub struct HealthStatus {
    pub state: HealthState,
    pub message: Option<String>,
    /// Wall-clock latency of the probe.
    pub response_time_ms: Option<u64>,
    /// Time of the check, in seconds since the Unix epoch.
    pub checked_at: i64,
}

/// Computed view of a backend's load and headroom.
#[derive(Debug, Clone)]
pub struct ProviderAvailability {
    pub available: bool,
    /// Current load in tenths of a percent (0 to 1000).
    pub load_tenths: u32,
    /// Free GPU memory in MB, where the backend tracks it.
    pub vram_available_mb: Option<u64>,
    pub estimated_latency_ms: Option<u64>,
    pub active_requests: usize,
    /// Time of the snapshot, in seconds since the Unix epoch.
    pub updated_at: i64,
}

/// What a backend can do; fixed for each adapter.
#[derive(Debug, Clone, Copy, PartialEq, Eq, Structural)]
pub struct ProviderCapabilities {
    pub streaming: bool,
    pub function_calling: bool,
    pub vision: bool,
    pub embeddings: bool,
    pub max_tokens: Option<u32>,
    pub max_context_window: Option<u32>,
    pub supports_system_prompts: bool,
}

/// What a model can do.
#[derive(Debug, Clone, Copy, PartialEq, Eq, Structural, Default)]
pub struct ModelCapabilities {
    pub chat: bool,
    pub completion: bool,
    pub embeddings: bool,
    pub function_calling: bool,
    pub vision: bool,
    pub streaming: bool,
}

/// Health of a backend from the HTTP status of a probe; `None` stands for a
/// transport failure.
pub open spec fn probe_state(status: Option<u16>) -> HealthState {
    match status {
        Some(s) => if 200 <= s <= 299 {
            HealthState::Healthy
        } else if 500 <= s <= 599 {
            HealthState::Degraded
        } else {
            HealthState::Unhealthy
        },
        None => HealthState::Unhealthy,
    }
}

/// Classifies one probe: 2xx is healthy, 5xx degraded, anything else
/// (including no answer) unhealthy.
pub fn classify_probe(status: Option<u16>) -> (r: HealthState)
    ensures
        r == probe_state(status),
{
    match status {
        Some(s) => {
            if 200 <= s && s <= 299 {
                HealthState::Healthy
            } else if 500 <= s && s <= 599 {
                HealthState::Degraded
            } else {
                HealthState::Unhealthy
            }
        },
        None => HealthState::Unhealthy,
    }
}

impl HealthStatus {
    /// A healthy status, stamped now.
    pub fn healthy() -> (r: HealthStatus)
        ensures
            r.state == HealthState::Healthy,
            r.message.is_none(),
            r.response_time_ms.is_none(),
    {
        HealthStatus { state: HealthState::Healthy, message: None, response_time_ms: None, checked_at: now_timestamp() }
    }

    /// An unhealthy status explained by `message`, stamped now.
    pub fn unhealthy(message: &str) -> (r: HealthStatus)
        ensures
            r.state == HealthState::Unhealthy,
            r.message matches Some(m) && m@ == message@,
            r.response_time_ms.is_none(),
    {
        HealthStatus {
            state: HealthState::Unhealthy,
            message: Some(String::from_str(message)),
            response_time_ms: None,
            checked_at: now_timestamp(),
        }
    }

    /// The status that a probe answered with `status` after `latency_ms`.
    pub fn from_probe(status: Option<u16>, latency_ms: u64) -> (r: HealthStatus)
        ensures
            r.state == probe_state(status),
            r.message.is_none(),
            r.response_time_ms == Some(latency_ms),
    {
        HealthStatus {
            state: classify_probe(status),
            message: None,
            response_time_ms: Some(latency_ms),
            checked_at: now_timestamp(),
        }
    }

    /// Records the probe latency.
    pub fn with_response_time(self, ms: u64) -> (r: HealthStatus)
        ensures
            r == (HealthStatus { response_time_ms: Some(ms), ..self }),
    {
        HealthStatus { response_time_ms: Some(ms), ..self }
    }

    /// Whether the backend answered successfully.
    pub fn is_healthy(&self) -> (r: bool)
        ensures
            r == (self.state == HealthState::Healthy),
    {
        self.state == HealthState::Healthy
    }
}

impl ProviderAvailability {
    /// An idle snapshot, stamped now: no load, no requests, nothing tracked.
    pub fn new(available: bool) -> (r: ProviderAvailability)
        ensures
            r.available == available,
            r.load_tenths == 0,
            r.vram_available_mb.is_none(),
            r.estimated_latency_ms.is_none(),
            r.active_requests == 0,
    {
        ProviderAvailability {
            available,
            load_tenths: 0,
            vram_available_mb: None,
            estimated_latency_ms: None,
            active_requests: 0,
            updated_at: now_timestamp(),
        }
    }

    /// Whether the load is above 80 percent.
    pub fn is_overloaded(&self) -> (r: bool)
        ensures
            r == (self.load_tenths > OVERLOAD_THRESHOLD_TENTHS),
    {
        self.load_tenths > OVERLOAD_THRESHOLD_TENTHS
    }

    /// Whether `required_mb` of GPU memory is free; true when the backend
    /// tracks no figure.
    pub fn has_sufficient_vram(&self, required_mb: u64) -> (r: bool)
        ensures
            r == match self.vram_available_mb {
                Some(free) => free >= required_mb,
                None => true,
            },
    {
        match self.vram_available_mb {
            Some(free) => free >= required_mb,
            None => true,
        }
    }
}

} // verus!
