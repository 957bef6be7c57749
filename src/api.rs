use vstd::prelude::*;
use vstd::string::StringExecFns;

verus! {

/// Seconds between two GPU memory updates unless a client asks otherwise.
pub const DEFAULT_UPDATE_INTERVAL_SECS: u64 = 2;

/// Envelope of every management API answer.
#[derive(Debug, Clone)]
pub struct ApiResponse<T> {
    pub success: bool,
    pub data: Option<T>,
    pub error: Option<String>,
}

/// What a live-update client subscribes to.
#[derive(Debug, Clone, Copy, PartialEq, Eq, Structural)]
pub struct SubscriptionOptions {
    pub vram_updates: bool,
    pub model_events: bool,
    pub backend_status: bool,
    pub inference_events: bool,
    /// Seconds between GPU memory updates.
    pub update_interval_seconds: u64,
}

/// Default of the subscription flags that are on unless turned off.
pub fn default_true() -> (r: bool)
    ensures
        r,
{
    true
}

/// Default interval of GPU memory updates, in seconds.
pub fn default_update_interval() -> (r: u64)
    ensures
        r == DEFAULT_UPDATE_INTERVAL_SECS,
{
    DEFAULT_UPDATE_INTERVAL_SECS
}

impl<T> ApiResponse<T> {
    /// A successful answer carrying `data`.
    pub fn success(data: T) -> (r: ApiResponse<T>)
        ensures
            r.success,
            r.data == Some(data),
            r.error.is_none(),
    {
        ApiResponse { success: true, data: Some(data), error: None }
    }

    /// A failed answer explained by `message`.
    pub fn error(message: &str) -> (r: ApiResponse<T>)
        ensures
            !r.success,
            r.data.is_none(),
            r.error matches Some(m) && m@ == message@,
    {
        ApiResponse { success: false, data: None, error: Some(String::from_str(message)) }
    }
}

impl Default for SubscriptionOptions {
    fn default() -> (r: SubscriptionOptions)
        ensures
            r == (SubscriptionOptions {
                vram_updates: true,
                model_events: true,
                backend_status: true,
                inference_events: false,
                update_interval_seconds: DEFAULT_UPDATE_INTERVAL_SECS,
            }),
    {
        SubscriptionOptions {
            vram_updates: default_true(),
            model_events: default_true(),
            backend_status: default_true(),
            inference_events: false,
            update_interval_seconds: default_update_interval(),
        }
    }
}

} // verus!
