use vstd::prelude::*;
use vstd::string::StringExecFns;

use crate::error::Error;
use crate::text::text_eq;
use crate::vram::{admits, can_load_model, VramState};

verus! {

/// Lifecycle of a local backend.
#[derive(Debug, Clone, Copy, PartialEq, Eq, Structural)]
pub enum LifecycleState {
    Unloaded,
    Loading,
    Ready,
    Unloading,
    Switching,
}

/// What happened to a local backend, or what was asked of it.
#[derive(Debug, Clone, Copy, PartialEq, Eq, Structural)]
pub enum LifecycleEvent {
    /// Load a model of this size, in hundredths of a GB.
    LoadRequested { size_centi: u32 },
    LoadSucceeded,
    LoadFailed,
    UnloadRequested,
    UnloadFinished,
    /// Switch to a model of this size, in hundredths of a GB.
    SwitchRequested { size_centi: u32 },
    SwitchSucceeded,
    /// The switch failed; after a hard failure the old model is gone too.
    SwitchFailed { hard: bool },
}

/// A registered inference backend, as listed to operators.
#[derive(Debug, Clone)]
pub struct BackendInfo {
    pub name: String,
    /// "active", "inactive" or "error".
    pub status: String,
    /// How the backend runs: "systemd", "docker" or "api".
    pub backend_type: String,
    pub host: String,
    pub port: u16,
    pub loaded_model: Option<String>,
    pub vram_usage_mb: Option<u64>,
}

/// Request to load a model.
#[derive(Debug, Clone)]
pub struct LoadRequest {
    pub model_id: Option<i64>,
    pub model_path: Option<String>,
    pub backend: String,
    pub priority: Option<String>,
    pub gpu_layers: Option<u32>,
}

/// Request to unload the model of a backend.
#[derive(Debug, Clone)]
pub struct UnloadRequest {
    pub backend: String,
}

/// Request to switch the model of a backend.
#[derive(Debug, Clone)]
pub struct SwitchRequest {
    pub backend: String,
    pub model_id: Option<i64>,
    pub model_path: Option<String>,
    pub gpu_layers: Option<u32>,
}

/// Management of the known local backends.
pub struct BackendDriver;

/// The only backend this driver knows: a fixed, pre-configured llama.cpp
/// server, which cannot load, switch or drop a model while running.
pub open spec fn is_llamacpp(name: Seq<char>) -> bool {
    name == "llamacpp"@
}

/// Outcome of the admission check that guards a load or a switch: passes
/// with no size given; fails without telemetry (no GPU is assumed to mean
/// no room) or without room.
pub open spec fn admission_passes(size_centi: Option<u32>, vram: Option<VramState>) -> bool {
    match size_centi {
        None => true,
        Some(s) => match vram {
            Some(v) => admits(s as int, v.free_gb_centi as int),
            None => false,
        },
    }
}

/// Next state of a backend that supports (or not) live reconfiguration,
/// given the free memory, or `None` where the event is refused.
pub open spec fn next_state(
    state: LifecycleState,
    event: LifecycleEvent,
    reconfigurable: bool,
    vram: Option<VramState>,
) -> Option<LifecycleState> {
    match (state, event) {
        (LifecycleState::Unloaded, LifecycleEvent::LoadRequested { size_centi }) =>
            if reconfigurable && admission_passes(Some(size_centi), vram) { Some(LifecycleState::Loading) } else { None },
        (LifecycleState::Loading, LifecycleEvent::LoadSucceeded) => Some(LifecycleState::Ready),
        (LifecycleState::Loading, LifecycleEvent::LoadFailed) => Some(LifecycleState::Unloaded),
        (LifecycleState::Ready, LifecycleEvent::UnloadRequested) => Some(LifecycleState::Unloading),
        (LifecycleState::Unloading, LifecycleEvent::UnloadFinished) => Some(LifecycleState::Unloaded),
        (LifecycleState::Ready, LifecycleEvent::SwitchRequested { size_centi }) =>
            if reconfigurable && admission_passes(Some(size_centi), vram) { Some(LifecycleState::Switching) } else { None },
        (LifecycleState::Switching, LifecycleEvent::SwitchSucceeded) => Some(LifecycleState::Ready),
        (LifecycleState::Switching, LifecycleEvent::SwitchFailed { hard }) =>
            if hard { Some(LifecycleState::Unloaded) } else { Some(LifecycleState::Ready) },
        _ => None,
    }
}

/// The failure of a refused admission: the shortfall, in thousandths of a
/// GB, when telemetry is there; its absence otherwise.
pub open spec fn admission_error(size_centi: Option<u32>, vram: Option<VramState>, e: Error) -> bool {
    match (size_centi, vram) {
        (Some(s), Some(v)) => e == (Error::InsufficientResources {
            required_mgb: (s * 11) as u64,
            available_mgb: (v.free_gb_centi * 10) as i128,
        }),
        (Some(_), None) => e is TelemetryUnavailable,
        (None, _) => false,
    }
}

/// Message of a request for a backend this driver does not know.
pub open spec fn unsupported_backend_message(backend: Seq<char>) -> Seq<char> {
    "Unsupported backend: "@ + backend
}

/// The failure of a request for a backend this driver does not know.
pub fn unsupported_backend(backend: &str) -> (r: Error)
    ensures
        r matches Error::InvalidRequest(m) && m@ == unsupported_backend_message(backend@),
{
    let mut m = String::from_str("Unsupported backend: ");
    m.append(backend);
    Error::InvalidRequest(m)
}

/// The admission check of an optional size against optional telemetry.
pub fn check_admission(size_centi: Option<u32>, vram: Option<&VramState>) -> (r: Result<(), Error>)
    ensures
        r is Ok <==> admission_passes(size_centi, match vram {
            Some(v) => Some(*v),
            None => None,
        }),
        r matches Err(e) ==> admission_error(size_centi, match vram {
            Some(v) => Some(*v),
            None => None,
        }, e),
{
    match size_centi {
        None => Ok(()),
        Some(s) => match vram {
            Some(v) => can_load_model(v, s),
            None => Err(Error::TelemetryUnavailable(String::from_str("GPU telemetry is unavailable"))),
        },
    }
}

/// Moves a backend through its lifecycle. A load or a switch is refused
/// with `UnsupportedOperation` by a backend that cannot reconfigure, and
/// otherwise only entered once the admission check has passed; an event
/// that does not fit the state is refused as an invalid request.
pub fn transition(state: LifecycleState, event: LifecycleEvent, reconfigurable: bool, vram: Option<&VramState>) -> (r: Result<
    LifecycleState,
    Error,
>)
    ensures
        match next_state(state, event, reconfigurable, match vram {
            Some(v) => Some(*v),
            None => None,
        }) {
            Some(n) => r == Ok::<LifecycleState, Error>(n),
            None => r is Err,
        },
        (r matches Err(e) && e is UnsupportedOperation) ==> !reconfigurable,
        ((state == LifecycleState::Unloaded && event is LoadRequested) || (state == LifecycleState::Ready
            && event is SwitchRequested)) && !reconfigurable ==> (r matches Err(e) && e is UnsupportedOperation),
        reconfigurable ==> match (state, event) {
            (LifecycleState::Unloaded, LifecycleEvent::LoadRequested { size_centi })
            | (LifecycleState::Ready, LifecycleEvent::SwitchRequested { size_centi }) => r is Err ==> (r matches Err(e)
                && admission_error(Some(size_centi), match vram {
                Some(v) => Some(*v),
                None => None,
            }, e)),
            _ => true,
        },
{
    match (state, event) {
        (LifecycleState::Unloaded, LifecycleEvent::LoadRequested { size_centi }) |
        (LifecycleState::Ready, LifecycleEvent::SwitchRequested { size_centi }) => {
            if !reconfigurable {
                return Err(Error::UnsupportedOperation(String::from_str("the backend cannot load or switch models while running")));
            }
            match check_admission(Some(size_centi), vram) {
                Ok(()) => {
                    if state == LifecycleState::Unloaded {
                        Ok(LifecycleState::Loading)
                    } else {
                        Ok(LifecycleState::Switching)
                    }
                },
                Err(e) => Err(e),
            }
        },
        (LifecycleState::Loading, LifecycleEvent::LoadSucceeded) => Ok(LifecycleState::Ready),
        (LifecycleState::Loading, LifecycleEvent::LoadFailed) => Ok(LifecycleState::Unloaded),
        (LifecycleState::Ready, LifecycleEvent::UnloadRequested) => Ok(LifecycleState::Unloading),
        (LifecycleState::Unloading, LifecycleEvent::UnloadFinished) => Ok(LifecycleState::Unloaded),
        (LifecycleState::Switching, LifecycleEvent::SwitchSucceeded) => Ok(LifecycleState::Ready),
        (LifecycleState::Switching, LifecycleEvent::SwitchFailed { hard }) => {
            if hard {
                Ok(LifecycleState::Unloaded)
            } else {
                Ok(LifecycleState::Ready)
            }
        },
        _ => Err(Error::invalid_request("event does not apply in the current state")),
    }
}

impl BackendDriver {
    /// Decides a load request: the admission check runs first; then the
    /// fixed llama.cpp server refuses as unsupported, and any other name is
    /// an invalid request.
    pub fn load_model(backend: &str, model_size_centi: Option<u32>, vram: Option<&VramState>) -> (r: Result<(), Error>)
        ensures
            !admission_passes(model_size_centi, match vram {
                Some(v) => Some(*v),
                None => None,
            }) ==> (r matches Err(e) && admission_error(model_size_centi, match vram {
                Some(v) => Some(*v),
                None => None,
            }, e)),
            admission_passes(model_size_centi, match vram {
                Some(v) => Some(*v),
                None => None,
            }) ==> (r matches Err(e) && if is_llamacpp(backend@) { e is UnsupportedOperation } else {
                e matches Error::InvalidRequest(m) && m@ == unsupported_backend_message(backend@)
            }),
    {
        match check_admission(model_size_centi, vram) {
            Err(e) => Err(e),
            Ok(()) => {
                if text_eq(backend, "llamacpp") {
                    Err(Error::UnsupportedOperation(String::from_str("llamacpp cannot load models while running")))
                } else {
                    Err(unsupported_backend(backend))
                }
            },
        }
    }

    /// Decides an unload request: the llama.cpp server accepts it (the
    /// model goes when its service stops); any other name is invalid.
    pub fn unload_model(backend: &str) -> (r: Result<(), Error>)
        ensures
            is_llamacpp(backend@) ==> r is Ok,
            !is_llamacpp(backend@) ==> (r matches Err(Error::InvalidRequest(m)) && m@ == unsupported_backend_message(backend@)),
    {
        if text_eq(backend, "llamacpp") {
            Ok(())
        } else {
            Err(unsupported_backend(backend))
        }
    }

    /// Decides a switch request, as a load request is decided.
    pub fn switch_model(backend: &str, model_size_centi: Option<u32>, vram: Option<&VramState>) -> (r: Result<(), Error>)
        ensures
            !admission_passes(model_size_centi, match vram {
                Some(v) => Some(*v),
                None => None,
            }) ==> (r matches Err(e) && admission_error(model_size_centi, match vram {
                Some(v) => Some(*v),
                None => None,
            }, e)),
            admission_passes(model_size_centi, match vram {
                Some(v) => Some(*v),
                None => None,
            }) ==> (r matches Err(e) && if is_llamacpp(backend@) { e is UnsupportedOperation } else {
                e matches Error::InvalidRequest(m) && m@ == unsupported_backend_message(backend@)
            }),
    {
        match check_admission(model_size_centi, vram) {
            Err(e) => Err(e),
            Ok(()) => {
                if text_eq(backend, "llamacpp") {
                    Err(Error::UnsupportedOperation(String::from_str("llamacpp cannot switch models while running")))
                } else {
                    Err(unsupported_backend(backend))
                }
            },
        }
    }

    /// The listing of the llama.cpp server: "active" with its model when it
    /// answered ready, "inactive" when it did not, "error" when no client
    /// could be made (`reachable` is `None`).
    pub fn llamacpp_info(reachable: Option<bool>, loaded_model: Option<String>) -> (r: BackendInfo)
        ensures
            r.name@ == "llamacpp"@,
            r.status@ == match reachable {
                Some(true) => "active"@,
                Some(false) => "inactive"@,
                None => "error"@,
            },
            r.backend_type@ == "systemd"@,
            r.host@ == "127.0.0.1"@,
            r.port == 8080,
            reachable == Some(true) ==> r.loaded_model == loaded_model,
            reachable != Some(true) ==> r.loaded_model.is_none(),
            r.vram_usage_mb.is_none(),
    {
        let (status, model) = match reachable {
            Some(true) => (String::from_str("active"), loaded_model),
            Some(false) => (String::from_str("inactive"), None),
            None => (String::from_str("error"), None),
        };
        BackendInfo {
            name: String::from_str("llamacpp"),
            status,
            backend_type: String::from_str("systemd"),
            host: String::from_str("127.0.0.1"),
            port: 8080,
            loaded_model: model,
            vram_usage_mb: None,
        }
    }
}

} // verus!
