//! A gateway that routes canonical chat-completion requests to cloud and
//! local backends, with health-aware selection and GPU-memory admission
//! control for local ones.

pub mod anthropic;
pub mod api;
pub mod backends;
pub mod catalog;
pub mod dispatch;
pub mod error;
mod ext;
pub mod health;
pub mod ollama;
pub mod provider;
pub mod request;
pub mod response;
pub mod text;
pub mod vram;

use vstd::prelude::*;

pub use error::Error;
pub use provider::ProviderType;

verus! {

/// Version of this library.
pub const VERSION: &'static str = "0.1.0";

} // verus!
