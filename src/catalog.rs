use vstd::prelude::*;
use vstd::string::StringExecFns;

use crate::provider::{ModelCapabilities, ProviderType};

verus! {

/// A model known to the catalog.
#[derive(Debug, Clone)]
pub struct ModelInfo {
    pub id: String,
    /// Human-readable name.
    pub name: String,
    /// Backend that serves the model.
    pub provider: String,
    pub provider_type: ProviderType,
    pub architecture: Option<String>,
    /// Parameters, in tenths of a billion.
    pub parameter_count_tenths_b: Option<u32>,
    /// Size on disk, in hundredths of a GB.
    pub size_centi_gb: Option<u32>,
    pub quantization: Option<String>,
    /// Context window, in tokens.
    pub context_length: Option<u32>,
    /// Layers, for partial offloading.
    pub layer_count: Option<u32>,
    pub capabilities: ModelCapabilities,
    /// Free-form annotations: keys with their JSON text.
    pub metadata: Vec<(String, String)>,
    /// File of a local model.
    pub path: Option<String>,
    /// Whether a local model is loaded now.
    pub loaded: bool,
}

/// A model of `size` fits in `available`; one of unknown size is assumed to.
pub open spec fn fits(size: Option<u32>, available_centi: u64) -> bool {
    match size {
        Some(s) => s <= available_centi,
        None => true,
    }
}

impl ModelInfo {
    /// A cloud model with only its names; everything else unknown, no
    /// capabilities, not loaded.
    pub fn new(id: &str, name: &str, provider: &str) -> (r: ModelInfo)
        ensures
            r.id@ == id@,
            r.name@ == name@,
            r.provider@ == provider@,
            r.provider_type == ProviderType::Cloud,
            r.architecture.is_none(),
            r.parameter_count_tenths_b.is_none(),
            r.size_centi_gb.is_none(),
            r.quantization.is_none(),
            r.context_length.is_none(),
            r.layer_count.is_none(),
            r.capabilities == (ModelCapabilities {
                chat: false,
                completion: false,
                embeddings: false,
                function_calling: false,
                vision: false,
                streaming: false,
            }),
            r.metadata@.len() == 0,
            r.path.is_none(),
            !r.loaded,
    {
        ModelInfo {
            id: String::from_str(id),
            name: String::from_str(name),
            provider: String::from_str(provider),
            provider_type: ProviderType::Cloud,
            architecture: None,
            parameter_count_tenths_b: None,
            size_centi_gb: None,
            quantization: None,
            context_length: None,
            layer_count: None,
            capabilities: ModelCapabilities {
                chat: false,
                completion: false,
                embeddings: false,
                function_calling: false,
                vision: false,
                streaming: false,
            },
            metadata: Vec::new(),
            path: None,
            loaded: false,
        }
    }

    /// Sets the provider type.
    pub fn with_provider_type(self, provider_type: ProviderType) -> (r: ModelInfo)
        ensures
            r == (ModelInfo { provider_type, ..self }),
    {
        ModelInfo { provider_type, ..self }
    }

    /// Sets the architecture.
    pub fn with_architecture(self, architecture: &str) -> (r: ModelInfo)
        ensures
            r.architecture matches Some(a) && a@ == architecture@,
            r == (ModelInfo { architecture: r.architecture, ..self }),
    {
        ModelInfo { architecture: Some(String::from_str(architecture)), ..self }
    }

    /// Sets the parameter count, in tenths of a billion.
    pub fn with_parameter_count(self, tenths_b: u32) -> (r: ModelInfo)
        ensures
            r == (ModelInfo { parameter_count_tenths_b: Some(tenths_b), ..self }),
    {
        ModelInfo { parameter_count_tenths_b: Some(tenths_b), ..self }
    }

    /// Sets the size, in hundredths of a GB.
    pub fn with_size_gb(self, centi_gb: u32) -> (r: ModelInfo)
        ensures
            r == (ModelInfo { size_centi_gb: Some(centi_gb), ..self }),
    {
        ModelInfo { size_centi_gb: Some(centi_gb), ..self }
    }

    /// Sets the context window.
    pub fn with_context_length(self, length: u32) -> (r: ModelInfo)
        ensures
            r == (ModelInfo { context_length: Some(length), ..self }),
    {
        ModelInfo { context_length: Some(length), ..self }
    }

    /// Sets the layer count.
    pub fn with_layer_count(self, count: u32) -> (r: ModelInfo)
        ensures
            r == (ModelInfo { layer_count: Some(count), ..self }),
    {
        ModelInfo { layer_count: Some(count), ..self }
    }

    /// Sets the file of a local model.
    pub fn with_path(self, path: &str) -> (r: ModelInfo)
        ensures
            r.path matches Some(p) && p@ == path@,
            r == (ModelInfo { path: r.path, ..self }),
    {
        ModelInfo { path: Some(String::from_str(path)), ..self }
    }

    /// Marks the model as loaded.
    pub fn mark_loaded(self) -> (r: ModelInfo)
        ensures
            r == (ModelInfo { loaded: true, ..self }),
    {
        ModelInfo { loaded: true, ..self }
    }

    /// Whether the model fits in `available_centi` hundredths of a GB; a
    /// model of unknown size is assumed to fit.
    pub fn fits_in_vram(&self, available_centi: u64) -> (r: bool)
        ensures
            r == fits(self.size_centi_gb, available_centi),
    {
        match self.size_centi_gb {
            Some(size) => size as u64 <= available_centi,
            None => true,
        }
    }
}

} // verus!
