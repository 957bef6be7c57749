use vstd::prelude::*;
use vstd::string::StringExecFns;

use std::time::Duration;

use crate::catalog::ModelInfo;
use crate::error::Error;
use crate::ext::{duration_from_millis, duration_millis, now_timestamp};
use crate::provider::{classify_probe, probe_state, HealthState, ModelCapabilities, ProviderCapabilities, ProviderType};
use crate::request::{byte_len, cap_u32, request_is_valid, request_tokens, text_byte_len, text_tokens, ChatRequest, Message, MessageRole};
use crate::response::{unique_keys, usage_of, ChatResponse, Choice, FinishReason, ResponseMessage, Usage};
use crate::text::{copy_opt_strings, flat_text, flatten_content, role_from_name, role_name, role_of_name, role_to_name, text_eq};

verus! {

/// Settings of the local adapter, which talks to an OpenAI-compatible
/// inference server.
#[derive(Debug, Clone)]
pub struct OllamaConfig {
    /// Base URL of the server.
    pub endpoint: String,
    /// Request timeout; local inference can be slow.
    /// Request timeout, in milliseconds.
    pub timeout_ms: u64,
    pub logging_enabled: bool,
    /// Model used when a request names none.
    pub default_model: Option<String>,
}

/// One message on the wire.
#[derive(Debug, Clone)]
pub struct OllamaMessage {
    pub role: String,
    pub content: String,
}

/// Request body of the chat-completions endpoint.
#[derive(Debug, Clone)]
pub struct OllamaRequest {
    pub model: String,
    pub messages: Vec<OllamaMessage>,
    pub max_tokens: Option<u32>,
    /// Hundredths, as in the canonical request.
    pub temperature: Option<u32>,
    pub top_p: Option<u32>,
    pub stream: Option<bool>,
    pub stop: Option<Vec<String>>,
}

/// One choice of a wire response.
#[derive(Debug, Clone)]
pub struct OllamaChoice {
    pub index: u32,
    pub message: OllamaMessage,
    pub finish_reason: Option<String>,
}

/// Token counts reported by the server.
#[derive(Debug, Clone, Copy)]
pub struct OllamaUsage {
    pub prompt_tokens: u32,
    pub completion_tokens: u32,
    /// Reported total; not trusted, the canonical total is recomputed.
    pub total_tokens: u32,
}

/// Response body of the chat-completions endpoint.
#[derive(Debug, Clone)]
pub struct OllamaResponse {
    pub id: String,
    pub model: String,
    pub choices: Vec<OllamaChoice>,
    pub usage: Option<OllamaUsage>,
}

/// The local adapter. The protocol has a system role and text-only
/// content: parts are flattened to text, and function messages are sent
/// as user turns.
pub struct OllamaProvider {
    pub config: OllamaConfig,
}

/// A wire message that carries exactly a canonical message.
pub open spec fn message_carried(w: OllamaMessage, m: Message) -> bool {
    w.role@ == role_name(m.role) && w.content@ == flat_text(m.content)
}

/// Model sent for a request: its own, else the configured default, else a
/// generic name.
pub open spec fn model_for(requested: Seq<char>, default_model: Option<String>) -> Seq<char> {
    if requested.len() > 0 {
        requested
    } else {
        match default_model {
            Some(d) => d@,
            None => "local-model"@,
        }
    }
}

/// `w` is the wire form of `req` under `config`.
pub open spec fn is_ollama_request(config: OllamaConfig, req: ChatRequest, w: OllamaRequest) -> bool {
    &&& w.model@ == model_for(req.model@, config.default_model)
    &&& w.messages@.len() == req.messages@.len()
    &&& forall|k: int| 0 <= k < w.messages@.len() ==> #[trigger] message_carried(w.messages@[k], req.messages@[k])
    &&& w.max_tokens == req.max_tokens
    &&& w.temperature == req.temperature
    &&& w.top_p == req.top_p
    &&& w.stream == Some(req.stream)
    &&& match (w.stop, req.stop) {
        (Some(a), Some(b)) => a@ == b@,
        (None, None) => true,
        _ => false,
    }
}

/// Canonical finish reason of a finish reason of the protocol.
pub open spec fn local_finish(reason: Option<Seq<char>>) -> FinishReason {
    match reason {
        Some(s) => if s == "stop"@ {
            FinishReason::Stop
        } else if s == "length"@ {
            FinishReason::Length
        } else {
            FinishReason::Unknown
        },
        None => FinishReason::Unknown,
    }
}

/// The optional text of an optional string.
pub open spec fn opt_view(o: Option<String>) -> Option<Seq<char>> {
    match o {
        Some(s) => Some(s@),
        None => None,
    }
}

/// A canonical choice that carries exactly a wire choice.
pub open spec fn choice_carried(c: Choice, w: OllamaChoice) -> bool {
    &&& c.index == w.index
    &&& c.message.role == role_of_name(w.message.role@)
    &&& (c.message.content matches Some(t) && t@ == w.message.content@)
    &&& c.message.function_call.is_none()
    &&& c.finish_reason == Some(local_finish(opt_view(w.finish_reason)))
}

/// Estimated completion tokens of wire choices, when the server reports none.
pub open spec fn completion_estimate(cs: Seq<OllamaChoice>) -> nat
    decreases cs.len(),
{
    if cs.len() == 0 {
        0
    } else {
        completion_estimate(cs.drop_last()) + text_tokens(byte_len(cs.last().message.content@))
    }
}

/// Usage of a wire response to `req`: the reported counts with the total
/// recomputed, or estimates when none are reported.
pub open spec fn local_usage(req: ChatRequest, w: OllamaResponse) -> Usage {
    match w.usage {
        Some(u) => usage_of(u.prompt_tokens, u.completion_tokens),
        None => usage_of(cap_u32(request_tokens(req.messages@)), cap_u32(completion_estimate(w.choices@))),
    }
}

/// `r` is the canonical form of the wire response `w` to `req`.
pub open spec fn is_ollama_response(req: ChatRequest, w: OllamaResponse, processing_ms: u64, r: ChatResponse) -> bool {
    &&& r.request_id@ == req.id@
    &&& r.id@ == w.id@
    &&& r.provider@ == "ollama"@
    &&& r.model@ == w.model@
    &&& r.choices@.len() == w.choices@.len()
    &&& forall|k: int| 0 <= k < r.choices@.len() ==> #[trigger] choice_carried(r.choices@[k], w.choices@[k])
    &&& r.usage == Some(local_usage(req, w))
    &&& r.metadata@.len() == if w.usage.is_some() { 2int } else { 3int }
    &&& r.metadata@[0].0@ == "ollama_id"@
    &&& r.metadata@[0].1@ == w.id@
    &&& r.metadata@[1].0@ == "backend"@
    &&& r.metadata@[1].1@ == "llama.cpp"@
    &&& (w.usage.is_none() ==> r.metadata@[2].0@ == "usage_estimated"@ && r.metadata@[2].1@ == "true"@)
    &&& r.processing_time_ms == processing_ms
    &&& !r.cached
}

/// Health from the main probe and, when that one found the server
/// unhealthy, the fallback probe of the model list, which can only make it
/// healthy.
pub open spec fn local_health(first: Option<u16>, fallback: Option<u16>) -> HealthState {
    if probe_state(first) != HealthState::Unhealthy {
        probe_state(first)
    } else if probe_state(fallback) == HealthState::Healthy {
        HealthState::Healthy
    } else {
        HealthState::Unhealthy
    }
}

/// A backend that answers each message with a choice of the same role and
/// text, in order, under the model it was asked for.
pub open spec fn echoes(wr: OllamaRequest, w: OllamaResponse) -> bool {
    &&& w.model@ == wr.model@
    &&& w.choices@.len() == wr.messages@.len()
    &&& forall|k: int| 0 <= k < w.choices@.len() ==> (#[trigger] w.choices@[k]).message.role@ == wr.messages@[k].role@
        && w.choices@[k].message.content@ == wr.messages@[k].content@
}

/// Round trip through the local adapter and an echoing backend: the model
/// is kept, there is one choice per message, and user, assistant and system
/// messages come back under their own roles.
pub proof fn lemma_ollama_round_trip(
    config: OllamaConfig,
    req: ChatRequest,
    wr: OllamaRequest,
    w: OllamaResponse,
    ms: u64,
    r: ChatResponse,
)
    requires
        req.model@.len() > 0,
        is_ollama_request(config, req, wr),
        echoes(wr, w),
        is_ollama_response(req, w, ms, r),
    ensures
        r.model@ == req.model@,
        r.choices@.len() == req.messages@.len(),
        forall|k: int| 0 <= k < r.choices@.len() && (#[trigger] req.messages@[k]).role != MessageRole::Function
            ==> r.choices@[k].message.role == req.messages@[k].role,
{
    reveal_strlit("user");
    reveal_strlit("system");
    reveal_strlit("assistant");
    assert forall|k: int| 0 <= k < r.choices@.len() && (#[trigger] req.messages@[k]).role != MessageRole::Function
        implies r.choices@[k].message.role == req.messages@[k].role by {
        assert(choice_carried(r.choices@[k], w.choices@[k]));
        assert(message_carried(wr.messages@[k], req.messages@[k]));
        assert("user"@.len() == 4 && "system"@.len() == 6 && "assistant"@.len() == 9);
    }
}

/// Every response of the local adapter has a total equal to the sum of its
/// prompt and completion counts, whatever total the server reported.
pub proof fn lemma_ollama_usage_total(req: ChatRequest, w: OllamaResponse, ms: u64, r: ChatResponse)
    requires
        is_ollama_response(req, w, ms, r),
    ensures
        r.usage matches Some(u) && u.total_tokens == u.prompt_tokens + u.completion_tokens,
{
}

/// Maps a finish reason of the protocol onto the canonical enum: unknown
/// values become `Unknown`, never `Stop`.
pub fn map_finish_reason(reason: &Option<String>) -> (r: FinishReason)
    ensures
        r == local_finish(opt_view(*reason)),
{
    match reason {
        Some(s) => {
            let s = s.as_str();
            if text_eq(s, "stop") {
                FinishReason::Stop
            } else if text_eq(s, "length") {
                FinishReason::Length
            } else {
                FinishReason::Unknown
            }
        },
        None => FinishReason::Unknown,
    }
}

/// Whether the fallback probe is needed after the main one.
pub fn needs_fallback_probe(first: Option<u16>) -> (r: bool)
    ensures
        r == (probe_state(first) == HealthState::Unhealthy),
{
    classify_probe(first) == HealthState::Unhealthy
}

/// Classifies the two probes of the local server.
pub fn classify_local_probes(first: Option<u16>, fallback: Option<u16>) -> (r: HealthState)
    ensures
        r == local_health(first, fallback),
{
    let state = classify_probe(first);
    if state != HealthState::Unhealthy {
        state
    } else if classify_probe(fallback) == HealthState::Healthy {
        HealthState::Healthy
    } else {
        HealthState::Unhealthy
    }
}

impl OllamaConfig {
    /// Default settings: the local server on port 8080, a 120 s timeout,
    /// no logging, no default model.
    pub fn new() -> (r: OllamaConfig)
        ensures
            r.endpoint@ == "http://127.0.0.1:8080"@,
            r.timeout_ms == 120000,
            !r.logging_enabled,
            r.default_model.is_none(),
    {
        OllamaConfig {
            endpoint: String::from_str("http://127.0.0.1:8080"),
            timeout_ms: 120000,
            logging_enabled: false,
            default_model: None,
        }
    }

    /// Replaces the endpoint.
    pub fn with_endpoint(self, endpoint: &str) -> (r: OllamaConfig)
        ensures
            r.endpoint@ == endpoint@,
            r.timeout_ms == self.timeout_ms,
            r.logging_enabled == self.logging_enabled,
            r.default_model == self.default_model,
    {
        OllamaConfig { endpoint: String::from_str(endpoint), ..self }
    }

    /// Replaces the request timeout.
    pub fn with_timeout(self, timeout: Duration) -> (r: OllamaConfig)
        ensures
            r == (OllamaConfig { timeout_ms: r.timeout_ms, ..self }),
    {
        let ms = duration_millis(&timeout);
        let timeout_ms: u64 = if ms > u64::MAX as u128 {
            u64::MAX
        } else {
            ms as u64
        };
        OllamaConfig { timeout_ms, ..self }
    }

    /// The request timeout.
    pub fn timeout(&self) -> (r: Duration) {
        duration_from_millis(self.timeout_ms)
    }

    /// Turns request logging on or off.
    pub fn with_logging(self, enabled: bool) -> (r: OllamaConfig)
        ensures
            r == (OllamaConfig { logging_enabled: enabled, ..self }),
    {
        OllamaConfig { logging_enabled: enabled, ..self }
    }

    /// Sets the model used when a request names none.
    pub fn with_default_model(self, model: &str) -> (r: OllamaConfig)
        ensures
            r.default_model matches Some(m) && m@ == model@,
            r.endpoint == self.endpoint,
            r.timeout_ms == self.timeout_ms,
            r.logging_enabled == self.logging_enabled,
    {
        OllamaConfig { default_model: Some(String::from_str(model)), ..self }
    }
}

impl Default for OllamaConfig {
    fn default() -> (r: OllamaConfig)
        ensures
            r.endpoint@ == "http://127.0.0.1:8080"@,
            r.timeout_ms == 120000,
            !r.logging_enabled,
            r.default_model.is_none(),
    {
        OllamaConfig::new()
    }
}

impl OllamaProvider {
    /// The adapter for `config`.
    pub fn new(config: OllamaConfig) -> (r: OllamaProvider)
        ensures
            r.config == config,
    {
        OllamaProvider { config }
    }

    /// Name of the backend.
    pub fn name(&self) -> (r: String)
        ensures
            r@ == "ollama"@,
    {
        String::from_str("ollama")
    }

    /// Kind of backend.
    pub fn provider_type(&self) -> (r: ProviderType)
        ensures
            r == ProviderType::Local,
    {
        ProviderType::Local
    }

    /// What the backend can do; limits depend on the loaded model.
    pub fn capabilities(&self) -> (r: ProviderCapabilities)
        ensures
            r == (ProviderCapabilities {
                streaming: true,
                function_calling: false,
                vision: false,
                embeddings: true,
                max_tokens: None,
                max_context_window: None,
                supports_system_prompts: true,
            }),
    {
        ProviderCapabilities {
            streaming: true,
            function_calling: false,
            vision: false,
            embeddings: true,
            max_tokens: None,
            max_context_window: None,
            supports_system_prompts: true,
        }
    }

    /// Rejects a configuration without an endpoint.
    pub fn validate_config(&self) -> (r: Result<(), Error>)
        ensures
            r is Ok <==> self.config.endpoint@.len() > 0,
            r matches Err(e) ==> e is Configuration,
    {
        if self.config.endpoint.as_str().is_empty() {
            return Err(Error::configuration("Ollama endpoint is empty"));
        }
        Ok(())
    }

    /// URL of `path` on the server.
    pub fn url(&self, path: &str) -> (r: String)
        ensures
            r@ == self.config.endpoint@ + path@,
    {
        let mut r = self.config.endpoint.clone();
        r.append(path);
        r
    }

    /// Catalog entry of a model the server lists under `id`: a local chat
    /// model, free to run.
    pub fn listed_model(&self, id: &str) -> (r: ModelInfo)
        ensures
            r.id@ == id@,
            r.name@ == id@,
            r.provider@ == "ollama"@,
            r.provider_type == ProviderType::Local,
            r.capabilities == (ModelCapabilities {
                chat: true,
                completion: true,
                embeddings: false,
                function_calling: false,
                vision: false,
                streaming: true,
            }),
            r.context_length.is_none(),
            !r.loaded,
    {
        let mut m = ModelInfo::new(id, id, "ollama").with_provider_type(ProviderType::Local);
        m.capabilities = ModelCapabilities {
            chat: true,
            completion: true,
            embeddings: false,
            function_calling: false,
            vision: false,
            streaming: true,
        };
        m
    }

    /// Catalog entries of the models the server lists, in order.
    pub fn listed_models(&self, ids: &Vec<String>) -> (r: Vec<ModelInfo>)
        ensures
            r@.len() == ids@.len(),
            forall|k: int| 0 <= k < r@.len() ==> (#[trigger] r@[k]).id@ == ids@[k]@ && r@[k].provider_type == ProviderType::Local,
    {
        let mut r: Vec<ModelInfo> = Vec::new();
        let mut i: usize = 0;
        while i < ids.len()
            invariant
                i <= ids@.len(),
                r@.len() == i,
                forall|k: int| 0 <= k < i ==> (#[trigger] r@[k]).id@ == ids@[k]@ && r@[k].provider_type == ProviderType::Local,
            decreases ids@.len() - i,
        {
            r.push(self.listed_model(ids[i].as_str()));
            i = i + 1;
        }
        r
    }

    /// Catalog entry used when the server lists nothing: the configured
    /// default model, else a generic name, with a 4096-token context.
    pub fn default_model_info(&self) -> (r: ModelInfo)
        ensures
            r.id@ == match self.config.default_model {
                Some(d) => d@,
                None => "local-model"@,
            },
            r.name@ == "Local LLaMA Model"@,
            r.provider_type == ProviderType::Local,
            r.context_length == Some(4096u32),
    {
        let id = match &self.config.default_model {
            Some(d) => d.clone(),
            None => String::from_str("local-model"),
        };
        let m = self.listed_model(id.as_str());
        ModelInfo { name: String::from_str("Local LLaMA Model"), context_length: Some(4096), ..m }
    }

    /// The models to report: those the server listed, or, when it listed
    /// nothing usable (`None`), the default entry alone.
    pub fn local_models(&self, ids: Option<Vec<String>>) -> (r: Vec<ModelInfo>)
        ensures
            match ids {
                Some(v) => r@.len() == v@.len() && forall|k: int| 0 <= k < r@.len() ==> (#[trigger] r@[k]).id@ == v@[k]@
                    && r@[k].provider_type == ProviderType::Local,
                None => r@.len() == 1 && r@[0].id@ == match self.config.default_model {
                    Some(d) => d@,
                    None => "local-model"@,
                } && r@[0].context_length == Some(4096u32),
            },
    {
        match ids {
            Some(v) => self.listed_models(&v),
            None => {
                let mut r: Vec<ModelInfo> = Vec::new();
                r.push(self.default_model_info());
                r
            },
        }
    }

    /// The wire request of `request`: every message kept, in order, with
    /// its content flattened to text and function messages sent as user
    /// turns; the model falls back to the configured default.
    pub fn convert_request(&self, request: &ChatRequest) -> (r: OllamaRequest)
        ensures
            is_ollama_request(self.config, *request, r),
    {
        let mut messages: Vec<OllamaMessage> = Vec::new();
        let mut i: usize = 0;
        while i < request.messages.len()
            invariant
                i <= request.messages@.len(),
                messages@.len() == i,
                forall|k: int| 0 <= k < i ==> #[trigger] message_carried(messages@[k], request.messages@[k]),
            decreases request.messages@.len() - i,
        {
            let msg = &request.messages[i];
            messages.push(OllamaMessage { role: role_to_name(msg.role), content: flatten_content(&msg.content) });
            i = i + 1;
        }
        let model = if !request.model.as_str().is_empty() {
            request.model.clone()
        } else {
            match &self.config.default_model {
                Some(d) => d.clone(),
                None => String::from_str("local-model"),
            }
        };
        OllamaRequest {
            model,
            messages,
            max_tokens: request.max_tokens,
            temperature: request.temperature,
            top_p: request.top_p,
            stream: Some(request.stream),
            stop: copy_opt_strings(&request.stop),
        }
    }

    /// The wire request of a valid request; an invalid one is refused
    /// before anything is sent.
    pub fn prepare_request(&self, request: &ChatRequest) -> (r: Result<OllamaRequest, Error>)
        ensures
            r is Ok <==> request_is_valid(*request),
            r matches Ok(w) ==> is_ollama_request(self.config, *request, w),
            r matches Err(e) ==> e is InvalidRequest,
    {
        match request.validate() {
            Ok(()) => Ok(self.convert_request(request)),
            Err(e) => Err(e),
        }
    }

    /// The canonical response of a wire response to `request`: one choice
    /// per wire choice, roles and finish reasons mapped, the usage with its
    /// total recomputed (estimated and flagged when the server sends none),
    /// and the backend's id kept under the metadata.
    pub fn convert_response(&self, request: &ChatRequest, response: OllamaResponse, processing_time_ms: u64) -> (r: ChatResponse)
        ensures
            is_ollama_response(*request, response, processing_time_ms, r),
            unique_keys(r.metadata@),
    {
        let mut choices: Vec<Choice> = Vec::new();
        let mut completion: u32 = 0;
        let mut i: usize = 0;
        while i < response.choices.len()
            invariant
                i <= response.choices@.len(),
                choices@.len() == i,
                forall|k: int| 0 <= k < i ==> #[trigger] choice_carried(choices@[k], response.choices@[k]),
                completion == cap_u32(completion_estimate(response.choices@.subrange(0, i as int))),
            decreases response.choices@.len() - i,
        {
            proof {
                assert(response.choices@.subrange(0, i + 1).drop_last() == response.choices@.subrange(0, i as int));
            }
            let c = &response.choices[i];
            choices.push(Choice {
                index: c.index as usize,
                message: ResponseMessage {
                    role: role_from_name(c.message.role.as_str()),
                    content: Some(c.message.content.clone()),
                    function_call: None,
                },
                finish_reason: Some(map_finish_reason(&c.finish_reason)),
            });
            let quarter = text_byte_len(&c.message.content) / 4;
            let tokens: u32 = if quarter == 0 {
                1
            } else if quarter > u32::MAX as usize {
                u32::MAX
            } else {
                quarter as u32
            };
            completion = completion.saturating_add(tokens);
            i = i + 1;
        }
        proof {
            assert(response.choices@.subrange(0, response.choices@.len() as int) == response.choices@);
        }
        let mut metadata: Vec<(String, String)> = Vec::new();
        metadata.push((String::from_str("ollama_id"), response.id.clone()));
        metadata.push((String::from_str("backend"), String::from_str("llama.cpp")));
        let usage = match response.usage {
            Some(u) => Usage::new(u.prompt_tokens, u.completion_tokens),
            None => {
                metadata.push((String::from_str("usage_estimated"), String::from_str("true")));
                Usage::new(request.estimate_tokens(), completion)
            },
        };
        proof {
            reveal_strlit("ollama_id");
            reveal_strlit("backend");
            reveal_strlit("usage_estimated");
            assert("ollama_id"@.len() == 9 && "backend"@.len() == 7 && "usage_estimated"@.len() == 15);
        }
        ChatResponse {
            request_id: request.id.clone(),
            id: response.id,
            provider: String::from_str("ollama"),
            model: response.model,
            choices,
            usage: Some(usage),
            metadata,
            created: now_timestamp(),
            processing_time_ms,
            cached: false,
        }
    }
}

} // verus!
