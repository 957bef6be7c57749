use vstd::prelude::*;
use vstd::string::StringExecFns;

use std::time::Duration;

use crate::error::Error;
use crate::ext::{duration_from_millis, duration_millis, now_timestamp};
use crate::provider::{ProviderCapabilities, ProviderType};
use crate::request::{request_is_valid, ChatRequest, ContentPart, Message, MessageContent, MessageRole};
use crate::response::{unique_keys, usage_of, ChatResponse, Choice, FinishReason, ResponseMessage, Usage};
use crate::text::{copy_opt_strings, flat_text, flatten_content, join, push_joined, role_name, role_of_name, role_to_name, text_eq};

verus! {

/// Completion length sent when the request sets none; the protocol requires one.
pub const DEFAULT_MAX_TOKENS: u32 = 4096;

/// Settings of the cloud adapter.
pub struct AnthropicConfig {
    /// Key sent in the API key header.
    pub api_key: String,
    /// Base URL of the API.
    pub endpoint: String,
    /// Request timeout, in milliseconds.
    pub timeout_ms: u64,
    pub logging_enabled: bool,
    /// Value of the API version header.
    pub api_version: String,
}

/// One block of message content on the wire.
#[derive(Debug, Clone)]
pub enum AnthropicContentBlock {
    Text { text: String },
    /// An image given by URL.
    Image { url: String },
}

/// One conversation turn on the wire.
#[derive(Debug, Clone)]
pub struct AnthropicMessage {
    pub role: String,
    pub content: Vec<AnthropicContentBlock>,
}

/// Request body of the messages endpoint.
#[derive(Debug, Clone)]
pub struct AnthropicRequest {
    pub model: String,
    pub messages: Vec<AnthropicMessage>,
    /// All system messages, folded into one.
    pub system: Option<String>,
    pub max_tokens: u32,
    /// Hundredths, as in the canonical request.
    pub temperature: Option<u32>,
    pub top_p: Option<u32>,
    pub stream: Option<bool>,
    pub stop_sequences: Option<Vec<String>>,
}

/// Token counts reported by the API.
#[derive(Debug, Clone, Copy)]
pub struct AnthropicUsage {
    pub input_tokens: u32,
    pub output_tokens: u32,
}

/// Response body of the messages endpoint.
#[derive(Debug, Clone)]
pub struct AnthropicResponse {
    pub id: String,
    pub model: String,
    pub content: Vec<AnthropicContentBlock>,
    pub stop_reason: Option<String>,
    pub usage: AnthropicUsage,
}

/// The cloud adapter: converts between the canonical model and the
/// messages protocol, which has a separate system field and no function role.
pub struct AnthropicProvider {
    pub config: AnthropicConfig,
}

/// Texts of the system messages, flattened, in order.
pub open spec fn system_texts(ms: Seq<Message>) -> Seq<Seq<char>>
    decreases ms.len(),
{
    if ms.len() == 0 {
        Seq::empty()
    } else {
        let rest = system_texts(ms.drop_last());
        if ms.last().role == MessageRole::System {
            rest.push(flat_text(ms.last().content))
        } else {
            rest
        }
    }
}

/// The user and assistant messages, in order. System messages go to the
/// system field; function messages are dropped, the protocol having no
/// place for them.
pub open spec fn turns(ms: Seq<Message>) -> Seq<Message>
    decreases ms.len(),
{
    if ms.len() == 0 {
        Seq::empty()
    } else {
        let rest = turns(ms.drop_last());
        if ms.last().role == MessageRole::User || ms.last().role == MessageRole::Assistant {
            rest.push(ms.last())
        } else {
            rest
        }
    }
}

/// A wire block that carries exactly a canonical part.
pub open spec fn block_carries(b: AnthropicContentBlock, p: ContentPart) -> bool {
    match (b, p) {
        (AnthropicContentBlock::Text { text: bt }, ContentPart::Text { text: pt }) => bt@ == pt@,
        (AnthropicContentBlock::Image { url: bu }, ContentPart::Image { url: pu }) => bu@ == pu.url@,
        _ => false,
    }
}

/// Wire blocks that carry exactly a canonical content.
pub open spec fn blocks_carry(bs: Seq<AnthropicContentBlock>, c: MessageContent) -> bool {
    match c {
        MessageContent::Text(t) => bs.len() == 1 && (bs[0] matches AnthropicContentBlock::Text { text } && text@ == t@),
        MessageContent::MultiPart(ps) => bs.len() == ps@.len() && forall|i: int|
            0 <= i < bs.len() ==> #[trigger] block_carries(bs[i], ps@[i]),
    }
}

/// A wire turn that carries exactly a canonical message.
pub open spec fn turn_carries(w: AnthropicMessage, m: Message) -> bool {
    w.role@ == role_name(m.role) && blocks_carry(w.content@, m.content)
}

/// The folded system field of a conversation.
pub open spec fn system_field(ms: Seq<Message>) -> Option<Seq<char>> {
    if system_texts(ms).len() == 0 {
        None
    } else {
        Some(join(system_texts(ms), "\n\n"@))
    }
}

/// `w` is the wire form of `req`.
pub open spec fn is_anthropic_request(req: ChatRequest, w: AnthropicRequest) -> bool {
    &&& w.model@ == req.model@
    &&& match (w.system, system_field(req.messages@)) {
        (Some(s), Some(t)) => s@ == t,
        (None, None) => true,
        _ => false,
    }
    &&& w.messages@.len() == turns(req.messages@).len()
    &&& forall|k: int| 0 <= k < w.messages@.len() ==> #[trigger] turn_carries(w.messages@[k], turns(req.messages@)[k])
    &&& w.max_tokens == match req.max_tokens {
        Some(n) => n,
        None => DEFAULT_MAX_TOKENS,
    }
    &&& w.temperature == req.temperature
    &&& w.top_p == req.top_p
    &&& w.stream == Some(req.stream)
    &&& match (w.stop_sequences, req.stop) {
        (Some(a), Some(b)) => a@ == b@,
        (None, None) => true,
        _ => false,
    }
}

/// Texts of the text blocks, in order.
pub open spec fn block_texts(bs: Seq<AnthropicContentBlock>) -> Seq<Seq<char>>
    decreases bs.len(),
{
    if bs.len() == 0 {
        Seq::empty()
    } else {
        let rest = block_texts(bs.drop_last());
        match bs.last() {
            AnthropicContentBlock::Text { text } => rest.push(text@),
            AnthropicContentBlock::Image { .. } => rest,
        }
    }
}

/// Canonical finish reason of a stop reason of the protocol.
pub open spec fn anthropic_finish(reason: Option<Seq<char>>) -> FinishReason {
    match reason {
        Some(s) => if s == "end_turn"@ || s == "stop_sequence"@ {
            FinishReason::Stop
        } else if s == "max_tokens"@ {
            FinishReason::Length
        } else {
            FinishReason::Unknown
        },
        None => FinishReason::Unknown,
    }
}

/// `r` is the canonical form of the wire response `w` to request `request_id`.
pub open spec fn is_anthropic_response(request_id: Seq<char>, w: AnthropicResponse, processing_ms: u64, r: ChatResponse) -> bool {
    &&& r.request_id@ == request_id
    &&& r.id@ == w.id@
    &&& r.provider@ == "anthropic"@
    &&& r.model@ == w.model@
    &&& r.choices@.len() == 1
    &&& r.choices@[0].index == 0
    &&& r.choices@[0].message.role == MessageRole::Assistant
    &&& (r.choices@[0].message.content matches Some(t) && t@ == join(block_texts(w.content@), " "@))
    &&& r.choices@[0].message.function_call.is_none()
    &&& r.choices@[0].finish_reason == Some(anthropic_finish(
        match w.stop_reason {
            Some(s) => Some(s@),
            None => None,
        },
    ))
    &&& r.usage == Some(usage_of(w.usage.input_tokens, w.usage.output_tokens))
    &&& r.metadata@.len() == 2
    &&& r.metadata@[0].0@ == "anthropic_id"@
    &&& r.metadata@[0].1@ == w.id@
    &&& r.metadata@[1].0@ == "stop_reason"@
    &&& r.metadata@[1].1@ == match w.stop_reason {
        Some(s) => s@,
        None => Seq::empty(),
    }
    &&& r.processing_time_ms == processing_ms
    &&& !r.cached
}

/// A backend that answers under the model it was asked for.
pub open spec fn echoes_model(wr: AnthropicRequest, w: AnthropicResponse) -> bool {
    w.model@ == wr.model@
}

/// Round trip through the cloud adapter and an echoing backend: the model
/// is kept; there is one wire turn per user or assistant message, in order,
/// whose role reads back as the message's own; and the system field is
/// present exactly when the conversation has a system message.
pub proof fn lemma_anthropic_round_trip(req: ChatRequest, wr: AnthropicRequest, w: AnthropicResponse, ms: u64, r: ChatResponse)
    requires
        is_anthropic_request(req, wr),
        echoes_model(wr, w),
        is_anthropic_response(req.id@, w, ms, r),
    ensures
        r.model@ == req.model@,
        wr.messages@.len() == turns(req.messages@).len(),
        forall|k: int| 0 <= k < wr.messages@.len() ==> role_of_name((#[trigger] wr.messages@[k]).role@) == turns(req.messages@)[k].role,
        wr.system.is_some() == (system_texts(req.messages@).len() > 0),
{
    reveal_strlit("user");
    reveal_strlit("system");
    reveal_strlit("assistant");
    lemma_turn_roles(req.messages@);
    assert forall|k: int| 0 <= k < wr.messages@.len() implies role_of_name((#[trigger] wr.messages@[k]).role@) == turns(req.messages@)[k].role by {
        assert(turn_carries(wr.messages@[k], turns(req.messages@)[k]));
        assert("user"@.len() == 4 && "system"@.len() == 6 && "assistant"@.len() == 9);
    }
}

/// Number of function messages, which the protocol has no place for.
pub open spec fn function_count(ms: Seq<Message>) -> nat
    decreases ms.len(),
{
    if ms.len() == 0 {
        0
    } else {
        function_count(ms.drop_last()) + if ms.last().role == MessageRole::Function { 1nat } else { 0nat }
    }
}

/// No message is lost or duplicated by the cloud adapter's conversion: each
/// becomes a turn, a part of the system field, or is one of the dropped
/// function messages.
pub proof fn lemma_anthropic_message_count(ms: Seq<Message>)
    ensures
        turns(ms).len() + system_texts(ms).len() + function_count(ms) == ms.len(),
    decreases ms.len(),
{
    if ms.len() > 0 {
        lemma_anthropic_message_count(ms.drop_last());
    }
}

/// Turns hold only user and assistant messages.
proof fn lemma_turn_roles(ms: Seq<Message>)
    ensures
        forall|k: int| 0 <= k < turns(ms).len() ==> (#[trigger] turns(ms)[k]).role == MessageRole::User || turns(ms)[k].role
            == MessageRole::Assistant,
    decreases ms.len(),
{
    if ms.len() > 0 {
        lemma_turn_roles(ms.drop_last());
    }
}

/// Every response of the cloud adapter has a total equal to the sum of its
/// prompt and completion counts.
pub proof fn lemma_anthropic_usage_total(request_id: Seq<char>, w: AnthropicResponse, ms: u64, r: ChatResponse)
    requires
        is_anthropic_response(request_id, w, ms, r),
    ensures
        r.usage matches Some(u) && u.total_tokens == u.prompt_tokens + u.completion_tokens,
{
}

/// Maps a stop reason of the protocol onto the canonical enum: unknown
/// values become `Unknown`, never `Stop`.
pub fn map_stop_reason(reason: &Option<String>) -> (r: FinishReason)
    ensures
        r == anthropic_finish(
            match reason {
                Some(s) => Some(s@),
                None => None,
            },
        ),
{
    match reason {
        Some(s) => {
            if text_eq(s.as_str(), "end_turn") || text_eq(s.as_str(), "stop_sequence") {
                FinishReason::Stop
            } else if text_eq(s.as_str(), "max_tokens") {
                FinishReason::Length
            } else {
                FinishReason::Unknown
            }
        },
        None => FinishReason::Unknown,
    }
}

/// Wire blocks of a canonical content: text stays text, images become URL
/// image blocks.
fn content_blocks(c: &MessageContent) -> (r: Vec<AnthropicContentBlock>)
    ensures
        blocks_carry(r@, *c),
{
    match c {
        MessageContent::Text(t) => {
            let mut r: Vec<AnthropicContentBlock> = Vec::new();
            r.push(AnthropicContentBlock::Text { text: t.clone() });
            r
        },
        MessageContent::MultiPart(parts) => {
            let mut r: Vec<AnthropicContentBlock> = Vec::new();
            let mut i: usize = 0;
            while i < parts.len()
                invariant
                    i <= parts@.len(),
                    r@.len() == i,
                    forall|k: int| 0 <= k < i ==> #[trigger] block_carries(r@[k], parts@[k]),
                decreases parts@.len() - i,
            {
                match &parts[i] {
                    ContentPart::Text { text } => {
                        r.push(AnthropicContentBlock::Text { text: text.clone() });
                    },
                    ContentPart::Image { url } => {
                        r.push(AnthropicContentBlock::Image { url: url.url.clone() });
                    },
                }
                i = i + 1;
            }
            r
        },
    }
}

/// Texts of the text blocks joined by single spaces.
fn join_block_texts(bs: &Vec<AnthropicContentBlock>) -> (r: String)
    ensures
        r@ == join(block_texts(bs@), " "@),
{
    let mut r = String::new();
    let mut count: usize = 0;
    let mut i: usize = 0;
    while i < bs.len()
        invariant
            i <= bs@.len(),
            count == block_texts(bs@.subrange(0, i as int)).len(),
            count <= i,
            r@ == join(block_texts(bs@.subrange(0, i as int)), " "@),
        decreases bs@.len() - i,
    {
        proof {
            assert(bs@.subrange(0, i + 1).drop_last() == bs@.subrange(0, i as int));
        }
        match &bs[i] {
            AnthropicContentBlock::Text { text } => {
                let ghost before = block_texts(bs@.subrange(0, i as int));
                push_joined(&mut r, count, text.as_str(), " ");
                proof {
                    let after = before.push(text@);
                    assert(after.drop_last() == before);
                    if count == 0 {
                        assert(r@ == after[0]);
                    }
                }
                count = count + 1;
            },
            AnthropicContentBlock::Image { .. } => {},
        }
        i = i + 1;
    }
    proof {
        assert(bs@.subrange(0, bs@.len() as int) == bs@);
    }
    r
}

impl AnthropicConfig {
    /// Settings with `api_key` and the defaults: the public endpoint, a
    /// 60 s timeout, no logging, API version 2023-06-01.
    pub fn new(api_key: &str) -> (r: AnthropicConfig)
        ensures
            r.api_key@ == api_key@,
            r.endpoint@ == "https://api.anthropic.com/v1"@,
            r.timeout_ms == 60000,
            !r.logging_enabled,
            r.api_version@ == "2023-06-01"@,
    {
        AnthropicConfig {
            api_key: String::from_str(api_key),
            endpoint: String::from_str("https://api.anthropic.com/v1"),
            timeout_ms: 60000,
            logging_enabled: false,
            api_version: String::from_str("2023-06-01"),
        }
    }

    /// Replaces the endpoint.
    pub fn with_endpoint(self, endpoint: &str) -> (r: AnthropicConfig)
        ensures
            r.endpoint@ == endpoint@,
            r.api_key == self.api_key,
            r.timeout_ms == self.timeout_ms,
            r.logging_enabled == self.logging_enabled,
            r.api_version == self.api_version,
    {
        AnthropicConfig { endpoint: String::from_str(endpoint), ..self }
    }

    /// Replaces the request timeout.
    pub fn with_timeout(self, timeout: Duration) -> (r: AnthropicConfig)
        ensures
            r == (AnthropicConfig { timeout_ms: r.timeout_ms, ..self }),
    {
        let ms = duration_millis(&timeout);
        let timeout_ms: u64 = if ms > u64::MAX as u128 {
            u64::MAX
        } else {
            ms as u64
        };
        AnthropicConfig { timeout_ms, ..self }
    }

    /// The request timeout.
    pub fn timeout(&self) -> (r: Duration) {
        duration_from_millis(self.timeout_ms)
    }

    /// Turns request logging on or off.
    pub fn with_logging(self, enabled: bool) -> (r: AnthropicConfig)
        ensures
            r == (AnthropicConfig { logging_enabled: enabled, ..self }),
    {
        AnthropicConfig { logging_enabled: enabled, ..self }
    }

    /// Replaces the API version.
    pub fn with_api_version(self, version: &str) -> (r: AnthropicConfig)
        ensures
            r.api_version@ == version@,
            r.api_key == self.api_key,
            r.endpoint == self.endpoint,
            r.timeout_ms == self.timeout_ms,
            r.logging_enabled == self.logging_enabled,
    {
        AnthropicConfig { api_version: String::from_str(version), ..self }
    }
}

impl AnthropicProvider {
    /// The adapter for `config`.
    pub fn new(config: AnthropicConfig) -> (r: AnthropicProvider)
        ensures
            r.config == config,
    {
        AnthropicProvider { config }
    }

    /// Name of the backend.
    pub fn name(&self) -> (r: String)
        ensures
            r@ == "anthropic"@,
    {
        String::from_str("anthropic")
    }

    /// Kind of backend.
    pub fn provider_type(&self) -> (r: ProviderType)
        ensures
            r == ProviderType::Cloud,
    {
        ProviderType::Cloud
    }

    /// What the backend can do.
    pub fn capabilities(&self) -> (r: ProviderCapabilities)
        ensures
            r == (ProviderCapabilities {
                streaming: true,
                function_calling: true,
                vision: true,
                embeddings: false,
                max_tokens: Some(4096),
                max_context_window: Some(200000),
                supports_system_prompts: true,
            }),
    {
        ProviderCapabilities {
            streaming: true,
            function_calling: true,
            vision: true,
            embeddings: false,
            max_tokens: Some(4096),
            max_context_window: Some(200000),
            supports_system_prompts: true,
        }
    }

    /// Rejects a configuration without an API key or without an endpoint.
    pub fn validate_config(&self) -> (r: Result<(), Error>)
        ensures
            r is Ok <==> (self.config.api_key@.len() > 0 && self.config.endpoint@.len() > 0),
            r matches Err(e) ==> e is Configuration,
    {
        if self.config.api_key.as_str().is_empty() {
            return Err(Error::configuration("Anthropic API key is empty"));
        }
        if self.config.endpoint.as_str().is_empty() {
            return Err(Error::configuration("Anthropic endpoint is empty"));
        }
        Ok(())
    }

    /// URL of the messages endpoint.
    pub fn messages_url(&self) -> (r: String)
        ensures
            r@ == self.config.endpoint@ + "/messages"@,
    {
        let mut r = self.config.endpoint.clone();
        r.append("/messages");
        r
    }

    /// The wire request of `request`: system messages folded, in order and
    /// separated by blank lines, into the system field; user and assistant
    /// messages as turns; function messages dropped; the length limit
    /// defaulting to 4096.
    pub fn convert_request(&self, request: &ChatRequest) -> (r: AnthropicRequest)
        ensures
            is_anthropic_request(*request, r),
    {
        let ghost ms = request.messages@;
        let mut system: Option<String> = None;
        let mut count: usize = 0;
        let mut messages: Vec<AnthropicMessage> = Vec::new();
        let mut i: usize = 0;
        while i < request.messages.len()
            invariant
                i <= ms.len(),
                ms == request.messages@,
                count == system_texts(ms.subrange(0, i as int)).len(),
                count <= i,
                match system {
                    Some(s) => count > 0 && s@ == join(system_texts(ms.subrange(0, i as int)), "\n\n"@),
                    None => count == 0,
                },
                messages@.len() == turns(ms.subrange(0, i as int)).len(),
                forall|k: int| 0 <= k < messages@.len() ==> #[trigger] turn_carries(messages@[k], turns(ms.subrange(0, i as int))[k]),
            decreases ms.len() - i,
        {
            proof {
                assert(ms.subrange(0, i + 1).drop_last() == ms.subrange(0, i as int));
            }
            let msg = &request.messages[i];
            match msg.role {
                MessageRole::System => {
                    let text = flatten_content(&msg.content);
                    let ghost before = system_texts(ms.subrange(0, i as int));
                    match system {
                        Some(mut s) => {
                            push_joined(&mut s, count, text.as_str(), "\n\n");
                            system = Some(s);
                        },
                        None => {
                            system = Some(text);
                        },
                    }
                    proof {
                        let after = before.push(flat_text(msg.content));
                        assert(after.drop_last() == before);
                    }
                    count = count + 1;
                },
                MessageRole::User | MessageRole::Assistant => {
                    let ghost before = turns(ms.subrange(0, i as int));
                    messages.push(AnthropicMessage { role: role_to_name(msg.role), content: content_blocks(&msg.content) });
                    proof {
                        let after = before.push(*msg);
                        assert forall|k: int| 0 <= k < messages@.len() implies #[trigger] turn_carries(messages@[k], after[k]) by {
                            if k < before.len() {
                                assert(after[k] == before[k]);
                            }
                        }
                    }
                },
                MessageRole::Function => {},
            }
            i = i + 1;
        }
        proof {
            assert(ms.subrange(0, ms.len() as int) == ms);
        }
        AnthropicRequest {
            model: request.model.clone(),
            messages,
            system,
            max_tokens: match request.max_tokens {
                Some(n) => n,
                None => DEFAULT_MAX_TOKENS,
            },
            temperature: request.temperature,
            top_p: request.top_p,
            stream: Some(request.stream),
            stop_sequences: copy_opt_strings(&request.stop),
        }
    }

    /// The wire request of a valid request; an invalid one is refused
    /// before anything is sent.
    pub fn prepare_request(&self, request: &ChatRequest) -> (r: Result<AnthropicRequest, Error>)
        ensures
            r is Ok <==> request_is_valid(*request),
            r matches Ok(w) ==> is_anthropic_request(*request, w),
            r matches Err(e) ==> e is InvalidRequest,
    {
        match request.validate() {
            Ok(()) => Ok(self.convert_request(request)),
            Err(e) => Err(e),
        }
    }

    /// The canonical response of a wire response: one assistant choice with
    /// the text blocks joined by spaces, the mapped finish reason, the
    /// reported usage with its total recomputed, and the backend's id and
    /// raw stop reason kept under the metadata.
    pub fn convert_response(&self, request_id: &str, response: AnthropicResponse, processing_time_ms: u64) -> (r: ChatResponse)
        ensures
            is_anthropic_response(request_id@, response, processing_time_ms, r),
            unique_keys(r.metadata@),
    {
        let text = join_block_texts(&response.content);
        let finish = map_stop_reason(&response.stop_reason);
        let mut choices: Vec<Choice> = Vec::new();
        choices.push(Choice {
            index: 0,
            message: ResponseMessage { role: MessageRole::Assistant, content: Some(text), function_call: None },
            finish_reason: Some(finish),
        });
        let raw_reason = match &response.stop_reason {
            Some(s) => s.clone(),
            None => String::new(),
        };
        let mut metadata: Vec<(String, String)> = Vec::new();
        metadata.push((String::from_str("anthropic_id"), response.id.clone()));
        metadata.push((String::from_str("stop_reason"), raw_reason));
        proof {
            reveal_strlit("anthropic_id");
            reveal_strlit("stop_reason");
            assert("anthropic_id"@.len() == 12 && "stop_reason"@.len() == 11);
        }
        ChatResponse {
            request_id: String::from_str(request_id),
            id: response.id,
            provider: String::from_str("anthropic"),
            model: response.model,
            choices,
            usage: Some(Usage::new(response.usage.input_tokens, response.usage.output_tokens)),
            metadata,
            created: now_timestamp(),
            processing_time_ms,
            cached: false,
        }
    }

    /// The smallest request that shows whether the API answers: one token
    /// of `model` in reply to a one-word user turn.
    pub fn health_probe_request(&self, model: &str) -> (r: AnthropicRequest)
        ensures
            r.model@ == model@,
            r.max_tokens == 1,
            r.messages@.len() == 1,
            r.messages@[0].role@ == "user"@,
            r.messages@[0].content@.len() == 1,
            r.messages@[0].content@[0] matches AnthropicContentBlock::Text { text } && text@ == "Hi"@,
            r.system.is_none(),
    {
        let mut content: Vec<AnthropicContentBlock> = Vec::new();
        content.push(AnthropicContentBlock::Text { text: String::from_str("Hi") });
        let mut messages: Vec<AnthropicMessage> = Vec::new();
        messages.push(AnthropicMessage { role: String::from_str("user"), content });
        AnthropicRequest {
            model: String::from_str(model),
            messages,
            system: None,
            max_tokens: 1,
            temperature: None,
            top_p: None,
            stream: None,
            stop_sequences: None,
        }
    }
}

} // verus!
