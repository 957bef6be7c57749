use vstd::prelude::*;
use vstd::string::StringExecFns;

use crate::ext::now_timestamp;
use crate::request::MessageRole;

verus! {

/// Why a backend stopped generating a choice.
#[derive(Debug, Clone, Copy, PartialEq, Eq, Structural)]
pub enum FinishReason {
    /// Natural end, or a stop sequence.
    Stop,
    /// The length limit was reached.
    Length,
    ContentFilter,
    FunctionCall,
    Error,
    /// The backend gave a reason this library does not know.
    Unknown,
}

/// A function call requested by the model.
#[derive(Debug, Clone)]
pub struct FunctionCall {
    pub name: String,
    /// Arguments as JSON text.
    pub arguments: String,
}

/// The message of one choice.
#[derive(Debug, Clone)]
pub struct ResponseMessage {
    pub role: MessageRole,
    pub content: Option<String>,
    pub function_call: Option<FunctionCall>,
}

/// One generated alternative.
#[derive(Debug, Clone)]
pub struct Choice {
    /// Position of the choice in the response.
    pub index: usize,
    pub message: ResponseMessage,
    pub finish_reason: Option<FinishReason>,
}

/// Token accounting of one exchange.
#[derive(Debug, Clone, Copy, PartialEq, Eq, Structural)]
pub struct Usage {
    pub prompt_tokens: u32,
    pub completion_tokens: u32,
    /// Always `prompt_tokens + completion_tokens`.
    pub total_tokens: u64,
}

/// Canonical chat-completion response.
#[derive(Debug, Clone)]
pub struct ChatResponse {
    /// Id of the request this answers.
    pub request_id: String,
    /// Identifier assigned by the backend.
    pub id: String,
    /// Name of the backend that answered.
    pub provider: String,
    pub model: String,
    pub choices: Vec<Choice>,
    pub usage: Option<Usage>,
    /// Backend-specific identifiers and diagnostics, kept verbatim.
    pub metadata: Vec<(String, String)>,
    /// Creation time, in seconds since the Unix epoch.
    pub created: i64,
    pub processing_time_ms: u64,
    pub cached: bool,
}

/// The usage record of a prompt and a completion count.
pub open spec fn usage_of(prompt: u32, completion: u32) -> Usage {
    Usage { prompt_tokens: prompt, completion_tokens: completion, total_tokens: (prompt + completion) as u64 }
}

/// A usage record whose total is the sum of its parts.
pub open spec fn usage_consistent(u: Usage) -> bool {
    u.total_tokens == u.prompt_tokens + u.completion_tokens
}

/// The total of a usage record built from two counts is their sum, whatever
/// total a backend may have reported.
pub proof fn lemma_usage_total(prompt: u32, completion: u32)
    ensures
        usage_consistent(usage_of(prompt, completion)),
        usage_of(prompt, completion).total_tokens == prompt + completion,
{
}

/// No key appears twice among key/value pairs.
pub open spec fn unique_keys(m: Seq<(String, String)>) -> bool {
    forall|i: int, j: int| 0 <= i < j < m.len() ==> (#[trigger] m[i]).0@ != (#[trigger] m[j]).0@
}

/// Texts of the choices that carry text, in order.
pub open spec fn choice_texts(cs: Seq<Choice>) -> Seq<Seq<char>>
    decreases cs.len(),
{
    if cs.len() == 0 {
        Seq::empty()
    } else {
        let rest = choice_texts(cs.drop_last());
        match cs.last().message.content {
            Some(t) => rest.push(t@),
            None => rest,
        }
    }
}

/// Some choice stopped at the length limit.
pub open spec fn any_truncated(cs: Seq<Choice>) -> bool {
    exists|i: int| 0 <= i < cs.len() && cs[i].finish_reason == Some(FinishReason::Length)
}

impl Choice {
    /// Choice `index` holding the assistant text `content`, stopped naturally.
    pub fn new(index: usize, content: &str) -> (r: Choice)
        ensures
            r.index == index,
            r.message.role == MessageRole::Assistant,
            r.message.content matches Some(t) && t@ == content@,
            r.message.function_call.is_none(),
            r.finish_reason == Some(FinishReason::Stop),
    {
        Choice {
            index,
            message: ResponseMessage {
                role: MessageRole::Assistant,
                content: Some(String::from_str(content)),
                function_call: None,
            },
            finish_reason: Some(FinishReason::Stop),
        }
    }

    /// Replaces the finish reason.
    pub fn with_finish_reason(self, reason: FinishReason) -> (r: Choice)
        ensures
            r == (Choice { finish_reason: Some(reason), ..self }),
    {
        Choice { finish_reason: Some(reason), ..self }
    }
}

impl Usage {
    /// Usage of `prompt_tokens` and `completion_tokens`, with their sum as total.
    pub fn new(prompt_tokens: u32, completion_tokens: u32) -> (r: Usage)
        ensures
            r == usage_of(prompt_tokens, completion_tokens),
            usage_consistent(r),
    {
        Usage {
            prompt_tokens,
            completion_tokens,
            total_tokens: prompt_tokens as u64 + completion_tokens as u64,
        }
    }
}

impl ChatResponse {
    /// An empty response `id` from `model`, stamped with the current time.
    pub fn new(id: &str, model: &str) -> (r: ChatResponse)
        ensures
            r.id@ == id@,
            r.model@ == model@,
            r.request_id@.len() == 0,
            r.provider@.len() == 0,
            r.choices@.len() == 0,
            r.usage.is_none(),
            r.metadata@.len() == 0,
            r.processing_time_ms == 0,
            !r.cached,
    {
        ChatResponse {
            request_id: String::new(),
            id: String::from_str(id),
            provider: String::new(),
            model: String::from_str(model),
            choices: Vec::new(),
            usage: None,
            metadata: Vec::new(),
            created: now_timestamp(),
            processing_time_ms: 0,
            cached: false,
        }
    }

    /// Appends `choice`.
    pub fn add_choice(self, choice: Choice) -> (r: ChatResponse)
        ensures
            r == (ChatResponse { choices: r.choices, ..self }),
            r.choices@ == self.choices@.push(choice),
    {
        let mut r = self;
        r.choices.push(choice);
        r
    }

    /// Sets the usage record.
    pub fn with_usage(self, usage: Usage) -> (r: ChatResponse)
        ensures
            r == (ChatResponse { usage: Some(usage), ..self }),
    {
        ChatResponse { usage: Some(usage), ..self }
    }

    /// Text of the first choice, if there is one and it has text.
    pub fn text(&self) -> (r: Option<&str>)
        ensures
            self.choices@.len() == 0 ==> r.is_none(),
            self.choices@.len() > 0 ==> match self.choices@[0].message.content {
                Some(t) => r.is_some() && r.unwrap()@ == t@,
                None => r.is_none(),
            },
    {
        if self.choices.len() == 0 {
            return None;
        }
        match &self.choices[0].message.content {
            Some(t) => Some(t.as_str()),
            None => None,
        }
    }

    /// Texts of all choices that have text, in order.
    pub fn messages(&self) -> (r: Vec<&str>)
        ensures
            r@.len() == choice_texts(self.choices@).len(),
            forall|i: int| 0 <= i < r@.len() ==> #[trigger] r@[i]@ == choice_texts(self.choices@)[i],
    {
        let mut r: Vec<&str> = Vec::new();
        let mut i: usize = 0;
        while i < self.choices.len()
            invariant
                i <= self.choices@.len(),
                r@.len() == choice_texts(self.choices@.subrange(0, i as int)).len(),
                forall|k: int| 0 <= k < r@.len() ==> #[trigger] r@[k]@ == choice_texts(self.choices@.subrange(0, i as int))[k],
            decreases self.choices@.len() - i,
        {
            proof {
                assert(self.choices@.subrange(0, i + 1).drop_last() == self.choices@.subrange(0, i as int));
            }
            match &self.choices[i].message.content {
                Some(t) => {
                    r.push(t.as_str());
                },
                None => {},
            }
            i = i + 1;
        }
        proof {
            assert(self.choices@.subrange(0, self.choices@.len() as int) == self.choices@);
        }
        r
    }

    /// Whether any choice stopped at the length limit.
    pub fn was_truncated(&self) -> (r: bool)
        ensures
            r == any_truncated(self.choices@),
    {
        let mut i: usize = 0;
        while i < self.choices.len()
            invariant
                i <= self.choices@.len(),
                forall|k: int| 0 <= k < i ==> self.choices@[k].finish_reason != Some(FinishReason::Length),
            decreases self.choices@.len() - i,
        {
            if self.choices[i].finish_reason == Some(FinishReason::Length) {
                return true;
            }
            i = i + 1;
        }
        false
    }
}

} // verus!
