use vstd::prelude::*;
use vstd::string::StringExecFns;
use vstd::string::StringSliceAdditionalSpecFns;
use vstd::utf8::encode_utf8;

use crate::error::Error;
use crate::ext::new_request_id;

verus! {

/// Tokens charged for each image part of a message.
pub const IMAGE_TOKENS: u32 = 85;

/// Tokens charged once per request, on top of its messages.
pub const REQUEST_OVERHEAD_TOKENS: u32 = 10;

/// Highest accepted temperature, in hundredths (2.00).
pub const MAX_TEMPERATURE_CENTI: u32 = 200;

/// Role of the author of a message.
#[derive(Debug, Clone, Copy, PartialEq, Eq, Structural)]
pub enum MessageRole {
    /// Instructions for the model.
    System,
    User,
    Assistant,
    /// Output of a function or tool.
    Function,
}

/// Image reference inside multi-part content.
#[derive(Debug, Clone)]
pub struct ImageUrl {
    /// URL or base64 data.
    pub url: String,
    /// Optional detail level.
    pub detail: Option<String>,
}

/// One part of multi-part content.
#[derive(Debug, Clone)]
pub enum ContentPart {
    Text { text: String },
    Image { url: ImageUrl },
}

/// Content of a message: plain text or a sequence of parts.
#[derive(Debug, Clone)]
pub enum MessageContent {
    Text(String),
    MultiPart(Vec<ContentPart>),
}

/// One message of a conversation.
#[derive(Debug, Clone)]
pub struct Message {
    pub role: MessageRole,
    pub content: MessageContent,
    /// Optional author name.
    pub name: Option<String>,
    /// Optional key/value annotations, kept verbatim.
    pub metadata: Option<Vec<(String, String)>>,
}

/// Canonical chat-completion request.
#[derive(Debug, Clone)]
pub struct ChatRequest {
    /// Correlation token, assigned once when the request is created.
    pub id: String,
    pub model: String,
    /// Conversation in chronological order.
    pub messages: Vec<Message>,
    /// Sampling temperature in hundredths (0 to 200).
    pub temperature: Option<u32>,
    pub max_tokens: Option<u32>,
    /// Nucleus sampling mass in hundredths.
    pub top_p: Option<u32>,
    /// Frequency penalty in hundredths.
    pub frequency_penalty: Option<i32>,
    /// Presence penalty in hundredths.
    pub presence_penalty: Option<i32>,
    pub stop: Option<Vec<String>>,
    pub stream: bool,
    /// Provider-specific passthrough: keys with their JSON text.
    pub extra: Vec<(String, String)>,
}

/// Length in bytes of the UTF-8 encoding of `s`, as `str::len` reports it
/// (a string held in memory is never longer than `usize` can count).
pub open spec fn byte_len(s: Seq<char>) -> nat {
    (encode_utf8(s).len() as usize) as nat
}

/// Bytes of text over a sequence of parts; images count nothing.
pub open spec fn parts_text_bytes(ps: Seq<ContentPart>) -> nat
    decreases ps.len(),
{
    if ps.len() == 0 {
        0
    } else {
        parts_text_bytes(ps.drop_last()) + match ps.last() {
            ContentPart::Text { text } => byte_len(text@),
            ContentPart::Image { .. } => 0,
        }
    }
}

/// Number of image parts in a sequence of parts.
pub open spec fn parts_images(ps: Seq<ContentPart>) -> nat
    decreases ps.len(),
{
    if ps.len() == 0 {
        0
    } else {
        parts_images(ps.drop_last()) + match ps.last() {
            ContentPart::Text { .. } => 0nat,
            ContentPart::Image { .. } => 1nat,
        }
    }
}

/// Bytes of text in a message's content.
pub open spec fn content_text_bytes(c: MessageContent) -> nat {
    match c {
        MessageContent::Text(t) => byte_len(t@),
        MessageContent::MultiPart(ps) => parts_text_bytes(ps@),
    }
}

/// Image parts in a message's content.
pub open spec fn content_images(c: MessageContent) -> nat {
    match c {
        MessageContent::Text(_) => 0,
        MessageContent::MultiPart(ps) => parts_images(ps@),
    }
}

/// Token estimate of text of `bytes` bytes: a quarter of it, at least one.
pub open spec fn text_tokens(bytes: nat) -> nat {
    if bytes / 4 >= 1 {
        bytes / 4
    } else {
        1
    }
}

/// Token estimate of one message.
pub open spec fn message_tokens(m: Message) -> nat {
    (text_tokens(content_text_bytes(m.content)) + IMAGE_TOKENS * content_images(m.content)) as nat
}

/// Token estimates of messages, summed.
pub open spec fn messages_tokens(ms: Seq<Message>) -> nat
    decreases ms.len(),
{
    if ms.len() == 0 {
        0
    } else {
        messages_tokens(ms.drop_last()) + message_tokens(ms.last())
    }
}

/// Token estimate of a request: its messages plus a fixed overhead.
pub open spec fn request_tokens(ms: Seq<Message>) -> nat {
    (messages_tokens(ms) + REQUEST_OVERHEAD_TOKENS) as nat
}

/// `n` capped at the largest `u32`.
pub open spec fn cap_u32(n: nat) -> u32 {
    if n <= u32::MAX {
        n as u32
    } else {
        u32::MAX
    }
}

/// Byte length of a string, with its contract.
pub fn text_byte_len(s: &String) -> (r: usize)
    ensures
        r == byte_len(s@),
{
    let t = s.as_str();
    proof {
        assert(t.spec_bytes() == encode_utf8(t@));
    }
    t.len()
}

impl MessageContent {
    /// The text when the content is plain text.
    pub fn as_text(&self) -> (r: Option<&str>)
        ensures
            match self {
                MessageContent::Text(t) => r.is_some() && r.unwrap()@ == t@,
                MessageContent::MultiPart(_) => r.is_none(),
            },
    {
        match self {
            MessageContent::Text(text) => Some(text.as_str()),
            MessageContent::MultiPart(_) => None,
        }
    }
}

impl Message {
    /// A message of `role` whose content is the text `content`.
    pub fn text(role: MessageRole, content: &str) -> (r: Message)
        ensures
            r.role == role,
            r.content matches MessageContent::Text(t) && t@ == content@,
            r.name.is_none(),
            r.metadata.is_none(),
    {
        Message {
            role,
            content: MessageContent::Text(String::from_str(content)),
            name: None,
            metadata: None,
        }
    }

    /// Rough token count of this message: a quarter of its text bytes (at
    /// least one) plus a fixed charge per image, capped at the largest `u32`.
    pub fn estimate_tokens(&self) -> (r: u32)
        ensures
            r == cap_u32(message_tokens(*self)),
    {
        let (bytes, images): (u64, u32) = match &self.content {
            MessageContent::Text(text) => (text_byte_len(text) as u64, 0),
            MessageContent::MultiPart(parts) => {
                let mut bytes: u64 = 0;
                let mut images: u32 = 0;
                let mut i: usize = 0;
                while i < parts.len()
                    invariant
                        i <= parts@.len(),
                        bytes == cap_u64(parts_text_bytes(parts@.subrange(0, i as int))),
                        images == cap_u32(parts_images(parts@.subrange(0, i as int))),
                    decreases parts@.len() - i,
                {
                    proof {
                        assert(parts@.subrange(0, i + 1).drop_last() == parts@.subrange(0, i as int));
                    }
                    match &parts[i] {
                        ContentPart::Text { text } => {
                            bytes = bytes.saturating_add(text_byte_len(text) as u64);
                        },
                        ContentPart::Image { .. } => {
                            images = images.saturating_add(1);
                        },
                    }
                    i = i + 1;
                }
                proof {
                    assert(parts@.subrange(0, parts@.len() as int) == parts@);
                }
                (bytes, images)
            },
        };
        let quarter = bytes / 4;
        let text: u32 = if quarter >= 1 {
            if quarter > u32::MAX as u64 {
                u32::MAX
            } else {
                quarter as u32
            }
        } else {
            1
        };
        let wide: u64 = images as u64 * IMAGE_TOKENS as u64;
        let image_tokens: u32 = if wide > u32::MAX as u64 {
            u32::MAX
        } else {
            wide as u32
        };
        proof {
            let tb = content_text_bytes(self.content);
            let ni = content_images(self.content);
            assert(tb > u64::MAX ==> tb / 4 > u32::MAX);
            assert(text == cap_u32(text_tokens(tb)));
            assert(ni > u32::MAX ==> IMAGE_TOKENS * ni > u32::MAX) by (nonlinear_arith);
            assert(ni <= u32::MAX ==> images == ni);
            assert(image_tokens == cap_u32((IMAGE_TOKENS * ni) as nat)) by (nonlinear_arith)
                requires
                    ni > u32::MAX ==> IMAGE_TOKENS * ni > u32::MAX,
                    ni <= u32::MAX ==> images == ni,
                    images == cap_u32(ni),
                    wide == images as int * 85,
                    image_tokens == (if wide > u32::MAX { u32::MAX as int } else { wide as int }),
            ;
        }
        text.saturating_add(image_tokens)
    }
}

/// `n` capped at the largest `u64`.
pub open spec fn cap_u64(n: nat) -> u64 {
    if n <= u64::MAX {
        n as u64
    } else {
        u64::MAX
    }
}

impl ChatRequest {
    /// An empty request for `model`, with a fresh correlation id.
    pub fn new(model: &str) -> (r: ChatRequest)
        ensures
            r.id@.len() == 36,
            r.model@ == model@,
            r.messages@.len() == 0,
            r.temperature.is_none(),
            r.max_tokens.is_none(),
            r.top_p.is_none(),
            r.frequency_penalty.is_none(),
            r.presence_penalty.is_none(),
            r.stop.is_none(),
            !r.stream,
            r.extra@.len() == 0,
    {
        ChatRequest {
            id: new_request_id(),
            model: String::from_str(model),
            messages: Vec::new(),
            temperature: None,
            max_tokens: None,
            top_p: None,
            frequency_penalty: None,
            presence_penalty: None,
            stop: None,
            stream: false,
            extra: Vec::new(),
        }
    }

    /// Appends `message` to the conversation.
    pub fn add_message(self, message: Message) -> (r: ChatRequest)
        ensures
            r == (ChatRequest { messages: r.messages, ..self }),
            r.messages@ == self.messages@.push(message),
    {
        let mut r = self;
        r.messages.push(message);
        r
    }

    /// Appends a user message with text `content`.
    pub fn user_message(self, content: &str) -> (r: ChatRequest)
        ensures
            r == (ChatRequest { messages: r.messages, ..self }),
            r.messages@.len() == self.messages@.len() + 1,
            r.messages@.drop_last() == self.messages@,
            r.messages@.last().role == MessageRole::User,
            r.messages@.last().content matches MessageContent::Text(t) && t@ == content@,
    {
        self.add_message(Message::text(MessageRole::User, content))
    }

    /// Appends a system message with text `content`.
    pub fn system_message(self, content: &str) -> (r: ChatRequest)
        ensures
            r == (ChatRequest { messages: r.messages, ..self }),
            r.messages@.len() == self.messages@.len() + 1,
            r.messages@.drop_last() == self.messages@,
            r.messages@.last().role == MessageRole::System,
            r.messages@.last().content matches MessageContent::Text(t) && t@ == content@,
    {
        self.add_message(Message::text(MessageRole::System, content))
    }

    /// Appends an assistant message with text `content`.
    pub fn assistant_message(self, content: &str) -> (r: ChatRequest)
        ensures
            r == (ChatRequest { messages: r.messages, ..self }),
            r.messages@.len() == self.messages@.len() + 1,
            r.messages@.drop_last() == self.messages@,
            r.messages@.last().role == MessageRole::Assistant,
            r.messages@.last().content matches MessageContent::Text(t) && t@ == content@,
    {
        self.add_message(Message::text(MessageRole::Assistant, content))
    }

    /// Sets the temperature, in hundredths.
    pub fn with_temperature(self, temperature: u32) -> (r: ChatRequest)
        requires
            temperature <= MAX_TEMPERATURE_CENTI,
        ensures
            r == (ChatRequest { temperature: Some(temperature), ..self }),
    {
        ChatRequest { temperature: Some(temperature), ..self }
    }

    /// Sets the completion length limit.
    pub fn with_max_tokens(self, max_tokens: u32) -> (r: ChatRequest)
        ensures
            r == (ChatRequest { max_tokens: Some(max_tokens), ..self }),
    {
        ChatRequest { max_tokens: Some(max_tokens), ..self }
    }

    /// Asks for a streamed response.
    pub fn with_streaming(self) -> (r: ChatRequest)
        ensures
            r == (ChatRequest { stream: true, ..self }),
    {
        ChatRequest { stream: true, ..self }
    }

    /// Rough token count of the request: the estimates of its messages plus
    /// a fixed overhead, capped at the largest `u32`.
    pub fn estimate_tokens(&self) -> (r: u32)
        ensures
            r == cap_u32(request_tokens(self.messages@)),
    {
        let mut sum: u32 = 0;
        let mut i: usize = 0;
        while i < self.messages.len()
            invariant
                i <= self.messages@.len(),
                sum == cap_u32(messages_tokens(self.messages@.subrange(0, i as int))),
            decreases self.messages@.len() - i,
        {
            proof {
                assert(self.messages@.subrange(0, i + 1).drop_last() == self.messages@.subrange(0, i as int));
            }
            sum = sum.saturating_add(self.messages[i].estimate_tokens());
            i = i + 1;
        }
        proof {
            assert(self.messages@.subrange(0, self.messages@.len() as int) == self.messages@);
        }
        sum.saturating_add(REQUEST_OVERHEAD_TOKENS)
    }

    /// Accepts a request with at least one message and, when a temperature
    /// is set, one of at most 2.00.
    pub fn validate(&self) -> (r: Result<(), Error>)
        ensures
            r is Ok <==> request_is_valid(*self),
            r matches Err(e) ==> e is InvalidRequest,
    {
        if self.messages.len() == 0 {
            return Err(Error::invalid_request("messages must not be empty"));
        }
        match self.temperature {
            Some(t) => {
                if t > MAX_TEMPERATURE_CENTI {
                    return Err(Error::invalid_request("temperature must lie between 0 and 2"));
                }
            },
            None => {},
        }
        Ok(())
    }
}

/// The estimate of a request is never zero.
pub proof fn lemma_estimate_positive(ms: Seq<Message>)
    ensures
        request_tokens(ms) > 0,
        cap_u32(request_tokens(ms)) > 0,
{
}

/// The estimate of a conversation does not decrease when each message gets
/// at least as much text and at least as many images.
pub proof fn lemma_estimate_monotone(a: Seq<Message>, b: Seq<Message>)
    requires
        a.len() == b.len(),
        forall|i: int| 0 <= i < a.len() ==> content_text_bytes((#[trigger] a[i]).content) <= content_text_bytes(b[i].content),
        forall|i: int| 0 <= i < a.len() ==> content_images((#[trigger] a[i]).content) <= content_images(b[i].content),
    ensures
        request_tokens(a) <= request_tokens(b),
        cap_u32(request_tokens(a)) <= cap_u32(request_tokens(b)),
    decreases a.len(),
{
    if a.len() > 0 {
        let n = a.len() - 1;
        assert forall|i: int| 0 <= i < a.drop_last().len() implies content_text_bytes((#[trigger] a.drop_last()[i]).content) <= content_text_bytes(b.drop_last()[i].content) by {
            assert(a.drop_last()[i] == a[i] && b.drop_last()[i] == b[i]);
        }
        assert forall|i: int| 0 <= i < a.drop_last().len() implies content_images((#[trigger] a.drop_last()[i]).content) <= content_images(b.drop_last()[i].content) by {
            assert(a.drop_last()[i] == a[i] && b.drop_last()[i] == b[i]);
        }
        lemma_estimate_monotone(a.drop_last(), b.drop_last());
        let ta = content_text_bytes(a[n].content);
        let tb = content_text_bytes(b[n].content);
        assert(ta / 4 <= tb / 4) by (nonlinear_arith)
            requires ta <= tb;
        let ia = content_images(a[n].content);
        let ib = content_images(b[n].content);
        assert(IMAGE_TOKENS * ia <= IMAGE_TOKENS * ib) by (nonlinear_arith)
            requires ia <= ib;
        assert(message_tokens(a.last()) <= message_tokens(b.last()));
    }
}

/// A request that adapters accept: non-empty conversation, temperature in range.
pub open spec fn request_is_valid(r: ChatRequest) -> bool {
    &&& r.messages@.len() > 0
    &&& r.temperature matches Some(t) ==> t <= MAX_TEMPERATURE_CENTI
}

} // verus!
