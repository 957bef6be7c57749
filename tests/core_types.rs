use llm_gateway::error::Error;
use llm_gateway::provider::{classify_probe, HealthState, HealthStatus, ProviderAvailability};
use llm_gateway::request::{ChatRequest, ContentPart, ImageUrl, Message, MessageContent, MessageRole};
use llm_gateway::response::{ChatResponse, Choice, FinishReason, Usage};
use llm_gateway::VERSION;

#[test]
fn test_version() {
    assert!(!VERSION.is_empty());
}

#[test]
fn test_error_creation() {
    let err = Error::provider("test error");
    assert!(matches!(err, Error::Provider(_)));
}

#[test]
fn test_retryable() {
    assert!(Error::rate_limit("test").is_retryable());
    assert!(!Error::authentication("test").is_retryable());
}

#[test]
fn test_resource_issue() {
    assert!(Error::insufficient_resources(4400, 4000).is_resource_issue());
    assert!(!Error::provider("test").is_resource_issue());
}

#[test]
fn test_health_status() {
    let healthy = HealthStatus::healthy();
    assert!(healthy.is_healthy());

    let unhealthy = HealthStatus::unhealthy("Connection failed");
    assert!(!unhealthy.is_healthy());
    assert!(unhealthy.message.is_some());
}

#[test]
fn test_provider_availability() {
    let avail = ProviderAvailability::new(true);
    assert!(avail.available);
    assert!(!avail.is_overloaded());

    let mut overloaded = avail.clone();
    overloaded.load_tenths = 850;
    assert!(overloaded.is_overloaded());
}

#[test]
fn provider_test_vram_check() {
    let mut avail = ProviderAvailability::new(true);
    avail.vram_available_mb = Some(8 * 1024);

    assert!(avail.has_sufficient_vram(4 * 1024));
    assert!(!avail.has_sufficient_vram(10 * 1024));
}

#[test]
fn test_chat_request_builder() {
    let request = ChatRequest::new("gpt-4")
        .user_message("Hello!")
        .with_temperature(70)
        .with_max_tokens(100);

    assert_eq!(request.model, "gpt-4");
    assert_eq!(request.messages.len(), 1);
    assert_eq!(request.temperature, Some(70));
    assert_eq!(request.max_tokens, Some(100));
}

#[test]
fn test_message_roles() {
    let system = Message {
        role: MessageRole::System,
        content: MessageContent::Text("You are helpful".into()),
        name: None,
        metadata: None,
    };

    assert_eq!(system.role, MessageRole::System);
}

#[test]
fn test_token_estimation() {
    let request = ChatRequest::new("test").user_message("Hello world");

    let estimated = request.estimate_tokens();
    assert!(estimated > 0);
}

#[test]
fn test_chat_response() {
    let response = ChatResponse::new("resp-123", "gpt-4")
        .add_choice(Choice::new(0, "Hello, world!"))
        .with_usage(Usage::new(10, 20));

    assert_eq!(response.text(), Some("Hello, world!"));
    assert_eq!(response.usage.as_ref().unwrap().total_tokens, 30);
}

#[test]
fn test_finish_reason() {
    let choice = Choice::new(0, "test").with_finish_reason(FinishReason::Length);
    assert_eq!(choice.finish_reason, Some(FinishReason::Length));
}

#[test]
fn test_truncation_detection() {
    let response = ChatResponse::new("test", "model")
        .add_choice(Choice::new(0, "text").with_finish_reason(FinishReason::Length));

    assert!(response.was_truncated());
}

#[test]
fn request_ids_are_fresh_uuids() {
    let a = ChatRequest::new("m");
    let b = ChatRequest::new("m");
    assert_eq!(a.id.len(), 36);
    assert_ne!(a.id, b.id);
}

#[test]
fn response_is_stamped_with_current_time() {
    let response = ChatResponse::new("r", "m");
    assert!(response.created > 1_600_000_000);
}

#[test]
fn estimate_exact_values() {
    // "Hello world" is 11 bytes: 2 tokens, plus 10 of overhead.
    let request = ChatRequest::new("m").user_message("Hello world");
    assert_eq!(request.estimate_tokens(), 12);
    // Empty text still counts one token.
    let empty = ChatRequest::new("m").user_message("");
    assert_eq!(empty.estimate_tokens(), 11);
    // No messages: only the overhead.
    assert_eq!(ChatRequest::new("m").estimate_tokens(), 10);
}

#[test]
fn estimate_counts_images_and_parts() {
    let message = Message {
        role: MessageRole::User,
        content: MessageContent::MultiPart(vec![
            ContentPart::Text { text: "abcdefgh".to_string() },
            ContentPart::Image { url: ImageUrl { url: "http://x/y.png".to_string(), detail: None } },
            ContentPart::Text { text: "abcd".to_string() },
        ]),
        name: None,
        metadata: None,
    };
    // 12 bytes of text: 3 tokens; one image: 85.
    assert_eq!(message.estimate_tokens(), 88);
    let request = ChatRequest::new("m").add_message(message);
    assert_eq!(request.estimate_tokens(), 98);
}

#[test]
fn estimate_is_monotone_in_text_length() {
    let short = ChatRequest::new("m").user_message("abcd");
    let long = ChatRequest::new("m").user_message("abcdabcdabcdabcd");
    assert!(short.estimate_tokens() > 0);
    assert!(short.estimate_tokens() <= long.estimate_tokens());
}

#[test]
fn usage_total_is_recomputed() {
    let usage = Usage::new(u32::MAX, u32::MAX);
    assert_eq!(usage.total_tokens, 2 * u32::MAX as u64);
    assert_eq!(Usage::new(0, 0).total_tokens, 0);
}

#[test]
fn response_texts_in_order() {
    let mut second = Choice::new(1, "b");
    second.message.content = None;
    let response = ChatResponse::new("r", "m")
        .add_choice(Choice::new(0, "a"))
        .add_choice(second)
        .add_choice(Choice::new(2, "c"));
    assert_eq!(response.messages(), vec!["a", "c"]);
    assert!(!response.was_truncated());
    assert_eq!(ChatResponse::new("r", "m").text(), None);
}

#[test]
fn content_as_text() {
    let text = MessageContent::Text("hi".to_string());
    assert_eq!(text.as_text(), Some("hi"));
    let parts = MessageContent::MultiPart(vec![ContentPart::Text { text: "hi".to_string() }]);
    assert_eq!(parts.as_text(), None);
}

#[test]
fn validation_of_requests() {
    assert!(matches!(ChatRequest::new("m").validate(), Err(Error::InvalidRequest(_))));
    assert!(ChatRequest::new("m").user_message("x").validate().is_ok());
    let mut hot = ChatRequest::new("m").user_message("x");
    hot.temperature = Some(201);
    assert!(matches!(hot.validate(), Err(Error::InvalidRequest(_))));
    let edge = ChatRequest::new("m").user_message("x").with_temperature(200);
    assert!(edge.validate().is_ok());
}

#[test]
fn retryable_kinds() {
    assert!(Error::Network("down".to_string()).is_retryable());
    assert!(Error::timeout("slow").is_retryable());
    assert!(Error::backend_unavailable("b").is_retryable());
    assert!(Error::BackendStatus { status: 503, body: String::new() }.is_retryable());
    assert!(!Error::BackendStatus { status: 404, body: String::new() }.is_retryable());
    assert!(!Error::Serialization("bad".to_string()).is_retryable());
    assert!(!Error::configuration("no key").is_retryable());
    assert!(!Error::UnsupportedOperation("no".to_string()).is_retryable());
    assert!(!Error::invalid_request("x").is_retryable());
    assert!(!Error::model_not_found("x").is_retryable());
    assert!(!Error::internal("x").is_retryable());
}

#[test]
fn health_probe_classification() {
    assert_eq!(classify_probe(Some(200)), HealthState::Healthy);
    assert_eq!(classify_probe(Some(503)), HealthState::Degraded);
    assert_eq!(classify_probe(Some(404)), HealthState::Unhealthy);
    assert_eq!(classify_probe(None), HealthState::Unhealthy);
    let status = HealthStatus::from_probe(Some(500), 42);
    assert_eq!(status.state, HealthState::Degraded);
    assert_eq!(status.response_time_ms, Some(42));
}

#[test]
fn untracked_vram_is_assumed_sufficient() {
    let avail = ProviderAvailability::new(true);
    assert!(avail.has_sufficient_vram(u64::MAX));
    let mut edge = ProviderAvailability::new(true);
    edge.load_tenths = 800;
    assert!(!edge.is_overloaded());
}
