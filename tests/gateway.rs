use std::time::Duration;

use llm_gateway::anthropic::{
    map_stop_reason, AnthropicConfig, AnthropicContentBlock, AnthropicProvider, AnthropicResponse, AnthropicUsage,
};
use llm_gateway::backends::{transition, BackendDriver, LifecycleEvent, LifecycleState};
use llm_gateway::dispatch::{rank_backends, request_needs_vision, BackendEntry, Dispatch, Step};
use llm_gateway::error::Error;
use llm_gateway::ollama::{
    classify_local_probes, map_finish_reason, OllamaChoice, OllamaConfig, OllamaMessage, OllamaProvider, OllamaResponse,
    OllamaUsage,
};
use llm_gateway::provider::{HealthState, ProviderCapabilities, ProviderType};
use llm_gateway::request::{ChatRequest, ContentPart, ImageUrl, Message, MessageContent, MessageRole};
use llm_gateway::response::FinishReason;
use llm_gateway::vram::{can_load_model, GpuInfo, VramState};
use llm_gateway::health::llamacpp_status;

fn gpu(total_mb: u64, used_mb: u64) -> GpuInfo {
    GpuInfo {
        id: 0,
        name: "GPU 0".to_string(),
        total_mb,
        used_mb,
        free_mb: total_mb - used_mb,
        utilization_percent: 0,
        temperature_c: 40,
    }
}

fn state(total_gb: u64, used_gb: u64) -> VramState {
    VramState::from_readings("now".to_string(), vec![gpu(total_gb * 1024, used_gb * 1024)], vec![])
}

fn caps(vision: bool) -> ProviderCapabilities {
    ProviderCapabilities {
        streaming: true,
        function_calling: false,
        vision,
        embeddings: false,
        max_tokens: None,
        max_context_window: None,
        supports_system_prompts: true,
    }
}

fn entry(name: &str, health: HealthState, vision: bool, load_tenths: u32) -> BackendEntry {
    BackendEntry {
        name: name.to_string(),
        kind: ProviderType::Cloud,
        health,
        capabilities: caps(vision),
        load_tenths,
        admitted: false,
    }
}

#[test]
fn ollama_test_config_builder() {
    let config = OllamaConfig::new()
        .with_endpoint("http://localhost:8080")
        .with_timeout(Duration::from_secs(90))
        .with_logging(true)
        .with_default_model("llama-3-8b");

    assert_eq!(config.endpoint, "http://localhost:8080");
    assert_eq!(config.timeout(), Duration::from_secs(90));
    assert!(config.logging_enabled);
    assert_eq!(config.default_model, Some("llama-3-8b".to_string()));
}

#[test]
fn test_default_endpoint() {
    let config = OllamaConfig::default();
    assert_eq!(config.endpoint, "http://127.0.0.1:8080");
}

#[test]
fn ollama_test_provider_capabilities() {
    let config = OllamaConfig::new();
    let provider = OllamaProvider::new(config);

    let caps = provider.capabilities();
    assert!(caps.streaming);
    assert!(!caps.vision);
    assert!(caps.embeddings);
    assert!(caps.supports_system_prompts);
}

#[test]
fn anthropic_test_config_builder() {
    let config = AnthropicConfig::new("test_key")
        .with_timeout(Duration::from_secs(30))
        .with_logging(true);

    assert_eq!(config.api_key, "test_key");
    assert_eq!(config.timeout(), Duration::from_secs(30));
    assert!(config.logging_enabled);
}

#[test]
fn anthropic_test_provider_capabilities() {
    let config = AnthropicConfig::new("test");
    let provider = AnthropicProvider::new(config);

    let caps = provider.capabilities();
    assert!(caps.streaming);
    assert!(caps.function_calling);
    assert!(caps.vision);
    assert_eq!(caps.max_context_window, Some(200000));
}

#[test]
fn anthropic_defaults_and_validation() {
    let config = AnthropicConfig::new("k");
    assert_eq!(config.endpoint, "https://api.anthropic.com/v1");
    assert_eq!(config.api_version, "2023-06-01");
    assert_eq!(config.timeout(), Duration::from_secs(60));
    assert_eq!(config.timeout_ms, 60000);
    let provider = AnthropicProvider::new(config);
    assert!(provider.validate_config().is_ok());
    assert_eq!(provider.messages_url(), "https://api.anthropic.com/v1/messages");
    let empty = AnthropicProvider::new(AnthropicConfig::new(""));
    assert!(matches!(empty.validate_config(), Err(Error::Configuration(_))));
    let no_endpoint = AnthropicProvider::new(AnthropicConfig::new("k").with_endpoint(""));
    assert!(matches!(no_endpoint.validate_config(), Err(Error::Configuration(_))));
}

#[test]
fn finish_reason_mapping() {
    assert_eq!(map_stop_reason(&Some("max_tokens".to_string())), FinishReason::Length);
    assert_eq!(map_stop_reason(&Some("content_policy".to_string())), FinishReason::Unknown);
    assert_eq!(map_stop_reason(&Some("end_turn".to_string())), FinishReason::Stop);
    assert_eq!(map_stop_reason(&Some("stop_sequence".to_string())), FinishReason::Stop);
    assert_eq!(map_stop_reason(&None), FinishReason::Unknown);
    assert_eq!(map_finish_reason(&Some("length".to_string())), FinishReason::Length);
    assert_eq!(map_finish_reason(&Some("stop".to_string())), FinishReason::Stop);
    assert_eq!(map_finish_reason(&Some("content_filter".to_string())), FinishReason::Unknown);
    assert_eq!(map_finish_reason(&Some("tool_calls".to_string())), FinishReason::Unknown);
    assert_eq!(map_finish_reason(&None), FinishReason::Unknown);
    assert_eq!(map_finish_reason(&Some("content_policy".to_string())), FinishReason::Unknown);
}

fn conversation() -> ChatRequest {
    ChatRequest::new("cloud-model")
        .system_message("Be brief.")
        .user_message("Hi")
        .assistant_message("Hello")
        .add_message(Message {
            role: MessageRole::Function,
            content: MessageContent::Text("{}".to_string()),
            name: Some("f".to_string()),
            metadata: None,
        })
        .system_message("Be kind.")
        .add_message(Message {
            role: MessageRole::User,
            content: MessageContent::MultiPart(vec![
                ContentPart::Text { text: "look".to_string() },
                ContentPart::Image { url: ImageUrl { url: "http://img".to_string(), detail: None } },
                ContentPart::Text { text: "here".to_string() },
            ]),
            name: None,
            metadata: None,
        })
}

#[test]
fn anthropic_request_conversion() {
    let provider = AnthropicProvider::new(AnthropicConfig::new("k"));
    let wire = provider.convert_request(&conversation());
    assert_eq!(wire.model, "cloud-model");
    assert_eq!(wire.system, Some("Be brief.\n\nBe kind.".to_string()));
    assert_eq!(wire.max_tokens, 4096);
    assert_eq!(wire.stream, Some(false));
    assert_eq!(wire.messages.len(), 3);
    assert_eq!(wire.messages[0].role, "user");
    assert_eq!(wire.messages[1].role, "assistant");
    assert_eq!(wire.messages[2].content.len(), 3);
    assert!(matches!(&wire.messages[2].content[1], AnthropicContentBlock::Image { url } if url == "http://img"));
    let limited = provider.convert_request(&ChatRequest::new("m").user_message("x").with_max_tokens(7));
    assert_eq!(limited.max_tokens, 7);
    assert_eq!(limited.system, None);
}

#[test]
fn anthropic_response_conversion() {
    let provider = AnthropicProvider::new(AnthropicConfig::new("k"));
    let wire = AnthropicResponse {
        id: "msg_1".to_string(),
        model: "cloud-model".to_string(),
        content: vec![
            AnthropicContentBlock::Text { text: "Hello".to_string() },
            AnthropicContentBlock::Text { text: "there".to_string() },
        ],
        stop_reason: Some("max_tokens".to_string()),
        usage: AnthropicUsage { input_tokens: 5, output_tokens: 7 },
    };
    let r = provider.convert_response("req-1", wire, 12);
    assert_eq!(r.request_id, "req-1");
    assert_eq!(r.provider, "anthropic");
    assert_eq!(r.model, "cloud-model");
    assert_eq!(r.text(), Some("Hello there"));
    assert_eq!(r.choices[0].finish_reason, Some(FinishReason::Length));
    assert_eq!(r.usage.unwrap().total_tokens, 12);
    assert_eq!(r.metadata[0], ("anthropic_id".to_string(), "msg_1".to_string()));
    assert_eq!(r.metadata[1], ("stop_reason".to_string(), "max_tokens".to_string()));
    assert_eq!(r.processing_time_ms, 12);
}

#[test]
fn ollama_request_conversion() {
    let provider = OllamaProvider::new(OllamaConfig::new().with_default_model("llama"));
    let wire = provider.convert_request(&conversation());
    assert_eq!(wire.model, "cloud-model");
    assert_eq!(wire.messages.len(), 6);
    assert_eq!(wire.messages[0].role, "system");
    assert_eq!(wire.messages[3].role, "user");
    assert_eq!(wire.messages[5].content, "look here");
    assert_eq!(wire.max_tokens, None);
    let unnamed = provider.convert_request(&ChatRequest::new("").user_message("x"));
    assert_eq!(unnamed.model, "llama");
    let bare = OllamaProvider::new(OllamaConfig::new()).convert_request(&ChatRequest::new("").user_message("x"));
    assert_eq!(bare.model, "local-model");
}

#[test]
fn ollama_round_trip_through_echo() {
    let provider = OllamaProvider::new(OllamaConfig::new());
    let request = ChatRequest::new("m").system_message("s").user_message("u").assistant_message("a");
    let wire = provider.convert_request(&request);
    let echo = OllamaResponse {
        id: "e".to_string(),
        model: wire.model.clone(),
        choices: wire
            .messages
            .iter()
            .enumerate()
            .map(|(i, m)| OllamaChoice { index: i as u32, message: m.clone(), finish_reason: Some("stop".to_string()) })
            .collect(),
        usage: Some(OllamaUsage { prompt_tokens: 3, completion_tokens: 4, total_tokens: 99 }),
    };
    let r = provider.convert_response(&request, echo, 1);
    assert_eq!(r.model, "m");
    assert_eq!(r.choices.len(), 3);
    assert_eq!(r.choices[0].message.role, MessageRole::System);
    assert_eq!(r.choices[1].message.role, MessageRole::User);
    assert_eq!(r.choices[2].message.role, MessageRole::Assistant);
    assert_eq!(r.usage.unwrap().total_tokens, 7);
    assert_eq!(r.request_id, request.id);
    assert_eq!(r.metadata.len(), 2);
}

#[test]
fn ollama_missing_usage_is_estimated_and_flagged() {
    let provider = OllamaProvider::new(OllamaConfig::new());
    let request = ChatRequest::new("m").user_message("Hello world");
    let wire = OllamaResponse {
        id: "x".to_string(),
        model: "m".to_string(),
        choices: vec![OllamaChoice {
            index: 0,
            message: OllamaMessage { role: "assistant".to_string(), content: "abcdefgh".to_string() },
            finish_reason: None,
        }],
        usage: None,
    };
    let r = provider.convert_response(&request, wire, 0);
    let usage = r.usage.unwrap();
    assert_eq!(usage.prompt_tokens, 12);
    assert_eq!(usage.completion_tokens, 2);
    assert_eq!(usage.total_tokens, 14);
    assert_eq!(r.metadata[2], ("usage_estimated".to_string(), "true".to_string()));
    assert_eq!(r.choices[0].finish_reason, Some(FinishReason::Unknown));
}

#[test]
fn local_health_probes() {
    assert_eq!(classify_local_probes(Some(200), None), HealthState::Healthy);
    assert_eq!(classify_local_probes(Some(503), None), HealthState::Degraded);
    assert_eq!(classify_local_probes(None, Some(200)), HealthState::Healthy);
    assert_eq!(classify_local_probes(Some(404), Some(500)), HealthState::Unhealthy);
}

#[test]
fn gpu_state_example() {
    let s = state(24, 20);
    assert_eq!(s.total_gb_centi, 2400);
    assert_eq!(s.used_gb_centi, 2000);
    assert_eq!(s.free_gb_centi, 400);
    assert_eq!(s.utilization_tenths, 833);
    match can_load_model(&s, 400) {
        Err(Error::InsufficientResources { required_mgb, available_mgb }) => {
            assert_eq!(required_mgb, 4400);
            assert_eq!(available_mgb, 4000);
        }
        _ => panic!("a 4 GB model must not fit in 4 GB"),
    }
    assert!(can_load_model(&s, 350).is_ok());
}

#[test]
fn gpu_state_edges() {
    let empty = VramState::from_readings("t".to_string(), vec![], vec![]);
    assert_eq!(empty.total_mb, 0);
    assert_eq!(empty.utilization_tenths, 0);
    assert_eq!(empty.free_gb_centi, 0);
    let two = VramState::from_readings("t".to_string(), vec![gpu(1024, 512), gpu(2048, 0)], vec![]);
    assert_eq!(two.total_mb, 3072);
    assert_eq!(two.used_gb_centi, 50);
    assert_eq!(two.free_gb_centi, 250);
    assert!(two.can_fit(200, 10));
    assert!(!two.can_fit(250, 10));
}

#[test]
fn layer_recommendation() {
    let s = state(24, 20);
    assert_eq!(s.recommend_layers(800), 14);
    assert_eq!(s.recommend_layers(100), 32);
    assert_eq!(s.recommend_layers(0), 32);
    assert_eq!(state(24, 24).recommend_layers(800), 0);
}

#[test]
fn dispatch_skips_unhealthy_backend() {
    let entries = vec![entry("A", HealthState::Unhealthy, true, 0), entry("B", HealthState::Healthy, true, 0)];
    let plan = Dispatch::plan(&entries, false, None);
    assert_eq!(plan.candidates, vec![1]);
    assert!(matches!(plan.first_step(), Step::Send(1)));
}

#[test]
fn dispatch_aggregates_retryable_failures() {
    let entries = vec![entry("A", HealthState::Healthy, true, 0), entry("B", HealthState::Healthy, true, 10)];
    let mut plan = Dispatch::plan(&entries, false, None);
    assert!(matches!(plan.first_step(), Step::Send(0)));
    assert!(matches!(plan.on_failure(Error::Network("A down".to_string())), Step::Send(1)));
    match plan.on_failure(Error::Network("B down".to_string())) {
        Step::Fail(Error::AllProvidersFailed { attempted, original_error }) => {
            assert_eq!(attempted, vec!["A".to_string(), "B".to_string()]);
            assert!(matches!(*original_error, Error::Network(ref m) if m == "B down"));
        }
        _ => panic!("expected an aggregate failure"),
    }
}

#[test]
fn dispatch_stops_on_non_retryable_failure() {
    let entries = vec![entry("A", HealthState::Healthy, true, 0), entry("B", HealthState::Healthy, true, 0)];
    let mut plan = Dispatch::plan(&entries, false, None);
    assert!(matches!(plan.on_failure(Error::Serialization("bad".to_string())), Step::Fail(Error::Serialization(_))));
    assert_eq!(plan.attempted, vec!["A".to_string()]);
}

#[test]
fn dispatch_ranking_order() {
    let mut local = entry("L", HealthState::Healthy, true, 0);
    local.kind = ProviderType::Local;
    let entries = vec![
        entry("degraded", HealthState::Degraded, true, 0),
        entry("blind", HealthState::Healthy, false, 0),
        entry("busy", HealthState::Healthy, true, 900),
        entry("idle", HealthState::Healthy, true, 100),
        local,
    ];
    assert_eq!(rank_backends(&entries, true), vec![3, 2, 1, 0]);
    assert_eq!(rank_backends(&entries, false), vec![1, 3, 2, 0]);
    let none: Vec<BackendEntry> = vec![];
    assert!(matches!(Dispatch::plan(&none, false, None).first_step(), Step::Fail(Error::BackendUnavailable(_))));
}

#[test]
fn dispatch_hint() {
    let entries = vec![entry("A", HealthState::Healthy, true, 0), entry("B", HealthState::Healthy, true, 500)];
    assert_eq!(Dispatch::plan(&entries, false, Some("B")).candidates, vec![1]);
    assert_eq!(Dispatch::plan(&entries, false, Some("C")).candidates, vec![0, 1]);
    let sick = vec![entry("A", HealthState::Healthy, true, 0), entry("B", HealthState::Unhealthy, true, 0)];
    assert_eq!(Dispatch::plan(&sick, false, Some("B")).candidates, vec![0]);
}

#[test]
fn vision_need_is_detected() {
    let plain = ChatRequest::new("m").user_message("x");
    assert!(!request_needs_vision(&plain));
    assert!(request_needs_vision(&conversation()));
}

#[test]
fn lifecycle_transitions() {
    let s = state(24, 20);
    assert_eq!(
        transition(LifecycleState::Unloaded, LifecycleEvent::LoadRequested { size_centi: 300 }, true, Some(&s)).ok(),
        Some(LifecycleState::Loading)
    );
    assert!(matches!(
        transition(LifecycleState::Unloaded, LifecycleEvent::LoadRequested { size_centi: 400 }, true, Some(&s)),
        Err(Error::InsufficientResources { .. })
    ));
    assert!(matches!(
        transition(LifecycleState::Ready, LifecycleEvent::SwitchRequested { size_centi: 1 }, false, Some(&s)),
        Err(Error::UnsupportedOperation(_))
    ));
    assert!(matches!(
        transition(LifecycleState::Unloaded, LifecycleEvent::LoadRequested { size_centi: 1 }, true, None),
        Err(Error::TelemetryUnavailable(_))
    ));
    assert_eq!(
        transition(LifecycleState::Switching, LifecycleEvent::SwitchFailed { hard: false }, true, None).ok(),
        Some(LifecycleState::Ready)
    );
    assert_eq!(
        transition(LifecycleState::Switching, LifecycleEvent::SwitchFailed { hard: true }, true, None).ok(),
        Some(LifecycleState::Unloaded)
    );
    assert!(matches!(
        transition(LifecycleState::Unloaded, LifecycleEvent::UnloadRequested, true, None),
        Err(Error::InvalidRequest(_))
    ));
}

#[test]
fn driver_decisions() {
    let s = state(24, 20);
    assert!(matches!(BackendDriver::load_model("llamacpp", Some(100), Some(&s)), Err(Error::UnsupportedOperation(_))));
    assert!(matches!(BackendDriver::load_model("llamacpp", Some(900), Some(&s)), Err(Error::InsufficientResources { .. })));
    assert!(matches!(BackendDriver::switch_model("vllm", None, None), Err(Error::InvalidRequest(_))));
    assert!(BackendDriver::unload_model("llamacpp").is_ok());
    assert!(matches!(BackendDriver::unload_model("tgi"), Err(Error::InvalidRequest(_))));
    let info = BackendDriver::llamacpp_info(Some(true), Some("m.gguf".to_string()));
    assert_eq!(info.status, "active");
    assert_eq!(info.loaded_model, Some("m.gguf".to_string()));
    assert_eq!(BackendDriver::llamacpp_info(None, None).status, "error");
}

#[test]
fn dispatch_prefers_healthy_admitted_local_backend() {
    let a = entry("A", HealthState::Unhealthy, true, 0);
    let mut b = entry("B", HealthState::Healthy, false, 0);
    b.kind = ProviderType::Local;
    b.admitted = true;
    let entries = vec![a, b];
    let plan = Dispatch::plan(&entries, false, None);
    assert_eq!(plan.candidates, vec![1]);
    assert_eq!(plan.names, vec!["B".to_string()]);
    assert!(matches!(plan.first_step(), Step::Send(1)));
    let mut not_admitted = entries.clone();
    not_admitted[1].admitted = false;
    assert!(matches!(Dispatch::plan(&not_admitted, false, None).first_step(), Step::Fail(Error::BackendUnavailable(_))));
}

#[test]
fn admission_errors_are_exact() {
    let s = state(24, 20);
    assert!(matches!(
        BackendDriver::switch_model("llamacpp", Some(400), Some(&s)),
        Err(Error::InsufficientResources { required_mgb: 4400, available_mgb: 4000 })
    ));
    assert!(matches!(BackendDriver::switch_model("llamacpp", Some(400), None), Err(Error::TelemetryUnavailable(_))));
    assert!(matches!(BackendDriver::switch_model("llamacpp", None, None), Err(Error::UnsupportedOperation(_))));
    match BackendDriver::load_model("vllm", None, None) {
        Err(Error::InvalidRequest(m)) => assert_eq!(m, "Unsupported backend: vllm"),
        _ => panic!("an unknown backend is an invalid request"),
    }
    match BackendDriver::unload_model("tgi") {
        Err(Error::InvalidRequest(m)) => assert_eq!(m, "Unsupported backend: tgi"),
        _ => panic!("an unknown backend is an invalid request"),
    }
}

#[test]
fn llamacpp_status_decision() {
    let ready = llamacpp_status(true, true, true);
    assert!(ready.available && ready.ready);
    let loading = llamacpp_status(true, false, true);
    assert!(loading.available && !loading.ready);
    let silent = llamacpp_status(true, false, false);
    assert!(!silent.available && !silent.ready);
    let no_client = llamacpp_status(false, false, false);
    assert!(!no_client.available && !no_client.ready);
}

#[test]
fn local_model_listing() {
    let p = OllamaProvider::new(OllamaConfig::new().with_default_model("llama-3-8b"));
    let listed = p.local_models(Some(vec!["a".to_string(), "b".to_string()]));
    assert_eq!(listed.len(), 2);
    assert_eq!(listed[1].id, "b");
    assert!(listed[0].capabilities.chat && listed[0].capabilities.completion && !listed[0].capabilities.vision);
    assert_eq!(listed[0].provider_type, ProviderType::Local);
    let fallback = p.local_models(None);
    assert_eq!(fallback.len(), 1);
    assert_eq!(fallback[0].id, "llama-3-8b");
    assert_eq!(fallback[0].name, "Local LLaMA Model");
    assert_eq!(fallback[0].context_length, Some(4096));
    let generic = OllamaProvider::new(OllamaConfig::new()).local_models(None);
    assert_eq!(generic[0].id, "local-model");
}

#[test]
fn gpu_info_from_device() {
    let g = GpuInfo::from_device(3, None, 8 * 1048576 + 5, 1048576, 7 * 1048576, None, Some(61));
    assert_eq!(g.name, "GPU 3");
    assert_eq!(g.total_mb, 8);
    assert_eq!(g.used_mb, 1);
    assert_eq!(g.free_mb, 7);
    assert_eq!(g.utilization_percent, 0);
    assert_eq!(g.temperature_c, 61);
    let named = GpuInfo::from_device(12, Some("RTX".to_string()), 0, 0, 0, Some(40), None);
    assert_eq!(named.name, "RTX");
    assert_eq!(named.utilization_percent, 40);
    assert_eq!(GpuInfo::from_device(1234, None, 0, 0, 0, None, None).name, "GPU 1234");
}

#[test]
fn health_probe_and_timeouts() {
    let p = AnthropicProvider::new(AnthropicConfig::new("k"));
    let probe = p.health_probe_request("probe-model");
    assert_eq!(probe.model, "probe-model");
    assert_eq!(probe.max_tokens, 1);
    assert!(matches!(&probe.messages[0].content[0], AnthropicContentBlock::Text { text } if text == "Hi"));
    assert_eq!(OllamaConfig::new().timeout_ms, 120000);
    assert_eq!(OllamaConfig::new().with_timeout(Duration::from_millis(1500)).timeout_ms, 1500);
}
