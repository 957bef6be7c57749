use llm_gateway::api::{default_true, default_update_interval, ApiResponse, SubscriptionOptions};
use llm_gateway::catalog::ModelInfo;
use llm_gateway::error::{check_status, Error};
use llm_gateway::health::{BackendStatus, HealthResponse, LlamaCppBackend, LlamaCppConfig, ServerHealth};
use llm_gateway::ProviderType;

#[test]
fn api_envelopes() {
    let ok = ApiResponse::success(5u32);
    assert!(ok.success);
    assert_eq!(ok.data, Some(5));
    let err: ApiResponse<u32> = ApiResponse::error("nope");
    assert!(!err.success);
    assert_eq!(err.error, Some("nope".to_string()));
}

#[test]
fn subscription_defaults() {
    let o = SubscriptionOptions::default();
    assert!(o.vram_updates && o.model_events && o.backend_status);
    assert!(!o.inference_events);
    assert_eq!(o.update_interval_seconds, 2);
    assert!(default_true());
    assert_eq!(default_update_interval(), 2);
}

#[test]
fn service_health_report() {
    let status = |available, ready| BackendStatus { available, ready, details: None };
    assert_eq!(HealthResponse::from_llamacpp(status(true, true)).status, "healthy");
    assert_eq!(HealthResponse::from_llamacpp(status(true, false)).status, "degraded");
    assert_eq!(HealthResponse::from_llamacpp(status(false, false)).status, "unhealthy");
}

#[test]
fn llamacpp_settings_and_readiness() {
    let c = LlamaCppConfig::default();
    assert_eq!(c.base_url, "http://127.0.0.1:8080");
    assert_eq!(c.timeout_secs, 300);
    assert_eq!(c.url("/health"), "http://127.0.0.1:8080/health");
    let h = |s: &str| ServerHealth { status: s.to_string(), slots_idle: None, slots_processing: None };
    assert!(h("ok").is_ready());
    assert!(h("ready").is_ready());
    assert!(!h("loading model").is_ready());
}

#[test]
fn test_model_info_builder() {
    let model = ModelInfo::new("test-id", "Test Model", "test-provider")
        .with_provider_type(ProviderType::Local)
        .with_parameter_count(70)
        .with_size_gb(450)
        .with_context_length(8192);

    assert_eq!(model.id, "test-id");
    assert_eq!(model.parameter_count_tenths_b, Some(70));
    assert_eq!(model.context_length, Some(8192));
}

#[test]
fn models_test_vram_check() {
    let model = ModelInfo::new("test", "Test", "provider").with_size_gb(400);

    assert!(model.fits_in_vram(800));
    assert!(model.fits_in_vram(400));
    assert!(!model.fits_in_vram(200));
}

#[test]
fn error_reporting() {
    assert!(check_status(200, "").is_ok());
    assert!(matches!(check_status(502, "bad gateway"), Err(Error::BackendStatus { status: 502, ref body }) if body == "bad gateway"));
    assert!(matches!(check_status(302, ""), Err(Error::BackendStatus { status: 302, .. })));
    let e = Error::insufficient_resources(4400, 4000);
    assert_eq!(e.status_code(), 507);
    assert_eq!(e.kind_name(), "insufficient_resources");
    assert_eq!(Error::UnsupportedOperation("x".to_string()).status_code(), 501);
    assert_eq!(Error::model_not_found("m").status_code(), 404);
    assert_eq!(Error::Network("x".to_string()).kind_name(), "transport_error");
}

#[test]
fn test_backend_creation() {
    let backend = LlamaCppBackend::with_defaults();
    assert!(backend.is_ok());
}

#[test]
fn test_health_check_url() {
    let backend = LlamaCppBackend::with_defaults().unwrap();
    assert_eq!(backend.base_url(), "http://127.0.0.1:8080");
}

#[test]
fn llamacpp_backend_refuses_empty_url() {
    let config = LlamaCppConfig { base_url: String::new(), timeout_secs: 1 };
    assert!(matches!(LlamaCppBackend::new(config), Err(Error::Configuration(_))));
}
