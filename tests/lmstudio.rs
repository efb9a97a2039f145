use lmstudio::client::{
    Config, HttpOutcome, LMStudioClient, ModelProviderInfo, ProviderEntry, models_from_json,
};
use lmstudio::error::{LmStudioError, Request, Setting, decimal_string};
use lmstudio::json::{get, str_eq, Json, Member};
use lmstudio::locate::{fallback_lms_path, find_lms_binary, find_lms_binary_with_home_dir, locate_lms};
use lmstudio::ready::{
    Action, Event, OssReadiness, Phase, ProcessOutcome, DEFAULT_OSS_MODEL, contains_model,
    ensure_oss_ready,
};

fn client() -> LMStudioClient {
    LMStudioClient::from_host_root("http://localhost:1234".to_string())
}

fn responded(status: u16, body: &str) -> HttpOutcome {
    HttpOutcome::Responded { status, body: body.as_bytes().to_vec() }
}

fn config_with(providers: Vec<ProviderEntry>) -> Config {
    Config { model: DEFAULT_OSS_MODEL.to_string(), model_providers: providers }
}

fn lmstudio_entry(base_url: Option<&str>) -> ProviderEntry {
    ProviderEntry {
        id: "lmstudio".to_string(),
        info: ModelProviderInfo { base_url: base_url.map(|u| u.to_string()) },
    }
}

fn started() -> OssReadiness {
    let config = config_with(vec![lmstudio_entry(Some("http://localhost:1234/v1"))]);
    let (state, _) = ensure_oss_ready(&config).expect("configured");
    state
}

fn at_listing() -> OssReadiness {
    let (state, _) = started().advance(Event::Http(responded(200, "")));
    state
}

#[test]
fn test_fetch_models_happy_path() {
    let outcome = responded(200, r#"{"data":[{"id":"openai/gpt-oss-20b"}]}"#);
    let models = client().fetch_models(&outcome).expect("fetch models");
    assert!(models.contains(&"openai/gpt-oss-20b".to_string()));
}

#[test]
fn test_fetch_models_no_data_array() {
    let result = client().fetch_models(&responded(200, "{}"));
    assert!(result.is_err());
    assert!(result.unwrap_err().message().contains("No 'data' array in response"));
}

#[test]
fn test_fetch_models_server_error() {
    let result = client().fetch_models(&responded(500, ""));
    assert!(result.is_err());
    assert!(result.unwrap_err().message().contains("Failed to fetch models: 500"));
}

#[test]
fn test_check_server_happy_path() {
    client().check_server(&responded(200, "")).expect("server check should pass");
}

#[test]
fn test_check_server_error() {
    let result = client().check_server(&responded(404, ""));
    assert!(result.is_err());
    assert!(result.unwrap_err().message().contains("Server returned error: 404"));
}

#[test]
fn test_find_lms_binary() {
    let result = find_lms_binary(None, false);
    match result {
        Ok(_) => {}
        Err(e) => {
            assert!(e.message().contains("LM Studio not found"));
        }
    }
}

#[test]
fn test_find_lms_binary_with_mock_home() {
    let result = find_lms_binary_with_home_dir(Some("/test/home"), None, false);
    if let Err(e) = result {
        assert!(e.message().contains("LM Studio not found"));
    }
    let result = find_lms_binary_with_home_dir(Some("C:\\test\\home"), None, true);
    if let Err(e) = result {
        assert!(e.message().contains("LM Studio not found"));
    }
}

#[test]
fn listing_keeps_order_and_skips_entries_without_string_id() {
    let body = r#"{"object":"list","data":[{"id":"b"},{"name":"x"},{"id":7},{"id":"a"},{"id":"c","owned_by":"me"}]}"#;
    let models = client().fetch_models(&responded(200, body)).unwrap();
    assert_eq!(models, vec!["b".to_string(), "a".to_string(), "c".to_string()]);
}

#[test]
fn empty_data_array_lists_nothing() {
    let models = client().fetch_models(&responded(200, r#"{"data":[]}"#)).unwrap();
    assert!(models.is_empty());
}

#[test]
fn data_of_wrong_type_is_malformed() {
    let err = client().fetch_models(&responded(200, r#"{"data":{"id":"a"}}"#)).unwrap_err();
    assert!(matches!(err, LmStudioError::MissingData));
}

#[test]
fn body_that_is_not_json_is_malformed() {
    let err = client().fetch_models(&responded(200, "not json")).unwrap_err();
    assert!(matches!(err, LmStudioError::InvalidJson { .. }));
    assert!(err.message().starts_with("JSON parse error: "));
}

#[test]
fn listing_transport_failure_is_a_transport_error() {
    let outcome = HttpOutcome::Failed { detail: "connection refused".to_string() };
    let err = client().fetch_models(&outcome).unwrap_err();
    assert!(matches!(err, LmStudioError::TransportError { request: Request::ListModels, .. }));
    assert_eq!(err.message(), "Request failed: connection refused");
}

#[test]
fn health_check_accepts_every_2xx_and_rejects_the_rest() {
    for status in [200u16, 201, 204, 299] {
        assert!(client().check_server(&responded(status, "")).is_ok());
    }
    for status in [100u16, 199, 300, 404, 500, 503] {
        let err = client().check_server(&responded(status, "")).unwrap_err();
        assert!(matches!(err, LmStudioError::ServerError { request: Request::HealthCheck, status: s } if s == status));
        assert!(err.message().contains(&status.to_string()));
    }
}

#[test]
fn health_check_transport_failure_keeps_its_text() {
    let outcome = HttpOutcome::Failed { detail: "dns error".to_string() };
    let err = client().check_server(&outcome).unwrap_err();
    assert_eq!(err.message(), "dns error");
}

#[test]
fn models_url_strips_trailing_slashes() {
    let c = LMStudioClient::from_host_root("http://localhost:1234/v1//".to_string());
    assert_eq!(c.models_url(), "http://localhost:1234/v1/models");
    assert_eq!(client().models_url(), "http://localhost:1234/models");
    assert_eq!(LMStudioClient::from_host_root(String::new()).models_url(), "/models");
}

#[test]
fn decimal_text_of_codes() {
    assert_eq!(decimal_string(0), "0");
    assert_eq!(decimal_string(7), "7");
    assert_eq!(decimal_string(404), "404");
    assert_eq!(decimal_string(65535), "65535");
}

#[test]
fn construction_without_provider_entry_fails() {
    let config = config_with(vec![ProviderEntry {
        id: "ollama".to_string(),
        info: ModelProviderInfo { base_url: Some("http://localhost:11434".to_string()) },
    }]);
    let err = LMStudioClient::try_from_provider(&config).unwrap_err();
    assert!(matches!(err, LmStudioError::ConfigurationMissing { setting: Setting::Provider }));
    assert_eq!(err.message(), "Built-in provider lmstudio not found");
}

#[test]
fn construction_without_base_url_fails() {
    let config = config_with(vec![lmstudio_entry(None)]);
    let err = LMStudioClient::try_from_provider(&config).unwrap_err();
    assert!(matches!(err, LmStudioError::ConfigurationMissing { setting: Setting::BaseUrl }));
}

#[test]
fn readiness_without_provider_is_fatal_before_any_request() {
    let err = ensure_oss_ready(&config_with(vec![])).unwrap_err();
    assert!(matches!(err, LmStudioError::ConfigurationMissing { setting: Setting::Provider }));
}

#[test]
fn readiness_starts_with_health_check() {
    let config = config_with(vec![lmstudio_entry(Some("http://localhost:1234/v1/"))]);
    let (state, action) = ensure_oss_ready(&config).unwrap();
    assert!(matches!(state.phase, Phase::AwaitHealth));
    match action {
        Action::Get { url } => assert_eq!(url, "http://localhost:1234/v1/models"),
        other => panic!("unexpected action {:?}", other),
    }
}

#[test]
fn readiness_unhealthy_server_is_fatal() {
    let (state, action) = started().advance(Event::Http(responded(503, "")));
    assert!(matches!(state.phase, Phase::Done));
    match action {
        Action::Finish { result: Err(e), warning: None } => {
            assert_eq!(e.message(), "Server returned error: 503")
        }
        other => panic!("unexpected action {:?}", other),
    }
}

#[test]
fn readiness_with_listed_model_spawns_nothing() {
    let body = r#"{"data":[{"id":"other"},{"id":"openai/gpt-oss-20b"}]}"#;
    let (state, action) = at_listing().advance(Event::Http(responded(200, body)));
    assert!(matches!(state.phase, Phase::Done));
    assert!(matches!(action, Action::Finish { result: Ok(()), warning: None }));
}

#[test]
fn readiness_listing_transport_failure_only_warns() {
    let outcome = HttpOutcome::Failed { detail: "connection refused".to_string() };
    let (state, action) = at_listing().advance(Event::Http(outcome));
    assert!(matches!(state.phase, Phase::Done));
    match action {
        Action::Finish { result: Ok(()), warning: Some(w) } => assert_eq!(
            w,
            "Failed to query local models from LM Studio: Request failed: connection refused."
        ),
        other => panic!("unexpected action {:?}", other),
    }
}

#[test]
fn readiness_missing_model_downloads_it() {
    let (state, action) = at_listing().advance(Event::Http(responded(200, r#"{"data":[]}"#)));
    assert!(matches!(state.phase, Phase::AwaitBinary));
    assert!(matches!(action, Action::LocateBinary));
    let (state, action) = state.advance(Event::Located(Ok("/home/u/.lmstudio/bin/lms".to_string())));
    match action {
        Action::Spawn { program, args } => {
            assert_eq!(program, "/home/u/.lmstudio/bin/lms");
            assert_eq!(args, vec!["get", "--yes", "openai/gpt-oss-20b"]);
        }
        other => panic!("unexpected action {:?}", other),
    }
    let (state, action) =
        state.advance(Event::Exited(ProcessOutcome::Exited { success: true, status: "exit status: 0".to_string() }));
    assert!(matches!(state.phase, Phase::Done));
    assert!(matches!(action, Action::Finish { result: Ok(()), warning: None }));
}

#[test]
fn readiness_download_failures_are_fatal() {
    let to_binary = || {
        let (state, _) = at_listing().advance(Event::Http(responded(200, r#"{"data":[]}"#)));
        let (state, _) = state.advance(Event::Located(Ok("lms".to_string())));
        state
    };
    let (_, action) = to_binary()
        .advance(Event::Exited(ProcessOutcome::Exited { success: false, status: "exit status: 1".to_string() }));
    match action {
        Action::Finish { result: Err(e), .. } => {
            assert_eq!(e.message(), "lms command failed with status: exit status: 1")
        }
        other => panic!("unexpected action {:?}", other),
    }
    let (_, action) = to_binary()
        .advance(Event::Exited(ProcessOutcome::SpawnFailed { detail: "permission denied".to_string() }));
    match action {
        Action::Finish { result: Err(e), .. } => assert_eq!(
            e.message(),
            "Failed to execute 'lms get --yes openai/gpt-oss-20b': permission denied"
        ),
        other => panic!("unexpected action {:?}", other),
    }
}

#[test]
fn readiness_without_binary_is_fatal() {
    let (state, _) = at_listing().advance(Event::Http(responded(200, r#"{"data":[]}"#)));
    assert!(state.accepts(&Event::Located(Err(LmStudioError::BinaryNotInstalled))));
    assert!(!state.accepts(&Event::Http(responded(200, ""))));
    let (_, action) = state.advance(Event::Located(Err(LmStudioError::BinaryNotInstalled)));
    assert!(matches!(action, Action::Finish { result: Err(LmStudioError::BinaryNotInstalled), warning: None }));
}

#[test]
fn locator_decisions() {
    assert_eq!(locate_lms(true, "/h/.lmstudio/bin/lms".to_string(), true).unwrap(), "lms");
    assert_eq!(locate_lms(false, "/h/.lmstudio/bin/lms".to_string(), true).unwrap(), "/h/.lmstudio/bin/lms");
    let err = locate_lms(false, "/h/.lmstudio/bin/lms".to_string(), false).unwrap_err();
    assert!(err.message().contains("https://lmstudio.ai/"));
}

#[test]
fn fallback_paths_per_platform() {
    assert_eq!(fallback_lms_path("/test/home", false), "/test/home/.lmstudio/bin/lms");
    assert_eq!(fallback_lms_path("C:\\test\\home", true), "C:\\test\\home/.lmstudio/bin/lms.exe");
}

#[test]
fn json_lookup_and_string_comparison() {
    let doc = Json::Object(vec![
        Member { key: "id".to_string(), value: Json::Str("x".to_string()) },
        Member { key: "id".to_string(), value: Json::Null },
    ]);
    assert!(matches!(get(&doc, "id"), Some(Json::Str(s)) if s == "x"));
    assert!(get(&doc, "data").is_none());
    assert!(get(&Json::Null, "id").is_none());
    assert!(str_eq("abc", "abc"));
    assert!(!str_eq("abc", "abd"));
    assert!(!str_eq("ab", "abc"));
    let listed = models_from_json(&Json::Object(vec![Member {
        key: "data".to_string(),
        value: Json::Array(vec![doc]),
    }]))
    .unwrap();
    assert_eq!(listed, vec!["x".to_string()]);
    assert!(contains_model(&listed, "x"));
    assert!(!contains_model(&listed, "y"));
}
