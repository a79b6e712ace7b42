use gemini_core::config::{
    get_gemini_config, get_gemini_models, save_config_outcome, GeminiConfig,
};
use gemini_core::errors::{ErrorKind, GeminiError};
use gemini_core::status::{
    get_gemini_version, test_gemini_binary, test_gemini_connection, version_from_probe,
    InvocationResult,
};

fn sample_config() -> GeminiConfig {
    GeminiConfig {
        api_key: Some("SECRET-REDACTED".to_string()),
        model: Some("gemini-2.0-flash-exp".to_string()),
        project_id: Some("my-project".to_string()),
        extra: vec![("region".to_string(), "us-central1".to_string())],
    }
}

fn assert_configs_equal(a: &GeminiConfig, b: &GeminiConfig) {
    assert_eq!(a.api_key, b.api_key);
    assert_eq!(a.model, b.model);
    assert_eq!(a.project_id, b.project_id);
    assert_eq!(a.extra, b.extra);
}

/// The document shape the surrounding application persists: known fields
/// plus the extra fields flattened in, as one JSON object.
fn config_to_document(c: &GeminiConfig) -> serde_json::Value {
    let mut obj = serde_json::Map::new();
    let as_value = |o: &Option<String>| match o {
        Some(s) => serde_json::Value::String(s.clone()),
        None => serde_json::Value::Null,
    };
    obj.insert("api_key".to_string(), as_value(&c.api_key));
    obj.insert("model".to_string(), as_value(&c.model));
    obj.insert("project_id".to_string(), as_value(&c.project_id));
    for (k, v) in &c.extra {
        obj.insert(k.clone(), serde_json::Value::String(v.clone()));
    }
    serde_json::Value::Object(obj)
}

fn document_to_config(doc: &serde_json::Value) -> GeminiConfig {
    let obj = doc.as_object().unwrap();
    let as_opt = |key: &str| match obj.get(key) {
        Some(serde_json::Value::String(s)) => Some(s.clone()),
        _ => None,
    };
    let mut extra = Vec::new();
    for (k, v) in obj {
        if k != "api_key" && k != "model" && k != "project_id" {
            if let serde_json::Value::String(s) = v {
                extra.push((k.clone(), s.clone()));
            }
        }
    }
    GeminiConfig { api_key: as_opt("api_key"), model: as_opt("model"), project_id: as_opt("project_id"), extra }
}

#[test]
fn saved_config_loads_back_equal_in_all_fields() {
    let config = sample_config();
    // Serialize the full document, read it back, and hand the parsed
    // document to the adapter, as the surrounding application does.
    let text = serde_json::to_string_pretty(&config_to_document(&config)).unwrap();
    let parsed: serde_json::Value = serde_json::from_str(&text).unwrap();
    let loaded = get_gemini_config(Some(Ok(document_to_config(&parsed)))).unwrap();
    assert_configs_equal(&loaded, &config);
}

#[test]
fn missing_document_loads_the_documented_defaults() {
    let loaded = get_gemini_config(None).unwrap();
    assert_eq!(loaded.api_key, None);
    assert_eq!(loaded.model.as_deref(), Some("gemini-2.0-flash-exp"));
    assert_eq!(loaded.project_id, None);
    assert!(loaded.extra.is_empty());
    assert_configs_equal(&loaded, &GeminiConfig::default());
}

#[test]
fn parsed_document_is_returned_unchanged() {
    let config = sample_config();
    let loaded = get_gemini_config(Some(Ok(config.duplicate()))).unwrap();
    assert_configs_equal(&loaded, &config);
}

#[test]
fn unparsable_document_is_config_corrupt() {
    let parse_error = serde_json::from_str::<serde_json::Value>("{not json").unwrap_err();
    let loaded = get_gemini_config(Some(Err(parse_error.to_string())));
    let err = loaded.unwrap_err();
    assert_eq!(err.kind, ErrorKind::ConfigCorrupt);
    assert!(err.detail.starts_with("Failed to parse Gemini config: "));
}

#[test]
fn save_outcome_maps_write_errors_to_persist_failed() {
    assert!(save_config_outcome(None).is_ok());
    let err = save_config_outcome(Some("disk full".to_string())).unwrap_err();
    assert_eq!(err.kind, ErrorKind::PersistFailed);
    assert_eq!(err.detail, "Failed to write Gemini config: disk full");
}

#[test]
fn model_list_is_the_single_supported_model() {
    assert_eq!(get_gemini_models(), vec!["gemini-2.0-flash-exp".to_string()]);
}

#[test]
fn version_probe_success_yields_the_trimmed_output() {
    let outcome = InvocationResult::Completed {
        status_ok: true,
        stdout: "0.4.1".to_string(),
        stderr: String::new(),
    };
    assert_eq!(test_gemini_binary(outcome).unwrap(), "0.4.1");
}

#[test]
fn version_probe_failures_are_execution_failed() {
    let nonzero = InvocationResult::Completed {
        status_ok: false,
        stdout: String::new(),
        stderr: "boom".to_string(),
    };
    let err = test_gemini_binary(nonzero).unwrap_err();
    assert_eq!(err.kind, ErrorKind::ExecutionFailed);
    assert_eq!(err.detail, "Gemini binary test failed: boom");

    let unrunnable = InvocationResult::Failed { error: "permission denied".to_string() };
    let err = test_gemini_binary(unrunnable).unwrap_err();
    assert_eq!(err.kind, ErrorKind::ExecutionFailed);
    assert_eq!(err.detail, "Failed to execute Gemini binary: permission denied");
}

#[test]
fn soft_version_probe_never_fails_discovery() {
    let good = InvocationResult::Completed {
        status_ok: true,
        stdout: "1.2.3".to_string(),
        stderr: String::new(),
    };
    assert_eq!(version_from_probe(good), Some("1.2.3".to_string()));
    let bad = InvocationResult::Completed {
        status_ok: false,
        stdout: String::new(),
        stderr: "no".to_string(),
    };
    assert_eq!(version_from_probe(bad), None);
    let worse = InvocationResult::Failed { error: "gone".to_string() };
    assert_eq!(version_from_probe(worse), None);
}

#[test]
fn version_status_reports_installed_with_version() {
    let status = get_gemini_version(Ok("0.4.1".to_string()));
    assert!(status.is_installed);
    assert_eq!(status.version.as_deref(), Some("0.4.1"));
    assert_eq!(status.output, "0.4.1");
}

#[test]
fn version_status_reports_failure_text_when_not_working() {
    let probe = Err(GeminiError::new(
        ErrorKind::ExecutionFailed,
        "Gemini binary test failed: boom".to_string(),
    ));
    let status = get_gemini_version(probe);
    assert!(!status.is_installed);
    assert_eq!(status.version, None);
    assert_eq!(status.output, "Gemini binary test failed: boom");
}

#[test]
fn connection_test_answers_true_only_on_a_clean_exit() {
    let good = InvocationResult::Completed {
        status_ok: true,
        stdout: "usage".to_string(),
        stderr: String::new(),
    };
    assert_eq!(test_gemini_connection(good).unwrap(), true);
    let bad = InvocationResult::Completed {
        status_ok: false,
        stdout: String::new(),
        stderr: "bad flag".to_string(),
    };
    let err = test_gemini_connection(bad).unwrap_err();
    assert_eq!(err.kind, ErrorKind::ExecutionFailed);
    assert_eq!(err.detail, "Gemini connection test failed: bad flag");
    let worse = InvocationResult::Failed { error: "gone".to_string() };
    let err = test_gemini_connection(worse).unwrap_err();
    assert_eq!(err.detail, "Failed to test Gemini connection: gone");
}

#[test]
fn error_message_carries_the_detail() {
    let err = GeminiError::new(ErrorKind::NotFound, "nothing here".to_string());
    assert_eq!(err.message(), "nothing here");
}
