use runn::manifest::{PipelineDoc, SecretDoc, SecretEntry, StepDoc};
use runn::config::{load_webhook_token_name, PipelineConfigError};
use runn::secrets::{load_secret_map, secret_file_name, SecretLoadError};

fn entry(name: &str, value: &str) -> SecretEntry {
    SecretEntry { name: name.to_string(), value: value.to_string() }
}

fn secret_doc(kind: &str, entries: Vec<SecretEntry>) -> SecretDoc {
    SecretDoc { kind: kind.to_string(), name: "credentials".to_string(), secrets: entries }
}

fn pipeline_doc(kind: &str, webhook_token: Option<&str>) -> PipelineDoc {
    PipelineDoc {
        kind: kind.to_string(),
        name: "deploy".to_string(),
        webhook_token: webhook_token.map(|t| t.to_string()),
        steps: vec![StepDoc { name: "build".to_string(), commands: vec!["exit 0".to_string()] }],
        on_failure: None,
    }
}

#[test]
fn secret_load_rejects_wrong_kind() {
    let doc = secret_doc("pipeline", vec![entry("a", "1")]);
    match load_secret_map(&doc) {
        Err(SecretLoadError::InvalidKind(k)) => assert_eq!(k, "pipeline"),
        Err(_) => panic!("wrong error"),
        Ok(_) => panic!("wrong kind must not load"),
    }
}

#[test]
fn secret_load_rejects_duplicate_adjacent() {
    let doc = secret_doc("secret", vec![entry("a", "1"), entry("a", "2"), entry("b", "3")]);
    match load_secret_map(&doc) {
        Err(SecretLoadError::DuplicateName(n)) => assert_eq!(n, "a"),
        Err(_) => panic!("wrong error"),
        Ok(_) => panic!("duplicate names must not load"),
    }
}

#[test]
fn secret_load_rejects_duplicate_apart() {
    let doc = secret_doc("secret", vec![entry("a", "1"), entry("b", "2"), entry("a", "3")]);
    match load_secret_map(&doc) {
        Err(SecretLoadError::DuplicateName(n)) => assert_eq!(n, "a"),
        Err(_) => panic!("wrong error"),
        Ok(_) => panic!("duplicate names must not load"),
    }
}

#[test]
fn secret_load_round_trip_preserves_entries() {
    let doc = secret_doc(
        "secret",
        vec![entry("token", "abc"), entry("key", "s3cr3t"), entry("empty", "")],
    );
    let map = match load_secret_map(&doc) {
        Ok(m) => m,
        Err(_) => panic!("unique names must load"),
    };
    assert_eq!(map.len(), 3);
    assert_eq!(map.get("token"), Some(&"abc".to_string()));
    assert_eq!(map.get("key"), Some(&"s3cr3t".to_string()));
    assert_eq!(map.get("empty"), Some(&"".to_string()));
    assert_eq!(map.get("absent"), None);
}

#[test]
fn secret_load_accepts_empty_list() {
    let doc = secret_doc("secret", vec![]);
    let map = match load_secret_map(&doc) {
        Ok(m) => m,
        Err(_) => panic!("empty list must load"),
    };
    assert_eq!(map.len(), 0);
    assert_eq!(map.get("anything"), None);
}

#[test]
fn secret_file_name_returns_declared_name() {
    let doc = secret_doc("secret", vec![entry("a", "1")]);
    assert_eq!(secret_file_name(&doc), Ok("credentials".to_string()));
}

#[test]
fn secret_file_name_rejects_wrong_kind() {
    let doc = secret_doc("other", vec![]);
    assert_eq!(
        secret_file_name(&doc),
        Err(SecretLoadError::InvalidKind("other".to_string()))
    );
}

#[test]
fn webhook_token_name_rejects_wrong_kind() {
    let doc = pipeline_doc("secret", Some("hook-token"));
    assert_eq!(
        load_webhook_token_name(&doc),
        Err(PipelineConfigError::InvalidKind("secret".to_string()))
    );
}

#[test]
fn webhook_token_name_returns_declared_reference() {
    let doc = pipeline_doc("pipeline", Some("hook-token"));
    assert_eq!(load_webhook_token_name(&doc), Ok(Some("hook-token".to_string())));
    let bare = pipeline_doc("pipeline", None);
    assert_eq!(load_webhook_token_name(&bare), Ok(None));
}
