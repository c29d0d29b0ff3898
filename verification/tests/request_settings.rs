use codexpc::config::{
    instructions_to_send, resolve_checkpoint, resolve_service, service_to_ask,
};
use codexpc::items::CodexErr;

#[test]
fn named_service_is_used() {
    assert_eq!(resolve_service(Some("org.example.svc".to_string())), "org.example.svc");
    assert_eq!(resolve_service(Some(String::new())), "");
}

#[test]
fn service_defaults_to_the_built_in_name() {
    assert_eq!(resolve_service(None), "com.yourorg.codexpc");
}

#[test]
fn checkpoint_setting_comes_first() {
    assert_eq!(
        resolve_checkpoint(Some("/models/a".to_string()), Some("/models/b".to_string())),
        Ok("/models/a".to_string())
    );
    assert_eq!(resolve_checkpoint(Some("/models/a".to_string()), None), Ok("/models/a".to_string()));
}

#[test]
fn checkpoint_path_is_the_second_choice() {
    assert_eq!(resolve_checkpoint(None, Some("/models/b".to_string())), Ok("/models/b".to_string()));
}

#[test]
fn missing_checkpoint_is_a_failure() {
    let err = resolve_checkpoint(None, None).unwrap_err();
    assert_eq!(
        err,
        CodexErr::EnvVar {
            var: "CODEXPC_CHECKPOINT".to_string(),
            instructions: Some("Set CODEXPC_CHECKPOINT to your GPT-OSS checkpoint path".to_string()),
        }
    );
    assert_eq!(
        err.message(),
        "Missing environment variable: `CODEXPC_CHECKPOINT`. Set CODEXPC_CHECKPOINT to your GPT-OSS checkpoint path"
    );
}

#[test]
fn failure_messages() {
    assert_eq!(CodexErr::Stream("E1: boom".to_string()).message(), "E1: boom");
    assert_eq!(CodexErr::Other("harmony load failed: x".to_string()).message(), "harmony load failed: x");
    assert_eq!(
        CodexErr::EnvVar { var: "X".to_string(), instructions: None }.message(),
        "Missing environment variable: `X`."
    );
}

#[test]
fn instructions_are_sent_as_they_are() {
    assert_eq!(instructions_to_send("Be brief."), "Be brief.");
    assert_eq!(instructions_to_send(""), "");
}

#[test]
fn instructions_with_a_nul_are_sent_empty() {
    assert_eq!(instructions_to_send("Be\0brief."), "");
    assert_eq!(instructions_to_send("\0"), "");
    assert_eq!(instructions_to_send("Be brief.\0"), "");
}

#[test]
fn service_is_asked_under_its_name() {
    assert_eq!(service_to_ask("com.yourorg.codexpc"), Some("com.yourorg.codexpc".to_string()));
    assert_eq!(service_to_ask(""), Some(String::new()));
}

#[test]
fn service_with_a_nul_is_not_asked() {
    assert_eq!(service_to_ask("com.yourorg\0.codexpc"), None);
    assert_eq!(service_to_ask("\0"), None);
}
