use icoding_client::config::{
    checked_root, contains_legacy_approval_settings, AppConfig, AppPaths, PolicyConfig,
    ServerConfig, DEFAULT_API_BASE_URL, DEFAULT_WS_URL,
};
use icoding_client::error::{code, message, ErrorChain, IoKind};
use icoding_client::i18n::Language;
use icoding_client::json::Json;

fn default_config() -> AppConfig {
    AppConfig::with_defaults(Some("/work".to_string()), Some("/home/me".to_string()))
}

#[test]
fn command_execution_is_enabled_by_default() {
    assert!(PolicyConfig::with_defaults(Some("/work".to_string()), Some("/home/me".to_string()))
        .shell_exec_enabled);
}

#[test]
fn default_server_uses_icoding_lite_endpoint() {
    let config = default_config();
    assert_eq!(config.server.api_base_url, DEFAULT_API_BASE_URL);
    assert_eq!(config.server.ws_url, DEFAULT_WS_URL);
}

#[test]
fn default_policy_limits_and_protected_paths() {
    let policy = PolicyConfig::with_defaults(Some("/work".to_string()), Some("/home/me".to_string()));
    assert_eq!(policy.allowed_roots, vec!["/work".to_string()]);
    assert_eq!(
        policy.blocked_paths,
        vec![
            "/home/me/.ssh".to_string(),
            "/home/me/.gnupg".to_string(),
            "/home/me/Library/Keychains".to_string()
        ]
    );
    assert_eq!(policy.max_file_read_bytes, 1_048_576);
    assert_eq!(policy.max_file_write_bytes, 1_048_576);
    assert_eq!(policy.max_command_output_bytes, 10_485_760);
    assert_eq!(policy.default_command_timeout_seconds, 300);
}

#[test]
fn default_policy_without_known_directories() {
    let policy = PolicyConfig::with_defaults(None, None);
    assert!(policy.allowed_roots.is_empty());
    assert!(policy.blocked_paths.is_empty());
}

#[test]
fn default_device_id_has_the_device_prefix() {
    let config = default_config();
    assert!(config.client.device_id.starts_with("dev_"));
    assert_eq!(config.client.device_id.len(), 36);
}

#[test]
fn legacy_approval_keys_turn_commands_back_on() {
    let mut config = default_config();
    config.policy.shell_exec_enabled = false;
    let raw = "[policy]\nshell_exec_enabled = false\napproval_required_for_shell = true\napproval_required_for_delete = true\n";
    assert!(contains_legacy_approval_settings(raw));
    let needs_save = config.migrate_loaded(raw);
    assert!(needs_save);
    assert!(config.policy.shell_exec_enabled);
}

#[test]
fn approval_text_in_a_value_is_not_a_legacy_key() {
    assert!(!contains_legacy_approval_settings("note = \"approval_required_for_shell\"\n"));
    assert!(contains_legacy_approval_settings("  approval_required_for_delete   = false"));
}

#[test]
fn old_server_addresses_are_replaced_on_load() {
    let mut config = default_config();
    config.server.api_base_url = "https://old-api.example.test".to_string();
    config.server.ws_url = "wss://old-api.example.test/api/v1/agent/ws".to_string();
    let needs_save = config.migrate_loaded("");
    assert!(needs_save);
    assert_eq!(config.server.api_base_url, DEFAULT_API_BASE_URL);
    assert_eq!(config.server.ws_url, DEFAULT_WS_URL);
}

#[test]
fn a_second_load_changes_nothing() {
    let mut config = default_config();
    config.server.ws_url = "wss://old.example/ws".to_string();
    config.client.device_id = String::new();
    assert!(config.migrate_loaded("approval_required_for_shell = true\n"));
    let id = config.client.device_id.clone();
    assert!(!config.migrate_loaded("[policy]\nshell_exec_enabled = true\n"));
    assert_eq!(config.client.device_id, id);
    assert_eq!(config.server.ws_url, DEFAULT_WS_URL);
}

#[test]
fn up_to_date_configuration_needs_no_save() {
    let mut config = default_config();
    assert!(!config.migrate_loaded("[policy]\nshell_exec_enabled = true\n"));
}

#[test]
fn default_endpoints_with_trailing_slash_are_kept() {
    let mut config = default_config();
    config.server.api_base_url = format!("{}/", DEFAULT_API_BASE_URL);
    assert!(!config.normalize_server_endpoints());
    assert_eq!(config.server.api_base_url, format!("{}/", DEFAULT_API_BASE_URL));
}

#[test]
fn normalizing_twice_changes_nothing_the_second_time() {
    let mut config = default_config();
    config.server.ws_url = "ws://localhost:9000/ws".to_string();
    assert!(config.normalize_server_endpoints());
    assert!(!config.normalize_server_endpoints());
}

#[test]
fn blank_device_id_is_replaced_on_load() {
    let mut config = default_config();
    config.client.device_id = "   ".to_string();
    assert!(config.migrate_loaded(""));
    assert!(config.client.device_id.starts_with("dev_"));
}

#[test]
fn server_override_keeps_production_endpoints() {
    let mut config = default_config();
    config.apply_server_override(
        Some("https://other.example".to_string()),
        Some("wss://other.example/ws".to_string()),
    );
    assert_eq!(config.server.api_base_url, DEFAULT_API_BASE_URL);
    assert_eq!(config.server.ws_url, DEFAULT_WS_URL);
    let server = ServerConfig::defaults();
    assert_eq!(server.api_base_url, DEFAULT_API_BASE_URL);
}

#[test]
fn set_roots_refuses_an_empty_list() {
    let mut policy = PolicyConfig::with_defaults(Some("/work".to_string()), None);
    let error = policy.set_roots(Vec::new(), Language::English).unwrap_err();
    assert_eq!(message(&error), "provide at least one root directory");
    assert_eq!(policy.allowed_roots, vec!["/work".to_string()]);
    let error = policy.set_roots(Vec::new(), Language::Chinese).unwrap_err();
    assert_eq!(message(&error), "请至少提供一个根目录");
    policy.set_roots(vec!["/a".to_string(), "/b".to_string()], Language::English).unwrap();
    assert_eq!(policy.allowed_roots, vec!["/a".to_string(), "/b".to_string()]);
}

#[test]
fn add_root_is_idempotent_and_remove_undoes_it() {
    let mut policy = PolicyConfig::with_defaults(Some("/work".to_string()), None);
    policy.add_root("/extra".to_string());
    policy.add_root("/extra".to_string());
    assert_eq!(policy.allowed_roots, vec!["/work".to_string(), "/extra".to_string()]);
    policy.remove_root(&"/extra".to_string(), Language::English).unwrap();
    assert_eq!(policy.allowed_roots, vec!["/work".to_string()]);
}

#[test]
fn removing_the_last_root_is_refused() {
    let mut policy = PolicyConfig::with_defaults(Some("/work".to_string()), None);
    let error = policy.remove_root(&"/work".to_string(), Language::English).unwrap_err();
    assert_eq!(message(&error), "allowed roots cannot be empty");
    assert!(policy.allowed_roots.is_empty());
}

#[test]
fn shell_switch_turns_commands_on_and_off() {
    let mut policy = PolicyConfig::with_defaults(None, None);
    policy.set_shell(false, true);
    assert!(!policy.shell_exec_enabled);
    policy.set_shell(true, false);
    assert!(policy.shell_exec_enabled);
    policy.set_shell(false, false);
    assert!(policy.shell_exec_enabled);
}

#[test]
fn paths_under_a_root_directory() {
    let paths = AppPaths::under_root("/tmp/icoding");
    assert_eq!(paths.config_dir, "/tmp/icoding/config");
    assert_eq!(paths.config_file, "/tmp/icoding/config/config.toml");
    assert_eq!(paths.session_file, "/tmp/icoding/data/session.json");
    assert_eq!(paths.token_file, "/tmp/icoding/data/session.token");
    assert_eq!(paths.log_dir, "/tmp/icoding/logs");
    let platform = AppPaths::in_platform_dirs(
        "/home/me/.config/icoding".to_string(),
        "/home/me/.local/share/icoding".to_string(),
        "/home/me/.local/share/icoding/",
    );
    assert_eq!(platform.log_dir, "/home/me/.local/share/icoding/logs");
    assert_eq!(platform.config_file, "/home/me/.config/icoding/config.toml");
}

#[test]
fn policy_show_and_saved_reports() {
    let policy = PolicyConfig::with_defaults(Some("/work".to_string()), None);
    let shown = policy.to_json();
    assert_eq!(shown.get("default_command_timeout_seconds").map(|j| matches!(j, Json::UInt(300))), Some(true));
    match shown.get("allowed_roots") {
        Some(Json::Array(items)) => assert_eq!(items[0].as_str(), Some("/work")),
        _ => panic!("allowed_roots should be an array"),
    }
    let saved = policy.saved_json();
    assert!(matches!(saved.get("saved"), Some(Json::Bool(true))));
    let inner = saved.get("policy").expect("policy member");
    assert!(matches!(inner.get("shell_exec_enabled"), Some(Json::Bool(true))));
    let files = AppPaths::under_root("/r").files_json();
    assert_eq!(files.get("token_file").and_then(|j| j.as_str()), Some("/r/data/session.token"));
}

#[test]
fn roots_must_resolve_to_directories() {
    assert_eq!(checked_root("./src", Ok("/work/src".to_string()), true).unwrap(), "/work/src");
    let error = checked_root("./file", Ok("/work/file".to_string()), false).unwrap_err();
    assert_eq!(message(&error), "allowed root must be a directory: /work/file");
    let error = checked_root(
        "./missing",
        Err(ErrorChain::io("No such file or directory (os error 2)".to_string(), IoKind::NotFound)),
        true,
    )
    .unwrap_err();
    assert_eq!(
        message(&error),
        "failed to resolve root ./missing: No such file or directory (os error 2)"
    );
    assert_eq!(code(&error), "NOT_FOUND");
}

#[test]
fn a_created_configuration_loads_back_unchanged() {
    let mut config = default_config();
    let id = config.client.device_id.clone();
    assert!(!config.migrate_loaded("[client]\nauto_start = true\n"));
    assert_eq!(config.client.device_id, id);
    assert_eq!(config.server.api_base_url, DEFAULT_API_BASE_URL);
    assert_eq!(config.server.ws_url, DEFAULT_WS_URL);
    assert!(config.policy.shell_exec_enabled);
    assert_eq!(config.client.log_level, "info");
}
