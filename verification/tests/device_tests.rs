use icoding_client::auth::User;
use icoding_client::config::{AppConfig, PolicyConfig};
use icoding_client::device::{
    command_text, default_capabilities, parse_os_release, user_to_json, DeviceRegisterRequest,
    OsDetails, PolicySummary, SystemInfo, CLIENT_VERSION,
};
use icoding_client::json::Json;

fn system() -> SystemInfo {
    SystemInfo {
        hostname: "devbox".to_string(),
        platform: "linux".to_string(),
        os: "linux".to_string(),
        os_name: "Ubuntu 24.04 LTS".to_string(),
        os_version: "24.04".to_string(),
        os_build: None,
        kernel_version: Some("6.8.0".to_string()),
        family: "unix".to_string(),
        arch: "x86_64".to_string(),
        username: "me".to_string(),
        timezone: "UTC".to_string(),
        locale: "en-US".to_string(),
        shell: Some("/bin/bash".to_string()),
        current_dir: Some("/work".to_string()),
        executable_path: None,
    }
}

fn user() -> User {
    User { id: 7, email: None, mobile: Some("123".to_string()), nicker: None, avatar: None }
}

#[test]
fn registration_describes_the_device() {
    let config = AppConfig::with_defaults(Some("/work".to_string()), None);
    let request = DeviceRegisterRequest::from_config(&config, user(), system());
    assert_eq!(request.device_id, config.client.device_id);
    assert_eq!(request.device_name, "devbox");
    assert_eq!(request.client_version, CLIENT_VERSION);
    assert_eq!(request.protocol_version, "1.0");
    assert_eq!(request.capabilities.len(), 11);
    assert_eq!(request.policy_summary.allowed_roots, vec!["/work".to_string()]);
    let j = request.to_json();
    assert_eq!(j.get("system").and_then(|s| s.get("kernel_version")).and_then(|k| k.as_str()), Some("6.8.0"));
    assert!(j.get("system").and_then(|s| s.get("os_build")).unwrap().is_null());
}

#[test]
fn announced_capabilities() {
    let caps = default_capabilities();
    assert_eq!(caps[0], "system.info");
    assert_eq!(caps[9], "process.exec");
    assert_eq!(caps[10], "process.cancel");
}

#[test]
fn policy_summary_and_user() {
    let summary = PolicySummary::from_policy(&PolicyConfig::with_defaults(Some("/w".to_string()), None));
    assert!(summary.shell_exec_enabled);
    assert!(matches!(summary.to_json().get("shell_exec_enabled"), Some(Json::Bool(true))));
    let u = user_to_json(&user());
    assert!(matches!(u.get("id"), Some(Json::UInt(7))));
    assert!(u.get("email").unwrap().is_null());
}

#[test]
fn os_details_per_platform() {
    let raw = "NAME=\"Ubuntu\"\nVERSION_ID=\"24.04\"\nPRETTY_NAME=\"Ubuntu 24.04 LTS\"\n# comment\n";
    let pairs = parse_os_release(raw);
    assert_eq!(pairs[0], ("NAME".to_string(), "Ubuntu".to_string()));
    let linux = OsDetails::for_linux(Some(raw.to_string()), Some("6.8.0".to_string()));
    assert_eq!(linux.os_name, "Ubuntu 24.04 LTS");
    assert_eq!(linux.os_version, "24.04");
    assert_eq!(linux.os_build, None);
    let bare = OsDetails::for_linux(None, None);
    assert_eq!(bare.os_name, "Linux");
    assert_eq!(bare.os_version, "unknown");
    let mac = OsDetails::for_macos(None, Some("15.5".to_string()), Some("24F74".to_string()), None);
    assert_eq!(mac.os_name, "macOS");
    assert_eq!(mac.os_version, "15.5");
    let win = OsDetails::for_windows(None);
    assert_eq!(win.os_name, "Windows");
    assert_eq!(win.os_version, "unknown");
    let other = OsDetails::fallback("freebsd".to_string(), None);
    assert_eq!(other.os_name, "freebsd");
    assert_eq!(command_text("  15.5\n").as_deref(), Some("15.5"));
    assert_eq!(command_text("\n"), None);
}
