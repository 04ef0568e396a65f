use icoding_client::auth::{
    api_url, code_request, is_absent_user, login_target, require_session, token_from_contents,
    LoginTarget, Session, SessionStore, User,
};
use icoding_client::capabilities::CapabilityOutput;
use icoding_client::config::{AppConfig, AppPaths};
use icoding_client::device::SystemInfo;
use icoding_client::error::{code, message, ErrorChain};
use icoding_client::json::{object, Json};
use icoding_client::permissions::{
    full_disk_access_status, open_full_disk_access_settings, protected_locations,
    require_startup_permissions, AccessCheck, FullDiskAccessStatus, Probe, SettingsLaunch,
};
use icoding_client::protocol::TaskRequestPayload;
use icoding_client::protocol::Envelope;
use icoding_client::ws::{
    acknowledge, classify, confirm_cancel, disconnect_requested, keep_non_blank, react,
    reauth_required, registered_session, reject_request, resolve_ws_url, task_outcome,
    unsupported_reply, ws_scheme_for, AgentWsClient, Incoming, Reaction, Reconnect, TaskLedger,
    TaskStep,
};

fn user() -> User {
    User {
        id: 42,
        email: Some("test@example.com".to_string()),
        mobile: None,
        nicker: Some("tester".to_string()),
        avatar: None,
    }
}

fn session() -> Session {
    Session { token: "local-test-token".to_string(), user: user() }
}

fn config() -> AppConfig {
    AppConfig::with_defaults(Some("/work".to_string()), Some("/home/me".to_string()))
}

fn system() -> SystemInfo {
    SystemInfo {
        hostname: "host".to_string(),
        platform: "linux".to_string(),
        os: "linux".to_string(),
        os_name: "Debian".to_string(),
        os_version: "12".to_string(),
        os_build: None,
        kernel_version: None,
        family: "unix".to_string(),
        arch: "x86_64".to_string(),
        username: "me".to_string(),
        timezone: "UTC".to_string(),
        locale: "en-US".to_string(),
        shell: None,
        current_dir: None,
        executable_path: None,
    }
}

fn str_at<'a>(j: &'a Json, key: &str) -> Option<&'a str> {
    j.get(key).and_then(|v| v.as_str())
}

#[test]
fn saved_tokens_read_back_trimmed() {
    assert_eq!(token_from_contents("local-test-token").as_deref(), Some("local-test-token"));
    assert_eq!(token_from_contents("  tok\n").as_deref(), Some("tok"));
    assert_eq!(token_from_contents(" \n").as_deref(), None);
    let again = token_from_contents(&token_from_contents(" t ").unwrap());
    assert_eq!(again.as_deref(), Some("t"));
}

#[test]
fn a_session_is_required_to_reach_the_cloud() {
    let s = require_session(Some(session())).unwrap();
    assert_eq!(s.token, "local-test-token");
    assert_eq!(s.user.id, 42);
    let e = require_session(None).unwrap_err();
    assert_eq!(message(&e), "not logged in; run verify-code after sending a verification code");
    assert_eq!(code(&e), "AUTH_REQUIRED");
    let store = SessionStore::new(AppPaths::under_root("/r"));
    assert_eq!(store.paths().token_file, "/r/data/session.token");
}

#[test]
fn login_targets_take_exactly_one_address() {
    assert!(matches!(LoginTarget::from_parts(Some("a@b".to_string()), None), Ok(LoginTarget::Email(e)) if e == "a@b"));
    assert!(matches!(LoginTarget::from_parts(None, Some("123".to_string())), Ok(LoginTarget::Mobile(_))));
    let e = LoginTarget::from_parts(None, None).unwrap_err();
    assert_eq!(message(&e), "provide exactly one of --email or --mobile");
    assert!(LoginTarget::from_parts(Some("a".to_string()), Some("b".to_string())).is_err());
    assert!(matches!(login_target("email".to_string(), "a@b".to_string()), Ok(LoginTarget::Email(_))));
    let e = login_target("fax".to_string(), "1".to_string()).unwrap_err();
    assert_eq!(message(&e), "unsupported login type: fax");
}

#[test]
fn verification_requests_name_the_address() {
    let body = code_request(&LoginTarget::Email("a@b".to_string()), None);
    assert_eq!(str_at(&body, "type"), Some("email"));
    assert_eq!(str_at(&body, "email"), Some("a@b"));
    assert!(body.get("code").is_none());
    let body = code_request(&LoginTarget::Mobile("123".to_string()), Some("9999"));
    assert_eq!(str_at(&body, "mobile"), Some("123"));
    assert_eq!(str_at(&body, "code"), Some("9999"));
}

#[test]
fn endpoints_join_without_double_slashes() {
    assert_eq!(api_url("https://api.example//", "/api/v1/user"), "https://api.example/api/v1/user");
    assert_eq!(api_url("https://api.example", "/api/v1/user"), "https://api.example/api/v1/user");
    assert!(is_absent_user(b""));
    assert!(is_absent_user(b"null"));
    assert!(!is_absent_user(b"{\"id\":1}"));
}

#[test]
fn websocket_addresses_resolve_against_the_configuration() {
    let mut c = config();
    assert_eq!(
        resolve_ws_url(&c, "  wss://edge.example/ws?x=1  "),
        "wss://edge.example/ws?x=1"
    );
    assert_eq!(
        resolve_ws_url(&c, "/api/v1/agent/ws2"),
        "wss://apilite.icoding.ink/api/v1/agent/ws2"
    );
    c.server.ws_url = "not a url".to_string();
    c.server.api_base_url = "https://api.example:8443/base?q=1".to_string();
    assert_eq!(resolve_ws_url(&c, "/socket"), "wss://api.example:8443/socket");
    c.server.api_base_url = "http://localhost:8080".to_string();
    assert_eq!(resolve_ws_url(&c, "/socket"), "ws://localhost:8080/socket");
    c.server.api_base_url = "also not a url".to_string();
    assert_eq!(resolve_ws_url(&c, "/socket"), "/socket");
    assert_eq!(resolve_ws_url(&c, "relative"), "relative");
    assert_eq!(ws_scheme_for("https"), "wss");
    assert_eq!(ws_scheme_for("http"), "ws");
}

#[test]
fn clients_connect_with_the_handed_out_address_and_token() {
    let client = AgentWsClient::new(config(), session(), Some("  ".to_string()), None);
    assert_eq!(client.ws_url(), "wss://apilite.icoding.ink/api/v1/agent/ws");
    assert_eq!(client.ws_connect_url(), "wss://apilite.icoding.ink/api/v1/agent/ws");
    let client = AgentWsClient::new(
        config(),
        session(),
        Some("wss://edge.example/ws?region=eu".to_string()),
        Some("ct-1".to_string()),
    );
    assert_eq!(client.ws_connect_url(), "wss://edge.example/ws?region=eu&connection_token=ct-1");
    let client = AgentWsClient::new(config(), session(), None, Some("ct-2".to_string()));
    assert_eq!(
        client.ws_connect_url(),
        "wss://apilite.icoding.ink/api/v1/agent/ws?connection_token=ct-2"
    );
    assert_eq!(client.connection_token().as_deref(), Some("ct-2"));
    assert_eq!(client.session().token, "local-test-token");
    assert_eq!(keep_non_blank(Some(" x ".to_string())).as_deref(), Some(" x "));
    assert_eq!(keep_non_blank(Some("\t".to_string())), None);
}

#[test]
fn handshake_and_registration() {
    let client = AgentWsClient::new(config(), session(), None, None);
    let headers = client.handshake_headers();
    assert_eq!(headers[0], ("Authorization".to_string(), "Bearer local-test-token".to_string()));
    assert_eq!(headers[2], ("X-Client-Version".to_string(), "0.1.0".to_string()));
    assert_eq!(headers[3], ("X-Protocol-Version".to_string(), "1.0".to_string()));
    let register = client.register_message(system());
    assert_eq!(register.message_type, "client.register");
    assert_eq!(str_at(&register.payload, "device_name"), Some("host"));
    assert!(matches!(register.payload.get("user").and_then(|u| u.get("id")), Some(Json::UInt(42))));
    let summary = register.payload.get("policy_summary").unwrap();
    assert!(matches!(summary.get("shell_exec_enabled"), Some(Json::Bool(true))));
}

#[test]
fn incoming_messages_are_classified() {
    assert_eq!(classify("server.registered"), Incoming::Registered);
    assert_eq!(classify("server.pong"), Incoming::Pong);
    assert_eq!(classify("task.request"), Incoming::TaskRequest);
    assert_eq!(classify("task.cancel"), Incoming::TaskCancel);
    assert_eq!(classify("server.reauth_required"), Incoming::ReauthRequired);
    assert_eq!(classify("server.disconnect"), Incoming::Disconnect);
    assert_eq!(classify("server.policy_updated"), Incoming::PolicyUpdated);
    assert_eq!(classify("server.unknown"), Incoming::Unsupported);
}

#[test]
fn replies_to_the_cloud() {
    let payload = object(vec![("session_id".to_string(), Json::Str("s-1".to_string()))]);
    assert_eq!(registered_session(&payload).as_deref(), Some("s-1"));
    assert_eq!(registered_session(&Json::Null), None);

    let bad = object(vec![("task_id".to_string(), Json::Str("t-9".to_string()))]);
    let rejected = reject_request("msg_1", &bad, ErrorChain::json("missing field `capability`".to_string()));
    assert_eq!(rejected.message_type, "task.rejected");
    assert_eq!(rejected.reply_to.as_deref(), Some("msg_1"));
    assert_eq!(str_at(&rejected.payload, "task_id"), Some("t-9"));
    let error = rejected.payload.get("error").unwrap();
    assert_eq!(str_at(error, "code"), Some("INVALID_ARGUMENT"));
    assert_eq!(
        str_at(error, "message"),
        Some("invalid task.request payload: missing field `capability`")
    );
    let anonymous = reject_request("msg_1", &Json::Null, ErrorChain::json("x".to_string()));
    assert_eq!(str_at(&anonymous.payload, "task_id"), Some("unknown"));

    let (ack, accepted) = acknowledge("msg_2", "t-1");
    assert_eq!(str_at(&ack.payload, "status"), Some("received"));
    assert_eq!(accepted.reply_to.as_deref(), Some("msg_2"));

    let cancelled = confirm_cancel("msg_3".to_string(), &Json::Null);
    assert_eq!(str_at(&cancelled.payload, "task_id"), Some(""));
    assert_eq!(cancelled.reply_to.as_deref(), Some("msg_3"));

    assert_eq!(message(&reauth_required()), "server requested reauthentication");
    assert_eq!(code(&reauth_required()), "AUTH_REQUIRED");
    assert_eq!(message(&disconnect_requested("{\"reason\":\"x\"}")), "server requested disconnect: {\"reason\":\"x\"}");
}

#[test]
fn task_outcomes_are_reported() {
    let task = TaskRequestPayload {
        task_id: "t-1".to_string(),
        conversation_id: None,
        agent_id: None,
        capability: "fs.list".to_string(),
        params: Json::Null,
        timeout_seconds: None,
        require_result: false,
    };
    let done = task_outcome(&task, Ok(CapabilityOutput { result: Json::Bool(true), duration_ms: 5 }));
    assert_eq!(done.message_type, "task.result");
    assert!(matches!(done.payload.get("duration_ms"), Some(Json::UInt(5))));
    let failed = task_outcome(
        &task,
        Err(ErrorChain::msg("directory does not exist".to_string()).context("fs.list failed".to_string())),
    );
    assert_eq!(failed.message_type, "task.failed");
    let details = failed.payload.get("error").and_then(|e| e.get("details")).unwrap();
    assert_eq!(str_at(details, "capability"), Some("fs.list"));
    match details.get("causes") {
        Some(Json::Array(items)) => assert_eq!(items[0].as_str(), Some("directory does not exist")),
        _ => panic!("causes should be an array"),
    }
}

#[test]
fn reconnect_waits_double_up_to_a_minute() {
    let mut r = Reconnect::new();
    let mut waits = Vec::new();
    for _ in 0..8 {
        waits.push(r.after_session(false).unwrap());
    }
    assert_eq!(waits, vec![1, 2, 4, 8, 16, 32, 60, 60]);
    assert_eq!(r.backoff_seconds(), 60);
    assert_eq!(r.after_session(true), None);
    assert_eq!(r.backoff_seconds(), 1);
    assert_eq!(r.after_session(false), Some(1));
}

#[test]
fn full_disk_access_is_judged_by_the_probes() {
    let status = full_disk_access_status(AccessCheck::NotRequired);
    assert!(!status.required && status.granted);
    assert_eq!(status.detail, "Full Disk Access is only required on macOS");
    let status = full_disk_access_status(AccessCheck::NoHome);
    assert!(status.required && !status.granted);
    assert_eq!(status.detail, "cannot resolve the current user's home directory");
    let status = full_disk_access_status(AccessCheck::Probed(vec![
        ("/Users/me/Library/Mail".to_string(), Probe::Missing),
        ("/Users/me/Library/Safari/History.db".to_string(), Probe::Denied),
        ("/Users/me/Library/Messages/chat.db".to_string(), Probe::Readable),
    ]));
    assert!(!status.granted);
    assert_eq!(
        status.detail,
        "macOS denied access to protected location /Users/me/Library/Safari/History.db"
    );
    let status = full_disk_access_status(AccessCheck::Probed(vec![(
        "/Users/me/Library/Mail".to_string(),
        Probe::Readable,
    )]));
    assert!(status.granted);
    assert_eq!(status.detail, "verified access to /Users/me/Library/Mail");
    let status = full_disk_access_status(AccessCheck::Probed(vec![(
        "/p".to_string(),
        Probe::Failed("Input/output error".to_string()),
    )]));
    assert_eq!(status.detail, "failed to verify /p: Input/output error");
    let status = full_disk_access_status(AccessCheck::Probed(vec![("/p".to_string(), Probe::Missing)]));
    assert!(!status.granted);
    assert_eq!(
        status.detail,
        "no protected macOS location was available to verify Full Disk Access"
    );
    let locations = protected_locations("/Users/me");
    assert_eq!(locations[0].path, "/Users/me/Library/Mail");
    assert!(locations[0].is_dir);
    assert_eq!(locations[2].path, "/Users/me/Library/Messages/chat.db");
}

#[test]
fn startup_needs_full_disk_access() {
    let granted = FullDiskAccessStatus { required: true, granted: true, detail: "ok".to_string() };
    assert!(require_startup_permissions(&granted, Ok(())).is_ok());
    let missing = FullDiskAccessStatus { required: true, granted: false, detail: "denied".to_string() };
    let e = require_startup_permissions(&missing, Ok(())).unwrap_err();
    assert_eq!(
        message(&e),
        "Full Disk Access is required before the agent can start: denied. Grant iCoding Client access in System Settings > Privacy & Security > Full Disk Access, then restart the app"
    );
    let e = require_startup_permissions(&missing, Err(ErrorChain::msg("cannot open".to_string()))).unwrap_err();
    assert_eq!(message(&e), "cannot open");
    assert!(open_full_disk_access_settings(SettingsLaunch::Unneeded).is_ok());
    assert!(open_full_disk_access_settings(SettingsLaunch::Exited { success: true, status: "exit status: 0".to_string() }).is_ok());
    let e = open_full_disk_access_settings(SettingsLaunch::Exited { success: false, status: "exit status: 1".to_string() }).unwrap_err();
    assert_eq!(message(&e), "failed to open macOS Full Disk Access settings: open exited with exit status: 1");
    let e = open_full_disk_access_settings(SettingsLaunch::Failed(ErrorChain::msg("no such file".to_string()))).unwrap_err();
    assert_eq!(message(&e), "failed to open macOS Full Disk Access settings: no such file");
}

fn incoming(message_type: &str, payload: Json) -> Envelope<Json> {
    let mut e = Envelope::new(message_type.to_string(), payload);
    e.id = "m7".to_string();
    e
}

#[test]
fn unknown_message_types_are_answered() {
    let reply = unsupported_reply("m7", "server.foo");
    assert_eq!(reply.message_type, "error");
    assert_eq!(reply.reply_to.as_deref(), Some("m7"));
    assert_eq!(str_at(&reply.payload, "code"), Some("UNSUPPORTED_MESSAGE_TYPE"));
    assert_eq!(str_at(&reply.payload, "message"), Some("unsupported message type: server.foo"));
    match react(&incoming("server.foo", object(vec![])), "{}") {
        Reaction::Reply(r) => {
            assert_eq!(r.reply_to.as_deref(), Some("m7"));
            assert_eq!(str_at(&r.payload, "code"), Some("UNSUPPORTED_MESSAGE_TYPE"));
        }
        _ => panic!("an unknown type should be answered"),
    }
}

#[test]
fn each_message_kind_has_its_reaction() {
    let registered = object(vec![("session_id".to_string(), Json::Str("s-9".to_string()))]);
    assert!(matches!(react(&incoming("server.registered", registered), "{}"), Reaction::Session(Some(s)) if s == "s-9"));
    assert!(matches!(react(&incoming("server.pong", Json::Null), "null"), Reaction::Ignore));
    assert!(matches!(react(&incoming("server.policy_updated", Json::Null), "null"), Reaction::Ignore));
    assert!(matches!(react(&incoming("task.request", Json::Null), "null"), Reaction::Task));
    match react(&incoming("task.cancel", object(vec![("task_id".to_string(), Json::Str("t".to_string()))])), "{}") {
        Reaction::Reply(r) => {
            assert_eq!(r.message_type, "task.cancelled");
            assert_eq!(str_at(&r.payload, "task_id"), Some("t"));
        }
        _ => panic!("a cancellation should be confirmed"),
    }
    match react(&incoming("server.disconnect", Json::Null), "{\"reason\":\"x\"}") {
        Reaction::Stop(e) => assert_eq!(message(&e), "server requested disconnect: {\"reason\":\"x\"}"),
        _ => panic!("a disconnect should stop the session"),
    }
    assert!(matches!(react(&incoming("server.reauth_required", Json::Null), "null"), Reaction::Stop(_)));
}

fn write_task(task_id: &str) -> TaskRequestPayload {
    TaskRequestPayload {
        task_id: task_id.to_string(),
        conversation_id: None,
        agent_id: None,
        capability: "fs.write".to_string(),
        params: Json::Null,
        timeout_seconds: None,
        require_result: false,
    }
}

#[test]
fn a_task_runs_only_once() {
    let mut ledger = TaskLedger::new();
    assert!(!ledger.has_handled("t-1"));
    match ledger.take_request("m1", &Json::Null, Ok(write_task("t-1"))) {
        TaskStep::Run(ack, accepted, task) => {
            assert_eq!(ack.message_type, "client.ack");
            assert_eq!(accepted.reply_to.as_deref(), Some("m1"));
            assert_eq!(task.task_id, "t-1");
        }
        _ => panic!("a new task should run"),
    }
    assert!(ledger.has_handled("t-1"));
    match ledger.take_request("m2", &Json::Null, Ok(write_task("t-1"))) {
        TaskStep::Duplicate(ack, rejection) => {
            assert_eq!(str_at(&ack.payload, "status"), Some("received"));
            assert_eq!(rejection.reply_to.as_deref(), Some("m2"));
            let error = rejection.payload.get("error").unwrap();
            assert_eq!(str_at(error, "code"), Some("TASK_ALREADY_HANDLED"));
            assert_eq!(str_at(error, "message"), Some("task already handled: t-1"));
        }
        _ => panic!("a repeated task must not run again"),
    }
    assert!(matches!(ledger.take_request("m3", &Json::Null, Ok(write_task("t-2"))), TaskStep::Run(..)));
    match ledger.take_request("m4", &Json::Null, Err(ErrorChain::json("missing field `task_id`".to_string()))) {
        TaskStep::Reject(r) => assert_eq!(str_at(&r.payload, "task_id"), Some("unknown")),
        _ => panic!("an unreadable request is rejected"),
    }
}
