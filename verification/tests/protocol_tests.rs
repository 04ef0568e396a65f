use icoding_client::json::{object, Json};
use icoding_client::protocol::{
    client_ack, client_goodbye, client_ping, new_message_id, task_accepted, task_cancelled,
    task_failed, task_rejected, task_result, Envelope, PROTOCOL_VERSION,
};

fn s(text: &str) -> String {
    text.to_string()
}

fn at<'a>(j: &'a Json, path: &[&str]) -> &'a Json {
    let mut cur = j;
    for key in path {
        cur = cur.get(key).unwrap_or_else(|| panic!("missing member {key}"));
    }
    cur
}

#[test]
fn task_failure_includes_specific_details() {
    let details = object(vec![
        (s("capability"), Json::Str(s("fs.list"))),
        (s("causes"), Json::Array(vec![Json::Str(s("directory does not exist"))])),
    ]);
    let envelope = task_failed(
        "task-1",
        "NOT_FOUND",
        s("fs.list failed: directory does not exist"),
        details,
    );

    assert_eq!(at(&envelope.payload, &["error", "code"]).as_str(), Some("NOT_FOUND"));
    assert_eq!(
        at(&envelope.payload, &["error", "details", "capability"]).as_str(),
        Some("fs.list")
    );
    match at(&envelope.payload, &["error", "details", "causes"]) {
        Json::Array(items) => assert_eq!(items[0].as_str(), Some("directory does not exist")),
        _ => panic!("causes should be an array"),
    }
}

#[test]
fn message_ids_are_fresh_and_well_formed() {
    let a = new_message_id();
    let b = new_message_id();
    assert_ne!(a, b);
    assert!(a.starts_with("msg_"));
    assert_eq!(a.len(), 36);
    assert!(a[4..].chars().all(|c| c.is_ascii_hexdigit() && !c.is_ascii_uppercase()));
}

#[test]
fn envelopes_carry_type_version_and_time() {
    let e = Envelope::new(s("client.register"), Json::Null);
    assert_eq!(e.message_type, "client.register");
    assert_eq!(e.protocol_version, PROTOCOL_VERSION);
    assert_eq!(PROTOCOL_VERSION, "1.0");
    assert!(e.reply_to.is_none());
    match &e.timestamp {
        Json::Str(t) => assert!(t.contains('T')),
        _ => panic!("timestamp should be a string"),
    }
    let id = e.id.clone();
    let r = e.reply_to(s("msg_request"));
    assert_eq!(r.reply_to.as_deref(), Some("msg_request"));
    assert_eq!(r.id, id);
}

#[test]
fn acknowledgements_and_acceptances_name_the_task() {
    let ack = client_ack("msg_1", Some("task-1"), "received");
    assert_eq!(ack.message_type, "client.ack");
    assert_eq!(at(&ack.payload, &["message_id"]).as_str(), Some("msg_1"));
    assert_eq!(at(&ack.payload, &["status"]).as_str(), Some("received"));
    let none = client_ack("msg_1", None, "received");
    assert!(at(&none.payload, &["task_id"]).is_null());
    let accepted = task_accepted("msg_1", "task-1");
    assert_eq!(accepted.message_type, "task.accepted");
    assert_eq!(accepted.reply_to.as_deref(), Some("msg_1"));
    assert_eq!(at(&accepted.payload, &["status"]).as_str(), Some("accepted"));
}

#[test]
fn results_rejections_and_cancellations() {
    let result = task_result("task-1", Json::Bool(true), 12);
    assert_eq!(result.message_type, "task.result");
    assert_eq!(at(&result.payload, &["status"]).as_str(), Some("completed"));
    assert!(matches!(at(&result.payload, &["duration_ms"]), Json::UInt(12)));
    let rejected = task_rejected("msg_2", "task-2", "INVALID_ARGUMENT", s("bad"), Json::Null);
    assert_eq!(rejected.reply_to.as_deref(), Some("msg_2"));
    assert_eq!(at(&rejected.payload, &["status"]).as_str(), Some("rejected"));
    assert_eq!(at(&rejected.payload, &["error", "message"]).as_str(), Some("bad"));
    let cancelled = task_cancelled(s("msg_3"), "task-3");
    assert_eq!(cancelled.message_type, "task.cancelled");
    assert_eq!(at(&cancelled.payload, &["status"]).as_str(), Some("cancelled"));
}

#[test]
fn heartbeat_and_goodbye_carry_the_session() {
    let ping = client_ping(Some("sess-1"));
    assert_eq!(ping.message_type, "client.ping");
    assert_eq!(at(&ping.payload, &["session_id"]).as_str(), Some("sess-1"));
    let bye = client_goodbye(None, "logout");
    assert_eq!(bye.message_type, "client.goodbye");
    assert!(at(&bye.payload, &["session_id"]).is_null());
    assert_eq!(at(&bye.payload, &["reason"]).as_str(), Some("logout"));
}
