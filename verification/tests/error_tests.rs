use icoding_client::error::{
    causes, code, http_failure, is_http_success, message, reason_from_members, refusal_error,
    response_reason, truncate, ErrorChain, IoKind,
};

#[test]
fn preserves_context_and_root_cause() {
    let error = ErrorChain::io("entity not found".to_string(), IoKind::NotFound)
        .context("failed to read directory /missing".to_string())
        .context("fs.list failed".to_string());

    assert_eq!(code(&error), "NOT_FOUND");
    assert!(message(&error).contains("fs.list failed"));
    assert!(message(&error).contains("failed to read directory /missing"));
    assert!(!causes(&error).is_empty());
}

#[test]
fn classifies_policy_failures() {
    let error = ErrorChain::msg("path is outside allowed roots: /private/file".to_string());
    assert_eq!(code(&error), "POLICY_DENIED");
}

#[test]
fn extracts_json_server_reason() {
    assert_eq!(
        response_reason(r#"{"message":"verification code expired"}"#).as_deref(),
        Some("verification code expired")
    );
}

#[test]
fn context_is_rendered_before_the_cause() {
    let error = ErrorChain::msg("root".to_string()).context("outer".to_string());
    assert_eq!(message(&error), "outer: root");
    assert_eq!(causes(&error), vec!["root".to_string()]);
}

#[test]
fn typed_causes_decide_the_code() {
    let io = |kind| ErrorChain::io("x".to_string(), kind).context("outside allowed roots".to_string());
    assert_eq!(code(&io(IoKind::PermissionDenied)), "PERMISSION_DENIED");
    assert_eq!(code(&io(IoKind::AlreadyExists)), "ALREADY_EXISTS");
    assert_eq!(code(&io(IoKind::TimedOut)), "TIMEOUT");
    assert_eq!(code(&io(IoKind::InvalidData)), "INVALID_ARGUMENT");
    assert_eq!(code(&io(IoKind::Other)), "IO_ERROR");
    let json = ErrorChain::json("missing field `path`".to_string())
        .context("invalid fs.list parameters".to_string());
    assert_eq!(code(&json), "INVALID_ARGUMENT");
    assert_eq!(message(&json), "invalid fs.list parameters: missing field `path`");
    assert_eq!(code(&ErrorChain::http("timed out".to_string(), true, false)), "TIMEOUT");
    assert_eq!(code(&ErrorChain::http("401".to_string(), false, true)), "AUTH_REQUIRED");
    assert_eq!(code(&ErrorChain::http("refused".to_string(), false, false)), "NETWORK_ERROR");
}

#[test]
fn message_words_decide_the_code_otherwise() {
    let c = |m: &str| code(&ErrorChain::msg(m.to_string()));
    assert_eq!(c("request failed: server returned HTTP 401 Unauthorized"), "AUTH_REQUIRED");
    assert_eq!(c("server returned HTTP 403 Forbidden"), "PERMISSION_DENIED");
    assert_eq!(c("server returned HTTP 404 Not Found"), "NOT_FOUND");
    assert_eq!(c("server returned HTTP 409 Conflict"), "CONFLICT");
    assert_eq!(c("server returned HTTP 429 Too Many Requests"), "LIMIT_EXCEEDED");
    assert_eq!(c("path is blocked by policy: /x"), "POLICY_DENIED");
    assert_eq!(c("shell execution is disabled by local policy"), "POLICY_DENIED");
    assert_eq!(c("not logged in"), "AUTH_REQUIRED");
    assert_eq!(c("server requested reauthentication"), "AUTH_REQUIRED");
    assert_eq!(c("file is too large: 5 bytes"), "FILE_TOO_LARGE");
    assert_eq!(c("write content is too large: 5 bytes"), "LIMIT_EXCEEDED");
    assert_eq!(c("file already exists: /x"), "CONFLICT");
    assert_eq!(c("file changed before write"), "FILE_CHANGED");
    assert_eq!(c("command timed out after 3 seconds"), "COMMAND_TIMED_OUT");
    assert_eq!(c("refusing to delete an allowed root: /w"), "POLICY_DENIED");
    assert_eq!(c("path is a dangling symbolic link: /w/l"), "POLICY_DENIED");
    assert_eq!(c("unsupported capability: x"), "UNSUPPORTED_CAPABILITY");
    assert_eq!(c("unsupported write mode: truncate"), "UNSUPPORTED");
    assert_eq!(c("command is empty"), "INVALID_ARGUMENT");
    assert_eq!(c("path is not a directory: /x"), "INVALID_ARGUMENT");
    assert_eq!(c("something else"), "TASK_FAILED");
}

#[test]
fn server_reasons_fall_back_in_order() {
    assert_eq!(response_reason("   ").as_deref(), None);
    assert_eq!(response_reason(r#"{"error":"bad"}"#).as_deref(), Some("bad"));
    assert_eq!(response_reason(r#"{"detail":{"a":1}}"#).as_deref(), Some(r#"{"a":1}"#));
    assert_eq!(response_reason(r#"{"reason":null,"x":1}"#).as_deref(), Some(r#"{"reason":null,"x":1}"#));
    assert_eq!(response_reason(" plain text ").as_deref(), Some("plain text"));
}

#[test]
fn long_text_is_cut_with_an_ellipsis() {
    assert_eq!(truncate("abcdef", 3), "abc…");
    assert_eq!(truncate("abc", 3), "abc");
    assert_eq!(truncate("", 0), "");
}

#[test]
fn http_failures_name_the_status_and_reason() {
    assert!(is_http_success(200));
    assert!(is_http_success(204));
    assert!(!is_http_success(301));
    assert!(!is_http_success(404));
    let e = http_failure("verify login code", 400, Ok(r#"{"message":"verification code expired"}"#.to_string()));
    assert_eq!(
        message(&e),
        "verify login code failed: server returned HTTP 400 Bad Request: verification code expired"
    );
    let e = http_failure("device registration", 503, Ok(String::new()));
    assert_eq!(
        message(&e),
        "device registration failed: server returned HTTP 503 Service Unavailable: Service Unavailable"
    );
    let e = http_failure("request current user", 599, Ok(String::new()));
    assert_eq!(
        message(&e),
        "request current user failed: server returned HTTP 599 <unknown status code>: unknown server error"
    );
    let e = http_failure("x", 500, Err("connection reset".to_string()));
    assert_eq!(
        message(&e),
        "x failed: server returned HTTP 500 Internal Server Error: failed to read server error response: connection reset"
    );
    assert_eq!(code(&http_failure("x", 401, Ok(String::new()))), "AUTH_REQUIRED");
}

#[test]
fn the_first_member_that_says_why_wins() {
    let members = vec![None, Some("bad token".to_string()), Some("later".to_string()), None];
    assert_eq!(reason_from_members("{}", members), "bad token");
    assert_eq!(reason_from_members("plain", vec![None, None, None, None]), "plain");
    let long = "x".repeat(600);
    let cut = reason_from_members("{}", vec![Some(long), None, None, None]);
    assert_eq!(cut.chars().count(), 513);
    assert!(cut.ends_with('…'));
}

#[test]
fn refusals_fall_back_to_the_phrase() {
    let e = refusal_error("x", 418, None, None);
    assert_eq!(message(&e), "x failed: server returned HTTP 418 <unknown status code>: unknown server error");
    let e = refusal_error("x", 404, Some("Not Found".to_string()), None);
    assert_eq!(message(&e), "x failed: server returned HTTP 404 Not Found: Not Found");
    assert_eq!(code(&e), "NOT_FOUND");
    let e = refusal_error("x", 409, Some("Conflict".to_string()), Some("taken".to_string()));
    assert_eq!(message(&e), "x failed: server returned HTTP 409 Conflict: taken");
}
