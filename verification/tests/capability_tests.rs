use icoding_client::capabilities::fs::{
    content_match, default_encoding, default_limit, default_search_mode, default_write_mode,
    is_hidden_below,
    delete_action, done_json, ensure_destination_free, ensure_read_size, ensure_unchanged,
    entry_json, filename_match, is_hidden, move_json, read_result, search_mode, sha256_hex,
    utf8_bytes, write_action, write_encoding, write_result, DeleteAction, EntryInfo,
    FsCapabilities, Listing, SearchMode, WriteAction,
};
use icoding_client::capabilities::process::{
    cancel_result, cancel_signal, check_command, command_line, default_shell, default_signal,
    shell_command, truncate_utf8_lossy, ExecOutcome, ExecRequest, ProcessCapabilities, Signal,
};
use icoding_client::capabilities::{Capability, CapabilityDispatcher};
use icoding_client::config::{AppConfig, PolicyConfig};
use icoding_client::device::{string_array, SystemInfo};
use icoding_client::error::{code, message, ErrorChain, IoKind};
use icoding_client::i18n::Language;
use icoding_client::json::Json;
use icoding_client::policy::{Policy, ResolvedRoots};

fn policy() -> Policy {
    Policy::new(PolicyConfig::with_defaults(Some("/work".to_string()), None))
}

fn roots() -> ResolvedRoots {
    ResolvedRoots { blocked: vec![], allowed: vec!["/work".to_string()] }
}

fn str_at<'a>(j: &'a Json, key: &str) -> Option<&'a str> {
    j.get(key).and_then(|v| v.as_str())
}

#[test]
fn list_error_names_capability_and_keeps_not_found() {
    let error = Capability::FsList.failed(
        ErrorChain::io("No such file or directory (os error 2)".to_string(), IoKind::NotFound)
            .context("failed to canonicalize /work/missing-1".to_string()),
    );
    let rendered = message(&error);
    assert_eq!(code(&error), "NOT_FOUND");
    assert!(rendered.contains("fs.list failed"));
    assert!(rendered.contains("/work/missing-1"));
    assert!(rendered.contains("No such file"));
}

#[test]
fn invalid_parameters_keep_the_parse_reason() {
    let error = Capability::FsList.failed(
        ErrorChain::json("missing field `path`".to_string())
            .context("invalid fs.list parameters".to_string()),
    );
    let rendered = message(&error);
    assert_eq!(code(&error), "INVALID_ARGUMENT");
    assert!(rendered.contains("invalid fs.list parameters"));
    assert!(rendered.contains("missing field `path`"));
}

#[test]
fn capabilities_are_found_by_name() {
    for c in [
        Capability::SystemInfo,
        Capability::FsStat,
        Capability::FsList,
        Capability::FsRead,
        Capability::FsWrite,
        Capability::FsMkdir,
        Capability::FsMove,
        Capability::FsDelete,
        Capability::FsSearch,
        Capability::ProcessExec,
        Capability::ProcessCancel,
    ] {
        assert_eq!(Capability::from_name(c.name()).unwrap(), c);
    }
    let e = Capability::from_name("process.kill").unwrap_err();
    assert_eq!(message(&e), "unsupported capability: process.kill");
    assert_eq!(code(&e), "UNSUPPORTED_CAPABILITY");
}

#[test]
fn announced_capabilities_are_served() {
    let announced = icoding_client::device::default_capabilities();
    for name in &announced {
        assert_eq!(Capability::from_name(name).unwrap().name(), name.as_str());
    }
}

#[test]
fn dispatcher_binds_every_capability_to_the_configuration() {
    let config = AppConfig::with_defaults(Some("/work".to_string()), None);
    let dispatcher = CapabilityDispatcher::new(config);
    assert_eq!(dispatcher.fs().policy().config().allowed_roots, vec!["/work".to_string()]);
    assert_eq!(dispatcher.process().policy().config().default_command_timeout_seconds, 300);
    assert!(dispatcher.system().config().client.device_id.starts_with("dev_"));
}

#[test]
fn system_info_reports_versions_and_capabilities() {
    let config = AppConfig::with_defaults(Some("/work".to_string()), None);
    let dispatcher = CapabilityDispatcher::new(config);
    let info = SystemInfo {
        hostname: "host".to_string(),
        platform: "linux".to_string(),
        os: "linux".to_string(),
        os_name: "Debian".to_string(),
        os_version: "12".to_string(),
        os_build: None,
        kernel_version: Some("6.1".to_string()),
        family: "unix".to_string(),
        arch: "x86_64".to_string(),
        username: "me".to_string(),
        timezone: "UTC".to_string(),
        locale: "en-US".to_string(),
        shell: None,
        current_dir: Some("/work".to_string()),
        executable_path: None,
    };
    let j = dispatcher.system().info(&info);
    assert_eq!(str_at(&j, "client_version"), Some("0.1.0"));
    assert_eq!(str_at(&j, "protocol_version"), Some("1.0"));
    assert_eq!(str_at(j.get("system").unwrap(), "hostname"), Some("host"));
    match j.get("capabilities") {
        Some(Json::Array(items)) => {
            assert_eq!(items.len(), 11);
            assert_eq!(items[10].as_str(), Some("process.cancel"));
        }
        _ => panic!("capabilities should be an array"),
    }
}

#[test]
fn read_limits_follow_the_policy() {
    let fs = FsCapabilities::new(policy());
    assert_eq!(fs.read_limit(None), 1_048_576);
    assert_eq!(fs.read_limit(Some(10)), 10);
    assert_eq!(fs.read_limit(Some(u64::MAX)), 1_048_576);
    assert!(ensure_read_size(10, 10).is_ok());
    let e = ensure_read_size(11, 10).unwrap_err();
    assert_eq!(message(&e), "file is too large: 11 bytes");
    assert_eq!(code(&e), "FILE_TOO_LARGE");
    assert_eq!(code(&Capability::FsRead.failed(e)), "FILE_TOO_LARGE");
}

#[test]
fn defaults_of_the_file_parameters() {
    assert_eq!(default_limit(), 200);
    assert_eq!(default_encoding(), "utf-8");
    assert_eq!(default_write_mode(), "overwrite");
    assert_eq!(default_search_mode(), "filename");
    assert_eq!(default_shell(), "default");
}

#[test]
fn hidden_names_start_with_a_dot() {
    assert!(is_hidden(Some(".git")));
    assert!(!is_hidden(Some("src")));
    assert!(!is_hidden(None));
}

#[test]
fn digests_are_lowercase_sha256_hex() {
    assert_eq!(
        sha256_hex(b"abc"),
        "ba7816bf8f01cfea414140de5dae2223b00361a396177a9cb410ff61f20015ad"
    );
}

#[test]
fn reads_report_text_or_base64() {
    let text = read_result("/work/a.txt", 5, b"hello".to_vec(), "utf-8").unwrap();
    assert_eq!(str_at(&text, "content"), Some("hello"));
    assert_eq!(str_at(&text, "encoding"), Some("utf-8"));
    assert!(matches!(text.get("size"), Some(Json::UInt(5))));
    let bin = read_result("/work/a.bin", 3, vec![0xff, 0x00, 0x10], "binary").unwrap();
    assert_eq!(str_at(&bin, "content_base64"), Some("/wAQ"));
    let e = read_result("/work/a.bin", 2, vec![0xff, 0xfe], "utf-8").unwrap_err();
    assert!(message(&e).starts_with("file is not valid utf-8: "));
}

#[test]
fn binary_content_read_can_be_written_back() {
    let fs = FsCapabilities::new(policy());
    let bytes = vec![0u8, 1, 2, 250, 251, 252];
    let read = read_result("/work/b", 6, bytes.clone(), "binary").unwrap();
    let b64 = str_at(&read, "content_base64").unwrap().to_string();
    assert_eq!(fs.write_content(true, None, Some(b64)).unwrap(), bytes);
}

#[test]
fn written_text_reads_back() {
    let fs = FsCapabilities::new(policy());
    let bytes = fs.write_content(false, Some("héllo".to_string()), None).unwrap();
    assert_eq!(bytes, utf8_bytes("héllo"));
    let read = read_result("/work/t", bytes.len() as u64, bytes, "utf-8").unwrap();
    assert_eq!(str_at(&read, "content"), Some("héllo"));
}

#[test]
fn write_content_errors() {
    let fs = FsCapabilities::new(policy());
    assert_eq!(message(&fs.write_content(true, None, None).unwrap_err()), "content_base64 is required");
    assert_eq!(message(&fs.write_content(false, None, None).unwrap_err()), "content is required");
    let e = fs.write_content(true, None, Some("***".to_string())).unwrap_err();
    assert!(message(&e).starts_with("invalid base64 content: "));
    assert_eq!(code(&e), "INVALID_ARGUMENT");
    let mut config = PolicyConfig::with_defaults(None, None);
    config.max_file_write_bytes = 3;
    let small = FsCapabilities::new(Policy::new(config));
    let e = small.write_content(false, Some("abcd".to_string()), None).unwrap_err();
    assert_eq!(message(&e), "write content is too large: 4 bytes");
}

#[test]
fn write_checks_encoding_mode_and_expected_digest() {
    assert_eq!(write_encoding("binary").unwrap(), true);
    assert_eq!(write_encoding("utf-8").unwrap(), false);
    assert_eq!(message(&write_encoding("latin1").unwrap_err()), "unsupported encoding: latin1");
    assert_eq!(write_action("overwrite", true, "/w/a").unwrap(), WriteAction::Replace);
    assert_eq!(write_action("create_new", false, "/w/a").unwrap(), WriteAction::Replace);
    assert_eq!(write_action("append", true, "/w/a").unwrap(), WriteAction::Append);
    let e = write_action("create_new", true, "/w/a").unwrap_err();
    assert_eq!(message(&e), "file already exists: /w/a");
    assert_eq!(code(&e), "CONFLICT");
    assert_eq!(message(&write_action("truncate", true, "/w/a").unwrap_err()), "unsupported write mode: truncate");
    assert!(ensure_unchanged(None, None).is_ok());
    assert!(ensure_unchanged(Some("aa"), Some("aa")).is_ok());
    let changed = ensure_unchanged(Some("aa"), Some("bb")).unwrap_err();
    assert_eq!(message(&changed), "file changed before write");
    assert_eq!(code(&changed), "FILE_CHANGED");
    assert!(ensure_unchanged(Some("aa"), None).is_err());
}

#[test]
fn write_and_move_reports() {
    let w = write_result("/w/a", "append", 3, None, "ff".to_string());
    assert!(w.get("previous_sha256").unwrap().is_null());
    assert!(matches!(w.get("bytes_written"), Some(Json::UInt(3))));
    let m = move_json("/w/a", "/w/b");
    assert_eq!(str_at(&m, "to"), Some("/w/b"));
    let d = done_json("/w/c", "deleted");
    assert!(matches!(d.get("deleted"), Some(Json::Bool(true))));
    assert!(ensure_destination_free("/w/b", false, false).is_ok());
    assert!(ensure_destination_free("/w/b", true, true).is_ok());
    let e = ensure_destination_free("/w/b", true, false).unwrap_err();
    assert_eq!(message(&e), "destination already exists: /w/b");
    assert_eq!(delete_action(true, true), DeleteAction::DirectoryTree);
    assert_eq!(delete_action(true, false), DeleteAction::EmptyDirectory);
    assert_eq!(delete_action(false, true), DeleteAction::File);
}

#[test]
fn entries_report_kind_size_and_digest() {
    let info = EntryInfo {
        name: Some("a.txt".to_string()),
        path: "/w/a.txt".to_string(),
        is_file: true,
        is_dir: false,
        is_symlink: false,
        len: 7,
        modified_at: Some("2024-01-01T00:00:00Z".to_string()),
        readonly: false,
    };
    let j = entry_json(&info, Some("abc".to_string()));
    assert_eq!(str_at(&j, "kind"), Some("file"));
    assert!(matches!(j.get("size"), Some(Json::UInt(7))));
    assert_eq!(str_at(&j, "sha256"), Some("abc"));
    let dir = EntryInfo { is_file: false, is_dir: true, name: None, ..info };
    let j = entry_json(&dir, None);
    assert_eq!(str_at(&j, "kind"), Some("directory"));
    assert!(j.get("size").unwrap().is_null());
    assert!(j.get("name").unwrap().is_null());
}

#[test]
fn listings_are_truncated_only_beyond_the_limit() {
    let mut exact = Listing::new(2);
    assert!(!exact.offer(Json::UInt(1)));
    assert!(!exact.offer(Json::UInt(2)));
    let j = exact.into_json("path", "/w", "entries");
    assert!(matches!(j.get("truncated"), Some(Json::Bool(false))));
    let mut more = Listing::new(2);
    more.offer(Json::UInt(1));
    more.offer(Json::UInt(2));
    assert!(more.offer(Json::UInt(3)));
    let j = more.into_json("path", "/w", "entries");
    assert!(matches!(j.get("truncated"), Some(Json::Bool(true))));
    match j.get("entries") {
        Some(Json::Array(items)) => assert_eq!(items.len(), 2),
        _ => panic!("entries should be an array"),
    }
}

#[test]
fn hidden_directories_hide_what_they_hold() {
    assert!(is_hidden_below("/w", "/w/.git/config"));
    assert!(is_hidden_below("/w", "/w/src/.env"));
    assert!(!is_hidden_below("/w", "/w/src/main.rs"));
    assert!(!is_hidden_below("/w/.config", "/w/.config/app.toml"));
    assert!(!is_hidden_below("/w", "/w"));
}

#[test]
fn cancellations_name_a_signal() {
    assert_eq!(default_signal(), "terminate");
    assert_eq!(cancel_signal("terminate").unwrap(), Signal::Terminate);
    assert_eq!(cancel_signal("kill").unwrap(), Signal::Kill);
    let e = cancel_signal("hup").unwrap_err();
    assert_eq!(message(&e), "unsupported signal: hup");
    let r = cancel_result("t-1", false);
    assert_eq!(str_at(&r, "task_id"), Some("t-1"));
    assert!(matches!(r.get("cancelled"), Some(Json::Bool(false))));
}

#[test]
fn searches_match_names_or_first_lines() {
    assert_eq!(search_mode("filename").unwrap(), SearchMode::Filename);
    assert_eq!(search_mode("content").unwrap(), SearchMode::Content);
    assert_eq!(message(&search_mode("regex").unwrap_err()), "unsupported search mode: regex");
    let m = filename_match("/w/main.rs", "main.rs", "main").unwrap();
    assert!(m.get("line").unwrap().is_null());
    assert_eq!(str_at(&m, "preview"), Some("main.rs"));
    assert!(filename_match("/w/lib.rs", "lib.rs", "main").is_none());
    let c = content_match("/w/a", "one\ntwo needle\nneedle three\n", "needle").unwrap();
    assert!(matches!(c.get("line"), Some(Json::UInt(2))));
    assert_eq!(str_at(&c, "preview"), Some("two needle"));
    assert!(content_match("/w/a", "nothing here", "needle").is_none());
}

#[test]
fn commands_are_checked_before_they_run() {
    assert!(check_command("ls -la").is_ok());
    let e = check_command("   ").unwrap_err();
    assert_eq!(message(&e), "command is empty");
    assert_eq!(code(&e), "INVALID_ARGUMENT");
    let (program, args) = shell_command("default", "echo hi", false).unwrap();
    assert_eq!(program, "sh");
    assert_eq!(args, vec!["-lc".to_string(), "echo hi".to_string()]);
    let (program, args) = shell_command("default", "dir", true).unwrap();
    assert_eq!(program, "cmd");
    assert_eq!(args, vec!["/C".to_string(), "dir".to_string()]);
    let e = shell_command("bash", "echo", false).unwrap_err();
    assert_eq!(message(&e), "only default shell is supported in this build");
}

#[test]
fn command_lines_are_joined_with_spaces() {
    let words = vec!["git".to_string(), "status".to_string(), "-s".to_string()];
    assert_eq!(command_line(&words, Language::English).unwrap(), "git status -s");
    let e = command_line(&vec![" ".to_string()], Language::English).unwrap_err();
    assert_eq!(message(&e), "command is required");
    let e = command_line(&Vec::new(), Language::Chinese).unwrap_err();
    assert_eq!(message(&e), "必须提供命令");
}

fn request(command: &str, timeout: Option<u64>, shell: &str) -> ExecRequest {
    ExecRequest {
        command: command.to_string(),
        cwd: ".".to_string(),
        timeout_seconds: timeout,
        env: vec![("A".to_string(), "1".to_string())],
        shell: shell.to_string(),
    }
}

#[test]
fn exec_plans_cap_the_time_and_keep_the_request() {
    let process = ProcessCapabilities::new(policy());
    assert_eq!(process.exec_timeout(None), 300);
    assert_eq!(process.exec_timeout(Some(5)), 5);
    assert_eq!(process.exec_timeout(Some(100_000)), 300);
    let plan = process
        .prepare(request("echo hi", Some(10), "default"), Ok("/work".to_string()), true, &roots(), false)
        .unwrap();
    assert_eq!(plan.program, "sh");
    assert_eq!(plan.cwd, "/work");
    assert_eq!(plan.timeout_seconds, 10);
    assert_eq!(plan.env, vec![("A".to_string(), "1".to_string())]);
}

#[test]
fn exec_refusals_come_in_order() {
    let process = ProcessCapabilities::new(policy());
    let e = process
        .prepare(request("  ", None, "bash"), Ok("/work".to_string()), true, &roots(), false)
        .unwrap_err();
    assert_eq!(message(&e), "command is empty");
    let e = process
        .prepare(request("ls", None, "bash"), Ok("/work".to_string()), true, &roots(), false)
        .unwrap_err();
    assert_eq!(message(&e), "only default shell is supported in this build");
    let e = process
        .prepare(request("ls", None, "default"), Ok("/etc".to_string()), true, &roots(), false)
        .unwrap_err();
    assert_eq!(message(&e), "path is outside allowed roots: /etc");
}

#[test]
fn exec_outcomes_are_reported() {
    let mut config = PolicyConfig::with_defaults(Some("/work".to_string()), None);
    config.max_command_output_bytes = 4;
    let process = ProcessCapabilities::new(Policy::new(config));
    let plan = process
        .prepare(request("echo hello", Some(7), "default"), Ok("/work".to_string()), true, &roots(), false)
        .unwrap();
    let report = process
        .finish(
            &plan,
            ExecOutcome::Exited {
                exit_code: Some(0),
                success: true,
                stdout: b"hello\n".to_vec(),
                stderr: b"ok".to_vec(),
            },
        )
        .unwrap();
    assert_eq!(str_at(&report, "stdout"), Some("hell"));
    assert_eq!(str_at(&report, "stderr"), Some("ok"));
    assert!(matches!(report.get("stdout_truncated"), Some(Json::Bool(true))));
    assert!(matches!(report.get("stderr_truncated"), Some(Json::Bool(false))));
    assert!(matches!(report.get("exit_code"), Some(Json::Int(0))));
    let e = process.finish(&plan, ExecOutcome::TimedOut).unwrap_err();
    assert_eq!(message(&e), "command timed out after 7 seconds: deadline has elapsed");
    assert_eq!(code(&e), "COMMAND_TIMED_OUT");
    let e = process
        .finish(&plan, ExecOutcome::Failed(ErrorChain::io("not found".to_string(), IoKind::NotFound)))
        .unwrap_err();
    assert_eq!(message(&e), "failed to execute command in /work: not found");
    assert_eq!(code(&e), "NOT_FOUND");
}

#[test]
fn output_is_cut_on_bytes_and_decoded_lossily() {
    assert_eq!(truncate_utf8_lossy("héllo".as_bytes(), 2), "h\u{fffd}");
    assert_eq!(truncate_utf8_lossy(b"abc", 10), "abc");
    assert_eq!(truncate_utf8_lossy(b"abc", 0), "");
}

#[test]
fn string_arrays() {
    match string_array(&vec!["a".to_string()]) {
        Json::Array(items) => assert_eq!(items[0].as_str(), Some("a")),
        _ => panic!("expected an array"),
    }
}
