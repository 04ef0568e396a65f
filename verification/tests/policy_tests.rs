use icoding_client::config::PolicyConfig;
use icoding_client::error::{code, message, ErrorChain, IoKind};
use icoding_client::paths::join_path;
use icoding_client::policy::{
    absolutize, rebuild_under, reject_suspicious_components, write_walk_step, Existence,
    FsOperation, Normalization, Policy, ResolvedRoots, WalkStep,
};

fn roots() -> ResolvedRoots {
    ResolvedRoots {
        blocked: vec!["/home/me/.ssh".to_string()],
        allowed: vec!["/work".to_string(), "/home/me".to_string()],
    }
}

fn policy() -> Policy {
    Policy::new(PolicyConfig::with_defaults(Some("/work".to_string()), Some("/home/me".to_string())))
}

#[test]
fn paths_inside_allowed_roots_pass() {
    let p = policy();
    assert!(p.ensure_path_allowed("/work/src/main.rs", &roots(), FsOperation::Read).is_ok());
    assert!(p.ensure_path_allowed("/work", &roots(), FsOperation::List).is_ok());
}

#[test]
fn paths_outside_allowed_roots_are_refused() {
    let e = policy().ensure_path_allowed("/workshop/x", &roots(), FsOperation::Read).unwrap_err();
    assert_eq!(message(&e), "path is outside allowed roots: /workshop/x");
    assert_eq!(code(&e), "POLICY_DENIED");
}

#[test]
fn blocked_paths_win_over_allowed_roots() {
    let e = policy()
        .ensure_path_allowed("/home/me/.ssh/id_ed25519", &roots(), FsOperation::Read)
        .unwrap_err();
    assert_eq!(message(&e), "path is blocked by policy: /home/me/.ssh/id_ed25519");
    assert_eq!(code(&e), "POLICY_DENIED");
}

#[test]
fn parent_traversal_is_refused() {
    let e = policy().ensure_path_allowed("/work/../etc/passwd", &roots(), FsOperation::Read).unwrap_err();
    assert_eq!(message(&e), "path contains parent traversal: /work/../etc/passwd");
    assert!(reject_suspicious_components("a/../b").is_err());
    assert!(reject_suspicious_components("a/..b/c").is_ok());
}

#[test]
fn unresolved_paths_carry_the_reason() {
    let e = policy()
        .check_file_read(
            "missing.txt",
            Err(ErrorChain::io("No such file or directory (os error 2)".to_string(), IoKind::NotFound)),
            &roots(),
        )
        .unwrap_err();
    assert_eq!(
        message(&e),
        "failed to canonicalize missing.txt: No such file or directory (os error 2)"
    );
    assert_eq!(code(&e), "NOT_FOUND");
}

#[test]
fn each_operation_has_its_normalization() {
    assert_eq!(FsOperation::Write.normalization(), Normalization::ForWrite);
    assert_eq!(FsOperation::Read.normalization(), Normalization::Existing);
    assert_eq!(FsOperation::Delete.normalization(), Normalization::Existing);
    assert_eq!(FsOperation::List.normalization(), Normalization::Existing);
    let ok = policy()
        .check_dir_or_file("new.txt", Ok("/work/new.txt".to_string()), FsOperation::Write, &roots())
        .unwrap();
    assert_eq!(ok, "/work/new.txt");
    let w = policy().check_file_write(Ok("/etc/new".to_string()), &roots()).unwrap_err();
    assert_eq!(message(&w), "path is outside allowed roots: /etc/new");
}

#[test]
fn command_directories_are_checked() {
    let p = policy();
    assert_eq!(p.check_shell_exec(".", Ok("/work".to_string()), true, &roots()).unwrap(), "/work");
    let e = p.check_shell_exec(".", Ok("/work/file".to_string()), false, &roots()).unwrap_err();
    assert_eq!(message(&e), "command cwd is not a directory: /work/file");
    let mut config = PolicyConfig::with_defaults(Some("/work".to_string()), None);
    config.shell_exec_enabled = false;
    let off = Policy::new(config);
    let e = off.check_shell_exec(".", Ok("/work".to_string()), true, &roots()).unwrap_err();
    assert_eq!(message(&e), "shell execution is disabled by local policy");
    assert_eq!(code(&e), "POLICY_DENIED");
}

#[test]
fn relative_paths_are_made_absolute() {
    assert_eq!(absolutize("/abs", Ok("/work".to_string())).unwrap(), "/abs");
    assert_eq!(absolutize("rel/x", Ok("/work".to_string())).unwrap(), "/work/rel/x");
    assert!(absolutize("rel", Err(ErrorChain::msg("no cwd".to_string()))).is_err());
    assert_eq!(
        rebuild_under("/work".to_string(), &vec!["c.txt".to_string(), "b".to_string()]),
        "/work/b/c.txt"
    );
    assert_eq!(join_path("/work/", "x"), "/work/x");
    assert_eq!(join_path("/work", "/abs"), "/abs");
}

#[test]
fn the_policy_keeps_its_configuration() {
    let p = policy();
    assert_eq!(p.config().default_command_timeout_seconds, 300);
    let q = p.clone();
    assert_eq!(q.config().allowed_roots, vec!["/work".to_string()]);
}

#[test]
fn allowed_roots_themselves_are_not_deleted() {
    let p = policy();
    let e = p
        .check_dir_or_file("/work", Ok("/work".to_string()), FsOperation::Delete, &roots())
        .unwrap_err();
    assert_eq!(message(&e), "refusing to delete an allowed root: /work");
    assert_eq!(code(&e), "POLICY_DENIED");
    assert!(p.check_dir_or_file("/work/", Ok("/work/".to_string()), FsOperation::Delete, &roots()).is_err());
    assert!(p.check_dir_or_file("/work", Ok("/work".to_string()), FsOperation::List, &roots()).is_ok());
    assert!(p
        .check_dir_or_file("/work/old", Ok("/work/old".to_string()), FsOperation::Delete, &roots())
        .is_ok());
}

#[test]
fn writes_never_follow_a_dangling_link() {
    assert_eq!(write_walk_step("/work/a", Existence::Exists, true, true).unwrap(), WalkStep::Resolve);
    assert_eq!(write_walk_step("/work/a", Existence::Missing, true, true).unwrap(), WalkStep::Climb);
    let e = write_walk_step("/work/link", Existence::DanglingLink, true, true).unwrap_err();
    assert_eq!(message(&e), "path is a dangling symbolic link: /work/link");
    assert_eq!(code(&e), "POLICY_DENIED");
    let e = write_walk_step("/", Existence::Missing, false, false).unwrap_err();
    assert_eq!(message(&e), "path must include a file or directory name");
    let e = write_walk_step("x", Existence::Missing, true, false).unwrap_err();
    assert_eq!(message(&e), "failed to find existing parent directory");
}

#[test]
fn unresolvable_policy_paths_are_left_out_in_order() {
    let blocked = vec![
        Err(ErrorChain::io("No such file or directory (os error 2)".to_string(), IoKind::NotFound)),
        Ok("/home/me/.ssh".to_string()),
    ];
    let allowed = vec![
        Ok("/work".to_string()),
        Err(ErrorChain::msg("gone".to_string())),
        Ok("/home/me".to_string()),
    ];
    let r = ResolvedRoots::from_resolutions(&blocked, &allowed);
    assert_eq!(r.blocked, vec!["/home/me/.ssh".to_string()]);
    assert_eq!(r.allowed, vec!["/work".to_string(), "/home/me".to_string()]);
}
