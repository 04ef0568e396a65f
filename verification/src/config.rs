//! The client's configuration: server endpoints, client settings and the
//! local policy, with their defaults and the migrations applied on load.
use vstd::prelude::*;

use crate::device::string_array;
use crate::error::{ErrorChain, Source};
use crate::json::{members_view, object, Json, JsonView};
use crate::i18n::{opt_view, Language};
use crate::outside::{fresh_uuid_hex, is_lower_hex_digit};
use crate::paths::join_path;
use crate::text::{
    chars_eq, chars_of, concat, slice_range, lines, lines_of, split_once, split_once_chars, strip_bounds,
    strip_end, strip_start, trim, trim_chars, views, CharClass,
};

verus! {

pub const DEFAULT_API_BASE_URL: &'static str = "https://apilite.icoding.ink";

pub const DEFAULT_WS_URL: &'static str = "wss://apilite.icoding.ink/api/v1/agent/ws";

pub open spec fn default_api_base_url() -> Seq<char> {
    "https://apilite.icoding.ink"@
}

pub open spec fn default_ws_url() -> Seq<char> {
    "wss://apilite.icoding.ink/api/v1/agent/ws"@
}

pub open spec fn strings(v: Seq<String>) -> Seq<Seq<char>> {
    v.map_values(|s: String| s@)
}

/// Where the client talks to the cloud.
#[derive(Debug)]
pub struct ServerConfig {
    pub api_base_url: String,
    pub ws_url: String,
}

pub struct ServerConfigView {
    pub api_base_url: Seq<char>,
    pub ws_url: Seq<char>,
}

impl View for ServerConfig {
    type V = ServerConfigView;

    open spec fn view(&self) -> ServerConfigView {
        ServerConfigView { api_base_url: self.api_base_url@, ws_url: self.ws_url@ }
    }
}

/// Settings of this client installation.
#[derive(Debug)]
pub struct ClientConfig {
    pub device_id: String,
    pub auto_start: bool,
    pub start_minimized: bool,
    pub log_level: String,
}

pub struct ClientConfigView {
    pub device_id: Seq<char>,
    pub auto_start: bool,
    pub start_minimized: bool,
    pub log_level: Seq<char>,
}

impl View for ClientConfig {
    type V = ClientConfigView;

    open spec fn view(&self) -> ClientConfigView {
        ClientConfigView {
            device_id: self.device_id@,
            auto_start: self.auto_start,
            start_minimized: self.start_minimized,
            log_level: self.log_level@,
        }
    }
}

/// The local policy: which paths may be touched and what may run.
#[derive(Debug)]
pub struct PolicyConfig {
    pub allowed_roots: Vec<String>,
    pub blocked_paths: Vec<String>,
    pub shell_exec_enabled: bool,
    pub max_file_read_bytes: u64,
    pub max_file_write_bytes: u64,
    pub max_command_output_bytes: u64,
    pub default_command_timeout_seconds: u64,
}

pub struct PolicyConfigView {
    pub allowed_roots: Seq<Seq<char>>,
    pub blocked_paths: Seq<Seq<char>>,
    pub shell_exec_enabled: bool,
    pub max_file_read_bytes: u64,
    pub max_file_write_bytes: u64,
    pub max_command_output_bytes: u64,
    pub default_command_timeout_seconds: u64,
}

impl View for PolicyConfig {
    type V = PolicyConfigView;

    open spec fn view(&self) -> PolicyConfigView {
        PolicyConfigView {
            allowed_roots: strings(self.allowed_roots@),
            blocked_paths: strings(self.blocked_paths@),
            shell_exec_enabled: self.shell_exec_enabled,
            max_file_read_bytes: self.max_file_read_bytes,
            max_file_write_bytes: self.max_file_write_bytes,
            max_command_output_bytes: self.max_command_output_bytes,
            default_command_timeout_seconds: self.default_command_timeout_seconds,
        }
    }
}

/// The whole configuration file.
#[derive(Debug)]
pub struct AppConfig {
    pub server: ServerConfig,
    pub client: ClientConfig,
    pub policy: PolicyConfig,
}

pub struct AppConfigView {
    pub server: ServerConfigView,
    pub client: ClientConfigView,
    pub policy: PolicyConfigView,
}

impl View for AppConfig {
    type V = AppConfigView;

    open spec fn view(&self) -> AppConfigView {
        AppConfigView { server: self.server@, client: self.client@, policy: self.policy@ }
    }
}

/// The local files and directories of the client.
#[derive(Debug)]
pub struct AppPaths {
    pub config_dir: String,
    pub data_dir: String,
    pub log_dir: String,
    pub config_file: String,
    pub session_file: String,
    pub token_file: String,
}

pub struct AppPathsView {
    pub config_dir: Seq<char>,
    pub data_dir: Seq<char>,
    pub log_dir: Seq<char>,
    pub config_file: Seq<char>,
    pub session_file: Seq<char>,
    pub token_file: Seq<char>,
}

impl View for AppPaths {
    type V = AppPathsView;

    open spec fn view(&self) -> AppPathsView {
        AppPathsView {
            config_dir: self.config_dir@,
            data_dir: self.data_dir@,
            log_dir: self.log_dir@,
            config_file: self.config_file@,
            session_file: self.session_file@,
            token_file: self.token_file@,
        }
    }
}

/// A copy of each string.
pub fn clone_strings(v: &Vec<String>) -> (res: Vec<String>)
    ensures
        strings(res@) == strings(v@),
{
    let mut res: Vec<String> = Vec::new();
    let mut i: usize = 0;
    while i < v.len()
        invariant
            i <= v.len(),
            strings(res@) =~= strings(v@).take(i as int),
        decreases v.len() - i,
    {
        let ghost before = strings(res@);
        res.push(v[i].clone());
        assert(strings(res@) =~= before.push(v@[i as int]@));
        i += 1;
    }
    assert(strings(v@).take(v.len() as int) =~= strings(v@));
    res
}

impl Clone for ServerConfig {
    fn clone(&self) -> (res: Self)
        ensures
            res@ == self@,
    {
        ServerConfig { api_base_url: self.api_base_url.clone(), ws_url: self.ws_url.clone() }
    }
}

impl Clone for ClientConfig {
    fn clone(&self) -> (res: Self)
        ensures
            res@ == self@,
    {
        ClientConfig {
            device_id: self.device_id.clone(),
            auto_start: self.auto_start,
            start_minimized: self.start_minimized,
            log_level: self.log_level.clone(),
        }
    }
}

impl Clone for PolicyConfig {
    fn clone(&self) -> (res: Self)
        ensures
            res@ == self@,
    {
        PolicyConfig {
            allowed_roots: clone_strings(&self.allowed_roots),
            blocked_paths: clone_strings(&self.blocked_paths),
            shell_exec_enabled: self.shell_exec_enabled,
            max_file_read_bytes: self.max_file_read_bytes,
            max_file_write_bytes: self.max_file_write_bytes,
            max_command_output_bytes: self.max_command_output_bytes,
            default_command_timeout_seconds: self.default_command_timeout_seconds,
        }
    }
}

impl Clone for AppConfig {
    fn clone(&self) -> (res: Self)
        ensures
            res@ == self@,
    {
        AppConfig {
            server: self.server.clone(),
            client: self.client.clone(),
            policy: self.policy.clone(),
        }
    }
}

impl Clone for AppPaths {
    fn clone(&self) -> (res: Self)
        ensures
            res@ == self@,
    {
        AppPaths {
            config_dir: self.config_dir.clone(),
            data_dir: self.data_dir.clone(),
            log_dir: self.log_dir.clone(),
            config_file: self.config_file.clone(),
            session_file: self.session_file.clone(),
            token_file: self.token_file.clone(),
        }
    }
}

/// Command execution is allowed unless the user turns it off.
pub fn default_shell_exec_enabled() -> (res: bool)
    ensures
        res,
{
    true
}

/// A fresh device identifier: `dev_` and 32 lowercase hexadecimal digits.
pub fn new_device_id() -> (res: String)
    ensures
        res@.len() == 36,
        res@.take(4) == "dev_"@,
        forall|i: int| 4 <= i < 36 ==> is_lower_hex_digit(#[trigger] res@[i]),
{
    let hex = fresh_uuid_hex();
    let res = concat("dev_", hex.as_str());
    proof {
        reveal_strlit("dev_");
        assert(res@.take(4) =~= "dev_"@);
        assert forall|i: int| 4 <= i < 36 implies is_lower_hex_digit(#[trigger] res@[i]) by {
            assert(res@[i] == hex@[i - 4]);
        }
    }
    res
}

/// The policy's protected locations under a home directory.
pub open spec fn default_blocked(home: Option<Seq<char>>) -> Seq<Seq<char>> {
    match home {
        Some(h) => seq![
            crate::paths::join(h, ".ssh"@),
            crate::paths::join(h, ".gnupg"@),
            crate::paths::join(h, "Library/Keychains"@),
        ],
        None => seq![],
    }
}

/// The default policy: the working directory is the only allowed root, the
/// user's secret stores are blocked, command execution is on, reads and writes
/// are limited to 1 MiB, command output to 10 MiB and commands to 300 seconds.
pub open spec fn default_policy(current_dir: Option<Seq<char>>, home: Option<Seq<char>>) -> PolicyConfigView {
    PolicyConfigView {
        allowed_roots: match current_dir {
            Some(d) => seq![d],
            None => Seq::<Seq<char>>::empty(),
        },
        blocked_paths: default_blocked(home),
        shell_exec_enabled: true,
        max_file_read_bytes: 1_048_576,
        max_file_write_bytes: 1_048_576,
        max_command_output_bytes: 10_485_760,
        default_command_timeout_seconds: 300,
    }
}

impl PolicyConfig {
    /// The default policy, given the working directory (the only allowed root)
    /// and the user's home directory (whose secret stores are blocked), where
    /// either could be found.
    pub fn with_defaults(current_dir: Option<String>, home: Option<String>) -> (res: PolicyConfig)
        ensures
            res@ == default_policy(opt_view(current_dir), opt_view(home)),
    {
        let mut allowed_roots: Vec<String> = Vec::new();
        match current_dir {
            Some(d) => allowed_roots.push(d),
            None => {},
        }
        let mut blocked_paths: Vec<String> = Vec::new();
        match &home {
            Some(h) => {
                blocked_paths.push(join_path(h.as_str(), ".ssh"));
                blocked_paths.push(join_path(h.as_str(), ".gnupg"));
                blocked_paths.push(join_path(h.as_str(), "Library/Keychains"));
            },
            None => {},
        }
        let res = PolicyConfig {
            allowed_roots,
            blocked_paths,
            shell_exec_enabled: default_shell_exec_enabled(),
            max_file_read_bytes: 1_048_576,
            max_file_write_bytes: 1_048_576,
            max_command_output_bytes: 10_485_760,
            default_command_timeout_seconds: 300,
        };
        assert(res@.allowed_roots =~= default_policy(opt_view(current_dir), opt_view(home)).allowed_roots);
        assert(res@.blocked_paths =~= default_blocked(opt_view(home)));
        res
    }
}

impl ServerConfig {
    /// The production endpoints.
    pub fn defaults() -> (res: ServerConfig)
        ensures
            res@.api_base_url == default_api_base_url(),
            res@.ws_url == default_ws_url(),
    {
        ServerConfig {
            api_base_url: String::from_str(DEFAULT_API_BASE_URL),
            ws_url: String::from_str(DEFAULT_WS_URL),
        }
    }
}

/// The configured API base URL with surrounding whitespace and trailing
/// slashes removed.
pub open spec fn normalized_api_base(s: Seq<char>) -> Seq<char> {
    strip_end(trim(s), CharClass::Exactly('/'))
}

/// Whether a configuration names the production endpoints, up to surrounding
/// whitespace and trailing slashes of the API base URL.
pub open spec fn names_default_endpoints(server: ServerConfigView) -> bool {
    normalized_api_base(server.api_base_url) == default_api_base_url() && trim(server.ws_url)
        == default_ws_url()
}

/// Whether a raw configuration file still holds one of the retired approval
/// settings as a key (`approval_required_for_shell` or
/// `approval_required_for_delete` before an `=` on some line).
pub open spec fn has_legacy_approval_settings(raw: Seq<char>) -> bool {
    exists|i: int|
        0 <= i < lines(raw).len() && match #[trigger] split_once(lines(raw)[i], '=') {
            Some((key, _)) => trim(key) == "approval_required_for_shell"@ || trim(key)
                == "approval_required_for_delete"@,
            None => false,
        }
}

fn is_legacy_key(line: &[char]) -> (res: bool)
    ensures
        res == match split_once(line@, '=') {
            Some((key, _)) => trim(key) == "approval_required_for_shell"@ || trim(key)
                == "approval_required_for_delete"@,
            None => false,
        },
{
    match split_once_chars(line, '=') {
        Some((key, _)) => {
            let k = trim_chars(key.as_slice());
            let shell = chars_of("approval_required_for_shell");
            let delete = chars_of("approval_required_for_delete");
            chars_eq(k.as_slice(), shell.as_slice()) || chars_eq(k.as_slice(), delete.as_slice())
        },
        None => false,
    }
}

/// Whether a raw configuration file still holds one of the retired approval settings.
pub fn contains_legacy_approval_settings(raw: &str) -> (res: bool)
    ensures
        res == has_legacy_approval_settings(raw@),
{
    let cs = chars_of(raw);
    let ls = lines_of(cs.as_slice());
    let mut i: usize = 0;
    while i < ls.len()
        invariant
            i <= ls.len(),
            views(ls@) == lines(raw@),
            forall|j: int|
                0 <= j < i ==> !match #[trigger] split_once(lines(raw@)[j], '=') {
                    Some((key, _)) => trim(key) == "approval_required_for_shell"@ || trim(key)
                        == "approval_required_for_delete"@,
                    None => false,
                },
        decreases ls.len() - i,
    {
        assert(ls@[i as int]@ == lines(raw@)[i as int]);
        if is_legacy_key(ls[i].as_slice()) {
            return true;
        }
        i += 1;
    }
    false
}

/// What bringing a loaded configuration `before`, read from the file text
/// `raw`, up to date makes of it (`after`), and whether the file has to be
/// written back. Only the fresh device identifier is left open: it is
/// `dev_` followed by 32 more characters.
pub open spec fn migrated(
    before: AppConfigView,
    raw: Seq<char>,
    after: AppConfigView,
    needs_save: bool,
) -> bool {
    &&& after.policy == PolicyConfigView {
        shell_exec_enabled: has_legacy_approval_settings(raw) || before.policy.shell_exec_enabled,
        ..before.policy
    }
    &&& after.server == if names_default_endpoints(before.server) {
        before.server
    } else {
        ServerConfigView { api_base_url: default_api_base_url(), ws_url: default_ws_url() }
    }
    &&& if trim(before.client.device_id).len() == 0 {
        &&& after.client.device_id.take(4) == "dev_"@
        &&& after.client.device_id.len() == 36
    } else {
        after.client.device_id == before.client.device_id
    }
    &&& after.client.auto_start == before.client.auto_start
    &&& after.client.start_minimized == before.client.start_minimized
    &&& after.client.log_level == before.client.log_level
    &&& needs_save == (has_legacy_approval_settings(raw) || !names_default_endpoints(before.server)
        || trim(before.client.device_id).len() == 0)
}

impl AppConfig {
    /// The default configuration with a fresh device identifier.
    pub fn with_defaults(current_dir: Option<String>, home: Option<String>) -> (res: AppConfig)
        ensures
            res@.server.api_base_url == default_api_base_url(),
            res@.server.ws_url == default_ws_url(),
            res@.client.device_id.take(4) == "dev_"@,
            res@.client.device_id.len() == 36,
            res.client.auto_start,
            res.client.start_minimized,
            res@.client.log_level == "info"@,
            res@.policy == default_policy(opt_view(current_dir), opt_view(home)),
    {
        let policy = PolicyConfig::with_defaults(current_dir, home);
        AppConfig {
            server: ServerConfig::defaults(),
            client: ClientConfig {
                device_id: new_device_id(),
                auto_start: true,
                start_minimized: true,
                log_level: String::from_str("info"),
            },
            policy,
        }
    }

    /// Points the client back at the production endpoints.
    pub fn reset_server_endpoints(&mut self)
        ensures
            final(self)@.server.api_base_url == default_api_base_url(),
            final(self)@.server.ws_url == default_ws_url(),
            final(self)@.client == old(self)@.client,
            final(self)@.policy == old(self)@.policy,
    {
        self.server = ServerConfig::defaults();
    }

    /// Replaces endpoints other than the production ones by the production
    /// ones; says whether anything changed. Endpoints that differ from the
    /// production ones only by surrounding whitespace or trailing slashes of
    /// the API base URL are left as written.
    pub fn normalize_server_endpoints(&mut self) -> (changed: bool)
        ensures
            changed == !names_default_endpoints(old(self)@.server),
            changed ==> final(self)@.server.api_base_url == default_api_base_url()
                && final(self)@.server.ws_url == default_ws_url(),
            !changed ==> final(self)@.server == old(self)@.server,
            final(self)@.client == old(self)@.client,
            final(self)@.policy == old(self)@.policy,
    {
        let api = chars_of(self.server.api_base_url.as_str());
        let api_trimmed = trim_chars(api.as_slice());
        let (a, b) = strip_bounds(api_trimmed.as_slice(), CharClass::Exactly('/'), false, true);
        let ws = chars_of(self.server.ws_url.as_str());
        let ws_trimmed = trim_chars(ws.as_slice());
        let default_api = chars_of(DEFAULT_API_BASE_URL);
        let default_ws = chars_of(DEFAULT_WS_URL);
        let api_base = slice_range(api_trimmed.as_slice(), a, b);
        let api_is_default = chars_eq(api_base.as_slice(), default_api.as_slice());
        proof {
            assert(api_base@ == normalized_api_base(
                self.server.api_base_url@,
            ));
        }
        if api_is_default && chars_eq(ws_trimmed.as_slice(), default_ws.as_slice()) {
            return false;
        }
        self.reset_server_endpoints();
        true
    }

    /// Endpoint overrides from the command line or environment are not
    /// honoured: the client always talks to the production endpoints.
    pub fn apply_server_override(&mut self, api_base_url: Option<String>, ws_url: Option<String>)
        ensures
            final(self)@.server.api_base_url == default_api_base_url(),
            final(self)@.server.ws_url == default_ws_url(),
            final(self)@.client == old(self)@.client,
            final(self)@.policy == old(self)@.policy,
    {
        self.reset_server_endpoints();
    }

    /// Brings a configuration read from `raw` up to date: a file that still
    /// holds retired approval settings gets command execution turned back on,
    /// endpoints other than the production ones are replaced, and an empty
    /// device identifier is replaced by a fresh one. Says whether the file
    /// needs to be written back.
    pub fn migrate_loaded(&mut self, raw: &str) -> (needs_save: bool)
        ensures
            migrated(old(self)@, raw@, final(self)@, needs_save),
            names_default_endpoints(final(self)@.server),
            trim(final(self)@.client.device_id).len() != 0,
    {
        proof {
            law_normalization_is_stable(old(self)@.server);
        }
        let mut needs_save = false;
        if contains_legacy_approval_settings(raw) {
            self.policy.shell_exec_enabled = true;
            needs_save = true;
        }
        let changed = self.normalize_server_endpoints();
        needs_save = needs_save || changed;
        let id = chars_of(self.client.device_id.as_str());
        let trimmed = trim_chars(id.as_slice());
        if trimmed.len() == 0 {
            self.client.device_id = new_device_id();
            needs_save = true;
            proof {
                reveal_strlit("dev_");
                assert(self.client.device_id@[0] == self.client.device_id@.take(4)[0]);
                crate::text::lemma_not_blank(self.client.device_id@);
            }
        }
        needs_save
    }
}

impl PolicyConfig {
    /// Replaces the allowed roots (already resolved to directories); an empty
    /// list is refused and leaves the policy unchanged.
    pub fn set_roots(&mut self, roots: Vec<String>, language: Language) -> (res: Result<
        (),
        ErrorChain,
    >)
        ensures
            roots@.len() == 0 <==> res is Err,
            res is Ok ==> final(self)@.allowed_roots == strings(roots@),
            res is Err ==> final(self)@ == old(self)@,
            final(self)@.blocked_paths == old(self)@.blocked_paths,
            final(self)@.shell_exec_enabled == old(self)@.shell_exec_enabled,
    {
        if roots.len() == 0 {
            return Err(
                ErrorChain::msg(
                    String::from_str(
                        language.select("provide at least one root directory", "请至少提供一个根目录"),
                    ),
                ),
            );
        }
        self.allowed_roots = roots;
        Ok(())
    }

    /// Adds an allowed root unless it is already listed.
    pub fn add_root(&mut self, root: String)
        ensures
            strings(old(self).allowed_roots@).contains(root@) ==> final(self)@.allowed_roots
                == old(self)@.allowed_roots,
            !strings(old(self).allowed_roots@).contains(root@) ==> final(self)@.allowed_roots
                == old(self)@.allowed_roots.push(root@),
            final(self)@.blocked_paths == old(self)@.blocked_paths,
            final(self)@.shell_exec_enabled == old(self)@.shell_exec_enabled,
    {
        let mut i: usize = 0;
        while i < self.allowed_roots.len()
            invariant
                i <= self.allowed_roots.len(),
                forall|j: int| 0 <= j < i ==> self.allowed_roots@[j]@ != root@,
            decreases self.allowed_roots.len() - i,
        {
            if self.allowed_roots[i] == root {
                assert(strings(self.allowed_roots@)[i as int] == root@);
                return;
            }
            i += 1;
        }
        assert(!strings(self.allowed_roots@).contains(root@)) by {
            assert forall|j: int| 0 <= j < strings(self.allowed_roots@).len() implies strings(
                self.allowed_roots@,
            )[j] != root@ by {
                assert(strings(self.allowed_roots@)[j] == self.allowed_roots@[j]@);
            }
        }
        let ghost before = strings(self.allowed_roots@);
        self.allowed_roots.push(root);
        assert(strings(self.allowed_roots@) =~= before.push(root@));
    }

    /// Removes every listing of an allowed root; refuses when none would be left.
    pub fn remove_root(&mut self, root: &String, language: Language) -> (res: Result<
        (),
        ErrorChain,
    >)
        ensures
            final(self)@.allowed_roots == old(self)@.allowed_roots.filter(
                |r: Seq<char>| r != root@,
            ),
            res is Err <==> final(self)@.allowed_roots.len() == 0,
            final(self)@.blocked_paths == old(self)@.blocked_paths,
            final(self)@.shell_exec_enabled == old(self)@.shell_exec_enabled,
    {
        let ghost keep = |r: Seq<char>| r != root@;
        let ghost before = strings(self.allowed_roots@);
        let mut kept: Vec<String> = Vec::new();
        let mut i: usize = 0;
        while i < self.allowed_roots.len()
            invariant
                i <= self.allowed_roots.len(),
                before == strings(self.allowed_roots@),
                keep == (|r: Seq<char>| r != root@),
                strings(kept@) == before.take(i as int).filter(keep),
            decreases self.allowed_roots.len() - i,
        {
            let ghost prev = strings(kept@);
            assert(before.take(i + 1).drop_last() == before.take(i as int));
            assert(before.take(i + 1).last() == self.allowed_roots@[i as int]@);
            reveal(Seq::filter);
            if self.allowed_roots[i] != *root {
                kept.push(self.allowed_roots[i].clone());
                assert(strings(kept@) =~= prev.push(self.allowed_roots@[i as int]@));
            }
            i += 1;
        }
        assert(before.take(before.len() as int) == before);
        self.allowed_roots = kept;
        if self.allowed_roots.len() == 0 {
            return Err(
                ErrorChain::msg(
                    String::from_str(
                        language.select("allowed roots cannot be empty", "允许目录不能为空"),
                    ),
                ),
            );
        }
        Ok(())
    }

    /// Turns command execution on when `enable` is given and off when
    /// `disable` is given (the latter wins when both are).
    pub fn set_shell(&mut self, enable: bool, disable: bool)
        ensures
            final(self)@.shell_exec_enabled == if disable {
                false
            } else if enable {
                true
            } else {
                old(self)@.shell_exec_enabled
            },
            final(self)@.allowed_roots == old(self)@.allowed_roots,
            final(self)@.blocked_paths == old(self)@.blocked_paths,
    {
        if enable {
            self.shell_exec_enabled = true;
        }
        if disable {
            self.shell_exec_enabled = false;
        }
    }
}

impl AppPaths {
    /// The layout under one root directory (the `ICODING_CLIENT_HOME` case):
    /// `config/`, `data/` and `logs/`.
    pub fn under_root(root: &str) -> (res: AppPaths)
        ensures
            res@.config_dir == crate::paths::join(root@, "config"@),
            res@.data_dir == crate::paths::join(root@, "data"@),
            res@.log_dir == crate::paths::join(root@, "logs"@),
            res@.config_file == crate::paths::join(res@.config_dir, "config.toml"@),
            res@.session_file == crate::paths::join(res@.data_dir, "session.json"@),
            res@.token_file == crate::paths::join(res@.data_dir, "session.token"@),
    {
        let config_dir = join_path(root, "config");
        let data_dir = join_path(root, "data");
        let log_dir = join_path(root, "logs");
        AppPaths {
            config_file: join_path(config_dir.as_str(), "config.toml"),
            session_file: join_path(data_dir.as_str(), "session.json"),
            token_file: join_path(data_dir.as_str(), "session.token"),
            config_dir,
            data_dir,
            log_dir,
        }
    }

    /// The layout in the platform's application directories.
    pub fn in_platform_dirs(config_dir: String, data_dir: String, data_local_dir: &str) -> (res:
        AppPaths)
        ensures
            res@.config_dir == config_dir@,
            res@.data_dir == data_dir@,
            res@.log_dir == crate::paths::join(data_local_dir@, "logs"@),
            res@.config_file == crate::paths::join(config_dir@, "config.toml"@),
            res@.session_file == crate::paths::join(data_dir@, "session.json"@),
            res@.token_file == crate::paths::join(data_dir@, "session.token"@),
    {
        AppPaths {
            config_file: join_path(config_dir.as_str(), "config.toml"),
            session_file: join_path(data_dir.as_str(), "session.json"),
            token_file: join_path(data_dir.as_str(), "session.token"),
            log_dir: join_path(data_local_dir, "logs"),
            config_dir,
            data_dir,
        }
    }
}

/// Strings as a JSON array.
pub open spec fn text_array(v: Seq<Seq<char>>) -> JsonView {
    JsonView::Array(v.map_values(|r: Seq<char>| JsonView::Str(r)))
}

/// The local policy as `policy show` prints it.
pub open spec fn policy_json(p: PolicyConfigView) -> JsonView {
    JsonView::Object(
        seq![
            ("allowed_roots"@, text_array(p.allowed_roots)),
            ("blocked_paths"@, text_array(p.blocked_paths)),
            ("shell_exec_enabled"@, JsonView::Bool(p.shell_exec_enabled)),
            ("max_file_read_bytes"@, JsonView::UInt(p.max_file_read_bytes)),
            ("max_file_write_bytes"@, JsonView::UInt(p.max_file_write_bytes)),
            ("max_command_output_bytes"@, JsonView::UInt(p.max_command_output_bytes)),
            ("default_command_timeout_seconds"@, JsonView::UInt(p.default_command_timeout_seconds)),
        ],
    )
}

/// What is printed once a policy change is saved.
pub open spec fn policy_saved_json(p: PolicyConfigView) -> JsonView {
    JsonView::Object(
        seq![
            ("saved"@, JsonView::Bool(true)),
            ("policy"@, JsonView::Object(
                seq![
                    ("allowed_roots"@, text_array(p.allowed_roots)),
                    ("shell_exec_enabled"@, JsonView::Bool(p.shell_exec_enabled)),
                ],
            )),
        ],
    )
}

/// A directory given as an allowed root, once resolved: refused when it did
/// not resolve (with the reason) or is no directory.
pub fn checked_root(requested: &str, canonical: Result<String, ErrorChain>, is_dir: bool) -> (res:
    Result<String, ErrorChain>)
    ensures
        match canonical {
            Err(e) => res matches Err(r) && r@ == seq![
                ("failed to resolve root "@ + requested@, Source::Context),
            ] + e@,
            Ok(p) => if is_dir {
                res matches Ok(q) && q@ == p@
            } else {
                res matches Err(r) && r@ == seq![
                    ("allowed root must be a directory: "@ + p@, Source::Message),
                ]
            },
        },
{
    match canonical {
        Err(e) => Err(e.context(concat("failed to resolve root ", requested))),
        Ok(p) => if is_dir {
            Ok(p)
        } else {
            Err(ErrorChain::msg(concat("allowed root must be a directory: ", p.as_str())))
        },
    }
}

impl PolicyConfig {
    /// The policy as `policy show` prints it.
    pub fn to_json(&self) -> (res: Json)
        ensures
            res@ == policy_json(self@),
    {
        let roots = string_array(&self.allowed_roots);
        let blocked = string_array(&self.blocked_paths);
        let ghost (rv, bv) = (roots@, blocked@);
        let mut body: Vec<(String, Json)> = Vec::new();
        body.push((String::from_str("allowed_roots"), roots));
        body.push((String::from_str("blocked_paths"), blocked));
        body.push((String::from_str("shell_exec_enabled"), Json::Bool(self.shell_exec_enabled)));
        body.push((String::from_str("max_file_read_bytes"), Json::UInt(self.max_file_read_bytes)));
        body.push((String::from_str("max_file_write_bytes"), Json::UInt(self.max_file_write_bytes)));
        body.push(
            (String::from_str("max_command_output_bytes"), Json::UInt(self.max_command_output_bytes)),
        );
        body.push(
            (
                String::from_str("default_command_timeout_seconds"),
                Json::UInt(self.default_command_timeout_seconds),
            ),
        );
        assert(members_view(body@) =~= seq![
            ("allowed_roots"@, rv),
            ("blocked_paths"@, bv),
            ("shell_exec_enabled"@, JsonView::Bool(self.shell_exec_enabled)),
            ("max_file_read_bytes"@, JsonView::UInt(self.max_file_read_bytes)),
            ("max_file_write_bytes"@, JsonView::UInt(self.max_file_write_bytes)),
            ("max_command_output_bytes"@, JsonView::UInt(self.max_command_output_bytes)),
            ("default_command_timeout_seconds"@, JsonView::UInt(self.default_command_timeout_seconds)),
        ]);
        object(body)
    }

    /// What is printed once a change of this policy is saved.
    pub fn saved_json(&self) -> (res: Json)
        ensures
            res@ == policy_saved_json(self@),
    {
        let roots = string_array(&self.allowed_roots);
        let ghost rv = roots@;
        let mut inner: Vec<(String, Json)> = Vec::new();
        inner.push((String::from_str("allowed_roots"), roots));
        inner.push((String::from_str("shell_exec_enabled"), Json::Bool(self.shell_exec_enabled)));
        assert(members_view(inner@) =~= seq![
            ("allowed_roots"@, rv),
            ("shell_exec_enabled"@, JsonView::Bool(self.shell_exec_enabled)),
        ]);
        let policy = object(inner);
        let ghost pv = policy@;
        let mut body: Vec<(String, Json)> = Vec::new();
        body.push((String::from_str("saved"), Json::Bool(true)));
        body.push((String::from_str("policy"), policy));
        assert(members_view(body@) =~= seq![("saved"@, JsonView::Bool(true)), ("policy"@, pv)]);
        object(body)
    }
}

impl AppPaths {
    /// The local files, as `config-path` prints them.
    pub fn files_json(&self) -> (res: Json)
        ensures
            res@ == JsonView::Object(
                seq![
                    ("config_file"@, JsonView::Str(self.config_file@)),
                    ("session_file"@, JsonView::Str(self.session_file@)),
                    ("token_file"@, JsonView::Str(self.token_file@)),
                    ("log_dir"@, JsonView::Str(self.log_dir@)),
                ],
            ),
    {
        let mut body: Vec<(String, Json)> = Vec::new();
        body.push((String::from_str("config_file"), Json::Str(self.config_file.clone())));
        body.push((String::from_str("session_file"), Json::Str(self.session_file.clone())));
        body.push((String::from_str("token_file"), Json::Str(self.token_file.clone())));
        body.push((String::from_str("log_dir"), Json::Str(self.log_dir.clone())));
        assert(members_view(body@) =~= seq![
            ("config_file"@, JsonView::Str(self.config_file@)),
            ("session_file"@, JsonView::Str(self.session_file@)),
            ("token_file"@, JsonView::Str(self.token_file@)),
            ("log_dir"@, JsonView::Str(self.log_dir@)),
        ]);
        object(body)
    }
}

/// The endpoints a normalization leaves behind count as the production
/// ones: normalizing a configuration a second time changes nothing.
pub proof fn law_normalization_is_stable(server: ServerConfigView)
    ensures
        names_default_endpoints(
            if names_default_endpoints(server) {
                server
            } else {
                ServerConfigView { api_base_url: default_api_base_url(), ws_url: default_ws_url() }
            },
        ),
{
    reveal_strlit("https://apilite.icoding.ink");
    reveal_strlit("wss://apilite.icoding.ink/api/v1/agent/ws");
    let api = default_api_base_url();
    let ws = default_ws_url();
    assert(strip_start(api, CharClass::Whitespace) == api);
    assert(strip_end(api, CharClass::Whitespace) == api);
    assert(strip_end(api, CharClass::Exactly('/')) == api);
    assert(strip_start(ws, CharClass::Whitespace) == ws);
    assert(strip_end(ws, CharClass::Whitespace) == ws);
}

/// Adding an allowed root and then removing it leaves exactly the other
/// roots there were before, and the root is no longer allowed.
pub proof fn law_add_then_remove_root(roots: Seq<Seq<char>>, root: Seq<char>)
    ensures
        (if roots.contains(root) {
            roots
        } else {
            roots.push(root)
        }).filter(|r: Seq<char>| r != root) == roots.filter(|r: Seq<char>| r != root),
        !roots.filter(|r: Seq<char>| r != root).contains(root),
{
    let keep = |r: Seq<char>| r != root;
    if !roots.contains(root) {
        reveal(Seq::filter);
        assert(roots.push(root).drop_last() =~= roots);
        assert(roots.push(root).filter(keep) == roots.filter(keep));
    }
    broadcast use vstd::seq_lib::group_filter_ensures;

    if roots.filter(keep).contains(root) {
        let i = choose|i: int| 0 <= i < roots.filter(keep).len() && roots.filter(keep)[i] == root;
        assert(keep(roots.filter(keep)[i]));
    }
}

/// A configuration that a load has brought up to date, written back and
/// read again from a file that holds none of the retired approval keys, is
/// taken as it is: the second load changes nothing and writes nothing.
pub proof fn law_reload_is_stable(
    before: AppConfigView,
    raw: Seq<char>,
    first: AppConfigView,
    first_save: bool,
    raw_again: Seq<char>,
    second: AppConfigView,
    second_save: bool,
)
    requires
        migrated(before, raw, first, first_save),
        migrated(first, raw_again, second, second_save),
        !has_legacy_approval_settings(raw_again),
    ensures
        !second_save,
        second == first,
{
    law_normalization_is_stable(before.server);
    if trim(before.client.device_id).len() == 0 {
        reveal_strlit("dev_");
        assert(first.client.device_id[0] == first.client.device_id.take(4)[0]);
        crate::text::lemma_not_blank(first.client.device_id);
    }
    assert(second.client == first.client);
}

/// A freshly created configuration, read back from a file that holds none
/// of the retired approval keys, is taken as it is: the load changes nothing
/// and writes nothing.
pub proof fn law_created_config_is_stable(
    created: AppConfigView,
    raw: Seq<char>,
    loaded: AppConfigView,
    needs_save: bool,
)
    requires
        created.server.api_base_url == default_api_base_url(),
        created.server.ws_url == default_ws_url(),
        created.client.device_id.take(4) == "dev_"@,
        created.client.device_id.len() == 36,
        migrated(created, raw, loaded, needs_save),
        !has_legacy_approval_settings(raw),
    ensures
        !needs_save,
        loaded == created,
{
    law_normalization_is_stable(
        ServerConfigView { api_base_url: default_api_base_url(), ws_url: default_ws_url() },
    );
    assert(created.server == ServerConfigView {
        api_base_url: default_api_base_url(),
        ws_url: default_ws_url(),
    });
    reveal_strlit("dev_");
    assert(created.client.device_id[0] == created.client.device_id.take(4)[0]);
    crate::text::lemma_not_blank(created.client.device_id);
    assert(loaded.client == created.client);
}

} // verus!
