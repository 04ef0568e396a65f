//! What the client tells the cloud about this device.
use vstd::prelude::*;

use crate::auth::{opt_string_view, User, UserView};
use crate::config::{clone_strings, strings, AppConfig, AppConfigView, PolicyConfig};
use crate::json::{members_view, object, opt_str, Json, JsonView};
use crate::text::{
    chars_eq, chars_of, lines, lines_of, split_once, split_once_chars, string_of, strip_bounds,
    strip_end, strip_start, trim, trim_chars, views, CharClass,
};

verus! {

/// The version of this client.
pub const CLIENT_VERSION: &'static str = "0.1.0";

/// Facts about the machine and its user.
#[derive(Debug)]
pub struct SystemInfo {
    pub hostname: String,
    pub platform: String,
    pub os: String,
    pub os_name: String,
    pub os_version: String,
    pub os_build: Option<String>,
    pub kernel_version: Option<String>,
    pub family: String,
    pub arch: String,
    pub username: String,
    pub timezone: String,
    pub locale: String,
    pub shell: Option<String>,
    pub current_dir: Option<String>,
    pub executable_path: Option<String>,
}

/// What the cloud is told about the local policy.
#[derive(Debug)]
pub struct PolicySummary {
    pub allowed_roots: Vec<String>,
    pub shell_exec_enabled: bool,
}

/// A device registration.
#[derive(Debug)]
pub struct DeviceRegisterRequest {
    pub device_id: String,
    pub device_name: String,
    pub client_version: String,
    pub protocol_version: String,
    pub user: User,
    pub system: SystemInfo,
    pub capabilities: Vec<String>,
    pub policy_summary: PolicySummary,
}

/// The capabilities this client offers, in the order they are announced.
pub open spec fn capability_names() -> Seq<Seq<char>> {
    seq![
        "system.info"@,
        "fs.stat"@,
        "fs.list"@,
        "fs.read"@,
        "fs.write"@,
        "fs.mkdir"@,
        "fs.move"@,
        "fs.delete"@,
        "fs.search"@,
        "process.exec"@,
        "process.cancel"@,
    ]
}

/// The capabilities this client offers.
pub fn default_capabilities() -> (res: Vec<String>)
    ensures
        strings(res@) == capability_names(),
{
    let mut v: Vec<String> = Vec::new();
    v.push(String::from_str("system.info"));
    v.push(String::from_str("fs.stat"));
    v.push(String::from_str("fs.list"));
    v.push(String::from_str("fs.read"));
    v.push(String::from_str("fs.write"));
    v.push(String::from_str("fs.mkdir"));
    v.push(String::from_str("fs.move"));
    v.push(String::from_str("fs.delete"));
    v.push(String::from_str("fs.search"));
    v.push(String::from_str("process.exec"));
    v.push(String::from_str("process.cancel"));
    assert(strings(v@) =~= capability_names());
    v
}

impl PolicySummary {
    /// The allowed roots and whether commands may run.
    pub fn from_policy(policy: &PolicyConfig) -> (res: PolicySummary)
        ensures
            strings(res.allowed_roots@) == policy@.allowed_roots,
            res.shell_exec_enabled == policy@.shell_exec_enabled,
    {
        PolicySummary {
            allowed_roots: clone_strings(&policy.allowed_roots),
            shell_exec_enabled: policy.shell_exec_enabled,
        }
    }

    pub fn to_json(&self) -> (res: Json)
        ensures
            res@ == JsonView::Object(
                seq![
                    ("allowed_roots"@, JsonView::Array(
                        strings(self.allowed_roots@).map_values(|r: Seq<char>| JsonView::Str(r)),
                    )),
                    ("shell_exec_enabled"@, JsonView::Bool(self.shell_exec_enabled)),
                ],
            ),
    {
        let roots = string_array(&self.allowed_roots);
        let ghost rv = roots@;
        let mut body: Vec<(String, Json)> = Vec::new();
        body.push((String::from_str("allowed_roots"), roots));
        body.push((String::from_str("shell_exec_enabled"), Json::Bool(self.shell_exec_enabled)));
        assert(members_view(body@) =~= seq![
            ("allowed_roots"@, rv),
            ("shell_exec_enabled"@, JsonView::Bool(self.shell_exec_enabled)),
        ]);
        object(body)
    }
}

/// A JSON array of strings.
pub fn string_array(v: &Vec<String>) -> (res: Json)
    ensures
        res@ == JsonView::Array(strings(v@).map_values(|r: Seq<char>| JsonView::Str(r))),
{
    let mut items: Vec<Json> = Vec::new();
    let mut i: usize = 0;
    while i < v.len()
        invariant
            i <= v.len(),
            items@.len() == i,
            forall|k: int| 0 <= k < i ==> items@[k]@ == JsonView::Str(v@[k]@),
        decreases v.len() - i,
    {
        items.push(Json::Str(v[i].clone()));
        i += 1;
    }
    let res = Json::Array(items);
    proof {
        let got = match res@ {
            JsonView::Array(x) => x,
            _ => Seq::empty(),
        };
        assert(got =~= strings(v@).map_values(|r: Seq<char>| JsonView::Str(r)));
    }
    res
}

fn opt_json(s: &Option<String>) -> (res: Json)
    ensures
        res@ == opt_str(opt_string_view(*s)),
{
    match s {
        Some(t) => Json::Str(t.clone()),
        None => Json::Null,
    }
}

/// A user as the protocol carries it.
pub open spec fn user_json(u: UserView) -> JsonView {
    JsonView::Object(
        seq![
            ("id"@, JsonView::UInt(u.id)),
            ("email"@, opt_str(u.email)),
            ("mobile"@, opt_str(u.mobile)),
            ("nicker"@, opt_str(u.nicker)),
            ("avatar"@, opt_str(u.avatar)),
        ],
    )
}

/// A user as the protocol carries it.
pub fn user_to_json(u: &User) -> (res: Json)
    ensures
        res@ == user_json(u@),
{
    let mut body: Vec<(String, Json)> = Vec::new();
    body.push((String::from_str("id"), Json::UInt(u.id)));
    body.push((String::from_str("email"), opt_json(&u.email)));
    body.push((String::from_str("mobile"), opt_json(&u.mobile)));
    body.push((String::from_str("nicker"), opt_json(&u.nicker)));
    body.push((String::from_str("avatar"), opt_json(&u.avatar)));
    assert(members_view(body@) =~= seq![
        ("id"@, JsonView::UInt(u.id)),
        ("email"@, opt_str(opt_string_view(u.email))),
        ("mobile"@, opt_str(opt_string_view(u.mobile))),
        ("nicker"@, opt_str(opt_string_view(u.nicker))),
        ("avatar"@, opt_str(opt_string_view(u.avatar))),
    ]);
    object(body)
}

/// The names of the system facts, in the order they are sent.
pub open spec fn system_fields() -> Seq<Seq<char>> {
    seq![
        "hostname"@,
        "platform"@,
        "os"@,
        "os_name"@,
        "os_version"@,
        "os_build"@,
        "kernel_version"@,
        "family"@,
        "arch"@,
        "username"@,
        "timezone"@,
        "locale"@,
        "shell"@,
        "current_dir"@,
        "executable_path"@,
    ]
}

impl SystemInfo {
    /// The values of the system facts, in the order of [`system_fields`].
    pub open spec fn field_values(&self) -> Seq<JsonView> {
        seq![
            JsonView::Str(self.hostname@),
            JsonView::Str(self.platform@),
            JsonView::Str(self.os@),
            JsonView::Str(self.os_name@),
            JsonView::Str(self.os_version@),
            opt_str(opt_string_view(self.os_build)),
            opt_str(opt_string_view(self.kernel_version)),
            JsonView::Str(self.family@),
            JsonView::Str(self.arch@),
            JsonView::Str(self.username@),
            JsonView::Str(self.timezone@),
            JsonView::Str(self.locale@),
            opt_str(opt_string_view(self.shell)),
            opt_str(opt_string_view(self.current_dir)),
            opt_str(opt_string_view(self.executable_path)),
        ]
    }

    /// The system facts as a JSON object, one member per fact.
    pub fn to_json(&self) -> (res: Json)
        ensures
            res@ == JsonView::Object(
                Seq::new(15, |i: int| (system_fields()[i], self.field_values()[i])),
            ),
    {
        let mut body: Vec<(String, Json)> = Vec::new();
        body.push((String::from_str("hostname"), Json::Str(self.hostname.clone())));
        body.push((String::from_str("platform"), Json::Str(self.platform.clone())));
        body.push((String::from_str("os"), Json::Str(self.os.clone())));
        body.push((String::from_str("os_name"), Json::Str(self.os_name.clone())));
        body.push((String::from_str("os_version"), Json::Str(self.os_version.clone())));
        body.push((String::from_str("os_build"), opt_json(&self.os_build)));
        body.push((String::from_str("kernel_version"), opt_json(&self.kernel_version)));
        body.push((String::from_str("family"), Json::Str(self.family.clone())));
        body.push((String::from_str("arch"), Json::Str(self.arch.clone())));
        body.push((String::from_str("username"), Json::Str(self.username.clone())));
        body.push((String::from_str("timezone"), Json::Str(self.timezone.clone())));
        body.push((String::from_str("locale"), Json::Str(self.locale.clone())));
        body.push((String::from_str("shell"), opt_json(&self.shell)));
        body.push((String::from_str("current_dir"), opt_json(&self.current_dir)));
        body.push((String::from_str("executable_path"), opt_json(&self.executable_path)));
        assert(members_view(body@) =~= Seq::new(
            15,
            |i: int| (system_fields()[i], self.field_values()[i]),
        ));
        object(body)
    }
}

/// The `client.register` payload for a device under `config`, signed in as
/// `user`, on a machine described by `system`.
pub open spec fn registration_json(config: AppConfigView, user: UserView, system: SystemInfo) -> JsonView {
    JsonView::Object(
        seq![
            ("device_id"@, JsonView::Str(config.client.device_id)),
            ("device_name"@, JsonView::Str(system.hostname@)),
            ("client_version"@, JsonView::Str(CLIENT_VERSION@)),
            ("protocol_version"@, JsonView::Str("1.0"@)),
            ("user"@, user_json(user)),
            ("system"@, JsonView::Object(
                Seq::new(15, |i: int| (system_fields()[i], system.field_values()[i])),
            )),
            ("capabilities"@, JsonView::Array(
                capability_names().map_values(|r: Seq<char>| JsonView::Str(r)),
            )),
            ("policy_summary"@, JsonView::Object(
                seq![
                    ("allowed_roots"@, JsonView::Array(
                        config.policy.allowed_roots.map_values(|r: Seq<char>| JsonView::Str(r)),
                    )),
                    ("shell_exec_enabled"@, JsonView::Bool(config.policy.shell_exec_enabled)),
                ],
            )),
        ],
    )
}

impl DeviceRegisterRequest {
    /// The registration of this device for `user`, given the facts collected
    /// about the machine: named after the host, with this client's version,
    /// protocol 1.0, every capability and a summary of the local policy.
    pub fn from_config(config: &AppConfig, user: User, system: SystemInfo) -> (res:
        DeviceRegisterRequest)
        ensures
            res.device_id@ == config@.client.device_id,
            res.device_name@ == system.hostname@,
            res.client_version@ == CLIENT_VERSION@,
            res.protocol_version@ == "1.0"@,
            res.user@ == user@,
            res.system == system,
            strings(res.capabilities@) == capability_names(),
            strings(res.policy_summary.allowed_roots@) == config@.policy.allowed_roots,
            res.policy_summary.shell_exec_enabled == config@.policy.shell_exec_enabled,
    {
        DeviceRegisterRequest {
            device_id: config.client.device_id.clone(),
            device_name: system.hostname.clone(),
            client_version: String::from_str(CLIENT_VERSION),
            protocol_version: String::from_str("1.0"),
            user,
            system,
            capabilities: default_capabilities(),
            policy_summary: PolicySummary::from_policy(&config.policy),
        }
    }

    /// The registration as the `client.register` payload carries it.
    pub fn to_json(&self) -> (res: Json)
        ensures
            res@ == JsonView::Object(
                seq![
                    ("device_id"@, JsonView::Str(self.device_id@)),
                    ("device_name"@, JsonView::Str(self.device_name@)),
                    ("client_version"@, JsonView::Str(self.client_version@)),
                    ("protocol_version"@, JsonView::Str(self.protocol_version@)),
                    ("user"@, user_json(self.user@)),
                    ("system"@, JsonView::Object(
                        Seq::new(15, |i: int| (system_fields()[i], self.system.field_values()[i])),
                    )),
                    ("capabilities"@, JsonView::Array(
                        strings(self.capabilities@).map_values(|r: Seq<char>| JsonView::Str(r)),
                    )),
                    ("policy_summary"@, JsonView::Object(
                        seq![
                            ("allowed_roots"@, JsonView::Array(
                                strings(self.policy_summary.allowed_roots@).map_values(
                                    |r: Seq<char>| JsonView::Str(r),
                                ),
                            )),
                            ("shell_exec_enabled"@, JsonView::Bool(
                                self.policy_summary.shell_exec_enabled,
                            )),
                        ],
                    )),
                ],
            ),
    {
        let user = user_to_json(&self.user);
        let system = self.system.to_json();
        let caps = string_array(&self.capabilities);
        let summary = self.policy_summary.to_json();
        let ghost (uv, sv, cv, pv) = (user@, system@, caps@, summary@);
        let mut body: Vec<(String, Json)> = Vec::new();
        body.push((String::from_str("device_id"), Json::Str(self.device_id.clone())));
        body.push((String::from_str("device_name"), Json::Str(self.device_name.clone())));
        body.push((String::from_str("client_version"), Json::Str(self.client_version.clone())));
        body.push((String::from_str("protocol_version"), Json::Str(self.protocol_version.clone())));
        body.push((String::from_str("user"), user));
        body.push((String::from_str("system"), system));
        body.push((String::from_str("capabilities"), caps));
        body.push((String::from_str("policy_summary"), summary));
        assert(members_view(body@) =~= seq![
            ("device_id"@, JsonView::Str(self.device_id@)),
            ("device_name"@, JsonView::Str(self.device_name@)),
            ("client_version"@, JsonView::Str(self.client_version@)),
            ("protocol_version"@, JsonView::Str(self.protocol_version@)),
            ("user"@, uv),
            ("system"@, sv),
            ("capabilities"@, cv),
            ("policy_summary"@, pv),
        ]);
        object(body)
    }
}

/// The text a helper command printed, without surrounding whitespace; none
/// when nothing is left.
pub fn command_text(output: &str) -> (res: Option<String>)
    ensures
        trim(output@).len() == 0 ==> res is None,
        trim(output@).len() != 0 ==> (res matches Some(t) && t@ == trim(output@)),
{
    let cs = chars_of(output);
    let t = trim_chars(cs.as_slice());
    if t.len() == 0 {
        None
    } else {
        Some(string_of(t.as_slice()))
    }
}

/// The `KEY=VALUE` lines of an os-release file, with quotes around values removed.
pub open spec fn os_release_pairs(raw: Seq<char>) -> Seq<(Seq<char>, Seq<char>)> {
    let ls = lines(raw);
    let kept = ls.filter(|l: Seq<char>| split_once(l, '=') is Some);
    kept.map_values(
        |l: Seq<char>|
            {
                let (k, v) = split_once(l, '=')->0;
                (k, strip_end(strip_start(v, CharClass::Exactly('"')), CharClass::Exactly('"')))
            },
    )
}

/// The value of the last pair named `key` (later lines override earlier ones).
pub open spec fn lookup(pairs: Seq<(Seq<char>, Seq<char>)>, key: Seq<char>) -> Option<Seq<char>>
    decreases pairs.len(),
{
    if pairs.len() == 0 {
        None
    } else if pairs.last().0 == key {
        Some(pairs.last().1)
    } else {
        lookup(pairs.drop_last(), key)
    }
}

/// Parses the lines of an os-release file into key/value pairs.
pub fn parse_os_release(raw: &str) -> (res: Vec<(String, String)>)
    ensures
        res@.map_values(|p: (String, String)| (p.0@, p.1@)) == os_release_pairs(raw@),
{
    let cs = chars_of(raw);
    let ls = lines_of(cs.as_slice());
    let ghost pred = |l: Seq<char>| split_once(l, '=') is Some;
    let ghost f = |l: Seq<char>|
        {
            let (k, v) = split_once(l, '=')->0;
            (k, strip_end(strip_start(v, CharClass::Exactly('"')), CharClass::Exactly('"')))
        };
    let mut res: Vec<(String, String)> = Vec::new();
    let mut i: usize = 0;
    while i < ls.len()
        invariant
            i <= ls.len(),
            views(ls@) == lines(raw@),
            pred == (|l: Seq<char>| split_once(l, '=') is Some),
            f == (|l: Seq<char>|
                {
                    let (k, v) = split_once(l, '=')->0;
                    (k, strip_end(strip_start(v, CharClass::Exactly('"')), CharClass::Exactly('"')))
                }),
            res@.map_values(|p: (String, String)| (p.0@, p.1@)) == views(ls@).take(i as int).filter(
                pred,
            ).map_values(f),
        decreases ls.len() - i,
    {
        let ghost before = res@.map_values(|p: (String, String)| (p.0@, p.1@));
        let ghost l = views(ls@)[i as int];
        assert(views(ls@).take(i + 1).drop_last() == views(ls@).take(i as int));
        assert(views(ls@).take(i + 1).last() == l);
        assert(ls@[i as int]@ == l);
        reveal(Seq::filter);
        match split_once_chars(ls[i].as_slice(), '=') {
            Some((k, v)) => {
                let (a, b) = strip_bounds(v.as_slice(), CharClass::Exactly('"'), true, true);
                let value = string_of(crate::text::slice_range(v.as_slice(), a, b).as_slice());
                res.push((string_of(k.as_slice()), value));
                proof {
                    let filtered = views(ls@).take(i as int).filter(pred);
                    assert(views(ls@).take(i + 1).filter(pred) == filtered.push(l));
                    assert(filtered.push(l).map_values(f) =~= filtered.map_values(f).push(f(l)));
                    assert(res@.map_values(|p: (String, String)| (p.0@, p.1@)) =~= before.push(
                        f(l),
                    ));
                }
            },
            None => {
                proof {
                    let filtered = views(ls@).take(i as int).filter(pred);
                    assert(views(ls@).take(i + 1).filter(pred) == filtered);
                }
            },
        }
        i += 1;
    }
    assert(views(ls@).take(ls@.len() as int) == views(ls@));
    res
}

fn lookup_exec(pairs: &Vec<(String, String)>, key: &str) -> (res: Option<String>)
    ensures
        opt_string_view(res) == lookup(pairs@.map_values(|p: (String, String)| (p.0@, p.1@)), key@),
{
    let ghost ps = pairs@.map_values(|p: (String, String)| (p.0@, p.1@));
    let k = chars_of(key);
    let mut i = pairs.len();
    assert(ps.take(i as int) == ps);
    while i > 0
        invariant
            i <= pairs.len(),
            ps == pairs@.map_values(|p: (String, String)| (p.0@, p.1@)),
            k@ == key@,
            lookup(ps, key@) == lookup(ps.take(i as int), key@),
        decreases i,
    {
        let ghost t = ps.take(i as int);
        assert(t.drop_last() == ps.take(i - 1));
        assert(t.last() == (pairs@[i - 1].0@, pairs@[i - 1].1@));
        let name = chars_of(pairs[i - 1].0.as_str());
        if chars_eq(name.as_slice(), k.as_slice()) {
            return Some(pairs[i - 1].1.clone());
        }
        i -= 1;
    }
    None
}

/// The operating system as reported to the cloud.
#[derive(Debug)]
pub struct OsDetails {
    pub os_name: String,
    pub os_version: String,
    pub os_build: Option<String>,
    pub kernel_version: Option<String>,
}

pub open spec fn first_of(a: Option<Seq<char>>, b: Option<Seq<char>>, fallback: Seq<char>) -> Seq<
    char,
> {
    match a {
        Some(x) => x,
        None => match b {
            Some(y) => y,
            None => fallback,
        },
    }
}

impl OsDetails {
    /// Linux: the name from `PRETTY_NAME` (else `NAME`, else "Linux"), the
    /// version from `VERSION_ID` (else `VERSION`, else "unknown"), the build
    /// from `BUILD_ID`, as an os-release file gives them (none when it could
    /// not be read).
    pub fn for_linux(os_release: Option<String>, kernel_version: Option<String>) -> (res: OsDetails)
        ensures
            ({
                let pairs = match os_release {
                    Some(r) => os_release_pairs(r@),
                    None => Seq::empty(),
                };
                &&& res.os_name@ == first_of(
                    lookup(pairs, "PRETTY_NAME"@),
                    lookup(pairs, "NAME"@),
                    "Linux"@,
                )
                &&& res.os_version@ == first_of(
                    lookup(pairs, "VERSION_ID"@),
                    lookup(pairs, "VERSION"@),
                    "unknown"@,
                )
                &&& opt_string_view(res.os_build) == lookup(pairs, "BUILD_ID"@)
            }),
            opt_string_view(res.kernel_version) == opt_string_view(kernel_version),
    {
        let pairs = match &os_release {
            Some(r) => parse_os_release(r.as_str()),
            None => Vec::new(),
        };
        proof {
            if os_release is None {
                assert(pairs@.map_values(|p: (String, String)| (p.0@, p.1@)) =~= Seq::empty());
            }
        }
        let os_name = match lookup_exec(&pairs, "PRETTY_NAME") {
            Some(n) => n,
            None => match lookup_exec(&pairs, "NAME") {
                Some(n) => n,
                None => String::from_str("Linux"),
            },
        };
        let os_version = match lookup_exec(&pairs, "VERSION_ID") {
            Some(v) => v,
            None => match lookup_exec(&pairs, "VERSION") {
                Some(v) => v,
                None => String::from_str("unknown"),
            },
        };
        OsDetails { os_name, os_version, os_build: lookup_exec(&pairs, "BUILD_ID"), kernel_version }
    }

    /// macOS: what `sw_vers` printed, "macOS" and "unknown" where it printed nothing.
    pub fn for_macos(
        product_name: Option<String>,
        product_version: Option<String>,
        build: Option<String>,
        kernel_version: Option<String>,
    ) -> (res: OsDetails)
        ensures
            res.os_name@ == first_of(opt_string_view(product_name), None, "macOS"@),
            res.os_version@ == first_of(opt_string_view(product_version), None, "unknown"@),
            opt_string_view(res.os_build) == opt_string_view(build),
            opt_string_view(res.kernel_version) == opt_string_view(kernel_version),
    {
        OsDetails {
            os_name: match product_name {
                Some(n) => n,
                None => String::from_str("macOS"),
            },
            os_version: match product_version {
                Some(v) => v,
                None => String::from_str("unknown"),
            },
            os_build: build,
            kernel_version,
        }
    }

    /// Windows: what `ver` printed, "unknown" where it printed nothing.
    pub fn for_windows(version: Option<String>) -> (res: OsDetails)
        ensures
            res.os_name@ == "Windows"@,
            res.os_version@ == first_of(opt_string_view(version), None, "unknown"@),
            res.os_build is None,
            res.kernel_version is None,
    {
        OsDetails {
            os_name: String::from_str("Windows"),
            os_version: match version {
                Some(v) => v,
                None => String::from_str("unknown"),
            },
            os_build: None,
            kernel_version: None,
        }
    }

    /// Any other system: its name and the kernel version.
    pub fn fallback(os: String, kernel_version: Option<String>) -> (res: OsDetails)
        ensures
            res.os_name@ == os@,
            res.os_version@ == "unknown"@,
            res.os_build is None,
            opt_string_view(res.kernel_version) == opt_string_view(kernel_version),
    {
        OsDetails {
            os_name: os,
            os_version: String::from_str("unknown"),
            os_build: None,
            kernel_version,
        }
    }
}

} // verus!
