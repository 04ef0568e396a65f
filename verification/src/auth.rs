//! Accounts, login targets and the locally stored session.
use vstd::prelude::*;

use crate::config::AppPaths;
use crate::error::{ErrorChain, Source};
use crate::json::{distinct_names, lemma_member_lookup, member, members_view, object, Json, JsonView};
use crate::text::{
    chars_eq, chars_of, concat, push_str, slice_range, string_of, strip_bounds, strip_end, trim,
    trim_chars, CharClass,
};

verus! {

pub open spec fn opt_string_view(s: Option<String>) -> Option<Seq<char>> {
    match s {
        Some(t) => Some(t@),
        None => None,
    }
}

fn clone_opt(s: &Option<String>) -> (res: Option<String>)
    ensures
        opt_string_view(res) == opt_string_view(*s),
{
    match s {
        Some(t) => Some(t.clone()),
        None => None,
    }
}

/// A cloud account.
#[derive(Debug)]
pub struct User {
    pub id: u64,
    pub email: Option<String>,
    pub mobile: Option<String>,
    pub nicker: Option<String>,
    pub avatar: Option<String>,
}

pub struct UserView {
    pub id: u64,
    pub email: Option<Seq<char>>,
    pub mobile: Option<Seq<char>>,
    pub nicker: Option<Seq<char>>,
    pub avatar: Option<Seq<char>>,
}

impl View for User {
    type V = UserView;

    open spec fn view(&self) -> UserView {
        UserView {
            id: self.id,
            email: opt_string_view(self.email),
            mobile: opt_string_view(self.mobile),
            nicker: opt_string_view(self.nicker),
            avatar: opt_string_view(self.avatar),
        }
    }
}

impl Clone for User {
    fn clone(&self) -> (res: Self)
        ensures
            res@ == self@,
    {
        User {
            id: self.id,
            email: clone_opt(&self.email),
            mobile: clone_opt(&self.mobile),
            nicker: clone_opt(&self.nicker),
            avatar: clone_opt(&self.avatar),
        }
    }
}

/// What the verification endpoint answers.
#[derive(Debug)]
pub struct LoginResponse {
    pub token: String,
    pub user: User,
}

/// A signed-in session: the bearer token and the account.
#[derive(Debug)]
pub struct Session {
    pub token: String,
    pub user: User,
}

impl Clone for Session {
    fn clone(&self) -> (res: Self)
        ensures
            res.token@ == self.token@,
            res.user@ == self.user@,
    {
        Session { token: self.token.clone(), user: self.user.clone() }
    }
}

/// Where a verification code is sent.
#[derive(Debug)]
pub enum LoginTarget {
    Email(String),
    Mobile(String),
}

impl LoginTarget {
    /// The login target named by exactly one of an e-mail address and a mobile number.
    pub fn from_parts(email: Option<String>, mobile: Option<String>) -> (res: Result<
        LoginTarget,
        ErrorChain,
    >)
        ensures
            match (email, mobile) {
                (Some(e), None) => res matches Ok(LoginTarget::Email(x)) && x@ == e@,
                (None, Some(m)) => res matches Ok(LoginTarget::Mobile(x)) && x@ == m@,
                _ => res matches Err(err) && err@ == seq![
                    ("provide exactly one of --email or --mobile"@, Source::Message),
                ],
            },
    {
        match (email, mobile) {
            (Some(email), None) => Ok(LoginTarget::Email(email)),
            (None, Some(mobile)) => Ok(LoginTarget::Mobile(mobile)),
            _ => Err(
                ErrorChain::msg(String::from_str("provide exactly one of --email or --mobile")),
            ),
        }
    }
}

/// The login target for a login type chosen in the desktop window
/// (`email` or `mobile`).
pub fn login_target(login_type: String, value: String) -> (res: Result<LoginTarget, ErrorChain>)
    ensures
        login_type@ == "email"@ ==> (res matches Ok(LoginTarget::Email(x)) && x@ == value@),
        login_type@ == "mobile"@ ==> (res matches Ok(LoginTarget::Mobile(x)) && x@ == value@),
        login_type@ != "email"@ && login_type@ != "mobile"@ ==> (res matches Err(e) && e@
            == seq![("unsupported login type: "@ + login_type@, Source::Message)]),
{
    let t = chars_of(login_type.as_str());
    let email = chars_of("email");
    let mobile = chars_of("mobile");
    proof {
        reveal_strlit("email");
        reveal_strlit("mobile");
        assert("email"@[0] != "mobile"@[0]);
        assert("email"@ != "mobile"@);
    }
    if chars_eq(t.as_slice(), email.as_slice()) {
        Ok(LoginTarget::Email(value))
    } else if chars_eq(t.as_slice(), mobile.as_slice()) {
        Ok(LoginTarget::Mobile(value))
    } else {
        Err(ErrorChain::msg(concat("unsupported login type: ", login_type.as_str())))
    }
}

/// The body of a verification-code request: the target's type and address,
/// and the code when one is being verified.
pub open spec fn code_request_body(target: LoginTarget, code: Option<Seq<char>>) -> JsonView {
    let (kind, field, value) = match target {
        LoginTarget::Email(e) => ("email"@, "email"@, e@),
        LoginTarget::Mobile(m) => ("mobile"@, "mobile"@, m@),
    };
    let base = seq![("type"@, JsonView::Str(kind)), (field, JsonView::Str(value))];
    match code {
        Some(c) => JsonView::Object(base.push(("code"@, JsonView::Str(c)))),
        None => JsonView::Object(base),
    }
}

/// A verification-code request names the kind of its target under `type`
/// and puts the address under the member of that same name, and nothing
/// under the other kind; it carries `code` exactly when a code is verified.
pub proof fn law_code_request_members(target: LoginTarget, code: Option<Seq<char>>)
    ensures
        ({
            let b = code_request_body(target, code);
            &&& match target {
                LoginTarget::Email(e) => {
                    &&& member(b, "type"@) == Some(JsonView::Str("email"@))
                    &&& member(b, "email"@) == Some(JsonView::Str(e@))
                    &&& member(b, "mobile"@) is None
                },
                LoginTarget::Mobile(m) => {
                    &&& member(b, "type"@) == Some(JsonView::Str("mobile"@))
                    &&& member(b, "mobile"@) == Some(JsonView::Str(m@))
                    &&& member(b, "email"@) is None
                },
            }
            &&& member(b, "code"@) == match code {
                Some(c) => Some(JsonView::Str(c)),
                None => None::<JsonView>,
            }
        }),
{
    reveal_strlit("type");
    reveal_strlit("email");
    reveal_strlit("mobile");
    reveal_strlit("code");
    assert("type"@[0] != "code"@[0]);
    let (kind, field, value) = match target {
        LoginTarget::Email(e) => ("email"@, "email"@, e@),
        LoginTarget::Mobile(m) => ("mobile"@, "mobile"@, m@),
    };
    let base = seq![("type"@, JsonView::Str(kind)), (field, JsonView::Str(value))];
    let ms = match code {
        Some(c) => base.push(("code"@, JsonView::Str(c))),
        None => base,
    };
    assert(code_request_body(target, code) == JsonView::Object(ms));
    assert(distinct_names(ms));
    lemma_member_lookup(ms, "type"@);
    lemma_member_lookup(ms, "email"@);
    lemma_member_lookup(ms, "mobile"@);
    lemma_member_lookup(ms, "code"@);
    assert(ms[0].0 == "type"@);
    assert(ms[1].0 == field);
    if code is Some {
        assert(ms[2].0 == "code"@);
    } else {
        assert(forall|i: int| 0 <= i < ms.len() ==> #[trigger] ms[i].0 != "code"@);
    }
    match target {
        LoginTarget::Email(e) => {
            assert(forall|i: int| 0 <= i < ms.len() ==> #[trigger] ms[i].0 != "mobile"@);
        },
        LoginTarget::Mobile(m) => {
            assert(forall|i: int| 0 <= i < ms.len() ==> #[trigger] ms[i].0 != "email"@);
        },
    }
}

/// The request body that sends a verification code (`code` absent) or
/// verifies one (`code` present).
pub fn code_request(target: &LoginTarget, code: Option<&str>) -> (res: Json)
    ensures
        res@ == code_request_body(
            *target,
            match code {
                Some(c) => Some(c@),
                None => None,
            },
        ),
        member(res@, "type"@) == Some(
            JsonView::Str(
                match target {
                    LoginTarget::Email(_) => "email"@,
                    LoginTarget::Mobile(_) => "mobile"@,
                },
            ),
        ),
{
    proof {
        law_code_request_members(
            *target,
            match code {
                Some(c) => Some(c@),
                None => None,
            },
        );
    }
    let mut body: Vec<(String, Json)> = Vec::new();
    match target {
        LoginTarget::Email(e) => {
            body.push((String::from_str("type"), Json::string("email")));
            body.push((String::from_str("email"), Json::Str(e.clone())));
        },
        LoginTarget::Mobile(m) => {
            body.push((String::from_str("type"), Json::string("mobile")));
            body.push((String::from_str("mobile"), Json::Str(m.clone())));
        },
    }
    let ghost base = members_view(body@);
    match code {
        Some(c) => body.push((String::from_str("code"), Json::string(c))),
        None => {},
    }
    proof {
        let spec_body = code_request_body(
            *target,
            match code {
                Some(c) => Some(c@),
                None => None,
            },
        );
        match code {
            Some(c) => {
                assert(members_view(body@) =~= base.push(("code"@, JsonView::Str(c@))));
            },
            None => {
                assert(members_view(body@) =~= base);
            },
        }
        match target {
            LoginTarget::Email(e) => {
                assert(base =~= seq![("type"@, JsonView::Str("email"@)), ("email"@, JsonView::Str(e@))]);
            },
            LoginTarget::Mobile(m) => {
                assert(base =~= seq![("type"@, JsonView::Str("mobile"@)), ("mobile"@, JsonView::Str(m@))]);
            },
        }
    }
    object(body)
}

/// The token stored in a token file, if any: the file's text without
/// surrounding whitespace, unless nothing is left.
pub fn token_from_contents(raw: &str) -> (res: Option<String>)
    ensures
        trim(raw@).len() == 0 ==> res is None,
        trim(raw@).len() != 0 ==> (res matches Some(t) && t@ == trim(raw@)),
{
    let cs = chars_of(raw);
    let t = trim_chars(cs.as_slice());
    if t.len() == 0 {
        None
    } else {
        Some(string_of(t.as_slice()))
    }
}

/// Where the session is kept on disk.
#[derive(Debug)]
pub struct SessionStore {
    paths: AppPaths,
}

impl SessionStore {
    pub fn new(paths: AppPaths) -> (res: SessionStore)
        ensures
            res.spec_paths()@ == paths@,
    {
        SessionStore { paths }
    }

    pub fn paths(&self) -> (res: &AppPaths)
        ensures
            res@ == self.spec_paths()@,
    {
        &self.paths
    }

    pub closed spec fn spec_paths(&self) -> AppPaths {
        self.paths
    }
}

/// The stored session, which a command that talks to the cloud needs.
pub fn require_session(session: Option<Session>) -> (res: Result<Session, ErrorChain>)
    ensures
        match session {
            Some(s) => res matches Ok(r) && r.token@ == s.token@ && r.user@ == s.user@,
            None => res matches Err(e) && e@ == seq![
                ("not logged in; run verify-code after sending a verification code"@, Source::Message),
            ],
        },
{
    match session {
        Some(s) => Ok(s),
        None => Err(
            ErrorChain::msg(
                String::from_str("not logged in; run verify-code after sending a verification code"),
            ),
        ),
    }
}

/// The address of an API endpoint: the base URL without trailing slashes,
/// then the endpoint's path.
pub fn api_url(base_url: &str, path: &str) -> (res: String)
    ensures
        res@ == strip_end(base_url@, CharClass::Exactly('/')) + path@,
{
    let cs = chars_of(base_url);
    let (a, b) = strip_bounds(cs.as_slice(), CharClass::Exactly('/'), false, true);
    let kept = slice_range(cs.as_slice(), a, b);
    let mut res = string_of(kept.as_slice());
    push_str(&mut res, path);
    res
}

/// Whether a current-user response body says that nobody is signed in: it
/// is empty or the JSON `null`.
pub fn is_absent_user(body: &[u8]) -> (res: bool)
    ensures
        res == (body@.len() == 0 || body@ == seq![110u8, 117u8, 108u8, 108u8]),
{
    if body.len() == 0 {
        return true;
    }
    if body.len() != 4 {
        return false;
    }
    let res = body[0] == 110u8 && body[1] == 117u8 && body[2] == 108u8 && body[3] == 108u8;
    proof {
        if res {
            assert(body@ =~= seq![110u8, 117u8, 108u8, 108u8]);
        }
    }
    res
}

/// A token read from the token file reads back the same once written back:
/// what is read is the file's text trimmed, and trimming it again changes
/// nothing.
pub proof fn law_token_round_trip(raw: Seq<char>)
    requires
        trim(raw).len() != 0,
    ensures
        trim(trim(raw)) == trim(raw),
        trim(trim(raw)).len() != 0,
{
    crate::text::lemma_trim_idempotent(raw);
}

} // verus!
