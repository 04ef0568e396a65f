//! The agent's WebSocket session with the cloud: where it connects, what it
//! sends first, how it answers each incoming message, and how long it waits
//! before reconnecting.
//!
//! The socket itself is driven by the caller; every decision it needs is a
//! function here.
use vstd::prelude::*;
use vstd::arithmetic::power::lemma_pow0;
use vstd::arithmetic::power2::{lemma_pow2_pos, lemma_pow2_unfold, pow2};

use crate::auth::Session;
use crate::capabilities::{CapabilityDispatcher, CapabilityOutput};
use crate::config::AppConfig;
use crate::device::{registration_json, DeviceRegisterRequest, SystemInfo, CLIENT_VERSION};
use crate::error::{
    ErrorCode, cause_texts, causes, code, code_name, error_code, message, rendered, ErrorChain, Source,
};
use crate::json::{member, members_view, object, Json, JsonView};
use crate::outside::{
    opt_chars, rebase_url, replace_url_path, url_path_replaced, url_rebased, url_scheme,
    url_scheme_of,
};
use crate::protocol::{
    error_body, error_message, client_ack, error_payload, fresh, fresh_reply, task_accepted, task_cancelled, task_failed,
    task_rejected, task_result, Envelope, TaskRequestPayload,
};
use crate::text::{chars_eq, chars_of, concat, contains, contains_chars, push_str, trim, trim_chars};

verus! {

/// The WebSocket scheme that goes with an HTTP scheme.
pub open spec fn ws_scheme(http_scheme: Seq<char>) -> Seq<char> {
    if http_scheme == "https"@ {
        "wss"@
    } else {
        "ws"@
    }
}

/// Where a WebSocket address handed out by the cloud leads: a full URL is
/// taken as it is; a bare path is put on the configured WebSocket URL, or,
/// when that does not parse, on the API base URL with its scheme turned into
/// the WebSocket one; anything else is taken as it is. Surrounding
/// whitespace is dropped first.
pub open spec fn resolved_ws_url(ws_url: Seq<char>, api_base_url: Seq<char>, candidate: Seq<char>) -> Seq<
    char,
> {
    let c = trim(candidate);
    if contains(c, "://"@) {
        c
    } else if c.len() > 0 && c[0] == '/' {
        match url_path_replaced(ws_url, c) {
            Some(u) => u,
            None => match url_scheme_of(api_base_url) {
                Some(s) => match url_rebased(api_base_url, ws_scheme(s), c) {
                    Some(u) => u,
                    None => c,
                },
                None => c,
            },
        }
    } else {
        c
    }
}

/// The address a session connects to: the WebSocket URL, with the
/// connection token added as a query parameter when there is one.
pub open spec fn connect_url(ws_url: Seq<char>, token: Option<Seq<char>>) -> Seq<char> {
    match token {
        Some(t) => ws_url + (if ws_url.contains('?') {
            "&"@
        } else {
            "?"@
        }) + "connection_token="@ + t,
        None => ws_url,
    }
}

/// The text of member `key` of a JSON value, when it is a string.
pub open spec fn member_text(j: JsonView, key: Seq<char>) -> Option<Seq<char>> {
    match member(j, key) {
        Some(JsonView::Str(s)) => Some(s),
        _ => None,
    }
}

/// The text, or `default` when there is none.
pub open spec fn text_or(s: Option<Seq<char>>, default: Seq<char>) -> Seq<char> {
    match s {
        Some(t) => t,
        None => default,
    }
}

/// `Some(s)` when `s` holds more than whitespace.
pub open spec fn non_blank(s: Option<Seq<char>>) -> Option<Seq<char>> {
    match s {
        Some(t) => if trim(t).len() > 0 {
            Some(t)
        } else {
            None
        },
        None => None,
    }
}

/// The WebSocket scheme for an HTTP scheme: `wss` for `https`, `ws` otherwise.
pub fn ws_scheme_for(http_scheme: &str) -> (res: &'static str)
    ensures
        res@ == ws_scheme(http_scheme@),
{
    let s = chars_of(http_scheme);
    let https = chars_of("https");
    proof {
        reveal_strlit("wss");
        reveal_strlit("ws");
    }
    if chars_eq(s.as_slice(), https.as_slice()) {
        "wss"
    } else {
        "ws"
    }
}

/// Resolves a WebSocket address handed out by the cloud against the
/// configured server URLs.
pub fn resolve_ws_url(config: &AppConfig, candidate: &str) -> (res: String)
    ensures
        res@ == resolved_ws_url(config@.server.ws_url, config@.server.api_base_url, candidate@),
{
    let cs = chars_of(candidate);
    let t = trim_chars(cs.as_slice());
    let c = crate::text::string_of(t.as_slice());
    let sep = chars_of("://");
    if contains_chars(t.as_slice(), sep.as_slice()) {
        return c;
    }
    if t.len() > 0 && t[0] == '/' {
        match replace_url_path(config.server.ws_url.as_str(), c.as_str()) {
            Some(u) => {
                return u;
            },
            None => {},
        }
        match url_scheme(config.server.api_base_url.as_str()) {
            Some(s) => {
                let scheme = ws_scheme_for(s.as_str());
                match rebase_url(config.server.api_base_url.as_str(), scheme, c.as_str()) {
                    Some(u) => {
                        return u;
                    },
                    None => {},
                }
            },
            None => {},
        }
    }
    c
}

/// `s` when it holds more than whitespace.
pub fn keep_non_blank(s: Option<String>) -> (res: Option<String>)
    ensures
        opt_chars(res) == non_blank(opt_chars(s)),
{
    match s {
        Some(t) => {
            let cs = chars_of(t.as_str());
            let tr = trim_chars(cs.as_slice());
            if tr.len() > 0 {
                Some(t)
            } else {
                None
            }
        },
        None => None,
    }
}

/// The text of member `key` of `payload`, when it is a string.
pub fn member_str<'a>(payload: &'a Json, key: &str) -> (res: Option<&'a str>)
    ensures
        match res {
            Some(t) => member_text(payload@, key@) == Some(t@),
            None => member_text(payload@, key@) is None,
        },
{
    match payload.get(key) {
        Some(v) => v.as_str(),
        None => None,
    }
}

/// The kinds of message the cloud sends.
#[derive(Clone, Copy, PartialEq, Eq, Debug, Structural)]
pub enum Incoming {
    Registered,
    Pong,
    TaskRequest,
    TaskCancel,
    ReauthRequired,
    Disconnect,
    PolicyUpdated,
    Unsupported,
}

pub open spec fn incoming_kind(message_type: Seq<char>) -> Incoming {
    if message_type == "server.registered"@ {
        Incoming::Registered
    } else if message_type == "server.pong"@ {
        Incoming::Pong
    } else if message_type == "task.request"@ {
        Incoming::TaskRequest
    } else if message_type == "task.cancel"@ {
        Incoming::TaskCancel
    } else if message_type == "server.reauth_required"@ {
        Incoming::ReauthRequired
    } else if message_type == "server.disconnect"@ {
        Incoming::Disconnect
    } else if message_type == "server.policy_updated"@ {
        Incoming::PolicyUpdated
    } else {
        Incoming::Unsupported
    }
}

fn is_type(t: &[char], name: &str) -> (res: bool)
    ensures
        res == (t@ == name@),
{
    let n = chars_of(name);
    chars_eq(t, n.as_slice())
}

/// The kind of an incoming message, by its type.
pub fn classify(message_type: &str) -> (res: Incoming)
    ensures
        res == incoming_kind(message_type@),
{
    let t = chars_of(message_type);
    let t = t.as_slice();
    if is_type(t, "server.registered") {
        Incoming::Registered
    } else if is_type(t, "server.pong") {
        Incoming::Pong
    } else if is_type(t, "task.request") {
        Incoming::TaskRequest
    } else if is_type(t, "task.cancel") {
        Incoming::TaskCancel
    } else if is_type(t, "server.reauth_required") {
        Incoming::ReauthRequired
    } else if is_type(t, "server.disconnect") {
        Incoming::Disconnect
    } else if is_type(t, "server.policy_updated") {
        Incoming::PolicyUpdated
    } else {
        Incoming::Unsupported
    }
}

/// The session identifier a `server.registered` message carries.
pub fn registered_session(payload: &Json) -> (res: Option<String>)
    ensures
        opt_chars(res) == member_text(payload@, "session_id"@),
{
    match member_str(payload, "session_id") {
        Some(s) => Some(String::from_str(s)),
        None => None,
    }
}

/// The rejection of a `task.request` whose payload could not be read:
/// answers request `request_id`, names the task when the payload says which,
/// `unknown` otherwise, and reports the parse error under the context
/// `invalid task.request payload`, with its causes.
pub fn reject_request(request_id: &str, payload: &Json, parse_error: ErrorChain) -> (res: Envelope<
    Json,
>)
    ensures
        fresh_reply(res, "task.rejected"@, request_id@),
        ({
            let e = seq![("invalid task.request payload"@, Source::Context)] + parse_error@;
            res.payload@ == error_payload(
                text_or(member_text(payload@, "task_id"@), "unknown"@),
                "rejected"@,
                code_name(error_code(e)),
                rendered(e),
                JsonView::Object(seq![("causes"@, texts_json(cause_texts(e)))]),
            )
        }),
{
    let error = parse_error.context(String::from_str("invalid task.request payload"));
    let task_id = match member_str(payload, "task_id") {
        Some(t) => t,
        None => "unknown",
    };
    let details = causes_details(&error);
    task_rejected(request_id, task_id, code(&error), message(&error), details)
}

/// A list of texts as a JSON array of strings.
pub open spec fn texts_json(t: Seq<Seq<char>>) -> JsonView {
    JsonView::Array(t.map_values(|s: Seq<char>| JsonView::Str(s)))
}

fn strings_json(v: Vec<String>) -> (res: Json)
    ensures
        res@ == texts_json(v@.map_values(|s: String| s@)),
{
    let mut items: Vec<Json> = Vec::new();
    let mut i: usize = 0;
    while i < v.len()
        invariant
            i <= v.len(),
            items@.len() == i,
            forall|k: int| 0 <= k < i ==> items@[k]@ == JsonView::Str(v@[k]@),
        decreases v.len() - i,
    {
        items.push(Json::Str(v[i].clone()));
        i += 1;
    }
    let res = Json::Array(items);
    proof {
        let got = match res@ {
            JsonView::Array(x) => x,
            _ => Seq::empty(),
        };
        assert(got =~= v@.map_values(|s: String| s@).map_values(|s: Seq<char>| JsonView::Str(s)));
    }
    res
}

fn causes_details(error: &ErrorChain) -> (res: Json)
    ensures
        res@ == JsonView::Object(seq![("causes"@, texts_json(cause_texts(error@)))]),
{
    let list = strings_json(causes(error));
    let mut body: Vec<(String, Json)> = Vec::new();
    body.push((String::from_str("causes"), list));
    let res = object(body);
    assert(members_view(body@) =~= seq![("causes"@, texts_json(cause_texts(error@)))]);
    res
}

/// What a task's requester is sent once the request is read: the receipt
/// (`client.ack` with status `received`) and the acceptance
/// (`task.accepted`), both naming the task.
pub fn acknowledge(request_id: &str, task_id: &str) -> (res: (Envelope<Json>, Envelope<Json>))
    ensures
        fresh(res.0, "client.ack"@),
        res.0.payload@ == JsonView::Object(
            seq![
                ("message_id"@, JsonView::Str(request_id@)),
                ("task_id"@, JsonView::Str(task_id@)),
                ("status"@, JsonView::Str("received"@)),
            ],
        ),
        fresh_reply(res.1, "task.accepted"@, request_id@),
        res.1.payload@ == JsonView::Object(
            seq![("task_id"@, JsonView::Str(task_id@)), ("status"@, JsonView::Str("accepted"@))],
        ),
{
    let ack = client_ack(request_id, Some(task_id), "received");
    let accepted = task_accepted(request_id, task_id);
    (ack, accepted)
}

/// The report of a dispatched task: its result and duration, or its failure
/// with the error's code, message, the capability asked for and the causes.
pub fn task_outcome(task: &TaskRequestPayload, outcome: Result<CapabilityOutput, ErrorChain>) -> (res:
    Envelope<Json>)
    ensures
        match outcome {
            Ok(o) => fresh(res, "task.result"@) && res.payload@ == JsonView::Object(
                seq![
                    ("task_id"@, JsonView::Str(task.task_id@)),
                    ("status"@, JsonView::Str("completed"@)),
                    ("duration_ms"@, JsonView::UInt(o.duration_ms)),
                    ("result"@, o.result@),
                ],
            ),
            Err(e) => fresh(res, "task.failed"@) && res.payload@ == error_payload(
                task.task_id@,
                "failed"@,
                code_name(error_code(e@)),
                rendered(e@),
                JsonView::Object(
                    seq![
                        ("capability"@, JsonView::Str(task.capability@)),
                        ("causes"@, texts_json(cause_texts(e@))),
                    ],
                ),
            ),
        },
{
    match outcome {
        Ok(o) => task_result(task.task_id.as_str(), o.result, o.duration_ms),
        Err(e) => {
            let list = strings_json(causes(&e));
            let ghost lv = list@;
            let mut body: Vec<(String, Json)> = Vec::new();
            body.push((String::from_str("capability"), Json::Str(task.capability.clone())));
            body.push((String::from_str("causes"), list));
            assert(members_view(body@) =~= seq![
                ("capability"@, JsonView::Str(task.capability@)),
                ("causes"@, lv),
            ]);
            let details = object(body);
            task_failed(task.task_id.as_str(), code(&e), message(&e), details)
        },
    }
}

/// The confirmation of a `task.cancel` request: answers the request and
/// names the task it gave, the empty name when it gave none.
pub fn confirm_cancel(request_id: String, payload: &Json) -> (res: Envelope<Json>)
    ensures
        fresh_reply(res, "task.cancelled"@, request_id@),
        res.payload@ == JsonView::Object(
            seq![
                ("task_id"@, JsonView::Str(text_or(member_text(payload@, "task_id"@), ""@))),
                ("status"@, JsonView::Str("cancelled"@)),
            ],
        ),
{
    let task_id = match member_str(payload, "task_id") {
        Some(t) => t,
        None => "",
    };
    task_cancelled(request_id, task_id)
}

/// Why a session ends when the cloud asks for reauthentication.
pub fn reauth_required() -> (res: ErrorChain)
    ensures
        res@ == seq![("server requested reauthentication"@, Source::Message)],
{
    ErrorChain::msg(String::from_str("server requested reauthentication"))
}

/// Why a session ends when the cloud disconnects it; `payload_text` is the
/// JSON text of the message's payload.
pub fn disconnect_requested(payload_text: &str) -> (res: ErrorChain)
    ensures
        res@ == seq![("server requested disconnect: "@ + payload_text@, Source::Message)],
{
    ErrorChain::msg(concat("server requested disconnect: ", payload_text))
}

/// The wait after one more failure: double the last one, up to a minute.
pub open spec fn next_backoff(b: u64) -> u64 {
    if b < 30 {
        (2 * b) as u64
    } else {
        60
    }
}

/// The wait before the next attempt once `failures` attempts in a row have
/// failed: one second at first, doubling with each failure.
pub open spec fn backoff_after(failures: nat) -> u64
    decreases failures,
{
    if failures == 0 {
        1
    } else {
        next_backoff(backoff_after((failures - 1) as nat))
    }
}

/// After `k` failures in a row the next wait is `min(2^k, 60)` seconds: 1,
/// 2, 4, ..., 32, then a minute, never more.
pub proof fn law_backoff_schedule(k: nat)
    ensures
        backoff_after(k) == if pow2(k) < 60 {
            pow2(k)
        } else {
            60
        },
        1 <= backoff_after(k) <= 60,
    decreases k,
{
    if k == 0 {
        lemma_pow0(2);
    } else {
        law_backoff_schedule((k - 1) as nat);
        lemma_pow2_unfold(k);
        lemma_pow2_pos((k - 1) as nat);
    }
}

/// How long to wait before the next connection attempt.
pub struct Reconnect {
    backoff_seconds: u64,
    failures: Ghost<nat>,
}

impl Reconnect {
    #[verifier::type_invariant]
    spec fn consistent(self) -> bool {
        self.backoff_seconds == backoff_after(self.failures@)
    }

    pub closed spec fn spec_backoff(self) -> u64 {
        self.backoff_seconds
    }

    /// The failures in a row since the start or the last clean session.
    pub closed spec fn spec_failures(self) -> nat {
        self.failures@
    }

    /// Nothing has failed yet; the first wait is one second.
    pub fn new() -> (res: Reconnect)
        ensures
            res.spec_failures() == 0,
            res.spec_backoff() == 1,
    {
        Reconnect { backoff_seconds: 1, failures: Ghost(0) }
    }

    /// The wait the next failure will bring.
    pub fn backoff_seconds(&self) -> (res: u64)
        ensures
            res == self.spec_backoff(),
            res == backoff_after(self.spec_failures()),
            1 <= res <= 60,
    {
        proof {
            use_type_invariant(self);
            law_backoff_schedule(self.failures@);
        }
        self.backoff_seconds
    }

    /// Records how a session ended. After a clean end the count of failures
    /// starts over and nothing is waited; after the `k`-th failure in a row
    /// the wait is `backoff_after(k - 1)`, that is `min(2^(k-1), 60)` seconds.
    pub fn after_session(&mut self, ok: bool) -> (wait: Option<u64>)
        ensures
            ok ==> wait is None && final(self).spec_failures() == 0,
            !ok ==> wait == Some(backoff_after(old(self).spec_failures()))
                && final(self).spec_failures() == old(self).spec_failures() + 1,
            final(self).spec_backoff() == backoff_after(final(self).spec_failures()),
            wait matches Some(w) ==> 1 <= w <= 60,
    {
        proof {
            use_type_invariant(&*self);
            law_backoff_schedule(self.failures@);
        }
        if ok {
            *self = Reconnect { backoff_seconds: 1, failures: Ghost(0) };
            None
        } else {
            let wait = self.backoff_seconds;
            let next = if wait < 30 {
                2 * wait
            } else {
                60
            };
            let ghost f = self.failures@;
            *self = Reconnect { backoff_seconds: next, failures: Ghost(f + 1) };
            Some(wait)
        }
    }
}

/// The agent's connection to the cloud for one signed-in session.
#[derive(Debug)]
pub struct AgentWsClient {
    config: AppConfig,
    session: Session,
    ws_url: String,
    connection_token: Option<String>,
    dispatcher: CapabilityDispatcher,
}

impl AgentWsClient {
    /// A client for `session`. A WebSocket address handed out at
    /// registration is used, resolved against the configuration, when it is
    /// not blank; otherwise the configured WebSocket URL.
    pub fn new(
        config: AppConfig,
        session: Session,
        ws_url: Option<String>,
        connection_token: Option<String>,
    ) -> (res: AgentWsClient)
        ensures
            res.config()@ == config@,
            res.session().token@ == session.token@,
            res.session().user@ == session.user@,
            res.ws_url()@ == match non_blank(opt_chars(ws_url)) {
                Some(u) => resolved_ws_url(config@.server.ws_url, config@.server.api_base_url, u),
                None => config@.server.ws_url,
            },
            opt_chars(res.connection_token()) == opt_chars(connection_token),
            res.dispatcher().fs().policy()@ == config@.policy,
            res.dispatcher().process().policy()@ == config@.policy,
            res.dispatcher().system().config()@ == config@,
    {
        let url = match keep_non_blank(ws_url) {
            Some(u) => resolve_ws_url(&config, u.as_str()),
            None => config.server.ws_url.clone(),
        };
        let dispatcher = CapabilityDispatcher::new(config.clone());
        AgentWsClient { config, session, ws_url: url, connection_token, dispatcher }
    }

    #[verifier::when_used_as_spec(spec_config)]
    pub fn config(&self) -> (res: &AppConfig)
        ensures
            res == self.spec_config(),
    {
        &self.config
    }

    #[verifier::when_used_as_spec(spec_session)]
    pub fn session(&self) -> (res: &Session)
        ensures
            res == self.spec_session(),
    {
        &self.session
    }

    #[verifier::when_used_as_spec(spec_ws_url)]
    pub fn ws_url(&self) -> (res: &String)
        ensures
            res == self.spec_ws_url(),
    {
        &self.ws_url
    }

    #[verifier::when_used_as_spec(spec_connection_token)]
    pub fn connection_token(&self) -> (res: Option<String>)
        ensures
            res == self.spec_connection_token(),
    {
        match &self.connection_token {
            Some(t) => Some(t.clone()),
            None => None,
        }
    }

    #[verifier::when_used_as_spec(spec_dispatcher)]
    pub fn dispatcher(&self) -> (res: &CapabilityDispatcher)
        ensures
            res == self.spec_dispatcher(),
    {
        &self.dispatcher
    }

    pub closed spec fn spec_config(&self) -> &AppConfig {
        &self.config
    }

    pub closed spec fn spec_session(&self) -> &Session {
        &self.session
    }

    pub closed spec fn spec_ws_url(&self) -> &String {
        &self.ws_url
    }

    pub closed spec fn spec_connection_token(&self) -> Option<String> {
        self.connection_token
    }

    pub closed spec fn spec_dispatcher(&self) -> &CapabilityDispatcher {
        &self.dispatcher
    }

    /// The address to connect to: the WebSocket URL, with
    /// `connection_token=<token>` appended as a query parameter when the
    /// registration handed out a token.
    pub fn ws_connect_url(&self) -> (res: String)
        ensures
            res@ == connect_url(self.ws_url()@, opt_chars(self.connection_token())),
    {
        match &self.connection_token {
            Some(token) => {
                let u = chars_of(self.ws_url.as_str());
                let has_query = crate::text::find_char(u.as_slice(), '?').is_some();
                let mut res = self.ws_url.clone();
                proof {
                    if u@.contains('?') {
                        assert(crate::text::first_index(u@, '?') is Some);
                    }
                }
                if has_query {
                    push_str(&mut res, "&");
                } else {
                    push_str(&mut res, "?");
                }
                push_str(&mut res, "connection_token=");
                push_str(&mut res, token.as_str());
                proof {
                    reveal_strlit("&");
                    reveal_strlit("?");
                }
                res
            },
            None => self.ws_url.clone(),
        }
    }

    /// The handshake headers: the bearer token, the device identifier, the
    /// client version and the protocol version.
    pub fn handshake_headers(&self) -> (res: Vec<(String, String)>)
        ensures
            res@.map_values(|h: (String, String)| (h.0@, h.1@)) == seq![
                ("Authorization"@, "Bearer "@ + self.session().token@),
                ("X-Device-Id"@, self.config()@.client.device_id),
                ("X-Client-Version"@, CLIENT_VERSION@),
                ("X-Protocol-Version"@, "1.0"@),
            ],
    {
        let mut res: Vec<(String, String)> = Vec::new();
        res.push(
            (String::from_str("Authorization"), concat("Bearer ", self.session.token.as_str())),
        );
        res.push((String::from_str("X-Device-Id"), self.config.client.device_id.clone()));
        res.push((String::from_str("X-Client-Version"), String::from_str(CLIENT_VERSION)));
        res.push((String::from_str("X-Protocol-Version"), String::from_str("1.0")));
        assert(res@.map_values(|h: (String, String)| (h.0@, h.1@)) =~= seq![
            ("Authorization"@, "Bearer "@ + self.session().token@),
            ("X-Device-Id"@, self.config()@.client.device_id),
            ("X-Client-Version"@, CLIENT_VERSION@),
            ("X-Protocol-Version"@, "1.0"@),
        ]);
        res
    }

    /// The first message of a session: `client.register` with this device's
    /// registration for the signed-in user.
    pub fn register_message(&self, system: SystemInfo) -> (res: Envelope<Json>)
        ensures
            fresh(res, "client.register"@),
            res.payload@ == registration_json(self.config()@, self.session().user@, system),
    {
        let request = DeviceRegisterRequest::from_config(
            &self.config,
            self.session.user.clone(),
            system,
        );
        Envelope::new(String::from_str("client.register"), request.to_json())
    }
}

/// The answer to a message of a type the client does not know: an `error`
/// answering it, with code `UNSUPPORTED_MESSAGE_TYPE`, a message naming the
/// type, and the type among the details.
pub fn unsupported_reply(request_id: &str, message_type: &str) -> (res: Envelope<Json>)
    ensures
        fresh_reply(res, "error"@, request_id@),
        res.payload@ == error_body(
            "UNSUPPORTED_MESSAGE_TYPE"@,
            "unsupported message type: "@ + message_type@,
            JsonView::Object(seq![("message_type"@, JsonView::Str(message_type@))]),
        ),
{
    let mut details: Vec<(String, Json)> = Vec::new();
    details.push((String::from_str("message_type"), Json::string(message_type)));
    assert(members_view(details@) =~= seq![("message_type"@, JsonView::Str(message_type@))]);
    let details = object(details);
    let code = ErrorCode::UnsupportedMessageType.as_str();
    proof {
        reveal_strlit("UNSUPPORTED_MESSAGE_TYPE");
    }
    error_message(request_id, code, concat("unsupported message type: ", message_type), details)
}

/// What the client does with an incoming message.
pub enum Reaction {
    /// Nothing.
    Ignore,
    /// Remembers the session identifier the cloud assigned, if any.
    Session(Option<String>),
    /// Sends this answer.
    Reply(Envelope<Json>),
    /// Reads the task request and hands it to a [`TaskLedger`].
    Task,
    /// Ends the session for this reason.
    Stop(ErrorChain),
}

/// The reaction to an incoming message, by its type. `payload_text` is the
/// JSON text of its payload.
pub fn react(envelope: &Envelope<Json>, payload_text: &str) -> (res: Reaction)
    ensures
        match incoming_kind(envelope.message_type@) {
            Incoming::Registered => res matches Reaction::Session(s) && opt_chars(s) == member_text(
                envelope.payload@,
                "session_id"@,
            ),
            Incoming::Pong => res is Ignore,
            Incoming::PolicyUpdated => res is Ignore,
            Incoming::TaskRequest => res is Task,
            Incoming::TaskCancel => res matches Reaction::Reply(r) && fresh_reply(
                r,
                "task.cancelled"@,
                envelope.id@,
            ) && r.payload@ == JsonView::Object(
                seq![
                    ("task_id"@, JsonView::Str(text_or(member_text(envelope.payload@, "task_id"@), ""@))),
                    ("status"@, JsonView::Str("cancelled"@)),
                ],
            ),
            Incoming::ReauthRequired => res matches Reaction::Stop(e) && e@ == seq![
                ("server requested reauthentication"@, Source::Message),
            ],
            Incoming::Disconnect => res matches Reaction::Stop(e) && e@ == seq![
                ("server requested disconnect: "@ + payload_text@, Source::Message),
            ],
            Incoming::Unsupported => res matches Reaction::Reply(r) && fresh_reply(
                r,
                "error"@,
                envelope.id@,
            ) && r.payload@ == error_body(
                "UNSUPPORTED_MESSAGE_TYPE"@,
                "unsupported message type: "@ + envelope.message_type@,
                JsonView::Object(seq![("message_type"@, JsonView::Str(envelope.message_type@))]),
            ),
        },
{
    match classify(envelope.message_type.as_str()) {
        Incoming::Registered => Reaction::Session(registered_session(&envelope.payload)),
        Incoming::Pong => Reaction::Ignore,
        Incoming::PolicyUpdated => Reaction::Ignore,
        Incoming::TaskRequest => Reaction::Task,
        Incoming::TaskCancel => Reaction::Reply(confirm_cancel(envelope.id.clone(), &envelope.payload)),
        Incoming::ReauthRequired => Reaction::Stop(reauth_required()),
        Incoming::Disconnect => Reaction::Stop(disconnect_requested(payload_text)),
        Incoming::Unsupported => Reaction::Reply(
            unsupported_reply(envelope.id.as_str(), envelope.message_type.as_str()),
        ),
    }
}

/// What to do with a task request.
pub enum TaskStep {
    /// The request could not be read: send this rejection.
    Reject(Envelope<Json>),
    /// The task was handled before: send the receipt and this rejection,
    /// and run nothing.
    Duplicate(Envelope<Json>, Envelope<Json>),
    /// Send the receipt and the acceptance, then run the task.
    Run(Envelope<Json>, Envelope<Json>, TaskRequestPayload),
}

/// The tasks that have entered execution, by `task_id`: each enters only once.
pub struct TaskLedger {
    handled: Vec<String>,
}

impl TaskLedger {
    pub closed spec fn spec_handled(&self) -> Seq<Seq<char>> {
        crate::config::strings(self.handled@)
    }

    /// No task has run yet.
    pub fn new() -> (res: TaskLedger)
        ensures
            res.spec_handled() == Seq::<Seq<char>>::empty(),
    {
        let res = TaskLedger { handled: Vec::new() };
        assert(res.spec_handled() =~= Seq::<Seq<char>>::empty());
        res
    }

    /// Whether a task has entered execution.
    pub fn has_handled(&self, task_id: &str) -> (res: bool)
        ensures
            res == self.spec_handled().contains(task_id@),
    {
        let mut i: usize = 0;
        while i < self.handled.len()
            invariant
                i <= self.handled.len(),
                forall|j: int| 0 <= j < i ==> self.spec_handled()[j] != task_id@,
            decreases self.handled.len() - i,
        {
            assert(self.spec_handled()[i as int] == self.handled@[i as int]@);
            let a = chars_of(self.handled[i].as_str());
            let b = chars_of(task_id);
            if chars_eq(a.as_slice(), b.as_slice()) {
                return true;
            }
            i += 1;
        }
        false
    }

    /// Decides on a task request `request_id` whose payload read as `parsed`.
    /// An unreadable request is rejected. A task whose `task_id` has entered
    /// execution before (a side-effecting write, move, delete or command
    /// among them) is not run again: it is acknowledged and rejected with
    /// `TASK_ALREADY_HANDLED`. Any other task is acknowledged, accepted and
    /// recorded, and then runs.
    pub fn take_request(
        &mut self,
        request_id: &str,
        payload: &Json,
        parsed: Result<TaskRequestPayload, ErrorChain>,
    ) -> (res: TaskStep)
        ensures
            match parsed {
                Err(e) => {
                    let r = seq![("invalid task.request payload"@, Source::Context)] + e@;
                    &&& res matches TaskStep::Reject(env) && fresh_reply(
                        env,
                        "task.rejected"@,
                        request_id@,
                    ) && env.payload@ == error_payload(
                        text_or(member_text(payload@, "task_id"@), "unknown"@),
                        "rejected"@,
                        code_name(error_code(r)),
                        rendered(r),
                        JsonView::Object(seq![("causes"@, texts_json(cause_texts(r)))]),
                    )
                    &&& final(self).spec_handled() == old(self).spec_handled()
                },
                Ok(t) => if old(self).spec_handled().contains(t.task_id@) {
                    &&& res matches TaskStep::Duplicate(ack, rejection) && {
                        &&& fresh(ack, "client.ack"@)
                        &&& ack.payload@ == JsonView::Object(
                            seq![
                                ("message_id"@, JsonView::Str(request_id@)),
                                ("task_id"@, JsonView::Str(t.task_id@)),
                                ("status"@, JsonView::Str("received"@)),
                            ],
                        )
                        &&& fresh_reply(rejection, "task.rejected"@, request_id@)
                        &&& rejection.payload@ == error_payload(
                            t.task_id@,
                            "rejected"@,
                            "TASK_ALREADY_HANDLED"@,
                            "task already handled: "@ + t.task_id@,
                            JsonView::Object(Seq::empty()),
                        )
                    }
                    &&& final(self).spec_handled() == old(self).spec_handled()
                } else {
                    &&& res matches TaskStep::Run(ack, accepted, task) && {
                        &&& fresh(ack, "client.ack"@)
                        &&& ack.payload@ == JsonView::Object(
                            seq![
                                ("message_id"@, JsonView::Str(request_id@)),
                                ("task_id"@, JsonView::Str(t.task_id@)),
                                ("status"@, JsonView::Str("received"@)),
                            ],
                        )
                        &&& fresh_reply(accepted, "task.accepted"@, request_id@)
                        &&& accepted.payload@ == JsonView::Object(
                            seq![
                                ("task_id"@, JsonView::Str(t.task_id@)),
                                ("status"@, JsonView::Str("accepted"@)),
                            ],
                        )
                        &&& task == t
                    }
                    &&& final(self).spec_handled() == old(self).spec_handled().push(t.task_id@)
                },
            },
    {
        match parsed {
            Err(e) => TaskStep::Reject(reject_request(request_id, payload, e)),
            Ok(t) => {
                if self.has_handled(t.task_id.as_str()) {
                    let ack = client_ack(request_id, Some(t.task_id.as_str()), "received");
                    let mut message = String::from_str("task already handled: ");
                    push_str(&mut message, t.task_id.as_str());
                    let code = ErrorCode::TaskAlreadyHandled.as_str();
                    proof {
                        reveal_strlit("TASK_ALREADY_HANDLED");
                    }
                    let details = object(Vec::new());
                    proof {
                        assert(members_view(Seq::<(String, Json)>::empty()) =~= Seq::empty());
                    }
                    let rejection = task_rejected(
                        request_id,
                        t.task_id.as_str(),
                        code,
                        message,
                        details,
                    );
                    TaskStep::Duplicate(ack, rejection)
                } else {
                    let (ack, accepted) = acknowledge(request_id, t.task_id.as_str());
                    let ghost before = self.spec_handled();
                    self.handled.push(t.task_id.clone());
                    assert(self.spec_handled() =~= before.push(t.task_id@));
                    TaskStep::Run(ack, accepted, t)
                }
            },
        }
    }
}

/// A task that has entered execution never enters it again: once accepted,
/// its `task_id` is recorded, and a recorded `task_id` is never run.
pub proof fn law_task_runs_once(handled: Seq<Seq<char>>, task_id: Seq<char>)
    ensures
        handled.push(task_id).contains(task_id),
{
    assert(handled.push(task_id)[handled.len() as int] == task_id);
}

} // verus!
