//! Error chains (outermost context first, root cause last), how they are
//! rendered for the cloud, and the error code each one is reported under.
use vstd::prelude::*;

use crate::outside::{json_member_text, json_member_text_of, status_reason, status_reason_of};
use crate::text::{
    ascii_lower, chars_of, concat, contains, contains_chars, decimal, decimal_string, push_chars,
    push_str, to_ascii_lower, trim,
};

verus! {

/// The kind of an operating-system I/O failure, as far as error codes tell them apart.
#[derive(Clone, Copy, PartialEq, Eq, Debug, Structural)]
pub enum IoKind {
    NotFound,
    PermissionDenied,
    AlreadyExists,
    TimedOut,
    InvalidInput,
    InvalidData,
    Other,
}

/// What produced one layer of an error chain.
#[derive(Clone, Copy, PartialEq, Eq, Debug, Structural)]
pub enum Source {
    /// Context added on the way up.
    Context,
    /// A plain message raised by this client.
    Message,
    /// An operating-system I/O failure.
    Io(IoKind),
    /// A JSON (de)serialisation failure.
    Json,
    /// An HTTP transport failure: whether it timed out, whether the server answered 401.
    Http { timeout: bool, unauthorized: bool },
}

/// One layer of an error chain: its display text and where it came from.
#[derive(Debug)]
pub struct ErrorLayer {
    pub text: String,
    pub source: Source,
}

/// An error with its chain of causes; `layers[0]` is the outermost context.
#[derive(Debug)]
pub struct ErrorChain {
    pub layers: Vec<ErrorLayer>,
}

pub open spec fn layer_views(layers: Seq<ErrorLayer>) -> Seq<(Seq<char>, Source)> {
    layers.map_values(|l: ErrorLayer| (l.text@, l.source))
}

impl View for ErrorChain {
    type V = Seq<(Seq<char>, Source)>;

    open spec fn view(&self) -> Seq<(Seq<char>, Source)> {
        layer_views(self.layers@)
    }
}

/// The error codes reported to the cloud.
#[derive(Clone, Copy, PartialEq, Eq, Debug, Structural)]
pub enum ErrorCode {
    NotFound,
    PermissionDenied,
    AlreadyExists,
    Timeout,
    InvalidArgument,
    IoError,
    AuthRequired,
    NetworkError,
    Conflict,
    LimitExceeded,
    PolicyDenied,
    Unsupported,
    TaskFailed,
    FileTooLarge,
    FileChanged,
    CommandTimedOut,
    UnsupportedMessageType,
    TaskAlreadyHandled,
    UnsupportedCapability,
}

pub open spec fn code_name(c: ErrorCode) -> Seq<char> {
    match c {
        ErrorCode::NotFound => "NOT_FOUND"@,
        ErrorCode::PermissionDenied => "PERMISSION_DENIED"@,
        ErrorCode::AlreadyExists => "ALREADY_EXISTS"@,
        ErrorCode::Timeout => "TIMEOUT"@,
        ErrorCode::InvalidArgument => "INVALID_ARGUMENT"@,
        ErrorCode::IoError => "IO_ERROR"@,
        ErrorCode::AuthRequired => "AUTH_REQUIRED"@,
        ErrorCode::NetworkError => "NETWORK_ERROR"@,
        ErrorCode::Conflict => "CONFLICT"@,
        ErrorCode::LimitExceeded => "LIMIT_EXCEEDED"@,
        ErrorCode::PolicyDenied => "POLICY_DENIED"@,
        ErrorCode::Unsupported => "UNSUPPORTED"@,
        ErrorCode::TaskFailed => "TASK_FAILED"@,
        ErrorCode::FileTooLarge => "FILE_TOO_LARGE"@,
        ErrorCode::FileChanged => "FILE_CHANGED"@,
        ErrorCode::CommandTimedOut => "COMMAND_TIMED_OUT"@,
        ErrorCode::UnsupportedMessageType => "UNSUPPORTED_MESSAGE_TYPE"@,
        ErrorCode::TaskAlreadyHandled => "TASK_ALREADY_HANDLED"@,
        ErrorCode::UnsupportedCapability => "UNSUPPORTED_CAPABILITY"@,
    }
}

impl ErrorCode {
    /// The wire name of the code.
    pub fn as_str(&self) -> (res: &'static str)
        ensures
            res@ == code_name(*self),
    {
        match self {
            ErrorCode::NotFound => "NOT_FOUND",
            ErrorCode::PermissionDenied => "PERMISSION_DENIED",
            ErrorCode::AlreadyExists => "ALREADY_EXISTS",
            ErrorCode::Timeout => "TIMEOUT",
            ErrorCode::InvalidArgument => "INVALID_ARGUMENT",
            ErrorCode::IoError => "IO_ERROR",
            ErrorCode::AuthRequired => "AUTH_REQUIRED",
            ErrorCode::NetworkError => "NETWORK_ERROR",
            ErrorCode::Conflict => "CONFLICT",
            ErrorCode::LimitExceeded => "LIMIT_EXCEEDED",
            ErrorCode::PolicyDenied => "POLICY_DENIED",
            ErrorCode::Unsupported => "UNSUPPORTED",
            ErrorCode::TaskFailed => "TASK_FAILED",
            ErrorCode::FileTooLarge => "FILE_TOO_LARGE",
            ErrorCode::FileChanged => "FILE_CHANGED",
            ErrorCode::CommandTimedOut => "COMMAND_TIMED_OUT",
            ErrorCode::UnsupportedMessageType => "UNSUPPORTED_MESSAGE_TYPE",
            ErrorCode::TaskAlreadyHandled => "TASK_ALREADY_HANDLED",
            ErrorCode::UnsupportedCapability => "UNSUPPORTED_CAPABILITY",
        }
    }
}

/// The texts of the layers, outermost first.
pub open spec fn texts(e: Seq<(Seq<char>, Source)>) -> Seq<Seq<char>> {
    e.map_values(|l: (Seq<char>, Source)| l.0)
}

/// The texts joined by `": "`, as an error with its causes is displayed.
pub open spec fn join_texts(t: Seq<Seq<char>>) -> Seq<char>
    decreases t.len(),
{
    if t.len() == 0 {
        Seq::<char>::empty()
    } else if t.len() == 1 {
        t[0]
    } else {
        join_texts(t.drop_last()) + ": "@ + t.last()
    }
}

pub open spec fn rendered(e: Seq<(Seq<char>, Source)>) -> Seq<char> {
    join_texts(texts(e))
}

pub open spec fn io_code(k: IoKind) -> ErrorCode {
    match k {
        IoKind::NotFound => ErrorCode::NotFound,
        IoKind::PermissionDenied => ErrorCode::PermissionDenied,
        IoKind::AlreadyExists => ErrorCode::AlreadyExists,
        IoKind::TimedOut => ErrorCode::Timeout,
        IoKind::InvalidInput => ErrorCode::InvalidArgument,
        IoKind::InvalidData => ErrorCode::InvalidArgument,
        IoKind::Other => ErrorCode::IoError,
    }
}

/// The code a layer decides by its type alone, if any.
pub open spec fn typed_code(s: Source) -> Option<ErrorCode> {
    match s {
        Source::Io(k) => Some(io_code(k)),
        Source::Json => Some(ErrorCode::InvalidArgument),
        Source::Http { timeout, unauthorized } => Some(
            if timeout {
                ErrorCode::Timeout
            } else if unauthorized {
                ErrorCode::AuthRequired
            } else {
                ErrorCode::NetworkError
            },
        ),
        _ => None,
    }
}

/// The code of the outermost layer whose type decides one.
pub open spec fn chain_code(e: Seq<(Seq<char>, Source)>) -> Option<ErrorCode>
    decreases e.len(),
{
    if e.len() == 0 {
        None
    } else {
        match typed_code(e[0].1) {
            Some(c) => Some(c),
            None => chain_code(e.drop_first()),
        }
    }
}

/// The code that the (lower-cased) rendered message calls for.
pub open spec fn message_code(m: Seq<char>) -> ErrorCode {
    if contains(m, "http 401"@) {
        ErrorCode::AuthRequired
    } else if contains(m, "http 403"@) {
        ErrorCode::PermissionDenied
    } else if contains(m, "http 404"@) {
        ErrorCode::NotFound
    } else if contains(m, "http 409"@) {
        ErrorCode::Conflict
    } else if contains(m, "http 429"@) {
        ErrorCode::LimitExceeded
    } else if contains(m, "file is too large"@) {
        ErrorCode::FileTooLarge
    } else if contains(m, "changed before write"@) {
        ErrorCode::FileChanged
    } else if contains(m, "command timed out"@) {
        ErrorCode::CommandTimedOut
    } else if contains(m, "outside allowed roots"@) || contains(m, "blocked by policy"@)
        || contains(m, "disabled by local policy"@) || contains(m, "delete an allowed root"@)
        || contains(m, "dangling symbolic link"@) {
        ErrorCode::PolicyDenied
    } else if contains(m, "not logged in"@) || contains(m, "reauthentication"@) {
        ErrorCode::AuthRequired
    } else if contains(m, "too large"@) || contains(m, "limit"@) {
        ErrorCode::LimitExceeded
    } else if contains(m, "already exists"@) {
        ErrorCode::Conflict
    } else if contains(m, "unsupported capability"@) {
        ErrorCode::UnsupportedCapability
    } else if contains(m, "unsupported"@) {
        ErrorCode::Unsupported
    } else if contains(m, "invalid"@) || contains(m, "is required"@) || contains(m, "is empty"@)
        || contains(m, "not a directory"@) || contains(m, "not a file"@) {
        ErrorCode::InvalidArgument
    } else {
        ErrorCode::TaskFailed
    }
}

/// The error code of a chain: decided by the outermost typed cause, otherwise
/// by what the lower-cased rendered message says.
pub open spec fn error_code(e: Seq<(Seq<char>, Source)>) -> ErrorCode {
    match chain_code(e) {
        Some(c) => c,
        None => message_code(ascii_lower(rendered(e))),
    }
}

impl ErrorChain {
    fn single(text: String, source: Source) -> (res: ErrorChain)
        ensures
            res@ == seq![(text@, source)],
    {
        let mut layers: Vec<ErrorLayer> = Vec::new();
        layers.push(ErrorLayer { text, source });
        let res = ErrorChain { layers };
        assert(res@ =~= seq![(text@, source)]);
        res
    }

    /// An error raised with a plain message.
    pub fn msg(text: String) -> (res: ErrorChain)
        ensures
            res@ == seq![(text@, Source::Message)],
    {
        Self::single(text, Source::Message)
    }

    /// An operating-system I/O failure with its display text.
    pub fn io(text: String, kind: IoKind) -> (res: ErrorChain)
        ensures
            res@ == seq![(text@, Source::Io(kind))],
    {
        Self::single(text, Source::Io(kind))
    }

    /// A JSON failure with its display text.
    pub fn json(text: String) -> (res: ErrorChain)
        ensures
            res@ == seq![(text@, Source::Json)],
    {
        Self::single(text, Source::Json)
    }

    /// An HTTP transport failure with its display text.
    pub fn http(text: String, timeout: bool, unauthorized: bool) -> (res: ErrorChain)
        ensures
            res@ == seq![(text@, Source::Http { timeout, unauthorized })],
    {
        Self::single(text, Source::Http { timeout, unauthorized })
    }

    /// The same error wrapped in one more layer of context.
    pub fn context(self, text: String) -> (res: ErrorChain)
        ensures
            res@ == seq![(text@, Source::Context)] + self@,
    {
        let ghost before = self@;
        let mut layers = self.layers;
        layers.insert(0, ErrorLayer { text, source: Source::Context });
        let res = ErrorChain { layers };
        assert(res@ =~= seq![(text@, Source::Context)] + before);
        res
    }
}

/// The error with all its causes, joined by `": "` (`format!("{error:#}")`).
pub fn message(error: &ErrorChain) -> (res: String)
    ensures
        res@ == rendered(error@),
{
    let mut res = String::new();
    let n = error.layers.len();
    let mut i: usize = 0;
    while i < n
        invariant
            n == error.layers.len(),
            i <= n,
            res@ == join_texts(texts(error@).take(i as int)),
        decreases n - i,
    {
        let ghost t = texts(error@);
        assert(t.take(i + 1).drop_last() == t.take(i as int));
        assert(t.take(i + 1).last() == error.layers@[i as int].text@);
        if i > 0 {
            push_str(&mut res, ": ");
        } else {
            assert(t.take(1) =~= seq![t[0]]);
        }
        let cs = chars_of(error.layers[i].text.as_str());
        push_chars(&mut res, cs.as_slice());
        i += 1;
    }
    assert(texts(error@).take(n as int) == texts(error@));
    res
}

/// The texts of the layers below the outermost one.
pub open spec fn cause_texts(e: Seq<(Seq<char>, Source)>) -> Seq<Seq<char>> {
    if e.len() == 0 {
        Seq::<Seq<char>>::empty()
    } else {
        texts(e).skip(1)
    }
}

/// The texts of the causes below the outermost layer.
pub fn causes(error: &ErrorChain) -> (res: Vec<String>)
    ensures
        res@.map_values(|s: String| s@) == cause_texts(error@),
{
    let mut res: Vec<String> = Vec::new();
    let n = error.layers.len();
    if n == 0 {
        assert(res@.map_values(|s: String| s@) =~= cause_texts(error@));
        return res;
    }
    let mut i: usize = 1;
    while i < n
        invariant
            n == error.layers.len(),
            1 <= i <= n,
            res@.map_values(|s: String| s@) =~= texts(error@).subrange(1, i as int),
        decreases n - i,
    {
        let ghost before = res@.map_values(|s: String| s@);
        res.push(error.layers[i].text.clone());
        assert(res@.map_values(|s: String| s@) =~= before.push(error.layers@[i as int].text@));
        i += 1;
    }
    res
}

fn io_code_exec(k: IoKind) -> (res: ErrorCode)
    ensures
        res == io_code(k),
{
    match k {
        IoKind::NotFound => ErrorCode::NotFound,
        IoKind::PermissionDenied => ErrorCode::PermissionDenied,
        IoKind::AlreadyExists => ErrorCode::AlreadyExists,
        IoKind::TimedOut => ErrorCode::Timeout,
        IoKind::InvalidInput => ErrorCode::InvalidArgument,
        IoKind::InvalidData => ErrorCode::InvalidArgument,
        IoKind::Other => ErrorCode::IoError,
    }
}

fn typed_code_exec(s: Source) -> (res: Option<ErrorCode>)
    ensures
        res == typed_code(s),
{
    match s {
        Source::Io(k) => Some(io_code_exec(k)),
        Source::Json => Some(ErrorCode::InvalidArgument),
        Source::Http { timeout, unauthorized } => Some(
            if timeout {
                ErrorCode::Timeout
            } else if unauthorized {
                ErrorCode::AuthRequired
            } else {
                ErrorCode::NetworkError
            },
        ),
        _ => None,
    }
}

fn mentions(m: &[char], pattern: &str) -> (res: bool)
    ensures
        res == contains(m@, pattern@),
{
    let p = chars_of(pattern);
    contains_chars(m, p.as_slice())
}

/// The code that a lower-cased rendered message calls for.
pub fn code_for_message(m: &[char]) -> (res: ErrorCode)
    ensures
        res == message_code(m@),
{
    if mentions(m, "http 401") {
        ErrorCode::AuthRequired
    } else if mentions(m, "http 403") {
        ErrorCode::PermissionDenied
    } else if mentions(m, "http 404") {
        ErrorCode::NotFound
    } else if mentions(m, "http 409") {
        ErrorCode::Conflict
    } else if mentions(m, "http 429") {
        ErrorCode::LimitExceeded
    } else if mentions(m, "file is too large") {
        ErrorCode::FileTooLarge
    } else if mentions(m, "changed before write") {
        ErrorCode::FileChanged
    } else if mentions(m, "command timed out") {
        ErrorCode::CommandTimedOut
    } else if mentions(m, "outside allowed roots") || mentions(m, "blocked by policy") || mentions(
        m,
        "disabled by local policy",
    ) || mentions(m, "delete an allowed root") || mentions(m, "dangling symbolic link") {
        ErrorCode::PolicyDenied
    } else if mentions(m, "not logged in") || mentions(m, "reauthentication") {
        ErrorCode::AuthRequired
    } else if mentions(m, "too large") || mentions(m, "limit") {
        ErrorCode::LimitExceeded
    } else if mentions(m, "already exists") {
        ErrorCode::Conflict
    } else if mentions(m, "unsupported capability") {
        ErrorCode::UnsupportedCapability
    } else if mentions(m, "unsupported") {
        ErrorCode::Unsupported
    } else if mentions(m, "invalid") || mentions(m, "is required") || mentions(m, "is empty")
        || mentions(m, "not a directory") || mentions(m, "not a file") {
        ErrorCode::InvalidArgument
    } else {
        ErrorCode::TaskFailed
    }
}

/// The error code a chain is reported under.
pub fn error_code_of(error: &ErrorChain) -> (res: ErrorCode)
    ensures
        res == error_code(error@),
{
    let n = error.layers.len();
    let mut i: usize = 0;
    assert(error@.skip(0) == error@);
    while i < n
        invariant
            n == error.layers.len(),
            i <= n,
            chain_code(error@) == chain_code(error@.skip(i as int)),
        decreases n - i,
    {
        let ghost rest = error@.skip(i as int);
        assert(rest[0] == (error.layers@[i as int].text@, error.layers@[i as int].source));
        assert(rest.drop_first() == error@.skip(i + 1));
        match typed_code_exec(error.layers[i].source) {
            Some(c) => {
                return c;
            },
            None => {},
        }
        i += 1;
    }
    assert(error@.skip(n as int).len() == 0);
    let m = message(error);
    let mc = chars_of(m.as_str());
    let lower = to_ascii_lower(mc.as_slice());
    code_for_message(lower.as_slice())
}

/// The wire name of the error code a chain is reported under.
pub fn code(error: &ErrorChain) -> (res: &'static str)
    ensures
        res@ == code_name(error_code(error@)),
{
    let c = error_code_of(error);
    c.as_str()
}

/// At most `max_chars` characters of `value`, with `…` appended when some were cut.
pub open spec fn truncated(value: Seq<char>, max_chars: nat) -> Seq<char> {
    if value.len() > max_chars {
        value.take(max_chars as int).push('…')
    } else {
        value
    }
}

/// At most `max_chars` characters of `value`, with `…` appended when some were cut.
pub fn truncate(value: &str, max_chars: usize) -> (res: String)
    ensures
        res@ == truncated(value@, max_chars as nat),
{
    let cs = chars_of(value);
    let mut res = String::new();
    if cs.len() > max_chars {
        let mut i: usize = 0;
        while i < max_chars
            invariant
                i <= max_chars < cs@.len(),
                res@ == cs@.take(i as int),
            decreases max_chars - i,
        {
            res.push(cs[i]);
            i += 1;
            assert(cs@.take(i as int) == cs@.take((i - 1) as int).push(cs@[i - 1]));
        }
        res.push('…');
    } else {
        push_chars(&mut res, cs.as_slice());
        assert(Seq::<char>::empty() + cs@ == cs@);
    }
    res
}

/// The members of an error response that may say why, in the order they are tried.
pub open spec fn reason_fields() -> Seq<Seq<char>> {
    seq!["message"@, "error"@, "detail"@, "reason"@]
}

/// Why a server refused a request, as its response body says: the first of
/// the members `message`, `error`, `detail`, `reason` that is present and not
/// null (its text, or its JSON rendering), else the whole body; cut to 512
/// characters; none for a blank body.
pub open spec fn body_reason(body: Seq<char>) -> Option<Seq<char>> {
    let b = trim(body);
    if b.len() == 0 {
        None
    } else {
        match first_member_text(b, reason_fields()) {
            Some(t) => Some(truncated(t, 512)),
            None => Some(truncated(b, 512)),
        }
    }
}

/// The text of the first of `fields` that the body has.
pub open spec fn first_member_text(body: Seq<char>, fields: Seq<Seq<char>>) -> Option<Seq<char>>
    decreases fields.len(),
{
    if fields.len() == 0 {
        None
    } else {
        match json_member_text_of(body, fields[0]) {
            Some(t) => Some(t),
            None => first_member_text(body, fields.drop_first()),
        }
    }
}

/// The first of the texts that is present.
pub open spec fn first_present(texts: Seq<Option<Seq<char>>>) -> Option<Seq<char>>
    decreases texts.len(),
{
    if texts.len() == 0 {
        None
    } else {
        match texts[0] {
            Some(t) => Some(t),
            None => first_present(texts.drop_first()),
        }
    }
}

pub open spec fn texts_of(members: Seq<Option<String>>) -> Seq<Option<Seq<char>>> {
    members.map_values(|m: Option<String>| crate::outside::opt_chars(m))
}

/// Why a server refused a request, given its trimmed, non-blank body and
/// what the body says under `message`, `error`, `detail` and `reason`, in
/// that order: the first of them that is present, else the whole body; cut
/// to 512 characters.
pub fn reason_from_members(body: &str, members: Vec<Option<String>>) -> (res: String)
    ensures
        res@ == truncated(
            match first_present(texts_of(members@)) {
                Some(t) => t,
                None => body@,
            },
            512,
        ),
{
    let ghost all = texts_of(members@);
    let mut i: usize = 0;
    assert(all.skip(0) =~= all);
    while i < members.len()
        invariant
            i <= members.len(),
            all == texts_of(members@),
            first_present(all) == first_present(all.skip(i as int)),
        decreases members.len() - i,
    {
        let ghost rest = all.skip(i as int);
        assert(rest[0] == crate::outside::opt_chars(members@[i as int]));
        assert(rest.drop_first() =~= all.skip(i + 1));
        match &members[i] {
            Some(m) => {
                return truncate(m.as_str(), 512);
            },
            None => {},
        }
        i += 1;
    }
    truncate(body, 512)
}

/// Why a server refused a request, as its response body says.
pub fn response_reason(body: &str) -> (res: Option<String>)
    ensures
        crate::outside::opt_chars(res) == body_reason(body@),
{
    let cs = chars_of(body);
    let t = crate::text::trim_chars(cs.as_slice());
    if t.len() == 0 {
        return None;
    }
    let trimmed = crate::text::string_of(t.as_slice());
    let mut members: Vec<Option<String>> = Vec::new();
    members.push(json_member_text(trimmed.as_str(), "message"));
    members.push(json_member_text(trimmed.as_str(), "error"));
    members.push(json_member_text(trimmed.as_str(), "detail"));
    members.push(json_member_text(trimmed.as_str(), "reason"));
    proof {
        let b = trimmed@;
        let ms = texts_of(members@);
        reveal_with_fuel(first_member_text, 5);
        reveal_with_fuel(first_present, 5);
        assert(reason_fields().drop_first() =~= seq!["error"@, "detail"@, "reason"@]);
        assert(seq!["error"@, "detail"@, "reason"@].drop_first() =~= seq!["detail"@, "reason"@]);
        assert(seq!["detail"@, "reason"@].drop_first() =~= seq!["reason"@]);
        assert(seq!["reason"@].drop_first() =~= Seq::<Seq<char>>::empty());
        assert(ms.drop_first() =~= seq![ms[1], ms[2], ms[3]]);
        assert(seq![ms[1], ms[2], ms[3]].drop_first() =~= seq![ms[2], ms[3]]);
        assert(seq![ms[2], ms[3]].drop_first() =~= seq![ms[3]]);
        assert(seq![ms[3]].drop_first() =~= Seq::<Option<Seq<char>>>::empty());
        assert(first_present(ms) == first_member_text(b, reason_fields()));
    }
    Some(reason_from_members(trimmed.as_str(), members))
}

/// Whether an HTTP status reports success (2xx).
pub open spec fn http_success(status: u16) -> bool {
    200 <= status <= 299
}

/// Whether an HTTP status reports success (2xx).
pub fn is_http_success(status: u16) -> (res: bool)
    ensures
        res == http_success(status),
{
    200 <= status && status <= 299
}

/// A status as HTTP libraries display it: the code and its reason phrase.
pub open spec fn status_text(status: u16) -> Seq<char> {
    decimal(status as nat) + " "@ + match status_reason_of(status) {
        Some(r) => r,
        None => "<unknown status code>"@,
    }
}

/// Why a refused request failed: what the response body says, else the
/// status's reason phrase, else that the error is unknown. `body` is the
/// body's text, or the reason it could not be read.
pub open spec fn refusal_reason(status: u16, body: Result<Seq<char>, Seq<char>>) -> Seq<char> {
    let text = match body {
        Ok(b) => b,
        Err(e) => "failed to read server error response: "@ + e,
    };
    match body_reason(text) {
        Some(r) => r,
        None => match status_reason_of(status) {
            Some(r) => r,
            None => "unknown server error"@,
        },
    }
}

/// The error for a request the server refused with `status`, given the
/// status's reason phrase and what the response body says, if anything:
/// `<action> failed: server returned HTTP <code> <phrase>: <reason>`, the
/// phrase being `<unknown status code>` where there is none and the reason
/// what the body says, else the phrase, else that the error is unknown.
pub fn refusal_error(
    action: &str,
    status: u16,
    phrase: Option<String>,
    body_says: Option<String>,
) -> (res: ErrorChain)
    ensures
        res@ == seq![
            (
                action@ + " failed: server returned HTTP "@ + decimal(status as nat) + " "@ + match phrase {
                    Some(p) => p@,
                    None => "<unknown status code>"@,
                } + ": "@ + match body_says {
                    Some(r) => r@,
                    None => match phrase {
                        Some(p) => p@,
                        None => "unknown server error"@,
                    },
                },
                Source::Message,
            ),
        ],
{
    let reason = match &body_says {
        Some(r) => r.clone(),
        None => match &phrase {
            Some(p) => p.clone(),
            None => String::from_str("unknown server error"),
        },
    };
    let mut m = concat(action, " failed: server returned HTTP ");
    let n = decimal_string(status as u64);
    push_str(&mut m, n.as_str());
    push_str(&mut m, " ");
    match &phrase {
        Some(p) => push_str(&mut m, p.as_str()),
        None => push_str(&mut m, "<unknown status code>"),
    }
    push_str(&mut m, ": ");
    push_str(&mut m, reason.as_str());
    ErrorChain::msg(m)
}

/// The error for a request the server refused with a non-success status:
/// `<action> failed: server returned HTTP <status>: <reason>`.
pub fn http_failure(action: &str, status: u16, body: Result<String, String>) -> (res: ErrorChain)
    ensures
        res@ == seq![
            (
                action@ + " failed: server returned HTTP "@ + status_text(status) + ": "@
                    + refusal_reason(
                    status,
                    match body {
                        Ok(b) => Ok(b@),
                        Err(e) => Err(e@),
                    },
                ),
                Source::Message,
            ),
        ],
{
    let ghost bv = match &body {
        Ok(b) => Ok(b@),
        Err(e) => Err(e@),
    };
    let text = match body {
        Ok(b) => b,
        Err(e) => concat("failed to read server error response: ", e.as_str()),
    };
    let phrase = status_reason(status);
    let body_says = response_reason(text.as_str());
    let res = refusal_error(action, status, phrase, body_says);
    assert(res@[0].0 =~= action@ + " failed: server returned HTTP "@ + status_text(status) + ": "@
        + refusal_reason(status, bv));
    res
}

proof fn lemma_join_prepend(a: Seq<char>, t: Seq<Seq<char>>)
    requires
        t.len() > 0,
    ensures
        join_texts(seq![a] + t) == a + ": "@ + join_texts(t),
    decreases t.len(),
{
    let whole = seq![a] + t;
    if t.len() == 1 {
        assert(whole.drop_last() =~= seq![a]);
        assert(whole.last() == t[0]);
        assert(join_texts(seq![a]) == a);
        assert(join_texts(t) == t[0]);
    } else {
        lemma_join_prepend(a, t.drop_last());
        assert(whole.drop_last() =~= seq![a] + t.drop_last());
        assert(whole.last() == t.last());
        assert(join_texts(whole) == join_texts(whole.drop_last()) + ": "@ + whole.last());
        assert(join_texts(t) == join_texts(t.drop_last()) + ": "@ + t.last());
        assert(a + ": "@ + join_texts(t.drop_last()) + ": "@ + t.last() =~= a + ": "@ + (
        join_texts(t.drop_last()) + ": "@ + t.last()));
    }
}

/// Wrapping an error in context keeps what it says and how it is reported:
/// the code decided by a typed cause stays, the context is rendered before
/// the error as it was, and the error's own texts become the causes.
pub proof fn law_context_keeps_cause(text: Seq<char>, e: Seq<(Seq<char>, Source)>)
    requires
        e.len() > 0,
    ensures
        chain_code(e) is Some ==> error_code(seq![(text, Source::Context)] + e) == error_code(e),
        rendered(seq![(text, Source::Context)] + e) == text + ": "@ + rendered(e),
        cause_texts(seq![(text, Source::Context)] + e) == texts(e),
{
    let w = seq![(text, Source::Context)] + e;
    assert(w.drop_first() =~= e);
    assert(texts(w) =~= seq![text] + texts(e));
    lemma_join_prepend(text, texts(e));
    assert(texts(w).skip(1) =~= texts(e));
}

/// Without a typed cause, the code is decided by the first rule, in this
/// order, whose phrase the lower-cased rendered error mentions: HTTP 401,
/// 403, 404, 409, 429; a file too large; a file changed before the write; a
/// command that timed out; a policy refusal; a missing login; a limit; an
/// existing target; an unsupported capability; anything unsupported; an
/// invalid or missing argument or a path of the wrong kind. An error that
/// mentions none of them is a plain task failure.
pub proof fn law_message_decides_code(e: Seq<(Seq<char>, Source)>)
    requires
        chain_code(e) is None,
    ensures
        ({
            let m = ascii_lower(rendered(e));
            let c = error_code(e);
            let auth401 = contains(m, "http 401"@);
            let denied403 = contains(m, "http 403"@);
            let missing404 = contains(m, "http 404"@);
            let conflict409 = contains(m, "http 409"@);
            let limited429 = contains(m, "http 429"@);
            let too_large_file = contains(m, "file is too large"@);
            let changed = contains(m, "changed before write"@);
            let timed_out = contains(m, "command timed out"@);
            let policy = contains(m, "outside allowed roots"@) || contains(m, "blocked by policy"@)
                || contains(m, "disabled by local policy"@) || contains(m, "delete an allowed root"@)
                || contains(m, "dangling symbolic link"@);
            let login = contains(m, "not logged in"@) || contains(m, "reauthentication"@);
            let limit = contains(m, "too large"@) || contains(m, "limit"@);
            let present = contains(m, "already exists"@);
            let capability = contains(m, "unsupported capability"@);
            let unsupported = contains(m, "unsupported"@);
            let invalid = contains(m, "invalid"@) || contains(m, "is required"@) || contains(
                m,
                "is empty"@,
            ) || contains(m, "not a directory"@) || contains(m, "not a file"@);
            let http = auth401 || denied403 || missing404 || conflict409 || limited429;
            let file = too_large_file || changed || timed_out;
            let before_limit = http || file || policy || login;
            let before_invalid = before_limit || limit || present || capability || unsupported;
            &&& auth401 ==> c == ErrorCode::AuthRequired
            &&& !auth401 && denied403 ==> c == ErrorCode::PermissionDenied
            &&& !auth401 && !denied403 && missing404 ==> c == ErrorCode::NotFound
            &&& !auth401 && !denied403 && !missing404 && conflict409 ==> c == ErrorCode::Conflict
            &&& !auth401 && !denied403 && !missing404 && !conflict409 && limited429 ==> c
                == ErrorCode::LimitExceeded
            &&& !http && too_large_file ==> c == ErrorCode::FileTooLarge
            &&& !http && !too_large_file && changed ==> c == ErrorCode::FileChanged
            &&& !http && !too_large_file && !changed && timed_out ==> c == ErrorCode::CommandTimedOut
            &&& !http && !file && policy ==> c == ErrorCode::PolicyDenied
            &&& !http && !file && !policy && login ==> c == ErrorCode::AuthRequired
            &&& !before_limit && limit ==> c == ErrorCode::LimitExceeded
            &&& !before_limit && !limit && present ==> c == ErrorCode::Conflict
            &&& !before_limit && !limit && !present && capability ==> c
                == ErrorCode::UnsupportedCapability
            &&& !before_limit && !limit && !present && !capability && unsupported ==> c
                == ErrorCode::Unsupported
            &&& !before_invalid && invalid ==> c == ErrorCode::InvalidArgument
            &&& !before_invalid && !invalid ==> c == ErrorCode::TaskFailed
        }),
{
}

/// Untyped layers in front of a cause leave the cause to decide.
proof fn lemma_chain_code_after_untyped(
    context: Seq<(Seq<char>, Source)>,
    text: Seq<char>,
    source: Source,
    rest: Seq<(Seq<char>, Source)>,
)
    requires
        forall|i: int| 0 <= i < context.len() ==> (#[trigger] context[i]).1 == Source::Context
            || context[i].1 == Source::Message,
    ensures
        chain_code(context + seq![(text, source)] + rest) == match typed_code(source) {
            Some(c) => Some(c),
            None => chain_code(rest),
        },
    decreases context.len(),
{
    let whole = context + seq![(text, source)] + rest;
    if context.len() == 0 {
        assert(whole =~= seq![(text, source)] + rest);
        assert(whole[0] == (text, source));
        assert(whole.drop_first() =~= rest);
    } else {
        let shorter = context.drop_first();
        assert(whole[0] == context[0]);
        assert(whole.drop_first() =~= shorter + seq![(text, source)] + rest);
        assert forall|i: int| 0 <= i < shorter.len() implies (#[trigger] shorter[i]).1
            == Source::Context || shorter[i].1 == Source::Message by {
            assert(shorter[i] == context[i + 1]);
        }
        lemma_chain_code_after_untyped(shorter, text, source, rest);
    }
}

/// The outermost typed cause decides the code, whatever the texts say: an
/// I/O failure by its kind, a JSON failure as an invalid argument, an HTTP
/// failure as a timeout, a missing login or a network failure.
pub proof fn law_typed_cause_decides_code(
    context: Seq<(Seq<char>, Source)>,
    text: Seq<char>,
    source: Source,
    rest: Seq<(Seq<char>, Source)>,
)
    requires
        forall|i: int| 0 <= i < context.len() ==> (#[trigger] context[i]).1 == Source::Context
            || context[i].1 == Source::Message,
        !(source is Context) && !(source is Message),
    ensures
        error_code(context + seq![(text, source)] + rest) == match source {
            Source::Io(IoKind::NotFound) => ErrorCode::NotFound,
            Source::Io(IoKind::PermissionDenied) => ErrorCode::PermissionDenied,
            Source::Io(IoKind::AlreadyExists) => ErrorCode::AlreadyExists,
            Source::Io(IoKind::TimedOut) => ErrorCode::Timeout,
            Source::Io(IoKind::InvalidInput) => ErrorCode::InvalidArgument,
            Source::Io(IoKind::InvalidData) => ErrorCode::InvalidArgument,
            Source::Io(IoKind::Other) => ErrorCode::IoError,
            Source::Json => ErrorCode::InvalidArgument,
            Source::Http { timeout, unauthorized } => if timeout {
                ErrorCode::Timeout
            } else if unauthorized {
                ErrorCode::AuthRequired
            } else {
                ErrorCode::NetworkError
            },
            _ => ErrorCode::TaskFailed,
        },
{
    lemma_chain_code_after_untyped(context, text, source, rest);
}

} // verus!

