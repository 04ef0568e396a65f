//! The envelopes of the agent protocol and the messages the client sends.
use vstd::prelude::*;

use crate::json::{
    distinct_names, lemma_member_lookup, member as member_of, members_view, object, opt_str, Json,
    JsonView,
};
use crate::outside::{fresh_uuid_hex, is_lower_hex_digit, now_rfc3339};
use crate::text::concat;

verus! {

pub const PROTOCOL_VERSION: &'static str = "1.0";

/// A protocol message: its identity, type, time, version, what it answers,
/// and its payload.
#[derive(Debug)]
pub struct Envelope<T> {
    pub id: String,
    pub message_type: String,
    pub timestamp: Json,
    pub protocol_version: String,
    pub reply_to: Option<String>,
    pub payload: T,
}

/// A task request from the cloud.
#[derive(Debug)]
pub struct TaskRequestPayload {
    pub task_id: String,
    pub conversation_id: Option<String>,
    pub agent_id: Option<String>,
    pub capability: String,
    pub params: Json,
    pub timeout_seconds: Option<u64>,
    pub require_result: bool,
}

/// The error object of a failed or rejected task.
#[derive(Debug)]
pub struct ErrorInfo {
    pub code: String,
    pub message: String,
    pub details: Json,
}

/// A message identifier: `msg_` and 32 lowercase hexadecimal digits.
pub open spec fn is_message_id(s: Seq<char>) -> bool {
    &&& s.len() == 36
    &&& s.take(4) == "msg_"@
    &&& forall|i: int| 4 <= i < 36 ==> is_lower_hex_digit(#[trigger] s[i])
}

/// A fresh message identifier.
pub fn new_message_id() -> (res: String)
    ensures
        is_message_id(res@),
{
    let hex = fresh_uuid_hex();
    let res = concat("msg_", hex.as_str());
    proof {
        reveal_strlit("msg_");
        assert(res@.take(4) =~= "msg_"@);
        assert forall|i: int| 4 <= i < 36 implies is_lower_hex_digit(#[trigger] res@[i]) by {
            assert(res@[i] == hex@[i - 4]);
        }
    }
    res
}

/// A newly made envelope: of type `ty`, fresh identifier, current protocol
/// version, a string timestamp, answering nothing.
pub open spec fn fresh<T>(e: Envelope<T>, ty: Seq<char>) -> bool {
    &&& e.message_type@ == ty
    &&& is_message_id(e.id@)
    &&& e.protocol_version@ == "1.0"@
    &&& e.timestamp@ is Str
    &&& e.reply_to is None
}

/// A newly made envelope that answers message `reply_to`.
pub open spec fn fresh_reply<T>(e: Envelope<T>, ty: Seq<char>, reply_to: Seq<char>) -> bool {
    &&& e.message_type@ == ty
    &&& is_message_id(e.id@)
    &&& e.protocol_version@ == "1.0"@
    &&& e.timestamp@ is Str
    &&& e.reply_to matches Some(r) && r@ == reply_to
}

pub open spec fn opt_view(s: Option<&str>) -> Option<Seq<char>> {
    match s {
        Some(t) => Some(t@),
        None => None,
    }
}

impl<T> Envelope<T> {
    pub fn new(message_type: String, payload: T) -> (res: Envelope<T>)
        ensures
            fresh(res, message_type@),
            res.payload == payload,
    {
        Envelope {
            id: new_message_id(),
            message_type,
            timestamp: Json::Str(now_rfc3339()),
            protocol_version: String::from_str(PROTOCOL_VERSION),
            reply_to: None,
            payload,
        }
    }

    /// The same envelope, marked as the answer to `message_id`.
    pub fn reply_to(self, message_id: String) -> (res: Envelope<T>)
        ensures
            res.reply_to == Some(message_id),
            res.id == self.id,
            res.message_type == self.message_type,
            res.timestamp == self.timestamp,
            res.protocol_version == self.protocol_version,
            res.payload == self.payload,
    {
        Envelope { reply_to: Some(message_id), ..self }
    }
}

fn member(name: &str, value: Json) -> (res: (String, Json))
    ensures
        res.0@ == name@,
        res.1 == value,
{
    (String::from_str(name), value)
}

/// The payload of an error report for a task.
pub open spec fn error_payload(
    task_id: Seq<char>,
    status: Seq<char>,
    code: Seq<char>,
    message: Seq<char>,
    details: JsonView,
) -> JsonView {
    JsonView::Object(
        seq![
            ("task_id"@, JsonView::Str(task_id)),
            ("status"@, JsonView::Str(status)),
            ("error"@, JsonView::Object(
                seq![
                    ("code"@, JsonView::Str(code)),
                    ("message"@, JsonView::Str(message)),
                    ("details"@, details),
                ],
            )),
        ],
    )
}

fn error_object(task_id: &str, status: &str, code: &str, message: String, details: Json) -> (res:
    Json)
    ensures
        res@ == error_payload(task_id@, status@, code@, message@, details@),
{
    let mut err: Vec<(String, Json)> = Vec::new();
    err.push(member("code", Json::string(code)));
    err.push(member("message", Json::Str(message)));
    err.push(member("details", details));
    let error = object(err);
    let mut body: Vec<(String, Json)> = Vec::new();
    body.push(member("task_id", Json::string(task_id)));
    body.push(member("status", Json::string(status)));
    body.push(member("error", error));
    let res = object(body);
    proof {
        assert(members_view(err@) =~= seq![
            ("code"@, JsonView::Str(code@)),
            ("message"@, JsonView::Str(message@)),
            ("details"@, details@),
        ]);
        assert(members_view(body@) =~= seq![
            ("task_id"@, JsonView::Str(task_id@)),
            ("status"@, JsonView::Str(status@)),
            ("error"@, error@),
        ]);
    }
    res
}

/// An error report carries what it was built with: the task and the status
/// it was given, and under `error` the code, the message and the details.
pub proof fn law_error_payload_members(
    task_id: Seq<char>,
    status: Seq<char>,
    code: Seq<char>,
    message: Seq<char>,
    details: JsonView,
)
    ensures
        member_of(error_payload(task_id, status, code, message, details), "task_id"@) == Some(
            JsonView::Str(task_id),
        ),
        member_of(error_payload(task_id, status, code, message, details), "status"@) == Some(
            JsonView::Str(status),
        ),
        member_of(error_payload(task_id, status, code, message, details), "error"@) matches Some(
            err,
        ) && member_of(err, "code"@) == Some(JsonView::Str(code)) && member_of(err, "message"@)
            == Some(JsonView::Str(message)) && member_of(err, "details"@) == Some(details),
{
    reveal_strlit("task_id");
    reveal_strlit("status");
    reveal_strlit("error");
    reveal_strlit("code");
    reveal_strlit("message");
    reveal_strlit("details");
    let inner = seq![
        ("code"@, JsonView::Str(code)),
        ("message"@, JsonView::Str(message)),
        ("details"@, details),
    ];
    let outer = seq![
        ("task_id"@, JsonView::Str(task_id)),
        ("status"@, JsonView::Str(status)),
        ("error"@, JsonView::Object(inner)),
    ];
    assert("message"@[0] != "details"@[0]);
    assert(distinct_names(inner));
    assert("task_id"@.len() != "status"@.len() && "task_id"@.len() != "error"@.len()
        && "status"@.len() != "error"@.len());
    assert(distinct_names(outer));
    assert(error_payload(task_id, status, code, message, details) == JsonView::Object(outer));
    lemma_member_lookup(outer, "task_id"@);
    lemma_member_lookup(outer, "status"@);
    lemma_member_lookup(outer, "error"@);
    assert(outer[0].0 == "task_id"@);
    assert(outer[1].0 == "status"@);
    assert(outer[2].0 == "error"@);
    lemma_member_lookup(inner, "code"@);
    lemma_member_lookup(inner, "message"@);
    lemma_member_lookup(inner, "details"@);
    assert(inner[0].0 == "code"@);
    assert(inner[1].0 == "message"@);
    assert(inner[2].0 == "details"@);
}

/// Acknowledges receipt of message `message_id`.
pub fn client_ack(message_id: &str, task_id: Option<&str>, status: &str) -> (res: Envelope<Json>)
    ensures
        fresh(res, "client.ack"@),
        res.payload@ == JsonView::Object(
            seq![
                ("message_id"@, JsonView::Str(message_id@)),
                ("task_id"@, opt_str(opt_view(task_id))),
                ("status"@, JsonView::Str(status@)),
            ],
        ),
{
    let mut body: Vec<(String, Json)> = Vec::new();
    body.push(member("message_id", Json::string(message_id)));
    body.push(member("task_id", Json::opt_string(task_id)));
    body.push(member("status", Json::string(status)));
    let payload = object(body);
    proof {
        assert(members_view(body@) =~= seq![
            ("message_id"@, JsonView::Str(message_id@)),
            ("task_id"@, opt_str(opt_view(task_id))),
            ("status"@, JsonView::Str(status@)),
        ]);
    }
    Envelope::new(String::from_str("client.ack"), payload)
}

/// Accepts task `task_id`, answering request `reply_to`.
pub fn task_accepted(reply_to: &str, task_id: &str) -> (res: Envelope<Json>)
    ensures
        fresh_reply(res, "task.accepted"@, reply_to@),
        res.payload@ == JsonView::Object(
            seq![("task_id"@, JsonView::Str(task_id@)), ("status"@, JsonView::Str("accepted"@))],
        ),
{
    let mut body: Vec<(String, Json)> = Vec::new();
    body.push(member("task_id", Json::string(task_id)));
    body.push(member("status", Json::string("accepted")));
    let payload = object(body);
    proof {
        assert(members_view(body@) =~= seq![
            ("task_id"@, JsonView::Str(task_id@)),
            ("status"@, JsonView::Str("accepted"@)),
        ]);
    }
    Envelope::new(String::from_str("task.accepted"), payload).reply_to(String::from_str(reply_to))
}

/// Reports the result of task `task_id`.
pub fn task_result(task_id: &str, result: Json, duration_ms: u64) -> (res: Envelope<Json>)
    ensures
        fresh(res, "task.result"@),
        res.payload@ == JsonView::Object(
            seq![
                ("task_id"@, JsonView::Str(task_id@)),
                ("status"@, JsonView::Str("completed"@)),
                ("duration_ms"@, JsonView::UInt(duration_ms)),
                ("result"@, result@),
            ],
        ),
{
    let ghost r = result@;
    let mut body: Vec<(String, Json)> = Vec::new();
    body.push(member("task_id", Json::string(task_id)));
    body.push(member("status", Json::string("completed")));
    body.push(member("duration_ms", Json::UInt(duration_ms)));
    body.push(member("result", result));
    let payload = object(body);
    proof {
        assert(members_view(body@) =~= seq![
            ("task_id"@, JsonView::Str(task_id@)),
            ("status"@, JsonView::Str("completed"@)),
            ("duration_ms"@, JsonView::UInt(duration_ms)),
            ("result"@, r),
        ]);
    }
    Envelope::new(String::from_str("task.result"), payload)
}

/// Reports that task `task_id` failed.
pub fn task_failed(task_id: &str, code: &str, message: String, details: Json) -> (res: Envelope<
    Json,
>)
    ensures
        fresh(res, "task.failed"@),
        res.payload@ == error_payload(task_id@, "failed"@, code@, message@, details@),
        member_of(res.payload@, "status"@) == Some(JsonView::Str("failed"@)),
{
    let payload = error_object(task_id, "failed", code, message, details);
    proof {
        law_error_payload_members(task_id@, "failed"@, code@, message@, details@);
    }
    Envelope::new(String::from_str("task.failed"), payload)
}

/// Rejects task `task_id`, answering request `reply_to`.
pub fn task_rejected(
    reply_to: &str,
    task_id: &str,
    code: &str,
    message: String,
    details: Json,
) -> (res: Envelope<Json>)
    ensures
        fresh_reply(res, "task.rejected"@, reply_to@),
        res.payload@ == error_payload(task_id@, "rejected"@, code@, message@, details@),
        member_of(res.payload@, "status"@) == Some(JsonView::Str("rejected"@)),
{
    let payload = error_object(task_id, "rejected", code, message, details);
    proof {
        law_error_payload_members(task_id@, "rejected"@, code@, message@, details@);
    }
    Envelope::new(String::from_str("task.rejected"), payload).reply_to(String::from_str(reply_to))
}

/// Confirms the cancellation of task `task_id`, answering request `reply_to`.
pub fn task_cancelled(reply_to: String, task_id: &str) -> (res: Envelope<Json>)
    ensures
        fresh_reply(res, "task.cancelled"@, reply_to@),
        res.payload@ == JsonView::Object(
            seq![("task_id"@, JsonView::Str(task_id@)), ("status"@, JsonView::Str("cancelled"@))],
        ),
{
    let mut body: Vec<(String, Json)> = Vec::new();
    body.push(member("task_id", Json::string(task_id)));
    body.push(member("status", Json::string("cancelled")));
    let payload = object(body);
    proof {
        assert(members_view(body@) =~= seq![
            ("task_id"@, JsonView::Str(task_id@)),
            ("status"@, JsonView::Str("cancelled"@)),
        ]);
    }
    Envelope::new(String::from_str("task.cancelled"), payload).reply_to(reply_to)
}

/// Says goodbye before the client goes away.
pub fn client_goodbye(session_id: Option<&str>, reason: &str) -> (res: Envelope<Json>)
    ensures
        fresh(res, "client.goodbye"@),
        res.payload@ == JsonView::Object(
            seq![
                ("session_id"@, opt_str(opt_view(session_id))),
                ("reason"@, JsonView::Str(reason@)),
            ],
        ),
{
    let mut body: Vec<(String, Json)> = Vec::new();
    body.push(member("session_id", Json::opt_string(session_id)));
    body.push(member("reason", Json::string(reason)));
    let payload = object(body);
    proof {
        assert(members_view(body@) =~= seq![
            ("session_id"@, opt_str(opt_view(session_id))),
            ("reason"@, JsonView::Str(reason@)),
        ]);
    }
    Envelope::new(String::from_str("client.goodbye"), payload)
}

/// The heartbeat.
pub fn client_ping(session_id: Option<&str>) -> (res: Envelope<Json>)
    ensures
        fresh(res, "client.ping"@),
        res.payload@ == JsonView::Object(seq![("session_id"@, opt_str(opt_view(session_id)))]),
{
    let mut body: Vec<(String, Json)> = Vec::new();
    body.push(member("session_id", Json::opt_string(session_id)));
    let payload = object(body);
    proof {
        assert(members_view(body@) =~= seq![("session_id"@, opt_str(opt_view(session_id)))]);
    }
    Envelope::new(String::from_str("client.ping"), payload)
}

/// The payload of an `error` message.
pub open spec fn error_body(code: Seq<char>, message: Seq<char>, details: JsonView) -> JsonView {
    JsonView::Object(
        seq![
            ("code"@, JsonView::Str(code)),
            ("message"@, JsonView::Str(message)),
            ("details"@, details),
        ],
    )
}

/// An `error` message answering message `reply_to`.
pub fn error_message(reply_to: &str, code: &str, message: String, details: Json) -> (res: Envelope<
    Json,
>)
    ensures
        fresh_reply(res, "error"@, reply_to@),
        res.payload@ == error_body(code@, message@, details@),
{
    let ghost (mv, dv) = (message@, details@);
    let mut body: Vec<(String, Json)> = Vec::new();
    body.push(member("code", Json::string(code)));
    body.push(member("message", Json::Str(message)));
    body.push(member("details", details));
    let payload = object(body);
    proof {
        assert(members_view(body@) =~= seq![
            ("code"@, JsonView::Str(code@)),
            ("message"@, JsonView::Str(mv)),
            ("details"@, dv),
        ]);
    }
    Envelope::new(String::from_str("error"), payload).reply_to(String::from_str(reply_to))
}

/// Reports that the command of task `task_id` started as process `pid`.
pub fn process_started(task_id: &str, pid: u32) -> (res: Envelope<Json>)
    ensures
        fresh(res, "task.event"@),
        res.payload@ == JsonView::Object(
            seq![
                ("task_id"@, JsonView::Str(task_id@)),
                ("event"@, JsonView::Str("process.started"@)),
                ("status"@, JsonView::Str("running"@)),
                ("pid"@, JsonView::UInt(pid as u64)),
            ],
        ),
{
    let mut body: Vec<(String, Json)> = Vec::new();
    body.push(member("task_id", Json::string(task_id)));
    body.push(member("event", Json::string("process.started")));
    body.push(member("status", Json::string("running")));
    body.push(member("pid", Json::UInt(pid as u64)));
    let payload = object(body);
    proof {
        assert(members_view(body@) =~= seq![
            ("task_id"@, JsonView::Str(task_id@)),
            ("event"@, JsonView::Str("process.started"@)),
            ("status"@, JsonView::Str("running"@)),
            ("pid"@, JsonView::UInt(pid as u64)),
        ]);
    }
    Envelope::new(String::from_str("task.event"), payload)
}

/// Carries the `sequence`-th piece of output of task `task_id`'s command,
/// read from `stream` (`stdout` or `stderr`).
pub fn process_output(task_id: &str, stream: &str, chunk: String, sequence: u64) -> (res: Envelope<
    Json,
>)
    ensures
        fresh(res, "task.event"@),
        res.payload@ == JsonView::Object(
            seq![
                ("task_id"@, JsonView::Str(task_id@)),
                ("event"@, JsonView::Str("process.output"@)),
                ("stream"@, JsonView::Str(stream@)),
                ("chunk"@, JsonView::Str(chunk@)),
                ("sequence"@, JsonView::UInt(sequence)),
            ],
        ),
{
    let ghost cv = chunk@;
    let mut body: Vec<(String, Json)> = Vec::new();
    body.push(member("task_id", Json::string(task_id)));
    body.push(member("event", Json::string("process.output")));
    body.push(member("stream", Json::string(stream)));
    body.push(member("chunk", Json::Str(chunk)));
    body.push(member("sequence", Json::UInt(sequence)));
    let payload = object(body);
    proof {
        assert(members_view(body@) =~= seq![
            ("task_id"@, JsonView::Str(task_id@)),
            ("event"@, JsonView::Str("process.output"@)),
            ("stream"@, JsonView::Str(stream@)),
            ("chunk"@, JsonView::Str(cv)),
            ("sequence"@, JsonView::UInt(sequence)),
        ]);
    }
    Envelope::new(String::from_str("task.event"), payload)
}

} // verus!
