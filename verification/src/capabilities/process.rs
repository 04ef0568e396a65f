//! `process.exec`: the decisions around running a shell command for a task.
//!
//! The command itself is started by the caller; this module decides whether
//! it may run, how (shell, arguments, time limit), and what the task is told
//! of its outcome.
use vstd::prelude::*;


use crate::error::{ErrorChain, Source};
use crate::i18n::Language;
use crate::json::{distinct_names, lemma_member_lookup, member, members_view, object, Json, JsonView};
use crate::outside::{utf8_lossy, utf8_lossy_of};
use crate::policy::{path_verdict, refusal, PathVerdict, Policy, ResolvedRoots};
use crate::config::strings;
use crate::text::{chars_eq, chars_of, concat, decimal, decimal_string, push_str, trim, trim_chars};

verus! {

/// A `process.exec` request as the task states it.
#[derive(Debug)]
pub struct ExecRequest {
    pub command: String,
    pub cwd: String,
    pub timeout_seconds: Option<u64>,
    pub env: Vec<(String, String)>,
    pub shell: String,
}

/// How an admitted command is to be started.
#[derive(Debug)]
pub struct ExecPlan {
    /// The command as the task gave it.
    pub command: String,
    /// The shell program that runs it.
    pub program: String,
    /// The shell's arguments, the command last.
    pub args: Vec<String>,
    /// The canonical working directory.
    pub cwd: String,
    /// Variables added to the command's environment.
    pub env: Vec<(String, String)>,
    /// The time the command is given before it is abandoned.
    pub timeout_seconds: u64,
}

/// What came of starting a planned command.
#[derive(Debug)]
pub enum ExecOutcome {
    /// The command did not finish within the plan's time limit.
    TimedOut,
    /// The command could not be started or awaited.
    Failed(ErrorChain),
    /// The command finished.
    Exited { exit_code: Option<i32>, success: bool, stdout: Vec<u8>, stderr: Vec<u8> },
}

/// The time limit a command gets: what the task asks for, at most the
/// policy's default, the default itself when the task does not say.
pub open spec fn timeout_for(requested: Option<u64>, default: u64) -> u64 {
    match requested {
        Some(r) => if r < default {
            r
        } else {
            default
        },
        None => default,
    }
}

/// The shell program that runs a command.
pub open spec fn shell_program(windows: bool) -> Seq<char> {
    if windows {
        "cmd"@
    } else {
        "sh"@
    }
}

/// The shell's arguments for a command.
pub open spec fn shell_args(windows: bool, command: Seq<char>) -> Seq<Seq<char>> {
    if windows {
        seq!["/C"@, command]
    } else {
        seq!["-lc"@, command]
    }
}

/// The first `limit` bytes, or all of them when there are fewer.
pub open spec fn kept_prefix(bytes: Seq<u8>, limit: int) -> Seq<u8> {
    if bytes.len() <= limit {
        bytes
    } else {
        bytes.subrange(0, limit)
    }
}

pub open spec fn exit_code_json(code: Option<i32>) -> JsonView {
    match code {
        Some(c) => JsonView::Int(c as i64),
        None => JsonView::Null,
    }
}

/// The report of a finished command: its text, directory, exit code and
/// status, and each output stream cut to `max` bytes and decoded lossily,
/// with a flag that says whether it was cut.
pub open spec fn exec_report(
    command: Seq<char>,
    cwd: Seq<char>,
    exit_code: Option<i32>,
    success: bool,
    stdout: Seq<u8>,
    stderr: Seq<u8>,
    max: u64,
) -> JsonView {
    JsonView::Object(
        seq![
            ("command"@, JsonView::Str(command)),
            ("cwd"@, JsonView::Str(cwd)),
            ("exit_code"@, exit_code_json(exit_code)),
            ("success"@, JsonView::Bool(success)),
            ("stdout"@, JsonView::Str(utf8_lossy_of(kept_prefix(stdout, max as int)))),
            ("stderr"@, JsonView::Str(utf8_lossy_of(kept_prefix(stderr, max as int)))),
            ("stdout_truncated"@, JsonView::Bool(stdout.len() > max)),
            ("stderr_truncated"@, JsonView::Bool(stderr.len() > max)),
        ],
    )
}

/// `bytes`, cut to at most `limit` bytes, decoded with invalid sequences
/// replaced.
pub fn truncate_utf8_lossy(bytes: &[u8], limit: usize) -> (res: String)
    ensures
        res@ == utf8_lossy_of(kept_prefix(bytes@, limit as int)),
{
    let end = if bytes.len() < limit {
        bytes.len()
    } else {
        limit
    };
    let (head, _) = bytes.split_at(end);
    proof {
        if bytes@.len() <= limit {
            assert(bytes@.subrange(0, end as int) =~= bytes@);
        }
    }
    utf8_lossy(head)
}

/// The shell a request names when it names none.
pub fn default_shell() -> (res: String)
    ensures
        res@ == "default"@,
{
    String::from_str("default")
}

/// Refuses a command that is empty or only whitespace.
pub fn check_command(command: &str) -> (res: Result<(), ErrorChain>)
    ensures
        res is Ok <==> trim(command@).len() > 0,
        res matches Err(e) ==> e@ == seq![("command is empty"@, Source::Message)],
{
    let cs = chars_of(command);
    let t = trim_chars(cs.as_slice());
    if t.len() == 0 {
        Err(ErrorChain::msg(String::from_str("command is empty")))
    } else {
        Ok(())
    }
}

/// The program and arguments that run `command` in the requested shell;
/// only the platform's default shell is offered.
pub fn shell_command(shell: &str, command: &str, windows: bool) -> (res: Result<
    (String, Vec<String>),
    ErrorChain,
>)
    ensures
        res is Ok <==> shell@ == "default"@,
        res matches Ok(p) ==> p.0@ == shell_program(windows) && p.1@.map_values(
            |a: String| a@,
        ) == shell_args(windows, command@),
        res matches Err(e) ==> e@ == seq![
            ("only default shell is supported in this build"@, Source::Message),
        ],
{
    let s = chars_of(shell);
    let d = chars_of("default");
    if !chars_eq(s.as_slice(), d.as_slice()) {
        return Err(
            ErrorChain::msg(String::from_str("only default shell is supported in this build")),
        );
    }
    let mut args: Vec<String> = Vec::new();
    let program = if windows {
        args.push(String::from_str("/C"));
        String::from_str("cmd")
    } else {
        args.push(String::from_str("-lc"));
        String::from_str("sh")
    };
    args.push(String::from_str(command));
    proof {
        reveal_strlit("/C");
        reveal_strlit("-lc");
        assert(args@.map_values(|a: String| a@) =~= shell_args(windows, command@));
    }
    Ok((program, args))
}

/// Words joined by single spaces (`[String]::join(" ")`).
pub open spec fn joined(words: Seq<Seq<char>>) -> Seq<char>
    decreases words.len(),
{
    if words.len() == 0 {
        Seq::<char>::empty()
    } else if words.len() == 1 {
        words[0]
    } else {
        joined(words.drop_last()) + " "@ + words.last()
    }
}

/// The command a command line gives as separate words: the words joined by
/// spaces; refused when nothing but whitespace is left.
pub fn command_line(words: &Vec<String>, language: Language) -> (res: Result<String, ErrorChain>)
    ensures
        ({
            let c = joined(words@.map_values(|w: String| w@));
            &&& trim(c).len() > 0 ==> (res matches Ok(t) && t@ == c)
            &&& trim(c).len() == 0 ==> (res matches Err(e) && e@ == seq![
                (
                    match language {
                        Language::English => "command is required"@,
                        Language::Chinese => "必须提供命令"@,
                    },
                    Source::Message,
                ),
            ])
        }),
{
    let ghost ws = words@.map_values(|w: String| w@);
    let mut text = String::new();
    let mut i: usize = 0;
    while i < words.len()
        invariant
            i <= words.len(),
            ws == words@.map_values(|w: String| w@),
            text@ == joined(ws.take(i as int)),
        decreases words.len() - i,
    {
        assert(ws.take(i + 1).drop_last() =~= ws.take(i as int));
        if i > 0 {
            push_str(&mut text, " ");
        } else {
            assert(ws.take(0) =~= Seq::<Seq<char>>::empty());
        }
        push_str(&mut text, words[i].as_str());
        proof {
            reveal_strlit(" ");
            if i == 0 {
                assert(text@ =~= ws.take(1)[0]);
            }
        }
        i += 1;
    }
    assert(ws.take(words.len() as int) =~= ws);
    let cs = chars_of(text.as_str());
    let t = trim_chars(cs.as_slice());
    if t.len() == 0 {
        return Err(
            ErrorChain::msg(String::from_str(language.select("command is required", "必须提供命令"))),
        );
    }
    Ok(text)
}

/// How many bytes of a piece of output just read are still forwarded, once
/// `sent` bytes of the stream went out and at most `max` may: the output
/// beyond the limit is cut off.
pub fn forward_len(sent: u64, read: usize, max: u64) -> (res: usize)
    ensures
        res <= read,
        sent >= max ==> res == 0,
        sent < max ==> res == if read as int <= max - sent {
            read as int
        } else {
            max - sent
        },
        sent <= max ==> sent + res <= max,
{
    if sent >= max {
        return 0;
    }
    let room = max - sent;
    if (read as u64) <= room {
        read
    } else {
        room as usize
    }
}

/// How a running command is stopped.
#[derive(Clone, Copy, PartialEq, Eq, Debug, Structural)]
pub enum Signal {
    /// Asked to end, then forced when it does not.
    Terminate,
    /// Ended at once.
    Kill,
}

/// The signal a cancellation uses when it names none.
pub fn default_signal() -> (res: String)
    ensures
        res@ == "terminate"@,
{
    String::from_str("terminate")
}

/// The signal a `process.cancel` request names: `terminate` or `kill`.
pub fn cancel_signal(signal: &str) -> (res: Result<Signal, ErrorChain>)
    ensures
        signal@ == "terminate"@ ==> res == Ok::<Signal, ErrorChain>(Signal::Terminate),
        signal@ == "kill"@ ==> res == Ok::<Signal, ErrorChain>(Signal::Kill),
        signal@ != "terminate"@ && signal@ != "kill"@ ==> (res matches Err(e) && e@ == seq![
            ("unsupported signal: "@ + signal@, Source::Message),
        ]),
{
    let s = chars_of(signal);
    let t = chars_of("terminate");
    let k = chars_of("kill");
    proof {
        reveal_strlit("terminate");
        reveal_strlit("kill");
        assert("terminate"@[0] != "kill"@[0]);
    }
    if chars_eq(s.as_slice(), t.as_slice()) {
        Ok(Signal::Terminate)
    } else if chars_eq(s.as_slice(), k.as_slice()) {
        Ok(Signal::Kill)
    } else {
        Err(ErrorChain::msg(concat("unsupported signal: ", signal)))
    }
}

/// The report of a cancellation: the task named, and whether a running
/// command of that task was found and stopped.
pub fn cancel_result(task_id: &str, cancelled: bool) -> (res: Json)
    ensures
        res@ == JsonView::Object(
            seq![("task_id"@, JsonView::Str(task_id@)), ("cancelled"@, JsonView::Bool(cancelled))],
        ),
{
    let mut body: Vec<(String, Json)> = Vec::new();
    body.push((String::from_str("task_id"), Json::string(task_id)));
    body.push((String::from_str("cancelled"), Json::Bool(cancelled)));
    assert(members_view(body@) =~= seq![
        ("task_id"@, JsonView::Str(task_id@)),
        ("cancelled"@, JsonView::Bool(cancelled)),
    ]);
    object(body)
}

#[derive(Debug)]
pub struct ProcessCapabilities {
    policy: Policy,
}

impl ProcessCapabilities {
    pub fn new(policy: Policy) -> (res: ProcessCapabilities)
        ensures
            res.policy()@ == policy@,
    {
        ProcessCapabilities { policy }
    }

    #[verifier::when_used_as_spec(spec_policy)]
    pub fn policy(&self) -> (res: &Policy)
        ensures
            res == self.spec_policy(),
    {
        &self.policy
    }

    pub closed spec fn spec_policy(&self) -> &Policy {
        &self.policy
    }

    /// The time limit for a command: the requested one, at most the policy's
    /// default command timeout.
    pub fn exec_timeout(&self, requested: Option<u64>) -> (res: u64)
        ensures
            res == timeout_for(requested, self.policy()@.default_command_timeout_seconds),
    {
        let d = self.policy.config().default_command_timeout_seconds;
        match requested {
            Some(r) => if r < d {
                r
            } else {
                d
            },
            None => d,
        }
    }

    /// Decides whether a request may run and how. `canonical` is what
    /// resolving the requested working directory gave, `is_dir` whether it is
    /// a directory, `roots` the policy's roots resolved; `windows` selects the
    /// platform's shell. In order: shell execution must be enabled, the
    /// directory must resolve, be a directory and be allowed, the command must
    /// not be blank, and the shell must be the default one.
    pub fn prepare(
        &self,
        request: ExecRequest,
        canonical: Result<String, ErrorChain>,
        is_dir: bool,
        roots: &ResolvedRoots,
        windows: bool,
    ) -> (res: Result<ExecPlan, ErrorChain>)
        ensures
            !self.policy()@.shell_exec_enabled ==> (res matches Err(e) && e@ == seq![
                ("shell execution is disabled by local policy"@, Source::Message),
            ]),
            self.policy()@.shell_exec_enabled ==> match canonical {
                Err(e) => res matches Err(r) && r@ == seq![
                    ("failed to canonicalize "@ + request.cwd@, Source::Context),
                ] + e@,
                Ok(p) => if !is_dir {
                    res matches Err(e) && e@ == seq![
                        ("command cwd is not a directory: "@ + p@, Source::Message),
                    ]
                } else if path_verdict(p@, strings(roots.blocked@), strings(roots.allowed@))
                    != PathVerdict::Allowed {
                    res matches Err(e) && e@ == refusal(
                        path_verdict(p@, strings(roots.blocked@), strings(roots.allowed@)),
                        p@,
                    )
                } else if trim(request.command@).len() == 0 {
                    res matches Err(e) && e@ == seq![("command is empty"@, Source::Message)]
                } else if request.shell@ != "default"@ {
                    res matches Err(e) && e@ == seq![
                        ("only default shell is supported in this build"@, Source::Message),
                    ]
                } else {
                    res matches Ok(plan) && {
                        &&& plan.command@ == request.command@
                        &&& plan.program@ == shell_program(windows)
                        &&& plan.args@.map_values(|a: String| a@) == shell_args(
                            windows,
                            request.command@,
                        )
                        &&& plan.cwd@ == p@
                        &&& plan.env@ == request.env@
                        &&& plan.timeout_seconds == timeout_for(
                            request.timeout_seconds,
                            self.policy()@.default_command_timeout_seconds,
                        )
                    }
                },
            },
    {
        let cwd = self.policy.check_shell_exec(request.cwd.as_str(), canonical, is_dir, roots)?;
        check_command(request.command.as_str())?;
        let timeout_seconds = self.exec_timeout(request.timeout_seconds);
        let (program, args) = shell_command(
            request.shell.as_str(),
            request.command.as_str(),
            windows,
        )?;
        Ok(ExecPlan {
            command: request.command,
            program,
            args,
            cwd,
            env: request.env,
            timeout_seconds,
        })
    }

    /// What the task is told of a planned command's outcome: the report of a
    /// finished command, or the reason it did not finish.
    pub fn finish(&self, plan: &ExecPlan, outcome: ExecOutcome) -> (res: Result<Json, ErrorChain>)
        ensures
            match outcome {
                ExecOutcome::TimedOut => res matches Err(e) && e@ == seq![
                    (
                        "command timed out after "@ + decimal(plan.timeout_seconds as nat)
                            + " seconds"@,
                        Source::Context,
                    ),
                    ("deadline has elapsed"@, Source::Message),
                ],
                ExecOutcome::Failed(f) => res matches Err(e) && e@ == seq![
                    ("failed to execute command in "@ + plan.cwd@, Source::Context),
                ] + f@,
                ExecOutcome::Exited { exit_code, success, stdout, stderr } => res matches Ok(j)
                    && j@ == exec_report(
                    plan.command@,
                    plan.cwd@,
                    exit_code,
                    success,
                    stdout@,
                    stderr@,
                    self.policy()@.max_command_output_bytes,
                ) && member(j@, "success"@) == Some(JsonView::Bool(success)) && member(
                    j@,
                    "exit_code"@,
                ) == Some(
                    match exit_code {
                        Some(c) => JsonView::Int(c as i64),
                        None => JsonView::Null,
                    },
                ),
            },
    {
        match outcome {
            ExecOutcome::TimedOut => {
                let mut text = String::from_str("command timed out after ");
                let n = decimal_string(plan.timeout_seconds);
                push_str(&mut text, n.as_str());
                push_str(&mut text, " seconds");
                Err(ErrorChain::msg(String::from_str("deadline has elapsed")).context(text))
            },
            ExecOutcome::Failed(f) => Err(
                f.context(concat("failed to execute command in ", plan.cwd.as_str())),
            ),
            ExecOutcome::Exited { exit_code, success, stdout, stderr } => {
                let max = self.policy.config().max_command_output_bytes;
                let stdout_truncated = stdout.len() as u64 > max;
                let stderr_truncated = stderr.len() as u64 > max;
                let out_limit: usize = if stdout_truncated {
                    max as usize
                } else {
                    stdout.len()
                };
                let err_limit: usize = if stderr_truncated {
                    max as usize
                } else {
                    stderr.len()
                };
                let out_text = truncate_utf8_lossy(stdout.as_slice(), out_limit);
                let err_text = truncate_utf8_lossy(stderr.as_slice(), err_limit);
                let code = match exit_code {
                    Some(c) => Json::Int(c as i64),
                    None => Json::Null,
                };
                let mut body: Vec<(String, Json)> = Vec::new();
                body.push((String::from_str("command"), Json::Str(plan.command.clone())));
                body.push((String::from_str("cwd"), Json::Str(plan.cwd.clone())));
                body.push((String::from_str("exit_code"), code));
                body.push((String::from_str("success"), Json::Bool(success)));
                body.push((String::from_str("stdout"), Json::Str(out_text)));
                body.push((String::from_str("stderr"), Json::Str(err_text)));
                body.push((String::from_str("stdout_truncated"), Json::Bool(stdout_truncated)));
                body.push((String::from_str("stderr_truncated"), Json::Bool(stderr_truncated)));
                proof {
                    assert(kept_prefix(stdout@, out_limit as int) == kept_prefix(
                        stdout@,
                        max as int,
                    ));
                    assert(kept_prefix(stderr@, err_limit as int) == kept_prefix(
                        stderr@,
                        max as int,
                    ));
                }
                assert(members_view(body@) =~= seq![
                    ("command"@, JsonView::Str(plan.command@)),
                    ("cwd"@, JsonView::Str(plan.cwd@)),
                    ("exit_code"@, exit_code_json(exit_code)),
                    ("success"@, JsonView::Bool(success)),
                    ("stdout"@, JsonView::Str(utf8_lossy_of(kept_prefix(stdout@, max as int)))),
                    ("stderr"@, JsonView::Str(utf8_lossy_of(kept_prefix(stderr@, max as int)))),
                    ("stdout_truncated"@, JsonView::Bool(stdout@.len() > max)),
                    ("stderr_truncated"@, JsonView::Bool(stderr@.len() > max)),
                ]);
                proof {
                    law_exec_report_members(
                        plan.command@,
                        plan.cwd@,
                        exit_code,
                        success,
                        stdout@,
                        stderr@,
                        max,
                    );
                }
                Ok(object(body))
            },
        }
    }
}

/// A command never gets more time than the policy allows and gets exactly
/// what it asks for within that; an output stream is cut to the limit, what
/// is kept is its beginning, and the report's flag says exactly whether
/// anything was cut.
pub proof fn law_command_limits(requested: Option<u64>, default: u64, output: Seq<u8>, max: u64)
    ensures
        timeout_for(requested, default) <= default,
        requested matches Some(r) ==> (r <= default ==> timeout_for(requested, default) == r),
        kept_prefix(output, max as int).len() <= max,
        kept_prefix(output, max as int) == output.subrange(
            0,
            kept_prefix(output, max as int).len() as int,
        ),
        (output.len() > max) == (kept_prefix(output, max as int) != output),
{
    if output.len() <= max {
        assert(output.subrange(0, output.len() as int) =~= output);
    } else {
        assert(kept_prefix(output, max as int).len() != output.len());
    }
}

/// The report of a finished command says what it ran and where, its exit
/// code (`null` when it has none), whether the exit status was a success,
/// each output stream cut to the limit and decoded, and whether each was cut.
#[verifier::spinoff_prover]
pub proof fn law_exec_report_members(
    command: Seq<char>,
    cwd: Seq<char>,
    exit_code: Option<i32>,
    success: bool,
    stdout: Seq<u8>,
    stderr: Seq<u8>,
    max: u64,
)
    ensures
        ({
            let r = exec_report(command, cwd, exit_code, success, stdout, stderr, max);
            &&& member(r, "command"@) == Some(JsonView::Str(command))
            &&& member(r, "cwd"@) == Some(JsonView::Str(cwd))
            &&& member(r, "exit_code"@) == Some(
                match exit_code {
                    Some(c) => JsonView::Int(c as i64),
                    None => JsonView::Null,
                },
            )
            &&& member(r, "success"@) == Some(JsonView::Bool(success))
            &&& member(r, "stdout"@) == Some(
                JsonView::Str(utf8_lossy_of(kept_prefix(stdout, max as int))),
            )
            &&& member(r, "stderr"@) == Some(
                JsonView::Str(utf8_lossy_of(kept_prefix(stderr, max as int))),
            )
            &&& member(r, "stdout_truncated"@) == Some(JsonView::Bool(stdout.len() > max))
            &&& member(r, "stderr_truncated"@) == Some(JsonView::Bool(stderr.len() > max))
        }),
{
    reveal_strlit("command");
    reveal_strlit("cwd");
    reveal_strlit("exit_code");
    reveal_strlit("success");
    reveal_strlit("stdout");
    reveal_strlit("stderr");
    reveal_strlit("stdout_truncated");
    reveal_strlit("stderr_truncated");
    let ms = seq![
        ("command"@, JsonView::Str(command)),
        ("cwd"@, JsonView::Str(cwd)),
        ("exit_code"@, exit_code_json(exit_code)),
        ("success"@, JsonView::Bool(success)),
        ("stdout"@, JsonView::Str(utf8_lossy_of(kept_prefix(stdout, max as int)))),
        ("stderr"@, JsonView::Str(utf8_lossy_of(kept_prefix(stderr, max as int)))),
        ("stdout_truncated"@, JsonView::Bool(stdout.len() > max)),
        ("stderr_truncated"@, JsonView::Bool(stderr.len() > max)),
    ];
    assert(exec_report(command, cwd, exit_code, success, stdout, stderr, max) == JsonView::Object(
        ms,
    ));
    assert("command"@[0] != "success"@[0]);
    assert("stdout"@[3] != "stderr"@[3]);
    assert("stdout_truncated"@[3] != "stderr_truncated"@[3]);
    assert forall|i: int, j: int| 0 <= i < j < ms.len() implies #[trigger] ms[i].0 != #[trigger] ms[j].0 by {
        if ms[i].0 == ms[j].0 {
            assert(ms[i].0.len() == ms[j].0.len());
            assert(ms[i].0[0] == ms[j].0[0]);
            assert(ms[i].0[3] == ms[j].0[3]);
        }
    }
    assert(distinct_names(ms));
    lemma_member_lookup(ms, "command"@);
    lemma_member_lookup(ms, "cwd"@);
    lemma_member_lookup(ms, "exit_code"@);
    lemma_member_lookup(ms, "success"@);
    lemma_member_lookup(ms, "stdout"@);
    lemma_member_lookup(ms, "stderr"@);
    lemma_member_lookup(ms, "stdout_truncated"@);
    lemma_member_lookup(ms, "stderr_truncated"@);
    assert(ms[0].0 == "command"@);
    assert(ms[1].0 == "cwd"@);
    assert(ms[2].0 == "exit_code"@);
    assert(ms[3].0 == "success"@);
    assert(ms[4].0 == "stdout"@);
    assert(ms[5].0 == "stderr"@);
    assert(ms[6].0 == "stdout_truncated"@);
    assert(ms[7].0 == "stderr_truncated"@);
    let r = exec_report(command, cwd, exit_code, success, stdout, stderr, max);
    assert(member(r, "command"@) == Some(ms[0].1));
    assert(member(r, "cwd"@) == Some(ms[1].1));
    assert(member(r, "exit_code"@) == Some(ms[2].1));
    assert(member(r, "success"@) == Some(ms[3].1));
    assert(member(r, "stdout"@) == Some(ms[4].1));
    assert(member(r, "stderr"@) == Some(ms[5].1));
    assert(member(r, "stdout_truncated"@) == Some(ms[6].1));
    assert(member(r, "stderr_truncated"@) == Some(ms[7].1));
}

} // verus!

