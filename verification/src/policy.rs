//! The local path and command policy: the last line of defence between a
//! cloud task and this machine.
use vstd::prelude::*;

use crate::config::{PolicyConfig, PolicyConfigView, strings};
use crate::error::{ErrorChain, Source};
use crate::paths::{
    contains_parent_dir, has_parent_dir, is_absolute, join, join_path, path_starts_with,
    starts_with_path,
};
use crate::text::{chars_of, concat};

verus! {

#[derive(Clone, Copy, PartialEq, Eq, Debug, Structural)]
pub enum FsOperation {
    Read,
    Write,
    Delete,
    List,
}

/// How a path is brought to its canonical form before it is checked.
#[derive(Clone, Copy, PartialEq, Eq, Debug, Structural)]
pub enum Normalization {
    /// The path must exist; symbolic links and `.` are resolved.
    Existing,
    /// The path may not exist yet; its longest existing ancestor is resolved
    /// and the missing names are appended.
    ForWrite,
}

pub open spec fn normalization_for(op: FsOperation) -> Normalization {
    match op {
        FsOperation::Write => Normalization::ForWrite,
        _ => Normalization::Existing,
    }
}

impl FsOperation {
    /// How paths for this operation are normalized.
    pub fn normalization(self) -> (res: Normalization)
        ensures
            res == normalization_for(self),
    {
        match self {
            FsOperation::Write => Normalization::ForWrite,
            FsOperation::Read | FsOperation::Delete | FsOperation::List => Normalization::Existing,
        }
    }
}

/// The policy's blocked paths and allowed roots, each in canonical form;
/// those that could not be resolved are left out.
#[derive(Debug)]
pub struct ResolvedRoots {
    pub blocked: Vec<String>,
    pub allowed: Vec<String>,
}

/// The canonical forms among the results of resolving configured paths, in
/// their order; a path that could not be resolved contributes nothing.
pub open spec fn resolved_paths(results: Seq<Result<String, ErrorChain>>) -> Seq<Seq<char>>
    decreases results.len(),
{
    if results.len() == 0 {
        seq![]
    } else {
        let rest = resolved_paths(results.drop_last());
        match results.last() {
            Ok(p) => rest.push(p@),
            Err(_) => rest,
        }
    }
}

/// The canonical forms among `results`, in order.
fn resolved_only(results: &Vec<Result<String, ErrorChain>>) -> (res: Vec<String>)
    ensures
        strings(res@) == resolved_paths(results@),
{
    let mut out: Vec<String> = Vec::new();
    let mut i: usize = 0;
    while i < results.len()
        invariant
            i <= results.len(),
            strings(out@) == resolved_paths(results@.take(i as int)),
        decreases results.len() - i,
    {
        let ghost before = strings(out@);
        assert(results@.take(i + 1).drop_last() =~= results@.take(i as int));
        assert(results@.take(i + 1).last() == results@[i as int]);
        match &results[i] {
            Ok(p) => {
                out.push(p.clone());
                assert(strings(out@) =~= before.push(p@));
            },
            Err(_) => {},
        }
        i += 1;
    }
    assert(results@.take(results.len() as int) =~= results@);
    out
}

impl ResolvedRoots {
    /// The resolved policy paths, from the result of resolving each blocked
    /// path and each allowed root: those that could not be resolved are
    /// left out, the others keep their order.
    pub fn from_resolutions(
        blocked: &Vec<Result<String, ErrorChain>>,
        allowed: &Vec<Result<String, ErrorChain>>,
    ) -> (res: ResolvedRoots)
        ensures
            strings(res.blocked@) == resolved_paths(blocked@),
            strings(res.allowed@) == resolved_paths(allowed@),
    {
        ResolvedRoots { blocked: resolved_only(blocked), allowed: resolved_only(allowed) }
    }
}

/// Why a canonical path is refused, or that it is allowed.
#[derive(Clone, Copy, PartialEq, Eq, Debug, Structural)]
pub enum PathVerdict {
    Allowed,
    ParentTraversal,
    Blocked,
    OutsideRoots,
    AllowedRoot,
}

pub open spec fn under_any(path: Seq<char>, bases: Seq<Seq<char>>) -> bool {
    exists|i: int| 0 <= i < bases.len() && path_starts_with(path, #[trigger] bases[i])
}

/// The verdict on a canonical path: no `..` anywhere, under no blocked path,
/// and under some allowed root, checked in that order.
pub open spec fn path_verdict(
    path: Seq<char>,
    blocked: Seq<Seq<char>>,
    allowed: Seq<Seq<char>>,
) -> PathVerdict {
    if has_parent_dir(path) {
        PathVerdict::ParentTraversal
    } else if under_any(path, blocked) {
        PathVerdict::Blocked
    } else if !under_any(path, allowed) {
        PathVerdict::OutsideRoots
    } else {
        PathVerdict::Allowed
    }
}

/// Two paths name the same place: each is a component-wise prefix of the other.
pub open spec fn same_path(a: Seq<char>, b: Seq<char>) -> bool {
    path_starts_with(a, b) && path_starts_with(b, a)
}

/// The path is one of the allowed roots itself.
pub open spec fn is_allowed_root(path: Seq<char>, allowed: Seq<Seq<char>>) -> bool {
    exists|i: int| 0 <= i < allowed.len() && same_path(path, #[trigger] allowed[i])
}

/// The verdict on a canonical path for an operation: as `path_verdict`, and
/// an allowed root itself may not be deleted.
pub open spec fn op_verdict(
    op: FsOperation,
    path: Seq<char>,
    blocked: Seq<Seq<char>>,
    allowed: Seq<Seq<char>>,
) -> PathVerdict {
    let v = path_verdict(path, blocked, allowed);
    if v == PathVerdict::Allowed && op == FsOperation::Delete && is_allowed_root(path, allowed) {
        PathVerdict::AllowedRoot
    } else {
        v
    }
}

/// The single-layer error a refusal is reported with.
pub open spec fn refusal(verdict: PathVerdict, path: Seq<char>) -> Seq<(Seq<char>, Source)> {
    match verdict {
        PathVerdict::ParentTraversal => seq![
            ("path contains parent traversal: "@ + path, Source::Message),
        ],
        PathVerdict::Blocked => seq![("path is blocked by policy: "@ + path, Source::Message)],
        PathVerdict::AllowedRoot => seq![
            ("refusing to delete an allowed root: "@ + path, Source::Message),
        ],
        _ => seq![("path is outside allowed roots: "@ + path, Source::Message)],
    }
}

/// The outcome of checking a canonical path.
pub open spec fn checked(
    op: FsOperation,
    path: Seq<char>,
    roots: ResolvedRoots,
    res: Result<(), ErrorChain>,
) -> bool {
    let v = op_verdict(op, path, strings(roots.blocked@), strings(roots.allowed@));
    &&& (res is Ok <==> v == PathVerdict::Allowed)
    &&& (res matches Err(e) ==> e@ == refusal(v, path))
}

/// The outcome of checking a path that had to be normalized first: a failed
/// normalization is reported under the given context, a normalized path is
/// checked and handed back.
pub open spec fn checked_normalized(
    op: FsOperation,
    normalized: Result<String, ErrorChain>,
    context: Seq<char>,
    roots: ResolvedRoots,
    res: Result<String, ErrorChain>,
) -> bool {
    match normalized {
        Err(e) => res matches Err(r) && r@ == seq![(context, Source::Context)] + e@,
        Ok(p) => {
            let v = op_verdict(op, p@, strings(roots.blocked@), strings(roots.allowed@));
            &&& (res is Ok <==> v == PathVerdict::Allowed)
            &&& (res matches Ok(q) ==> q@ == p@)
            &&& (res matches Err(e) ==> e@ == refusal(v, p@))
        },
    }
}

fn refuse(prefix: &str, path: &str) -> (res: ErrorChain)
    ensures
        res@ == seq![(prefix@ + path@, Source::Message)],
{
    ErrorChain::msg(concat(prefix, path))
}

/// Refuses a path that climbs to a parent directory anywhere.
pub fn reject_suspicious_components(path: &str) -> (res: Result<(), ErrorChain>)
    ensures
        res is Ok <==> !has_parent_dir(path@),
        res matches Err(e) ==> e@ == refusal(PathVerdict::ParentTraversal, path@),
{
    let cs = chars_of(path);
    if contains_parent_dir(cs.as_slice()) {
        return Err(refuse("path contains parent traversal: ", path));
    }
    Ok(())
}

fn under_some(path: &[char], bases: &Vec<String>) -> (res: bool)
    ensures
        res == under_any(path@, strings(bases@)),
{
    let mut i: usize = 0;
    while i < bases.len()
        invariant
            i <= bases.len(),
            forall|j: int| 0 <= j < i ==> !path_starts_with(path@, #[trigger] strings(bases@)[j]),
        decreases bases.len() - i,
    {
        let b = chars_of(bases[i].as_str());
        if starts_with_path(path, b.as_slice()) {
            assert(strings(bases@)[i as int] == bases@[i as int]@);
            return true;
        }
        assert(strings(bases@)[i as int] == bases@[i as int]@);
        i += 1;
    }
    false
}

fn some_same(path: &[char], bases: &Vec<String>) -> (res: bool)
    ensures
        res == is_allowed_root(path@, strings(bases@)),
{
    let mut i: usize = 0;
    while i < bases.len()
        invariant
            i <= bases.len(),
            forall|j: int| 0 <= j < i ==> !same_path(path@, #[trigger] strings(bases@)[j]),
        decreases bases.len() - i,
    {
        let b = chars_of(bases[i].as_str());
        assert(strings(bases@)[i as int] == bases@[i as int]@);
        if starts_with_path(path, b.as_slice()) && starts_with_path(b.as_slice(), path) {
            return true;
        }
        i += 1;
    }
    false
}

/// The absolute form of a path relative to the working directory
/// (`Path::join` onto it), if the working directory could be found.
pub fn absolutize(path: &str, current_dir: Result<String, ErrorChain>) -> (res: Result<
    String,
    ErrorChain,
>)
    ensures
        is_absolute(path@) ==> (res matches Ok(p) && p@ == path@),
        !is_absolute(path@) ==> match current_dir {
            Ok(d) => res matches Ok(p) && p@ == join(d@, path@),
            Err(e) => res matches Err(r) && r@ == e@,
        },
{
    let cs = chars_of(path);
    if cs.len() > 0 && cs[0] == '/' {
        return Ok(String::from_str(path));
    }
    match current_dir {
        Ok(d) => Ok(join_path(d.as_str(), path)),
        Err(e) => Err(e),
    }
}

/// A resolved ancestor with the missing names appended, innermost last
/// (`missing` lists them from the innermost out, as they are found walking up).
pub open spec fn rebuilt(ancestor: Seq<char>, missing: Seq<Seq<char>>) -> Seq<char>
    decreases missing.len(),
{
    if missing.len() == 0 {
        ancestor
    } else {
        join(rebuilt(ancestor, missing.drop_first()), missing[0])
    }
}

/// Appends to a resolved ancestor the names that do not exist yet.
pub fn rebuild_under(ancestor: String, missing: &Vec<String>) -> (res: String)
    ensures
        res@ == rebuilt(ancestor@, strings(missing@)),
{
    let mut res = ancestor;
    let n = missing.len();
    let mut k: usize = n;
    assert(strings(missing@).skip(n as int) =~= Seq::<Seq<char>>::empty());
    while k > 0
        invariant
            n == missing.len(),
            k <= n,
            res@ == rebuilt(ancestor@, strings(missing@).skip(k as int)),
        decreases k,
    {
        k -= 1;
        let ghost rest = strings(missing@).skip(k as int);
        assert(rest.drop_first() =~= strings(missing@).skip(k + 1));
        assert(rest[0] == missing@[k as int]@);
        res = join_path(res.as_str(), missing[k].as_str());
    }
    assert(strings(missing@).skip(0) == strings(missing@));
    res
}

/// The policy in force, built from its configuration.
#[derive(Debug)]
pub struct Policy {
    config: PolicyConfig,
}

impl View for Policy {
    type V = PolicyConfigView;

    closed spec fn view(&self) -> PolicyConfigView {
        self.config@
    }
}

impl Clone for Policy {
    fn clone(&self) -> (res: Self)
        ensures
            res@ == self@,
    {
        Policy { config: self.config.clone() }
    }
}

impl Policy {
    pub fn new(config: PolicyConfig) -> (res: Policy)
        ensures
            res@ == config@,
    {
        Policy { config }
    }

    pub fn config(&self) -> (res: &PolicyConfig)
        ensures
            res@ == self@,
    {
        &self.config
    }

    /// Refuses a canonical path that climbs to a parent, lies under a blocked
    /// path, or lies under no allowed root; a deletion of an allowed root
    /// itself is refused too.
    pub fn ensure_path_allowed(&self, path: &str, roots: &ResolvedRoots, operation: FsOperation) -> (res:
        Result<(), ErrorChain>)
        ensures
            checked(operation, path@, *roots, res),
    {
        reject_suspicious_components(path)?;
        let cs = chars_of(path);
        if under_some(cs.as_slice(), &roots.blocked) {
            return Err(refuse("path is blocked by policy: ", path));
        }
        if !under_some(cs.as_slice(), &roots.allowed) {
            return Err(refuse("path is outside allowed roots: ", path));
        }
        if operation == FsOperation::Delete && some_same(cs.as_slice(), &roots.allowed) {
            return Err(refuse("refusing to delete an allowed root: ", path));
        }
        Ok(())
    }

    fn check_normalized(
        &self,
        normalized: Result<String, ErrorChain>,
        context: String,
        roots: &ResolvedRoots,
        operation: FsOperation,
    ) -> (res: Result<String, ErrorChain>)
        ensures
            checked_normalized(operation, normalized, context@, *roots, res),
    {
        match normalized {
            Err(e) => Err(e.context(context)),
            Ok(p) => {
                self.ensure_path_allowed(p.as_str(), roots, operation)?;
                Ok(p)
            },
        }
    }

    /// Checks a file to be read, given its canonical form (or why it has none).
    pub fn check_file_read(
        &self,
        path: &str,
        canonical: Result<String, ErrorChain>,
        roots: &ResolvedRoots,
    ) -> (res: Result<String, ErrorChain>)
        ensures
            checked_normalized(
                FsOperation::Read,
                canonical,
                "failed to canonicalize "@ + path@,
                *roots,
                res,
            ),
    {
        self.check_normalized(canonical, concat("failed to canonicalize ", path), roots, FsOperation::Read)
    }

    /// Checks a file to be written, given its normalized form (or why it has none).
    pub fn check_file_write(&self, normalized: Result<String, ErrorChain>, roots: &ResolvedRoots) -> (res:
        Result<String, ErrorChain>)
        ensures
            match normalized {
                Err(e) => res matches Err(r) && r@ == e@,
                Ok(p) => {
                    &&& (res is Ok <==> path_verdict(p@, strings(roots.blocked@), strings(roots.allowed@))
                        == PathVerdict::Allowed)
                    &&& (res matches Ok(q) ==> q@ == p@)
                    &&& (res matches Err(e) ==> e@ == refusal(
                        path_verdict(p@, strings(roots.blocked@), strings(roots.allowed@)),
                        p@,
                    ))
                },
            },
    {
        match normalized {
            Err(e) => Err(e),
            Ok(p) => {
                self.ensure_path_allowed(p.as_str(), roots, FsOperation::Write)?;
                Ok(p)
            },
        }
    }

    /// Checks a path for `operation`, given the form that
    /// `operation.normalization()` calls for (or why it has none); failures of
    /// an existing-path normalization carry the canonicalization context.
    pub fn check_dir_or_file(
        &self,
        path: &str,
        normalized: Result<String, ErrorChain>,
        operation: FsOperation,
        roots: &ResolvedRoots,
    ) -> (res: Result<String, ErrorChain>)
        ensures
            normalization_for(operation) == Normalization::Existing ==> checked_normalized(
                operation,
                normalized,
                "failed to canonicalize "@ + path@,
                *roots,
                res,
            ),
            normalization_for(operation) == Normalization::ForWrite ==> match normalized {
                Err(e) => res matches Err(r) && r@ == e@,
                Ok(p) => {
                    &&& (res is Ok <==> path_verdict(p@, strings(roots.blocked@), strings(roots.allowed@))
                        == PathVerdict::Allowed)
                    &&& (res matches Ok(q) ==> q@ == p@)
                    &&& (res matches Err(e) ==> e@ == refusal(
                        path_verdict(p@, strings(roots.blocked@), strings(roots.allowed@)),
                        p@,
                    ))
                },
            },
    {
        match operation.normalization() {
            Normalization::ForWrite => self.check_file_write(normalized, roots),
            Normalization::Existing => self.check_normalized(
                normalized,
                concat("failed to canonicalize ", path),
                roots,
                operation,
            ),
        }
    }

    /// Checks the working directory of a command: command execution must be
    /// enabled, the directory must resolve, be a directory, and be allowed.
    pub fn check_shell_exec(
        &self,
        cwd: &str,
        canonical: Result<String, ErrorChain>,
        is_dir: bool,
        roots: &ResolvedRoots,
    ) -> (res: Result<String, ErrorChain>)
        ensures
            !self@.shell_exec_enabled ==> (res matches Err(e) && e@ == seq![
                ("shell execution is disabled by local policy"@, Source::Message),
            ]),
            self@.shell_exec_enabled ==> match canonical {
                Err(e) => res matches Err(r) && r@ == seq![
                    ("failed to canonicalize "@ + cwd@, Source::Context),
                ] + e@,
                Ok(p) => if !is_dir {
                    res matches Err(e) && e@ == seq![
                        ("command cwd is not a directory: "@ + p@, Source::Message),
                    ]
                } else {
                    let v = path_verdict(p@, strings(roots.blocked@), strings(roots.allowed@));
                    &&& (res is Ok <==> v == PathVerdict::Allowed)
                    &&& (res matches Ok(q) ==> q@ == p@)
                    &&& (res matches Err(e) ==> e@ == refusal(v, p@))
                },
            },
    {
        if !self.config.shell_exec_enabled {
            return Err(
                ErrorChain::msg(String::from_str("shell execution is disabled by local policy")),
            );
        }
        match canonical {
            Err(e) => Err(e.context(concat("failed to canonicalize ", cwd))),
            Ok(p) => {
                if !is_dir {
                    return Err(refuse("command cwd is not a directory: ", p.as_str()));
                }
                self.ensure_path_allowed(p.as_str(), roots, FsOperation::Read)?;
                Ok(p)
            },
        }
    }
}

/// Whatever the policy lets through lies under an allowed root, under no
/// blocked path, and never climbs to a parent directory; so a blocked path
/// and everything below it is refused even inside an allowed root.
pub proof fn law_allowed_paths_are_contained(
    path: Seq<char>,
    blocked: Seq<Seq<char>>,
    allowed: Seq<Seq<char>>,
)
    ensures
        path_verdict(path, blocked, allowed) == PathVerdict::Allowed <==> {
            &&& !has_parent_dir(path)
            &&& forall|i: int| 0 <= i < blocked.len() ==> !path_starts_with(path, #[trigger] blocked[i])
            &&& exists|i: int| 0 <= i < allowed.len() && path_starts_with(path, #[trigger] allowed[i])
        },
{
}

/// Adding a blocked path never lets through a path that was refused, and
/// adding an allowed root never refuses a path that was let through.
pub proof fn law_policy_monotone(
    path: Seq<char>,
    blocked: Seq<Seq<char>>,
    allowed: Seq<Seq<char>>,
    extra_blocked: Seq<char>,
    extra_root: Seq<char>,
)
    ensures
        path_verdict(path, blocked.push(extra_blocked), allowed) == PathVerdict::Allowed
            ==> path_verdict(path, blocked, allowed) == PathVerdict::Allowed,
        path_verdict(path, blocked, allowed) == PathVerdict::Allowed ==> path_verdict(
            path,
            blocked,
            allowed.push(extra_root),
        ) == PathVerdict::Allowed,
{
    if under_any(path, blocked) {
        let i = choose|i: int| 0 <= i < blocked.len() && path_starts_with(path, #[trigger] blocked[i]);
        assert(blocked.push(extra_blocked)[i] == blocked[i]);
    }
    if under_any(path, allowed) {
        let i = choose|i: int| 0 <= i < allowed.len() && path_starts_with(path, #[trigger] allowed[i]);
        assert(allowed.push(extra_root)[i] == allowed[i]);
    }
}

/// What a look at one path on the way to a not-yet-written path found.
#[derive(Clone, Copy, PartialEq, Eq, Debug, Structural)]
pub enum Existence {
    /// Something is there (a symbolic link counts when its target is there).
    Exists,
    /// A symbolic link whose target does not exist.
    DanglingLink,
    /// Nothing is there.
    Missing,
}

/// The next move of the walk that finds where a write lands.
#[derive(Clone, Copy, PartialEq, Eq, Debug, Structural)]
pub enum WalkStep {
    /// Resolve this path; the names climbed over are appended to it.
    Resolve,
    /// Remember this path's name and look at its parent.
    Climb,
}

/// One step of the walk from a path to be written up to its nearest
/// existing ancestor. An existing path is resolved; a missing one is climbed
/// over when it has a name and a parent; a dangling symbolic link is refused,
/// since a write through it would land wherever the link points.
pub fn write_walk_step(cursor: &str, found: Existence, has_name: bool, has_parent: bool) -> (res:
    Result<WalkStep, ErrorChain>)
    ensures
        found == Existence::Exists ==> res == Ok::<WalkStep, ErrorChain>(WalkStep::Resolve),
        found == Existence::DanglingLink ==> (res matches Err(e) && e@ == seq![
            ("path is a dangling symbolic link: "@ + cursor@, Source::Message),
        ]),
        found == Existence::Missing ==> if !has_name {
            res matches Err(e) && e@ == seq![
                ("path must include a file or directory name"@, Source::Message),
            ]
        } else if !has_parent {
            res matches Err(e) && e@ == seq![
                ("failed to find existing parent directory"@, Source::Message),
            ]
        } else {
            res == Ok::<WalkStep, ErrorChain>(WalkStep::Climb)
        },
{
    match found {
        Existence::Exists => Ok(WalkStep::Resolve),
        Existence::DanglingLink => Err(refuse("path is a dangling symbolic link: ", cursor)),
        Existence::Missing => if !has_name {
            Err(ErrorChain::msg(String::from_str("path must include a file or directory name")))
        } else if !has_parent {
            Err(ErrorChain::msg(String::from_str("failed to find existing parent directory")))
        } else {
            Ok(WalkStep::Climb)
        },
    }
}

/// An allowed root may be listed, read and written in, but never deleted
/// itself; every other operation gets the plain path verdict.
pub proof fn law_allowed_roots_survive_deletion(
    path: Seq<char>,
    blocked: Seq<Seq<char>>,
    allowed: Seq<Seq<char>>,
    op: FsOperation,
)
    ensures
        is_allowed_root(path, allowed) ==> op_verdict(FsOperation::Delete, path, blocked, allowed)
            != PathVerdict::Allowed,
        op != FsOperation::Delete ==> op_verdict(op, path, blocked, allowed) == path_verdict(
            path,
            blocked,
            allowed,
        ),
{
}

} // verus!
