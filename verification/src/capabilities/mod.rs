//! The local capabilities a cloud task can ask for, and how a request is
//! routed to one of them.
use vstd::prelude::*;

use crate::config::AppConfig;
use crate::error::{ErrorChain, Source};
use crate::json::Json;
use crate::policy::Policy;
use crate::text::{chars_eq, chars_of, concat};

pub mod fs;
pub mod process;
pub mod system;

verus! {

/// A capability the client offers to cloud tasks.
#[derive(Clone, Copy, PartialEq, Eq, Debug, Structural)]
pub enum Capability {
    SystemInfo,
    FsStat,
    FsList,
    FsRead,
    FsWrite,
    FsMkdir,
    FsMove,
    FsDelete,
    FsSearch,
    ProcessExec,
    ProcessCancel,
}

pub open spec fn capability_name(c: Capability) -> Seq<char> {
    match c {
        Capability::SystemInfo => "system.info"@,
        Capability::FsStat => "fs.stat"@,
        Capability::FsList => "fs.list"@,
        Capability::FsRead => "fs.read"@,
        Capability::FsWrite => "fs.write"@,
        Capability::FsMkdir => "fs.mkdir"@,
        Capability::FsMove => "fs.move"@,
        Capability::FsDelete => "fs.delete"@,
        Capability::FsSearch => "fs.search"@,
        Capability::ProcessExec => "process.exec"@,
        Capability::ProcessCancel => "process.cancel"@,
    }
}

/// The capability a task names, if the client offers it.
pub open spec fn capability_named(name: Seq<char>) -> Option<Capability> {
    if name == "system.info"@ {
        Some(Capability::SystemInfo)
    } else if name == "fs.stat"@ {
        Some(Capability::FsStat)
    } else if name == "fs.list"@ {
        Some(Capability::FsList)
    } else if name == "fs.read"@ {
        Some(Capability::FsRead)
    } else if name == "fs.write"@ {
        Some(Capability::FsWrite)
    } else if name == "fs.mkdir"@ {
        Some(Capability::FsMkdir)
    } else if name == "fs.move"@ {
        Some(Capability::FsMove)
    } else if name == "fs.delete"@ {
        Some(Capability::FsDelete)
    } else if name == "fs.search"@ {
        Some(Capability::FsSearch)
    } else if name == "process.exec"@ {
        Some(Capability::ProcessExec)
    } else if name == "process.cancel"@ {
        Some(Capability::ProcessCancel)
    } else {
        None
    }
}

fn named(n: &[char], s: &str) -> (res: bool)
    ensures
        res == (n@ == s@),
{
    let c = chars_of(s);
    chars_eq(n, c.as_slice())
}

impl Capability {
    /// The name a task uses for the capability.
    pub fn name(self) -> (res: &'static str)
        ensures
            res@ == capability_name(self),
    {
        match self {
            Capability::SystemInfo => "system.info",
            Capability::FsStat => "fs.stat",
            Capability::FsList => "fs.list",
            Capability::FsRead => "fs.read",
            Capability::FsWrite => "fs.write",
            Capability::FsMkdir => "fs.mkdir",
            Capability::FsMove => "fs.move",
            Capability::FsDelete => "fs.delete",
            Capability::FsSearch => "fs.search",
            Capability::ProcessExec => "process.exec",
            Capability::ProcessCancel => "process.cancel",
        }
    }

    /// The capability a task names; an unknown name is refused.
    pub fn from_name(name: &str) -> (res: Result<Capability, ErrorChain>)
        ensures
            match capability_named(name@) {
                Some(c) => res == Ok::<Capability, ErrorChain>(c),
                None => res matches Err(e) && e@ == seq![
                    ("unsupported capability: "@ + name@, Source::Message),
                ],
            },
    {
        let n = chars_of(name);
        let n = n.as_slice();
        if named(n, "system.info") {
            Ok(Capability::SystemInfo)
        } else if named(n, "fs.stat") {
            Ok(Capability::FsStat)
        } else if named(n, "fs.list") {
            Ok(Capability::FsList)
        } else if named(n, "fs.read") {
            Ok(Capability::FsRead)
        } else if named(n, "fs.write") {
            Ok(Capability::FsWrite)
        } else if named(n, "fs.mkdir") {
            Ok(Capability::FsMkdir)
        } else if named(n, "fs.move") {
            Ok(Capability::FsMove)
        } else if named(n, "fs.delete") {
            Ok(Capability::FsDelete)
        } else if named(n, "fs.search") {
            Ok(Capability::FsSearch)
        } else if named(n, "process.exec") {
            Ok(Capability::ProcessExec)
        } else if named(n, "process.cancel") {
            Ok(Capability::ProcessCancel)
        } else {
            Err(ErrorChain::msg(concat("unsupported capability: ", name)))
        }
    }

    /// A failure of this capability, with the capability named as context.
    pub fn failed(self, error: ErrorChain) -> (res: ErrorChain)
        ensures
            res@ == seq![(capability_name(self) + " failed"@, Source::Context)] + error@,
    {
        error.context(concat(self.name(), " failed"))
    }
}

/// The client's capabilities, each bound to the policy in force.
#[derive(Debug)]
pub struct CapabilityDispatcher {
    fs: fs::FsCapabilities,
    process: process::ProcessCapabilities,
    system: system::SystemCapabilities,
}

/// What a capability produced, and how long it took.
#[derive(Debug)]
pub struct CapabilityOutput {
    pub result: Json,
    pub duration_ms: u64,
}

impl CapabilityDispatcher {
    /// The capabilities under the policy of `config`.
    pub fn new(config: AppConfig) -> (res: CapabilityDispatcher)
        ensures
            res.fs().policy()@ == config@.policy,
            res.process().policy()@ == config@.policy,
            res.system().config()@ == config@,
    {
        let policy = Policy::new(config.policy.clone());
        CapabilityDispatcher {
            fs: fs::FsCapabilities::new(policy.clone()),
            process: process::ProcessCapabilities::new(policy),
            system: system::SystemCapabilities::new(config),
        }
    }

    #[verifier::when_used_as_spec(spec_fs)]
    pub fn fs(&self) -> (res: &fs::FsCapabilities)
        ensures
            res == self.spec_fs(),
    {
        &self.fs
    }

    #[verifier::when_used_as_spec(spec_process)]
    pub fn process(&self) -> (res: &process::ProcessCapabilities)
        ensures
            res == self.spec_process(),
    {
        &self.process
    }

    #[verifier::when_used_as_spec(spec_system)]
    pub fn system(&self) -> (res: &system::SystemCapabilities)
        ensures
            res == self.spec_system(),
    {
        &self.system
    }

    pub closed spec fn spec_fs(&self) -> &fs::FsCapabilities {
        &self.fs
    }

    pub closed spec fn spec_process(&self) -> &process::ProcessCapabilities {
        &self.process
    }

    pub closed spec fn spec_system(&self) -> &system::SystemCapabilities {
        &self.system
    }
}

/// Each capability's name leads back to it.
#[verifier::spinoff_prover]
proof fn lemma_names_resolve()
    ensures
        capability_named("system.info"@) == Some(Capability::SystemInfo),
        capability_named("fs.stat"@) == Some(Capability::FsStat),
        capability_named("fs.list"@) == Some(Capability::FsList),
        capability_named("fs.read"@) == Some(Capability::FsRead),
        capability_named("fs.write"@) == Some(Capability::FsWrite),
        capability_named("fs.mkdir"@) == Some(Capability::FsMkdir),
        capability_named("fs.move"@) == Some(Capability::FsMove),
        capability_named("fs.delete"@) == Some(Capability::FsDelete),
        capability_named("fs.search"@) == Some(Capability::FsSearch),
        capability_named("process.exec"@) == Some(Capability::ProcessExec),
        capability_named("process.cancel"@) == Some(Capability::ProcessCancel),
{
    reveal_strlit("system.info");
    reveal_strlit("fs.stat");
    reveal_strlit("fs.list");
    reveal_strlit("fs.read");
    reveal_strlit("fs.write");
    reveal_strlit("fs.mkdir");
    reveal_strlit("fs.move");
    reveal_strlit("fs.delete");
    reveal_strlit("fs.search");
    reveal_strlit("process.exec");
    reveal_strlit("process.cancel");
    assert("system.info"@.len() == 11);
    assert("fs.stat"@.len() == 7);
    assert("fs.list"@.len() == 7);
    assert("fs.read"@.len() == 7);
    assert("fs.write"@.len() == 8);
    assert("fs.mkdir"@.len() == 8);
    assert("fs.move"@.len() == 7);
    assert("fs.delete"@.len() == 9);
    assert("fs.search"@.len() == 9);
    assert("process.exec"@.len() == 12);
    assert("process.cancel"@.len() == 14);
    assert("fs.stat"@[3] != "fs.list"@[3]);
    assert("fs.stat"@[3] != "fs.read"@[3]);
    assert("fs.stat"@[3] != "fs.move"@[3]);
    assert("fs.list"@[3] != "fs.read"@[3]);
    assert("fs.list"@[3] != "fs.move"@[3]);
    assert("fs.read"@[3] != "fs.move"@[3]);
    assert("fs.write"@[3] != "fs.mkdir"@[3]);
    assert("fs.delete"@[3] != "fs.search"@[3]);
}

/// A capability is found again by the name a task uses for it.
pub proof fn law_capability_name_round_trip(c: Capability)
    ensures
        capability_named(capability_name(c)) == Some(c),
{
    lemma_names_resolve();
}

/// Every capability the device announces is one a task can ask for.
pub proof fn law_announced_capabilities_are_served(i: int)
    requires
        0 <= i < crate::device::capability_names().len(),
    ensures
        capability_named(crate::device::capability_names()[i]) is Some,
        capability_name(capability_named(crate::device::capability_names()[i])->0)
            == crate::device::capability_names()[i],
{
    lemma_names_resolve();
}

} // verus!
