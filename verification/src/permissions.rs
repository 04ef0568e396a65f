//! Whether the operating system lets the agent read what it must: on macOS,
//! Full Disk Access, judged from what probing a few protected locations gave.
use vstd::prelude::*;

use crate::error::{ErrorChain, Source};
use crate::paths::{join, join_path};
use crate::text::{concat, push_str};

verus! {

/// What the agent knows of its Full Disk Access.
#[derive(Debug)]
pub struct FullDiskAccessStatus {
    pub required: bool,
    pub granted: bool,
    pub detail: String,
}

/// What trying to read one protected location gave.
#[derive(Debug)]
pub enum Probe {
    /// It could be read.
    Readable,
    /// It does not exist on this machine.
    Missing,
    /// The system refused access.
    Denied,
    /// Reading failed otherwise; the error's display text.
    Failed(String),
}

/// A protected location and whether it is a directory (listed) or a file (opened).
#[derive(Debug)]
pub struct Location {
    pub path: String,
    pub is_dir: bool,
}

/// The protected locations under a home directory, in the order they are probed.
pub open spec fn protected_paths(home: Seq<char>) -> Seq<(Seq<char>, bool)> {
    seq![
        (join(home, "Library/Mail"@), true),
        (join(home, "Library/Safari/History.db"@), false),
        (join(home, "Library/Messages/chat.db"@), false),
    ]
}

/// The protected locations under `home`: the Mail directory, then the Safari
/// history and the Messages database.
pub fn protected_locations(home: &str) -> (res: Vec<Location>)
    ensures
        res@.map_values(|l: Location| (l.path@, l.is_dir)) == protected_paths(home@),
{
    let mut res: Vec<Location> = Vec::new();
    res.push(Location { path: join_path(home, "Library/Mail"), is_dir: true });
    res.push(Location { path: join_path(home, "Library/Safari/History.db"), is_dir: false });
    res.push(Location { path: join_path(home, "Library/Messages/chat.db"), is_dir: false });
    assert(res@.map_values(|l: Location| (l.path@, l.is_dir)) =~= protected_paths(home@));
    res
}

/// What a probe says of access, if it says anything: readable grants it,
/// refused or failed denies it, missing leaves the question to the next location.
pub open spec fn probe_verdict(path: Seq<char>, probe: Probe) -> Option<(bool, Seq<char>)> {
    match probe {
        Probe::Readable => Some((true, "verified access to "@ + path)),
        Probe::Missing => None,
        Probe::Denied => Some((false, "macOS denied access to protected location "@ + path)),
        Probe::Failed(t) => Some((false, "failed to verify "@ + path + ": "@ + t@)),
    }
}

pub open spec fn probes_view(p: Seq<(String, Probe)>) -> Seq<(Seq<char>, Probe)> {
    p.map_values(|x: (String, Probe)| (x.0@, x.1))
}

/// The verdict of the first probe that says anything.
pub open spec fn first_verdict(probes: Seq<(Seq<char>, Probe)>) -> Option<(bool, Seq<char>)>
    decreases probes.len(),
{
    if probes.len() == 0 {
        None
    } else {
        match probe_verdict(probes[0].0, probes[0].1) {
            Some(v) => Some(v),
            None => first_verdict(probes.drop_first()),
        }
    }
}

/// The macOS status: no home directory means access cannot be shown; else
/// the first probe that says anything decides; when every location is
/// missing, access cannot be shown either. Access is always required.
pub open spec fn macos_status(home_known: bool, probes: Seq<(Seq<char>, Probe)>) -> (bool, Seq<char>) {
    if !home_known {
        (false, "cannot resolve the current user's home directory"@)
    } else {
        match first_verdict(probes) {
            Some(v) => v,
            None => (false, "no protected macOS location was available to verify Full Disk Access"@),
        }
    }
}

fn verdict_of(path: &str, probe: &Probe) -> (res: Option<(bool, String)>)
    ensures
        match res {
            Some((g, d)) => probe_verdict(path@, *probe) == Some((g, d@)),
            None => probe_verdict(path@, *probe) is None,
        },
{
    match probe {
        Probe::Readable => Some((true, concat("verified access to ", path))),
        Probe::Missing => None,
        Probe::Denied => Some((false, concat("macOS denied access to protected location ", path))),
        Probe::Failed(t) => {
            let mut d = concat("failed to verify ", path);
            push_str(&mut d, ": ");
            push_str(&mut d, t.as_str());
            Some((false, d))
        },
    }
}

/// What the platform allows to be known of Full Disk Access.
#[derive(Debug)]
pub enum AccessCheck {
    /// The platform has no such permission.
    NotRequired,
    /// The user's home directory could not be found.
    NoHome,
    /// The protected locations were probed, in order, with these results.
    Probed(Vec<(String, Probe)>),
}

/// The status of Full Disk Access. Where the platform has no such
/// permission it is neither required nor missing; otherwise it is required,
/// and granted as the probes of the protected locations show.
pub fn full_disk_access_status(check: AccessCheck) -> (res: FullDiskAccessStatus)
    ensures
        check is NotRequired ==> !res.required && res.granted && res.detail@
            == "Full Disk Access is only required on macOS"@,
        check is NoHome ==> res.required && (res.granted, res.detail@) == macos_status(
            false,
            Seq::empty(),
        ),
        check matches AccessCheck::Probed(p) ==> res.required && (res.granted, res.detail@)
            == macos_status(true, probes_view(p@)),
{
    let list = match &check {
        AccessCheck::NotRequired => {
            return FullDiskAccessStatus {
                required: false,
                granted: true,
                detail: String::from_str("Full Disk Access is only required on macOS"),
            };
        },
        AccessCheck::NoHome => {
            return FullDiskAccessStatus {
                required: true,
                granted: false,
                detail: String::from_str("cannot resolve the current user's home directory"),
            };
        },
        AccessCheck::Probed(p) => p,
    };
    let ghost all = probes_view(list@);
    assert(all.skip(0) =~= all);
    let mut i: usize = 0;
    while i < list.len()
        invariant
            i <= list.len(),
            all == probes_view(list@),
            check == AccessCheck::Probed(*list),
            first_verdict(all) == first_verdict(all.skip(i as int)),
        decreases list.len() - i,
    {
        let ghost rest = all.skip(i as int);
        assert(rest[0] == (list@[i as int].0@, list@[i as int].1));
        assert(rest.drop_first() =~= all.skip(i + 1));
        match verdict_of(list[i].0.as_str(), &list[i].1) {
            Some((granted, detail)) => {
                assert(first_verdict(rest) == Some((granted, detail@)));
                return FullDiskAccessStatus { required: true, granted, detail };
            },
            None => {},
        }
        i += 1;
    }
    assert(all.skip(i as int).len() == 0);
    FullDiskAccessStatus {
        required: true,
        granted: false,
        detail: String::from_str(
            "no protected macOS location was available to verify Full Disk Access",
        ),
    }
}

/// Whether the agent may start. It may when Full Disk Access is granted.
/// Otherwise `settings` is what opening the system settings for the user
/// gave (`Ok` when they were not opened): its failure is reported, else the
/// refusal says why access is needed and how to grant it.
pub fn require_startup_permissions(
    status: &FullDiskAccessStatus,
    settings: Result<(), ErrorChain>,
) -> (res: Result<(), ErrorChain>)
    ensures
        res is Ok <==> status.granted,
        !status.granted ==> match settings {
            Err(e) => res == Err::<(), ErrorChain>(e),
            Ok(_) => res matches Err(e) && e@ == seq![
                (
                    "Full Disk Access is required before the agent can start: "@ + status.detail@
                        + ". Grant iCoding Client access in System Settings > Privacy & Security > Full Disk Access, then restart the app"@,
                    Source::Message,
                ),
            ],
        },
{
    if status.granted {
        return Ok(());
    }
    settings?;
    let mut text = concat(
        "Full Disk Access is required before the agent can start: ",
        status.detail.as_str(),
    );
    push_str(
        &mut text,
        ". Grant iCoding Client access in System Settings > Privacy & Security > Full Disk Access, then restart the app",
    );
    Err(ErrorChain::msg(text))
}

/// The address that opens the Full Disk Access pane of the macOS settings.
pub const FULL_DISK_ACCESS_SETTINGS_URL: &'static str =
    "x-apple.systempreferences:com.apple.preference.security?Privacy_AllFiles";

/// What came of asking the system to show the Full Disk Access settings.
#[derive(Debug)]
pub enum SettingsLaunch {
    /// The platform has no such settings; nothing was started.
    Unneeded,
    /// The opener could not be started.
    Failed(ErrorChain),
    /// The opener ran; whether it succeeded, and its exit status as displayed.
    Exited { success: bool, status: String },
}

/// Whether showing the Full Disk Access settings worked.
pub fn open_full_disk_access_settings(launch: SettingsLaunch) -> (res: Result<(), ErrorChain>)
    ensures
        match launch {
            SettingsLaunch::Unneeded => res is Ok,
            SettingsLaunch::Failed(e) => res matches Err(r) && r@ == seq![
                ("failed to open macOS Full Disk Access settings"@, Source::Context),
            ] + e@,
            SettingsLaunch::Exited { success, status } => if success {
                res is Ok
            } else {
                res matches Err(r) && r@ == seq![
                    (
                        "failed to open macOS Full Disk Access settings: open exited with "@
                            + status@,
                        Source::Message,
                    ),
                ]
            },
        },
{
    match launch {
        SettingsLaunch::Unneeded => Ok(()),
        SettingsLaunch::Failed(e) => Err(
            e.context(String::from_str("failed to open macOS Full Disk Access settings")),
        ),
        SettingsLaunch::Exited { success, status } => if success {
            Ok(())
        } else {
            Err(
                ErrorChain::msg(
                    concat(
                        "failed to open macOS Full Disk Access settings: open exited with ",
                        status.as_str(),
                    ),
                ),
            )
        },
    }
}

} // verus!
