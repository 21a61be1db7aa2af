//! What a snapshot command asks for: the step to run, or why it cannot run.

use vstd::prelude::*;
use crate::ovn::ovn_state::first_where;
use crate::snapshot::{GuestDiskSnapshot, TestbedSnapshots, all_printable, snapshot_named};
use crate::snapshot::qemu_img::{snapshot_text, dates_printable};
use crate::state::StateTestbedGuestList;
use crate::state::orchestration_tasks::guests::guest_named;
use crate::orchestration::names_unique;
use crate::state::schema::guest::StateGuestType;
use crate::text::{owned, push_str};

verus! {

/// Taking snapshots: of every guest, or of one guest under a name.
#[derive(Debug, Clone)]
pub struct SnapshotCreate {
    pub all: bool,
    pub name: Option<String>,
    pub snapshot: Option<String>,
}

/// Listing snapshots: of every guest, or of one.
#[derive(Debug, Clone)]
pub struct SnapshotList {
    pub all: bool,
    pub name: Option<String>,
}

/// Restoring snapshots: of every guest, or one snapshot of one guest.
#[derive(Debug, Clone)]
pub struct SnapshotRestore {
    pub all: bool,
    pub name: Option<String>,
    pub snapshot: Option<String>,
}

/// A snapshot command as the user gives it.
#[derive(Debug, Clone)]
pub enum SnapshotSubCommand {
    Create(SnapshotCreate),
    Delete { name: Option<String>, snapshot: Option<String>, all: bool },
    Info { name: String },
    List(SnapshotList),
    Restore(SnapshotRestore),
}

/// The step a snapshot command comes to.
#[derive(Debug, Clone, PartialEq, Eq)]
pub enum SnapshotStep {
    CreateAll,
    Create { guest: String, snapshot: String },
    DeleteAll { guest: String },
    Delete { guest: String, snapshot: String },
    Info { guest: String },
    ListAll,
    List { guest: String },
    RestoreAll,
    Restore { guest: String, snapshot: String },
}

/// The message given when a command needs both a guest and a snapshot name.
pub open spec fn both_names_text() -> Seq<char> {
    "must supply both the guest name and snapshot name"@
}

/// Whether the guest of that name is a libvirt guest (the only kind with snapshots).
pub open spec fn is_libvirt_guest(guests: StateTestbedGuestList, n: Seq<char>) -> bool {
    match first_where(guests.0@, guest_named(n)) {
        Some(i) => guests.0@[i].1.guest_type.guest_type is Libvirt,
        None => false,
    }
}

/// What a snapshot command comes to: every form with `all` set acts on every guest (deleting
/// all snapshots still needs a guest); otherwise the command needs its guest and snapshot names,
/// and listing one guest's snapshots needs a libvirt guest.
pub open spec fn step_result(cmd: SnapshotSubCommand, guests: StateTestbedGuestList, r: Result<SnapshotStep, String>) -> bool {
    match cmd {
        SnapshotSubCommand::Create(c) => if c.all {
            r == Ok::<SnapshotStep, String>(SnapshotStep::CreateAll)
        } else {
            match (c.name, c.snapshot) {
                (Some(g), Some(s)) => r == Ok::<SnapshotStep, String>(SnapshotStep::Create { guest: g, snapshot: s }),
                _ => r matches Err(m) && m@ == both_names_text(),
            }
        },
        SnapshotSubCommand::Delete { name, snapshot, all } => if all {
            match name {
                Some(g) => r == Ok::<SnapshotStep, String>(SnapshotStep::DeleteAll { guest: g }),
                None => r matches Err(m) && m@ == "Getting guest name for delete command"@,
            }
        } else {
            match (name, snapshot) {
                (Some(g), Some(s)) => r == Ok::<SnapshotStep, String>(SnapshotStep::Delete { guest: g, snapshot: s }),
                _ => r matches Err(m) && m@ == both_names_text(),
            }
        },
        SnapshotSubCommand::Info { name } => r == Ok::<SnapshotStep, String>(SnapshotStep::Info { guest: name }),
        SnapshotSubCommand::List(l) => if l.all {
            r == Ok::<SnapshotStep, String>(SnapshotStep::ListAll)
        } else {
            match l.name {
                Some(g) => if is_libvirt_guest(guests, g@) {
                    r == Ok::<SnapshotStep, String>(SnapshotStep::List { guest: g })
                } else {
                    r matches Err(m) && m@ == "only libvirt guests support snapshots"@
                },
                None => r matches Err(m) && m@ == "no guest name specified"@,
            }
        },
        SnapshotSubCommand::Restore(c) => if c.all {
            r == Ok::<SnapshotStep, String>(SnapshotStep::RestoreAll)
        } else {
            match (c.name, c.snapshot) {
                (Some(g), Some(s)) => r == Ok::<SnapshotStep, String>(SnapshotStep::Restore { guest: g, snapshot: s }),
                _ => r matches Err(m) && m@ == both_names_text(),
            }
        },
    }
}

/// A command listing one guest's snapshots names a guest of the testbed.
pub open spec fn listed_guest_present(cmd: SnapshotSubCommand, guests: StateTestbedGuestList) -> bool {
    match cmd {
        SnapshotSubCommand::List(l) => match l.name {
            Some(g) => !l.all ==> first_where(guests.0@, guest_named(g@)) is Some,
            None => true,
        },
        _ => true,
    }
}

/// Copies two optional names when both are given.
fn both(name: &Option<String>, snapshot: &Option<String>) -> (r: Option<(String, String)>)
    ensures
        match (*name, *snapshot) {
            (Some(g), Some(s)) => r == Some((g, s)),
            _ => r is None,
        },
{
    match (name, snapshot) {
        (Some(g), Some(s)) => Some((g.clone(), s.clone())),
        _ => None,
    }
}

/// Works out the step a snapshot command comes to (see [`step_result`]). Listing one guest's
/// snapshots needs the guest to be in the testbed.
pub fn snapshot_step(cmd: &SnapshotSubCommand, guests: &StateTestbedGuestList) -> (r: Result<SnapshotStep, String>)
    requires
        names_unique(guests.0@),
        listed_guest_present(*cmd, *guests),
    ensures
        step_result(*cmd, *guests, r),
{
    match cmd {
        SnapshotSubCommand::Create(c) => {
            if c.all {
                Ok(SnapshotStep::CreateAll)
            } else {
                match both(&c.name, &c.snapshot) {
                    Some((g, s)) => Ok(SnapshotStep::Create { guest: g, snapshot: s }),
                    None => Err(owned("must supply both the guest name and snapshot name")),
                }
            }
        },
        SnapshotSubCommand::Delete { name, snapshot, all } => {
            if *all {
                match name {
                    Some(g) => Ok(SnapshotStep::DeleteAll { guest: g.clone() }),
                    None => Err(owned("Getting guest name for delete command")),
                }
            } else {
                match both(name, snapshot) {
                    Some((g, s)) => Ok(SnapshotStep::Delete { guest: g, snapshot: s }),
                    None => Err(owned("must supply both the guest name and snapshot name")),
                }
            }
        },
        SnapshotSubCommand::Info { name } => Ok(SnapshotStep::Info { guest: name.clone() }),
        SnapshotSubCommand::List(l) => {
            if l.all {
                Ok(SnapshotStep::ListAll)
            } else {
                match &l.name {
                    Some(g) => {
                        match crate::state::orchestration_tasks::guests::find_guest(guests, g) {
                            None => vstd::pervasive::unreached(),
                            Some(i) => match &guests.0[i].1.guest_type.guest_type {
                                StateGuestType::Libvirt(_) => Ok(SnapshotStep::List { guest: g.clone() }),
                                _ => Err(owned("only libvirt guests support snapshots")),
                            },
                        }
                    },
                    None => Err(owned("no guest name specified")),
                }
            }
        },
        SnapshotSubCommand::Restore(c) => {
            if c.all {
                Ok(SnapshotStep::RestoreAll)
            } else {
                match both(&c.name, &c.snapshot) {
                    Some((g, s)) => Ok(SnapshotStep::Restore { guest: g, snapshot: s }),
                    None => Err(owned("must supply both the guest name and snapshot name")),
                }
            }
        },
    }
}

/// The message reported when a step that changes snapshots is done; the steps that print
/// report what they print instead.
pub open spec fn done_text(s: SnapshotStep) -> Option<Seq<char>> {
    match s {
        SnapshotStep::CreateAll => Some("snapshots created"@),
        SnapshotStep::Create { .. } => Some("snapshot created"@),
        SnapshotStep::DeleteAll { .. } => Some("snapshot for all guests created"@),
        SnapshotStep::Delete { .. } => Some("snapshot deleted"@),
        SnapshotStep::RestoreAll => Some("snapshots restored"@),
        SnapshotStep::Restore { .. } => Some("snapshot restored"@),
        _ => None,
    }
}

/// The message reported when a step is done (see [`done_text`]).
pub fn done_message(s: &SnapshotStep) -> (r: Option<String>)
    ensures
        match done_text(*s) {
            Some(t) => r matches Some(m) && m@ == t,
            None => r is None,
        },
{
    match s {
        SnapshotStep::CreateAll => Some(owned("snapshots created")),
        SnapshotStep::Create { .. } => Some(owned("snapshot created")),
        SnapshotStep::DeleteAll { .. } => Some(owned("snapshot for all guests created")),
        SnapshotStep::Delete { .. } => Some(owned("snapshot deleted")),
        SnapshotStep::RestoreAll => Some(owned("snapshots restored")),
        SnapshotStep::Restore { .. } => Some(owned("snapshot restored")),
        _ => None,
    }
}

/// The name given to the snapshots taken of every guest at once.
pub fn group_snapshot_name(time_text: &str) -> (r: String)
    ensures
        r@ == "group-snapshot-"@ + time_text@,
{
    let mut r = owned("group-snapshot-");
    push_str(&mut r, time_text);
    r
}

/// After snapshots of every guest were taken under `group`: each guest's printed snapshot of
/// that name, in order; refused, naming the snapshot and the guest, at the first guest without
/// one.
pub fn group_snapshot_report(testbed: &TestbedSnapshots, group: &String) -> (r: Result<Vec<String>, String>)
    requires
        all_printable(testbed.guests@),
    ensures
        match r {
            Ok(v) => v@.len() == testbed.guests@.len() && forall|k: int| 0 <= k < v@.len() ==> ({
                let g = #[trigger] testbed.guests@[k];
                g.snapshot.snapshots matches Some(s) && first_where(s@, snapshot_named(group@)) matches Some(j)
                    && v@[k]@ == snapshot_text(s@[j])
            }),
            Err(m) => exists|k: int| 0 <= k < testbed.guests@.len() && ({
                let g = #[trigger] testbed.guests@[k];
                &&& !(g.snapshot.snapshots matches Some(s) && first_where(s@, snapshot_named(group@)) is Some)
                &&& m@ == "could not find "@ + group@ + " for "@ + g.guest_name@
                &&& forall|x: int| 0 <= x < k ==> ((#[trigger] testbed.guests@[x]).snapshot.snapshots matches Some(s)
                    && first_where(s@, snapshot_named(group@)) is Some)
            }),
        },
{
    let mut out: Vec<String> = Vec::new();
    let mut k: usize = 0;
    while k < testbed.guests.len()
        invariant
            k <= testbed.guests@.len(),
            all_printable(testbed.guests@),
            out@.len() == k,
            forall|x: int| 0 <= x < k ==> ({
                let g = #[trigger] testbed.guests@[x];
                g.snapshot.snapshots matches Some(s) && first_where(s@, snapshot_named(group@)) matches Some(j)
                    && out@[x]@ == snapshot_text(s@[j])
            }),
        decreases testbed.guests@.len() - k,
    {
        proof { assert(dates_printable(testbed.guests@[k as int].snapshot)); }
        match testbed.guests[k].snapshot.info_one(group) {
            Some(t) => {
                out.push(t);
            },
            None => {
                let mut m = owned("could not find ");
                push_str(&mut m, group.as_str());
                push_str(&mut m, " for ");
                push_str(&mut m, testbed.guests[k].guest_name.as_str());
                proof {
                    let g = testbed.guests@[k as int];
                    assert(m@ =~= "could not find "@ + group@ + " for "@ + g.guest_name@);
                }
                return Err(m);
            },
        }
        k = k + 1;
    }
    Ok(out)
}

} // verus!
