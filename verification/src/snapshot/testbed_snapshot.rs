//! A snapshot of the whole testbed: which guests are stopped, which images are brought back to
//! the master, and the archive made of the project, and where the snapshots of each guest are.

use vstd::prelude::*;
use crate::orchestration::OrchestrationCommon;
use crate::snapshot::TestbedSnapshots;
use crate::snapshot::full_guest_name;
use crate::state::State;
use crate::state::orchestration_tasks::guests::{get_master_testbed_name, master_index, master_name};
use crate::state::orchestration_tasks::libvirt::{disk_path, get_disk_path, has_disk_path};
use crate::state::schema::guest::{StateGuestType, StateTestbedGuest};
use crate::text::{concat2, concat3, owned, push_str, views};

verus! {

/// The positions of the libvirt guests, in order: those stopped while a testbed snapshot is made
/// and started again after it.
pub open spec fn libvirt_positions(list: Seq<(String, StateTestbedGuest)>) -> Seq<int>
    decreases list.len(),
{
    if list.len() == 0 {
        Seq::empty()
    } else {
        let rest = libvirt_positions(list.drop_last());
        if list.last().1.guest_type.guest_type is Libvirt { rest.push(list.len() - 1) } else { rest }
    }
}

/// The positions of the libvirt guests (see [`libvirt_positions`]).
pub fn snapshot_libvirt_guests(s: &State) -> (r: Vec<usize>)
    ensures
        r@.map_values(|x: usize| x as int) == libvirt_positions(s.testbed_guests.0@),
{
    let list = &s.testbed_guests.0;
    let mut r: Vec<usize> = Vec::new();
    let mut i: usize = 0;
    proof { assert(list@.subrange(0, 0) =~= Seq::<(String, StateTestbedGuest)>::empty()); }
    while i < list.len()
        invariant
            i <= list@.len(),
            list == &s.testbed_guests.0,
            r@.map_values(|x: usize| x as int) == libvirt_positions(list@.subrange(0, i as int)),
        decreases list@.len() - i,
    {
        proof {
            assert(list@.subrange(0, i + 1).drop_last() =~= list@.subrange(0, i as int));
            assert(list@.subrange(0, i + 1).last() == list@[i as int]);
        }
        let ghost prev = r@;
        if let StateGuestType::Libvirt(_) = &list[i].1.guest_type.guest_type {
            r.push(i);
            proof { assert(r@.map_values(|x: usize| x as int) =~= prev.map_values(|x: usize| x as int).push(i as int)); }
        }
        i = i + 1;
    }
    proof { assert(list@.subrange(0, list@.len() as int) =~= list@); }
    r
}

/// Every guest is placed.
pub open spec fn all_placed(list: Seq<(String, StateTestbedGuest)>) -> bool {
    forall|i: int| 0 <= i < list.len() ==> (#[trigger] list[i]).1.testbed_host is Some
}

/// The positions of the libvirt guests placed on another host than `master`, in order: those
/// whose images are brought back to the master.
pub open spec fn remote_libvirt_positions(list: Seq<(String, StateTestbedGuest)>, master: Seq<char>) -> Seq<int>
    decreases list.len(),
{
    if list.len() == 0 {
        Seq::empty()
    } else {
        let rest = remote_libvirt_positions(list.drop_last(), master);
        let g = list.last().1;
        if g.guest_type.guest_type is Libvirt && g.testbed_host->0@ != master { rest.push(list.len() - 1) } else { rest }
    }
}

/// The guests whose images are brought back to the master for a testbed snapshot (see
/// [`remote_libvirt_positions`]); refused when a guest is not placed.
pub fn snapshot_pull_guests(s: &State, common: &OrchestrationCommon) -> (r: Result<Vec<usize>, String>)
    requires
        master_index(*common) is Some,
    ensures
        match r {
            Ok(v) => all_placed(s.testbed_guests.0@)
                && v@.map_values(|x: usize| x as int) == remote_libvirt_positions(s.testbed_guests.0@, master_name(*common)),
            Err(m) => !all_placed(s.testbed_guests.0@) && m@ == "getting testbed host name in run snapshot action"@,
        },
{
    let master = get_master_testbed_name(common);
    let list = &s.testbed_guests.0;
    let mut r: Vec<usize> = Vec::new();
    let mut i: usize = 0;
    proof { assert(list@.subrange(0, 0) =~= Seq::<(String, StateTestbedGuest)>::empty()); }
    while i < list.len()
        invariant
            i <= list@.len(),
            list == &s.testbed_guests.0,
            master@ == master_name(*common),
            forall|k: int| 0 <= k < i ==> (#[trigger] list@[k]).1.testbed_host is Some,
            r@.map_values(|x: usize| x as int) == remote_libvirt_positions(list@.subrange(0, i as int), master@),
        decreases list@.len() - i,
    {
        proof {
            assert(list@.subrange(0, i + 1).drop_last() =~= list@.subrange(0, i as int));
            assert(list@.subrange(0, i + 1).last() == list@[i as int]);
        }
        let g = &list[i].1;
        let host = match &g.testbed_host {
            Some(h) => h,
            None => { return Err(owned("getting testbed host name in run snapshot action")); },
        };
        let ghost prev = r@;
        if let StateGuestType::Libvirt(_) = &g.guest_type.guest_type {
            if *host != master {
                r.push(i);
                proof { assert(r@.map_values(|x: usize| x as int) =~= prev.map_values(|x: usize| x as int).push(i as int)); }
            }
        }
        i = i + 1;
    }
    proof { assert(list@.subrange(0, list@.len() as int) =~= list@); }
    Ok(r)
}

/// The archive of the project folder made on the master for a testbed snapshot, at the time
/// `time_text`: everything but the state file, zipped from the project folder with `/tmp` for
/// scratch space.
pub open spec fn zip_spec(project: Seq<char>, time_text: Seq<char>) -> Seq<Seq<char>> {
    seq![
        "zip"@, "-r"@, project + "-snapshot-"@ + time_text + ".zip"@, "."@, "-x"@, project + "-state.json"@,
        "-b"@, "/tmp"@,
    ]
}

/// The host, command and working folder of the archive of a testbed snapshot (see [`zip_spec`]).
pub fn zip_command(common: &OrchestrationCommon, time_text: &str) -> (r: (String, Vec<String>, String))
    requires
        master_index(*common) is Some,
    ensures
        r.0@ == master_name(*common),
        views(r.1@) == zip_spec(common.project_name@, time_text@),
        r.2@ == common.project_working_dir@,
{
    let p = common.project_name.as_str();
    let mut zip_name = concat3(p, "-snapshot-", time_text);
    push_str(&mut zip_name, ".zip");
    let mut cmd: Vec<String> = Vec::new();
    cmd.push(owned("zip"));
    cmd.push(owned("-r"));
    cmd.push(zip_name);
    cmd.push(owned("."));
    cmd.push(owned("-x"));
    cmd.push(concat2(p, "-state.json"));
    cmd.push(owned("-b"));
    cmd.push(owned("/tmp"));
    proof { assert(views(cmd@) =~= zip_spec(common.project_name@, time_text@)); }
    (get_master_testbed_name(common), cmd, common.project_working_dir.clone())
}

/// The guests whose disks have snapshots, with their full names, hosts and image paths, in
/// order: every libvirt guest but the backing images. Refused at the first guest (other than a
/// backing image) that is not placed, or whose cloud image has no path.
pub open spec fn targets_spec(list: Seq<(String, StateTestbedGuest)>, project: Seq<char>) -> Result<Seq<(Seq<char>, Seq<char>, Seq<char>)>, Seq<char>>
    decreases list.len(),
{
    if list.len() == 0 {
        Ok(Seq::empty())
    } else {
        match targets_spec(list.drop_last(), project) {
            Err(e) => Err(e),
            Ok(rest) => {
                let (name, g) = list.last();
                if g.is_golden_image {
                    Ok(rest)
                } else {
                    match g.testbed_host {
                        None => Err("getting testbed host name in testbed snapshots"@),
                        Some(h) => match g.guest_type.guest_type {
                            StateGuestType::Libvirt(l) => if !has_disk_path(l) {
                                Err("getting img path in testbed snapshots"@)
                            } else {
                                Ok(rest.push((full_guest_name(project, name@), h@, disk_path(l))))
                            },
                            _ => Ok(rest),
                        },
                    }
                }
            },
        }
    }
}

/// A refusal for a prefix of the guests stays the answer for the whole list.
proof fn lemma_targets_err(list: Seq<(String, StateTestbedGuest)>, project: Seq<char>, i: int)
    requires
        0 <= i <= list.len(),
        targets_spec(list.subrange(0, i), project) is Err,
    ensures
        targets_spec(list, project) == targets_spec(list.subrange(0, i), project),
    decreases list.len() - i,
{
    if i < list.len() {
        assert(list.subrange(0, i + 1).drop_last() =~= list.subrange(0, i));
        lemma_targets_err(list, project, i + 1);
    } else {
        assert(list.subrange(0, i) =~= list);
    }
}

/// The views of a list of targets.
pub open spec fn target_views(v: Seq<(String, String, String)>) -> Seq<(Seq<char>, Seq<char>, Seq<char>)> {
    v.map_values(|t: (String, String, String)| (t.0@, t.1@, t.2@))
}

/// The guests whose snapshots a testbed offers (see [`targets_spec`]); each image is then read
/// from its host to make the testbed's snapshots.
pub fn snapshot_targets(s: &State, common: &OrchestrationCommon) -> (r: Result<Vec<(String, String, String)>, String>)
    ensures
        match (r, targets_spec(s.testbed_guests.0@, common.project_name@)) {
            (Ok(v), Ok(t)) => target_views(v@) == t,
            (Err(a), Err(b)) => a@ == b,
            _ => false,
        },
{
    let list = &s.testbed_guests.0;
    let mut r: Vec<(String, String, String)> = Vec::new();
    let mut i: usize = 0;
    proof {
        assert(list@.subrange(0, 0) =~= Seq::<(String, StateTestbedGuest)>::empty());
        assert(target_views(r@) =~= Seq::<(Seq<char>, Seq<char>, Seq<char>)>::empty());
    }
    while i < list.len()
        invariant
            i <= list@.len(),
            list == &s.testbed_guests.0,
            targets_spec(list@.subrange(0, i as int), common.project_name@) == Ok::<Seq<(Seq<char>, Seq<char>, Seq<char>)>, Seq<char>>(target_views(r@)),
        decreases list@.len() - i,
    {
        proof {
            assert(list@.subrange(0, i + 1).drop_last() =~= list@.subrange(0, i as int));
            assert(list@.subrange(0, i + 1).last() == list@[i as int]);
        }
        let g = &list[i].1;
        if !g.is_golden_image {
            let host = match &g.testbed_host {
                Some(h) => h,
                None => {
                    proof { lemma_targets_err(list@, common.project_name@, i + 1); }
                    return Err(owned("getting testbed host name in testbed snapshots"));
                },
            };
            if let StateGuestType::Libvirt(l) = &g.guest_type.guest_type {
                let has_path = match &l.libvirt_type {
                    crate::state::schema::machines::libvirt::StateLibvirtGuestOptions::CloudImage { path, .. } => path.is_some(),
                    _ => true,
                };
                if !has_path {
                    proof { lemma_targets_err(list@, common.project_name@, i + 1); }
                    return Err(owned("getting img path in testbed snapshots"));
                }
                let name = TestbedSnapshots::guest_name_helper(&common.project_name, &list[i].0);
                let ghost prev = r@;
                let entry = (name, host.clone(), get_disk_path(l));
                let ghost ev = (entry.0@, entry.1@, entry.2@);
                r.push(entry);
                proof { assert(target_views(r@) =~= target_views(prev).push(ev)); }
            }
        }
        i = i + 1;
    }
    proof { assert(list@.subrange(0, list@.len() as int) =~= list@); }
    Ok(r)
}

} // verus!
