//! Snapshots of guest disks, for one guest and for the whole testbed.

pub mod qemu_img;
pub mod snapshot_cmd;
pub mod testbed_snapshot;

use vstd::prelude::*;
use crate::snapshot::qemu_img::{QemuImg, QemuImgSnapshot, dates_printable, img_text, print_list_spec,
    most_recent, lemma_most_recent, snapshot_text};
use crate::text::{owned, push_str, starts_with, views};

verus! {

/// What every kind of guest disk that supports snapshots offers.
pub trait GuestDiskSnapshot {
    /// Whether every snapshot can be printed.
    spec fn printable(&self) -> bool;

    /// The printed snapshots, one per entry.
    fn print_list(&self) -> (r: Vec<String>)
        requires
            self.printable();

    /// The printed form of the whole disk and its snapshots.
    fn info(&self) -> (r: String)
        requires
            self.printable();

    /// The printed form of the snapshot of that name, if there is one.
    fn info_one(&self, snapshot_name: &String) -> (r: Option<String>)
        requires
            self.printable();

    /// The names of the snapshots, if the disk has a list of them.
    fn list(&self) -> (r: Option<Vec<String>>);

    /// The name of the most recent snapshot, if any.
    fn get_most_recent_snapshot(&self) -> (r: Option<String>);
}

/// A snapshot of that name.
pub open spec fn snapshot_named(n: Seq<char>) -> spec_fn(QemuImgSnapshot) -> bool {
    |s: QemuImgSnapshot| s.name@ == n
}

impl GuestDiskSnapshot for QemuImg {
    open spec fn printable(&self) -> bool {
        dates_printable(*self)
    }

    /// One entry per snapshot, or a note that there are none (see [`print_list_spec`]).
    fn print_list(&self) -> (r: Vec<String>)
        ensures
            views(r@) == print_list_spec(*self),
    {
        let mut out: Vec<String> = Vec::new();
        match &self.snapshots {
            Some(v) => {
                let mut i: usize = 0;
                while i < v.len()
                    invariant
                        i <= v@.len(),
                        forall|k: int| 0 <= k < v@.len() ==> qemu_img::date_in_range(#[trigger] v@[k].date_sec),
                        views(out@) == v@.subrange(0, i as int).map_values(|s: QemuImgSnapshot| snapshot_text(s)),
                    decreases v@.len() - i,
                {
                    let t = v[i].to_string();
                    let ghost before = out@;
                    out.push(t);
                    proof {
                        assert(views(out@) =~= views(before).push(t@));
                        assert(views(out@) =~= v@.subrange(0, i + 1).map_values(|s: QemuImgSnapshot| snapshot_text(s)));
                    }
                    i = i + 1;
                }
                proof { assert(v@.subrange(0, v@.len() as int) =~= v@); }
            },
            None => {
                out.push(owned("\nno snapshots..."));
                proof { assert(views(out@) =~= seq!["\nno snapshots..."@]); }
            },
        }
        out
    }

    /// The printed form of the image (see [`img_text`]).
    fn info(&self) -> (r: String)
        ensures
            r@ == img_text(*self),
    {
        self.to_string()
    }

    /// The printed form of the first snapshot of that name.
    fn info_one(&self, snapshot_name: &String) -> (r: Option<String>)
        ensures
            match self.snapshots {
                Some(v) => match crate::ovn::ovn_state::first_where(v@, snapshot_named(snapshot_name@)) {
                    Some(i) => r matches Some(t) && t@ == snapshot_text(v@[i]),
                    None => r is None,
                },
                None => r is None,
            },
    {
        match &self.snapshots {
            Some(v) => {
                let ghost f = snapshot_named(snapshot_name@);
                let mut i: usize = 0;
                while i < v.len()
                    invariant
                        i <= v@.len(),
                        self.snapshots == Some(*v),
                        f == snapshot_named(snapshot_name@),
                        forall|k: int| 0 <= k < v@.len() ==> qemu_img::date_in_range(#[trigger] v@[k].date_sec),
                        forall|k: int| 0 <= k < i ==> !f(#[trigger] v@[k]),
                    decreases v@.len() - i,
                {
                    if v[i].name == *snapshot_name {
                        proof { crate::ovn::ovn_state::lemma_first_where_found(v@, f, i as int); }
                        return Some(v[i].to_string());
                    }
                    i = i + 1;
                }
                proof { crate::ovn::ovn_state::lemma_first_where_absent(v@, f); }
                None
            },
            None => None,
        }
    }

    /// The names of the snapshots, in order.
    fn list(&self) -> (r: Option<Vec<String>>)
        ensures
            match self.snapshots {
                Some(v) => r matches Some(names) && views(names@) == v@.map_values(|s: QemuImgSnapshot| s.name@),
                None => r is None,
            },
    {
        match &self.snapshots {
            Some(v) => {
                let mut names: Vec<String> = Vec::new();
                let mut i: usize = 0;
                while i < v.len()
                    invariant
                        i <= v@.len(),
                        views(names@) == v@.subrange(0, i as int).map_values(|s: QemuImgSnapshot| s.name@),
                    decreases v@.len() - i,
                {
                    let ghost before = names@;
                    names.push(v[i].name.clone());
                    proof {
                        assert(views(names@) =~= views(before).push(v@[i as int].name@));
                        assert(views(names@) =~= v@.subrange(0, i + 1).map_values(|s: QemuImgSnapshot| s.name@));
                    }
                    i = i + 1;
                }
                proof { assert(v@.subrange(0, v@.len() as int) =~= v@); }
                Some(names)
            },
            None => None,
        }
    }

    /// The name of the last snapshot with the greatest date (see [`most_recent`]).
    fn get_most_recent_snapshot(&self) -> (r: Option<String>)
        ensures
            match self.snapshots {
                Some(v) => match most_recent(v@) {
                    Some(j) => r matches Some(n) && n@ == v@[j].name@,
                    None => r is None,
                },
                None => r is None,
            },
    {
        match &self.snapshots {
            Some(v) => {
                if v.len() == 0 {
                    return None;
                }
                let mut best: usize = 0;
                let mut i: usize = 1;
                proof {
                    assert(v@.subrange(0, 1).drop_last() =~= Seq::<QemuImgSnapshot>::empty());
                    assert(most_recent(Seq::<QemuImgSnapshot>::empty()) is None);
                }
                while i < v.len()
                    invariant
                        1 <= i <= v@.len(),
                        best < i,
                        most_recent(v@.subrange(0, i as int)) == Some(best as int),
                    decreases v@.len() - i,
                {
                    proof {
                        assert(v@.subrange(0, i + 1).drop_last() =~= v@.subrange(0, i as int));
                        lemma_most_recent(v@.subrange(0, i as int));
                    }
                    if v[i].date_sec >= v[best].date_sec {
                        best = i;
                    }
                    i = i + 1;
                }
                proof { assert(v@.subrange(0, v@.len() as int) =~= v@); }
                Some(v[best].name.clone())
            },
            None => None,
        }
    }
}

/// One guest with the snapshots of its disk.
#[derive(Debug, Clone)]
pub struct GuestSnapshots {
    pub guest_name: String,
    pub testbed_host: String,
    pub snapshot: QemuImg,
}

/// The lines printed for a guest: its name, then its snapshots.
pub open spec fn guest_list_text(guest_name: Seq<char>, lines: Seq<Seq<char>>) -> Seq<char>
    decreases lines.len(),
{
    if lines.len() == 0 {
        "Guest name: "@ + guest_name
    } else {
        guest_list_text(guest_name, lines.drop_last()) + lines.last()
    }
}

impl GuestSnapshots {
    /// The guest's name followed by its printed snapshots.
    pub fn list(&self) -> (r: String)
        requires
            dates_printable(self.snapshot),
        ensures
            r@ == guest_list_text(self.guest_name@, print_list_spec(self.snapshot)),
    {
        let lines = self.snapshot.print_list();
        let mut s = owned("Guest name: ");
        push_str(&mut s, self.guest_name.as_str());
        let mut i: usize = 0;
        while i < lines.len()
            invariant
                i <= lines@.len(),
                s@ == guest_list_text(self.guest_name@, views(lines@).subrange(0, i as int)),
            decreases lines@.len() - i,
        {
            proof { assert(views(lines@).subrange(0, i + 1).drop_last() =~= views(lines@).subrange(0, i as int)); }
            push_str(&mut s, lines[i].as_str());
            i = i + 1;
        }
        proof { assert(views(lines@).subrange(0, lines@.len() as int) =~= views(lines@)); }
        s
    }

    /// The printed form of the guest's disk.
    pub fn info(&self) -> (r: String)
        requires
            dates_printable(self.snapshot),
        ensures
            r@ == img_text(self.snapshot),
    {
        self.snapshot.info()
    }

    /// The name of the guest's most recent snapshot, if any.
    pub fn get_most_recent_snapshot(&self) -> (r: Option<String>)
        ensures
            match self.snapshot.snapshots {
                Some(v) => match most_recent(v@) {
                    Some(j) => r matches Some(n) && n@ == v@[j].name@,
                    None => r is None,
                },
                None => r is None,
            },
    {
        self.snapshot.get_most_recent_snapshot()
    }
}

/// The guests of a testbed that have snapshots, under their full names.
#[derive(Debug, Clone)]
pub struct TestbedSnapshots {
    pub project_name: String,
    /// In the order the testbed lists its guests; names do not repeat.
    pub guests: Vec<GuestSnapshots>,
}

/// A guest's full name: `<project>-<guest>`, unless it already starts with `<project>-`.
pub open spec fn full_guest_name(project: Seq<char>, guest: Seq<char>) -> Seq<char> {
    let prefix = project + "-"@;
    if prefix.len() <= guest.len() && guest.subrange(0, prefix.len() as int) == prefix {
        guest
    } else {
        prefix + guest
    }
}

/// A guest of that full name.
pub open spec fn guest_snapshots_named(n: Seq<char>) -> spec_fn(GuestSnapshots) -> bool {
    |g: GuestSnapshots| g.guest_name@ == n
}

/// Every guest's snapshots can be printed.
pub open spec fn all_printable(guests: Seq<GuestSnapshots>) -> bool {
    forall|i: int| 0 <= i < guests.len() ==> dates_printable(#[trigger] guests[i].snapshot)
}

/// The snapshots of all guests, each guest's list followed by a newline.
pub open spec fn all_lists_text(guests: Seq<GuestSnapshots>) -> Seq<char>
    decreases guests.len(),
{
    if guests.len() == 0 {
        Seq::empty()
    } else {
        all_lists_text(guests.drop_last()) + guest_list_text(guests.last().guest_name@, print_list_spec(guests.last().snapshot)) + "\n"@
    }
}

impl TestbedSnapshots {
    /// The full name of a guest as the user gives it (see [`full_guest_name`]).
    pub fn guest_name_helper(project_name: &String, guest_name: &String) -> (r: String)
        ensures
            r@ == full_guest_name(project_name@, guest_name@),
    {
        let mut prefix = project_name.clone();
        push_str(&mut prefix, "-");
        if starts_with(guest_name.as_str(), prefix.as_str()) {
            guest_name.clone()
        } else {
            push_str(&mut prefix, guest_name.as_str());
            prefix
        }
    }

    /// The position of the guest the user names, if the testbed has it.
    pub fn guest_position(&self, guest_name: &String) -> (r: Option<usize>)
        ensures
            match (r, crate::ovn::ovn_state::first_where(self.guests@, guest_snapshots_named(full_guest_name(self.project_name@, guest_name@)))) {
                (Some(i), Some(j)) => i == j && i < self.guests@.len(),
                (None, None) => true,
                _ => false,
            },
    {
        let name = Self::guest_name_helper(&self.project_name, guest_name);
        let ghost f = guest_snapshots_named(name@);
        let mut i: usize = 0;
        while i < self.guests.len()
            invariant
                i <= self.guests@.len(),
                name@ == full_guest_name(self.project_name@, guest_name@),
                f == guest_snapshots_named(name@),
                forall|k: int| 0 <= k < i ==> !f(#[trigger] self.guests@[k]),
            decreases self.guests@.len() - i,
        {
            if self.guests[i].guest_name == name {
                proof { crate::ovn::ovn_state::lemma_first_where_found(self.guests@, f, i as int); }
                return Some(i);
            }
            i = i + 1;
        }
        proof { crate::ovn::ovn_state::lemma_first_where_absent(self.guests@, f); }
        None
    }

    /// The printed disk of the guest the user names; refused if the testbed has no such guest.
    pub fn info(&self, guest_name: &String) -> (r: Result<String, String>)
        requires
            all_printable(self.guests@),
        ensures
            match crate::ovn::ovn_state::first_where(self.guests@, guest_snapshots_named(full_guest_name(self.project_name@, guest_name@))) {
                Some(i) => r matches Ok(t) && t@ == img_text(self.guests@[i].snapshot),
                None => r matches Err(m) && m@ == "Getting name of guest to give disk info"@,
            },
    {
        match self.guest_position(guest_name) {
            Some(i) => {
                proof { assert(dates_printable(self.guests@[i as int].snapshot)); }
                Ok(self.guests[i].info())
            },
            None => Err(owned("Getting name of guest to give disk info")),
        }
    }

    /// The printed snapshots of the guest the user names; refused if the testbed has no such
    /// guest.
    pub fn list_snapshots(&self, guest_name: &String) -> (r: Result<String, String>)
        requires
            all_printable(self.guests@),
        ensures
            match crate::ovn::ovn_state::first_where(self.guests@, guest_snapshots_named(full_guest_name(self.project_name@, guest_name@))) {
                Some(i) => r matches Ok(t) && t@ == guest_list_text(self.guests@[i].guest_name@, print_list_spec(self.guests@[i].snapshot)),
                None => r matches Err(m) && m@ == "Getting name of guest to list snapshots"@,
            },
    {
        match self.guest_position(guest_name) {
            Some(i) => {
                proof { assert(dates_printable(self.guests@[i as int].snapshot)); }
                Ok(self.guests[i].list())
            },
            None => Err(owned("Getting name of guest to list snapshots")),
        }
    }

    /// The position of the guest the user names, for an action on its snapshots; refused with
    /// `missing` when the testbed has no such guest.
    fn target(&self, guest_name: &String, missing: &str) -> (r: Result<usize, String>)
        ensures
            match crate::ovn::ovn_state::first_where(self.guests@, guest_snapshots_named(full_guest_name(self.project_name@, guest_name@))) {
                Some(i) => r matches Ok(k) && k == i,
                None => r matches Err(m) && m@ == missing@,
            },
            r matches Ok(k) ==> k < self.guests@.len(),
    {
        match self.guest_position(guest_name) {
            Some(i) => Ok(i),
            None => Err(owned(missing)),
        }
    }

    /// The position of the guest a snapshot is taken of; refused when there is no such guest.
    pub fn create_target(&self, guest_name: &String) -> (r: Result<usize, String>)
        ensures
            match crate::ovn::ovn_state::first_where(self.guests@, guest_snapshots_named(full_guest_name(self.project_name@, guest_name@))) {
                Some(i) => r matches Ok(k) && k == i,
                None => r matches Err(m) && m@ == "Getting name of guest to create snapshot"@,
            },
    {
        self.target(guest_name, "Getting name of guest to create snapshot")
    }

    /// The position of the guest a snapshot is deleted from; refused when there is no such guest.
    pub fn delete_target(&self, guest_name: &String) -> (r: Result<usize, String>)
        ensures
            match crate::ovn::ovn_state::first_where(self.guests@, guest_snapshots_named(full_guest_name(self.project_name@, guest_name@))) {
                Some(i) => r matches Ok(k) && k == i,
                None => r matches Err(m) && m@ == "Getting name of guest to delete snapshot"@,
            },
    {
        self.target(guest_name, "Getting name of guest to delete snapshot")
    }

    /// The position of the guest restored from a snapshot; refused when there is no such guest.
    pub fn restore_target(&self, guest_name: &String) -> (r: Result<usize, String>)
        ensures
            match crate::ovn::ovn_state::first_where(self.guests@, guest_snapshots_named(full_guest_name(self.project_name@, guest_name@))) {
                Some(i) => r matches Ok(k) && k == i,
                None => r matches Err(m) && m@ == "Getting name of guest to restore snapshot"@,
            },
    {
        self.target(guest_name, "Getting name of guest to restore snapshot")
    }

    /// The position of the guest whose snapshots are all deleted, or `None` when its disk has no
    /// list of snapshots (there is nothing to delete); refused when there is no such guest.
    pub fn delete_all_target(&self, guest_name: &String) -> (r: Result<Option<usize>, String>)
        ensures
            match crate::ovn::ovn_state::first_where(self.guests@, guest_snapshots_named(full_guest_name(self.project_name@, guest_name@))) {
                Some(i) => r matches Ok(x) && (if self.guests@[i].snapshot.snapshots is Some { x matches Some(k) && k == i } else { x is None }),
                None => r matches Err(m) && m@ == "Getting name of guest to delete snapshot"@,
            },
    {
        match self.target(guest_name, "Getting name of guest to delete snapshot") {
            Ok(i) => if self.guests[i].snapshot.snapshots.is_some() { Ok(Some(i)) } else { Ok(None) },
            Err(e) => Err(e),
        }
    }

    /// The printed snapshots of every guest, or a note that there is nothing to list.
    pub fn list_all_snapshots(&self) -> (r: String)
        requires
            all_printable(self.guests@),
        ensures
            r@ == if self.guests@.len() == 0 { "No snapshots to list"@ } else { all_lists_text(self.guests@) },
    {
        let mut all = String::new();
        let mut i: usize = 0;
        while i < self.guests.len()
            invariant
                i <= self.guests@.len(),
                all_printable(self.guests@),
                all@ == all_lists_text(self.guests@.subrange(0, i as int)),
            decreases self.guests@.len() - i,
        {
            proof {
                assert(self.guests@.subrange(0, i + 1).drop_last() =~= self.guests@.subrange(0, i as int));
                assert(dates_printable(self.guests@[i as int].snapshot));
            }
            let t = self.guests[i].list();
            push_str(&mut all, t.as_str());
            push_str(&mut all, "\n");
            i = i + 1;
        }
        proof { assert(self.guests@.subrange(0, self.guests@.len() as int) =~= self.guests@); }
        if self.guests.len() == 0 {
            return owned("No snapshots to list");
        }
        all
    }
}

} // verus!
