//! A guest disk image as `qemu-img info` describes it, with its internal snapshots, and the
//! commands that manage those snapshots.

use vstd::prelude::*;
use crate::text::{chars_of, debug_string, debug_text, matches_at, owned, push_char, push_str, views};

verus! {

/// Whether a UNIX timestamp lies in the range of dates `chrono` represents: from
/// -262143-01-01 00:00:00 (-8334601228800) to +262142-12-31 23:59:59 UTC (8210266876799). One day
/// earlier, -8334601315200, is -262144-12-31, a year before chrono's first.
pub open spec fn date_in_range(secs: i64) -> bool {
    -8334601228800 <= secs <= 8210266876799
}

/// The text `chrono` gives for the UTC date and time of a UNIX timestamp.
pub uninterp spec fn utc_timestamp_text(secs: i64) -> Seq<char>;

/// Formats the UTC date and time of a UNIX timestamp with `chrono`: `Utc.timestamp_opt(secs,
/// 0)`, which is a single date for every timestamp in [`date_in_range`] (and none outside it),
/// then its `Display` form. The text depends on the timestamp alone and is named
/// [`utc_timestamp_text`]; its form (`YYYY-MM-DD HH:MM:SS UTC`) is not stated.
#[verifier::external_body]
pub(crate) fn utc_date_string(secs: i64) -> (r: String)
    requires
        date_in_range(secs),
    ensures
        r@ == utc_timestamp_text(secs),
{
    <chrono::Utc as chrono::TimeZone>::timestamp_opt(&chrono::Utc, secs, 0).unwrap().to_string()
}

/// One internal snapshot of a disk image.
#[derive(Debug, Clone)]
pub struct QemuImgSnapshot {
    pub name: String,
    pub id: String,
    /// When it was taken, as a UNIX timestamp.
    pub date_sec: i64,
}

/// How a snapshot is printed.
pub open spec fn snapshot_text(s: QemuImgSnapshot) -> Seq<char> {
    "\nSnapshot:\n\tname = "@ + s.name@ + "\n\tid = "@ + s.id@ + "\n\tdate = "@ + utc_timestamp_text(s.date_sec) + "\n"@
}

impl QemuImgSnapshot {
    /// The printed form of the snapshot (see [`snapshot_text`]).
    pub fn to_string(&self) -> (r: String)
        requires
            date_in_range(self.date_sec),
        ensures
            r@ == snapshot_text(*self),
    {
        let mut r = owned("\nSnapshot:\n\tname = ");
        push_str(&mut r, self.name.as_str());
        push_str(&mut r, "\n\tid = ");
        push_str(&mut r, self.id.as_str());
        push_str(&mut r, "\n\tdate = ");
        push_str(&mut r, utc_date_string(self.date_sec).as_str());
        push_str(&mut r, "\n");
        proof { assert(r@ =~= snapshot_text(*self)); }
        r
    }
}

/// A disk image: its file and its snapshots, if it has any list of them.
#[derive(Debug, Clone)]
pub struct QemuImg {
    pub snapshots: Option<Vec<QemuImgSnapshot>>,
    pub filename: String,
}

/// Every snapshot's date can be printed.
pub open spec fn dates_printable(img: QemuImg) -> bool {
    match img.snapshots {
        Some(v) => forall|i: int| 0 <= i < v@.len() ==> date_in_range(#[trigger] v@[i].date_sec),
        None => true,
    }
}

/// The snapshots printed one after the other, each after a tab.
pub open spec fn snapshots_text(v: Seq<QemuImgSnapshot>) -> Seq<char>
    decreases v.len(),
{
    if v.len() == 0 {
        Seq::empty()
    } else {
        snapshots_text(v.drop_last()) + "\t"@ + snapshot_text(v.last())
    }
}

/// How an image is printed: its file name (quoted) and its snapshots.
pub open spec fn img_text(img: QemuImg) -> Seq<char> {
    "\nQemu Img:\nfilename = "@ + debug_text(img.filename@) + "\nSnapshot list:\n"@ + match img.snapshots {
        Some(v) => snapshots_text(v@),
        None => "\n\tNo snapshots."@,
    }
}

/// The printed lines of an image's snapshot list: one per snapshot, or a single note that there
/// are none.
pub open spec fn print_list_spec(img: QemuImg) -> Seq<Seq<char>> {
    match img.snapshots {
        Some(v) => v@.map_values(|s: QemuImgSnapshot| snapshot_text(s)),
        None => seq!["\nno snapshots..."@],
    }
}

/// The position of the most recent snapshot: the last of those with the greatest date, as
/// `Iterator::max_by_key` picks it.
pub open spec fn most_recent(v: Seq<QemuImgSnapshot>) -> Option<int>
    decreases v.len(),
{
    if v.len() == 0 {
        None
    } else {
        match most_recent(v.drop_last()) {
            None => Some(v.len() - 1),
            Some(j) => if v.last().date_sec >= v[j].date_sec { Some(v.len() - 1) } else { Some(j) },
        }
    }
}

/// The most recent snapshot has the greatest date, and no later one has as great a date.
pub proof fn lemma_most_recent(v: Seq<QemuImgSnapshot>)
    ensures
        match most_recent(v) {
            Some(j) => 0 <= j < v.len() && (forall|k: int| 0 <= k < v.len() ==> v[k].date_sec <= v[j].date_sec)
                && (forall|k: int| j < k < v.len() ==> v[k].date_sec < v[j].date_sec),
            None => v.len() == 0,
        },
    decreases v.len(),
{
    if v.len() > 0 {
        lemma_most_recent(v.drop_last());
        let p = v.drop_last();
        assert forall|k: int| 0 <= k < p.len() implies p[k] == v[k] by {}
    }
}

/// The start of the last occurrence of `pat` in `s`, as `str::rfind` finds it (as a position
/// among the characters).
pub open spec fn rfind_text(s: Seq<char>, pat: Seq<char>) -> Option<int>
    decreases s.len(),
{
    if s.len() < pat.len() {
        None
    } else if s.subrange(s.len() - pat.len(), s.len() as int) == pat {
        Some(s.len() - pat.len())
    } else if s.len() == 0 {
        None
    } else {
        rfind_text(s.drop_last(), pat)
    }
}

/// Where the last occurrence is.
pub proof fn lemma_rfind_text(s: Seq<char>, pat: Seq<char>)
    ensures
        match rfind_text(s, pat) {
            Some(i) => 0 <= i && i + pat.len() <= s.len() && s.subrange(i, i + pat.len()) == pat,
            None => true,
        },
    decreases s.len(),
{
    if s.len() >= pat.len() && s.subrange(s.len() - pat.len(), s.len() as int) != pat && s.len() > 0 {
        lemma_rfind_text(s.drop_last(), pat);
        if let Some(i) = rfind_text(s.drop_last(), pat) {
            assert(s.drop_last().subrange(i, i + pat.len()) =~= s.subrange(i, i + pat.len()));
        }
    }
}

/// Finds the last occurrence of `pat` in the characters `s` (see [`rfind_text`]).
pub fn rfind_chars(s: &Vec<char>, pat: &str) -> (r: Option<usize>)
    ensures
        match (r, rfind_text(s@, pat@)) {
            (Some(i), Some(j)) => i == j,
            (None, None) => true,
            _ => false,
        },
{
    let p = chars_of(pat);
    let mut end: usize = s.len();
    proof { assert(s@.subrange(0, s@.len() as int) =~= s@); }
    while end >= p.len()
        invariant
            end <= s@.len(),
            p@ == pat@,
            rfind_text(s@.subrange(0, end as int), pat@) == rfind_text(s@, pat@),
        decreases end,
    {
        let start = end - p.len();
        let ghost t = s@.subrange(0, end as int);
        proof { assert(t.subrange(t.len() - p@.len(), t.len() as int) =~= s@.subrange(start as int, end as int)); }
        if matches_at(s, &p, start) {
            return Some(start);
        }
        if end == 0 {
            proof { assert(p@.len() == 0); assert(s@.subrange(0, 0) =~= p@); }
            return None;
        }
        proof { assert(t.drop_last() =~= s@.subrange(0, end - 1)); }
        end = end - 1;
    }
    None
}

/// The file name of a domain definition, worked out from the folder and the name of a guest's
/// image: the guest's name is what comes before the last `-cloud-disk`, or else the last
/// `-linked-clone`, or else the last `-iso-guest`.
pub open spec fn domain_xml_path_spec(folder: Seq<char>, img_name: Seq<char>) -> Option<Seq<char>> {
    let idx = match rfind_text(img_name, "-cloud-disk"@) {
        Some(i) => Some(i),
        None => match rfind_text(img_name, "-linked-clone"@) {
            Some(i) => Some(i),
            None => rfind_text(img_name, "-iso-guest"@),
        },
    };
    match idx {
        Some(i) => Some(folder + "/"@ + img_name.subrange(0, i) + "-domain.xml"@),
        None => None,
    }
}

/// Why a domain definition path could not be worked out.
#[derive(Debug, Clone, Copy, PartialEq, Eq)]
pub enum SnapshotError {
    /// The image name shows no guest name.
    NoGuestName,
}

/// Works out a domain definition path from a folder and an image name (see
/// [`domain_xml_path_spec`]); refused when the image name shows no guest name.
pub fn domain_xml_path_from(folder: &str, img_name: &str) -> (r: Result<String, SnapshotError>)
    ensures
        match domain_xml_path_spec(folder@, img_name@) {
            Some(p) => r matches Ok(s) && s@ == p,
            None => r == Err::<String, SnapshotError>(SnapshotError::NoGuestName),
        },
{
    let c = chars_of(img_name);
    let idx = match rfind_chars(&c, "-cloud-disk") {
        Some(i) => Some(i),
        None => match rfind_chars(&c, "-linked-clone") {
            Some(i) => Some(i),
            None => rfind_chars(&c, "-iso-guest"),
        },
    };
    match idx {
        None => Err(SnapshotError::NoGuestName),
        Some(i) => {
            proof {
                lemma_rfind_text(c@, "-cloud-disk"@);
                lemma_rfind_text(c@, "-linked-clone"@);
                lemma_rfind_text(c@, "-iso-guest"@);
            }
            let mut r = owned(folder);
            push_str(&mut r, "/");
            let mut k: usize = 0;
            while k < i
                invariant
                    i <= c@.len(),
                    k <= i,
                    r@ == folder@ + "/"@ + c@.subrange(0, k as int),
                decreases i - k,
            {
                push_char(&mut r, c[k]);
                proof { assert(r@ =~= folder@ + "/"@ + c@.subrange(0, k + 1)); }
                k = k + 1;
            }
            push_str(&mut r, "-domain.xml");
            proof { assert(r@ =~= folder@ + "/"@ + img_name@.subrange(0, i as int) + "-domain.xml"@); }
            Ok(r)
        },
    }
}

/// The folder a path lies in, as `std::path::Path::parent` gives it.
pub uninterp spec fn path_parent(p: Seq<char>) -> Option<Seq<char>>;

/// The name of the file a path ends with, without its extension, as
/// `std::path::Path::file_stem` gives it.
pub uninterp spec fn path_file_stem(p: Seq<char>) -> Option<Seq<char>>;

/// Calls `std::path::Path::parent` on a path. The result is a function of the path alone, named
/// [`path_parent`]; its rules are not stated.
#[verifier::external_body]
pub(crate) fn parent_of(p: &str) -> (r: Option<String>)
    ensures
        match (r, path_parent(p@)) {
            (Some(a), Some(b)) => a@ == b,
            (None, None) => true,
            _ => false,
        },
{
    std::path::Path::new(p).parent().map(|q| q.to_string_lossy().to_string())
}

/// Calls `std::path::Path::file_stem` on a path. The result is a function of the path alone,
/// named [`path_file_stem`]; its rules are not stated.
#[verifier::external_body]
pub(crate) fn file_stem_of(p: &str) -> (r: Option<String>)
    ensures
        match (r, path_file_stem(p@)) {
            (Some(a), Some(b)) => a@ == b,
            (None, None) => true,
            _ => false,
        },
{
    std::path::Path::new(p).file_stem().map(|q| q.to_string_lossy().to_string())
}

/// Whether a text contains another.
pub open spec fn contains_text(s: Seq<char>, t: Seq<char>) -> bool {
    exists|i: int| 0 <= i && i + t.len() <= s.len() && #[trigger] s.subrange(i, i + t.len()) == t
}

/// Whether a text contains another, as `str::contains` tests.
pub fn text_contains(s: &str, t: &str) -> (b: bool)
    ensures
        b == contains_text(s@, t@),
{
    let c = chars_of(s);
    match rfind_chars(&c, t) {
        Some(i) => {
            proof {
                lemma_rfind_text(c@, t@);
                assert(c@.subrange(i as int, i + t@.len()) == t@);
            }
            true
        },
        None => {
            proof { lemma_rfind_absent(c@, t@); }
            false
        },
    }
}

/// With no last occurrence there is no occurrence at all.
pub proof fn lemma_rfind_absent(s: Seq<char>, pat: Seq<char>)
    requires
        rfind_text(s, pat) is None,
    ensures
        !contains_text(s, pat),
    decreases s.len(),
{
    if s.len() >= pat.len() && s.len() > 0 {
        lemma_rfind_absent(s.drop_last(), pat);
        if contains_text(s, pat) {
            let i = choose|i: int| 0 <= i && i + pat.len() <= s.len() && #[trigger] s.subrange(i, i + pat.len()) == pat;
            if i + pat.len() < s.len() {
                assert(s.drop_last().subrange(i, i + pat.len()) =~= s.subrange(i, i + pat.len()));
            }
        }
    }
}

impl QemuImg {
    /// The path of the image file.
    pub fn get_path(&self) -> (r: String)
        ensures
            r@ == self.filename@,
    {
        self.filename.clone()
    }

    /// The path of the guest's domain definition, in the image's folder (see
    /// [`domain_xml_path_spec`]); the image path has a folder and a file name. Refused when the
    /// file name shows no guest name.
    pub fn get_domain_xml_path(&self) -> (r: Result<String, SnapshotError>)
        requires
            path_parent(self.filename@) is Some,
            path_file_stem(self.filename@) is Some,
        ensures
            match domain_xml_path_spec(path_parent(self.filename@)->0, path_file_stem(self.filename@)->0) {
                Some(p) => r matches Ok(s) && s@ == p,
                None => r == Err::<String, SnapshotError>(SnapshotError::NoGuestName),
            },
    {
        let folder = match parent_of(self.filename.as_str()) {
            Some(f) => f,
            None => { return vstd::pervasive::unreached(); },
        };
        let stem = match file_stem_of(self.filename.as_str()) {
            Some(s) => s,
            None => { return vstd::pervasive::unreached(); },
        };
        domain_xml_path_from(folder.as_str(), stem.as_str())
    }

    /// The path of the guest's domain definition (see [`QemuImg::get_domain_xml_path`]) when the
    /// image path has a folder and a file name; `None` when it lacks either.
    pub fn domain_xml_path_if_named(&self) -> (r: Option<Result<String, SnapshotError>>)
        ensures
            match (path_parent(self.filename@), path_file_stem(self.filename@)) {
                (Some(folder), Some(stem)) => r matches Some(x) && match domain_xml_path_spec(folder, stem) {
                    Some(p) => x matches Ok(s) && s@ == p,
                    None => x == Err::<String, SnapshotError>(SnapshotError::NoGuestName),
                },
                _ => r is None,
            },
    {
        if parent_of(self.filename.as_str()).is_none() || file_stem_of(self.filename.as_str()).is_none() {
            return None;
        }
        Some(self.get_domain_xml_path())
    }

    /// The printed form of the image (see [`img_text`]).
    pub fn to_string(&self) -> (r: String)
        requires
            dates_printable(*self),
        ensures
            r@ == img_text(*self),
    {
        let mut r = owned("\nQemu Img:\nfilename = ");
        push_str(&mut r, debug_string(self.filename.as_str()).as_str());
        push_str(&mut r, "\nSnapshot list:\n");
        let ghost head = r@;
        match &self.snapshots {
            Some(v) => {
                let mut i: usize = 0;
                while i < v.len()
                    invariant
                        i <= v@.len(),
                        forall|k: int| 0 <= k < v@.len() ==> date_in_range(#[trigger] v@[k].date_sec),
                        r@ == head + snapshots_text(v@.subrange(0, i as int)),
                    decreases v@.len() - i,
                {
                    proof { assert(v@.subrange(0, i + 1).drop_last() =~= v@.subrange(0, i as int)); }
                    push_str(&mut r, "\t");
                    let t = v[i].to_string();
                    push_str(&mut r, t.as_str());
                    proof { assert(r@ =~= head + snapshots_text(v@.subrange(0, i + 1))); }
                    i = i + 1;
                }
                proof { assert(v@.subrange(0, v@.len() as int) =~= v@); }
            },
            None => {
                push_str(&mut r, "\n\tNo snapshots.");
            },
        }
        proof { assert(r@ =~= img_text(*self)); }
        r
    }

    /// The command that takes a snapshot: with `virsh` while the guest runs, with `qemu-img` on
    /// the image otherwise.
    pub fn create_command(&self, guest_name: &String, snapshot_name: &String, running: bool) -> (r: Vec<String>)
        ensures
            views(r@) == if running {
                seq!["virsh"@, "snapshot-create-as"@, guest_name@, "--name"@, snapshot_name@, self.filename@]
            } else {
                seq!["qemu-img"@, "snapshot"@, "-c"@, snapshot_name@, self.filename@]
            },
    {
        let mut cmd: Vec<String> = Vec::new();
        if running {
            cmd.push(owned("virsh"));
            cmd.push(owned("snapshot-create-as"));
            cmd.push(guest_name.clone());
            cmd.push(owned("--name"));
            cmd.push(snapshot_name.clone());
            cmd.push(self.get_path());
        } else {
            cmd.push(owned("qemu-img"));
            cmd.push(owned("snapshot"));
            cmd.push(owned("-c"));
            cmd.push(snapshot_name.clone());
            cmd.push(self.get_path());
        }
        proof {
            if running {
                assert(views(cmd@) =~= seq!["virsh"@, "snapshot-create-as"@, guest_name@, "--name"@, snapshot_name@, self.filename@]);
            } else {
                assert(views(cmd@) =~= seq!["qemu-img"@, "snapshot"@, "-c"@, snapshot_name@, self.filename@]);
            }
        }
        cmd
    }

    /// The `qemu-img snapshot` command that applies `flag` (`-d` deletes, `-a` restores) to a
    /// snapshot of the image.
    pub fn snapshot_command(&self, flag: &str, snapshot_name: &String) -> (r: Vec<String>)
        ensures
            views(r@) == seq!["qemu-img"@, "snapshot"@, flag@, snapshot_name@, self.filename@],
    {
        let mut cmd: Vec<String> = Vec::new();
        cmd.push(owned("qemu-img"));
        cmd.push(owned("snapshot"));
        cmd.push(owned(flag));
        cmd.push(snapshot_name.clone());
        cmd.push(self.get_path());
        proof { assert(views(cmd@) =~= seq!["qemu-img"@, "snapshot"@, flag@, snapshot_name@, self.filename@]); }
        cmd
    }

    /// The commands that delete every snapshot of the image, in order.
    pub fn delete_all_commands(&self) -> (r: Vec<Vec<String>>)
        ensures
            match self.snapshots {
                Some(v) => r@.len() == v@.len() && forall|k: int| 0 <= k < v@.len() ==> views(#[trigger] r@[k]@)
                    == seq!["qemu-img"@, "snapshot"@, "-d"@, v@[k].name@, self.filename@],
                None => r@.len() == 0,
            },
    {
        let mut out: Vec<Vec<String>> = Vec::new();
        match &self.snapshots {
            Some(v) => {
                let mut i: usize = 0;
                while i < v.len()
                    invariant
                        i <= v@.len(),
                        out@.len() == i,
                        forall|k: int| 0 <= k < i ==> views(#[trigger] out@[k]@)
                            == seq!["qemu-img"@, "snapshot"@, "-d"@, v@[k].name@, self.filename@],
                    decreases v@.len() - i,
                {
                    out.push(self.snapshot_command("-d", &v[i].name));
                    i = i + 1;
                }
            },
            None => {},
        }
        out
    }
}

/// What is done to a guest and its image while its snapshots are changed.
#[derive(Debug, Clone)]
pub enum DiskAction {
    /// Shut the guest down (`virsh shutdown <guest>`) and wait until it is off.
    StopGuest,
    /// Start the guest again from its domain definition.
    StartGuest,
    /// Run a command on the guest's host.
    Run(Vec<String>),
}

/// The views of a plan of disk actions: `None` for stopping, `Some(None)` for starting, and the
/// command of a run.
pub open spec fn action_view(a: DiskAction) -> Option<Option<Seq<Seq<char>>>> {
    match a {
        DiskAction::StopGuest => None,
        DiskAction::StartGuest => Some(None),
        DiskAction::Run(c) => Some(Some(views(c@))),
    }
}

/// The views of a plan.
pub open spec fn plan_view(v: Seq<DiskAction>) -> Seq<Option<Option<Seq<Seq<char>>>>> {
    v.map_values(|a: DiskAction| action_view(a))
}

/// Commands run on an image that must not be in use: a running guest is stopped before them and
/// started after them.
pub open spec fn around_stop(cmds: Seq<Seq<Seq<char>>>, running: bool) -> Seq<Option<Option<Seq<Seq<char>>>>> {
    (if running { seq![None] } else { Seq::empty() })
        + cmds.map_values(|c: Seq<Seq<char>>| Some(Some(c)))
        + (if running { seq![Some(None)] } else { Seq::empty() })
}

/// The plan that runs `cmds` on the image of a guest, stopping it first and starting it again
/// when it runs (see [`around_stop`]).
pub fn disk_plan(cmds: Vec<Vec<String>>, running: bool) -> (r: Vec<DiskAction>)
    ensures
        plan_view(r@) == around_stop(crate::text::command_views(cmds@), running),
{
    let mut out: Vec<DiskAction> = Vec::new();
    if running {
        out.push(DiskAction::StopGuest);
    }
    let ghost head = plan_view(out@);
    let mut cmds = cmds;
    let ghost all = crate::text::command_views(cmds@);
    let n = cmds.len();
    let mut i: usize = 0;
    while i < n
        invariant
            n == all.len(),
            i <= n,
            cmds@.len() == n - i,
            forall|k: int| 0 <= k < n - i ==> views(#[trigger] cmds@[k]@) == all[i + k],
            plan_view(out@) == head + all.subrange(0, i as int).map_values(|c: Seq<Seq<char>>| Some(Some(c))),
        decreases n - i,
    {
        let ghost before = cmds@;
        let c = cmds.remove(0);
        proof {
            assert(views(c@) == all[i as int]);
            assert forall|k: int| 0 <= k < n - (i + 1) implies views(#[trigger] cmds@[k]@) == all[i + 1 + k] by {
                assert(cmds@[k] == before[k + 1]);
            }
        }
        let ghost prev = out@;
        out.push(DiskAction::Run(c));
        i = i + 1;
        proof {
            assert(plan_view(out@) =~= plan_view(prev).push(Some(Some(all[i - 1]))));
            assert(all.subrange(0, i as int).map_values(|c: Seq<Seq<char>>| Some(Some(c)))
                =~= all.subrange(0, i - 1).map_values(|c: Seq<Seq<char>>| Some(Some(c))).push(Some(Some(all[i - 1]))));
            assert(plan_view(out@) =~= head + all.subrange(0, i as int).map_values(|c: Seq<Seq<char>>| Some(Some(c))));
        }
    }
    proof {
        assert(all.subrange(0, n as int) =~= all);
        assert(head =~= (if running { seq![None] } else { Seq::<Option<Option<Seq<Seq<char>>>>>::empty() }));
    }
    let ghost mid = plan_view(out@);
    if running {
        out.push(DiskAction::StartGuest);
        proof { assert(plan_view(out@) =~= mid.push(Some(None))); }
    }
    proof { assert(plan_view(out@) =~= around_stop(all, running)); }
    out
}

/// Whether a guest runs, from the answer about its domain: only an answer that says `running`
/// says so; a failed request says it does not.
pub fn running_from_reply(reply: &Result<String, String>) -> (b: bool)
    ensures
        b == (reply matches Ok(s) && contains_text(s@, "running"@)),
{
    match reply {
        Ok(s) => text_contains(s.as_str(), "running"),
        Err(_) => false,
    }
}

/// What one check of a guest being shut down decides.
#[derive(Debug, Clone, PartialEq, Eq)]
pub enum StopWaitStep {
    /// The guest is off.
    Stopped,
    /// Wait five seconds and check again; `next` counts the checks that found it running.
    Retry { next: u32 },
    /// Give up, with this message.
    GiveUp(String),
}

/// Decides, after a check of a guest being shut down, whether it is off, to check again, or to
/// give up. Once more than twelve checks found it running, a check that finds it off gives up
/// too: the guest's state is then not trusted.
pub fn stop_wait_step(running_checks: u32, running: bool) -> (r: StopWaitStep)
    requires
        running ==> running_checks < u32::MAX,
    ensures
        running_checks > 12 && !running ==> (r matches StopWaitStep::GiveUp(m) && m@ == "could not ensure guest was down, too slow or issue?"@),
        running ==> r == (StopWaitStep::Retry { next: (running_checks + 1) as u32 }),
        running_checks <= 12 && !running ==> r == StopWaitStep::Stopped,
{
    if running_checks > 12 && !running {
        StopWaitStep::GiveUp(owned("could not ensure guest was down, too slow or issue?"))
    } else if running {
        StopWaitStep::Retry { next: running_checks + 1 }
    } else {
        StopWaitStep::Stopped
    }
}

impl QemuImg {
    /// The command that describes an image, with its snapshots, in JSON.
    pub fn info_command(img_path: &String) -> (r: Vec<String>)
        ensures
            views(r@) == seq!["qemu-img"@, "info"@, "--output=json"@, img_path@, "--force-share"@],
    {
        let mut cmd: Vec<String> = Vec::new();
        cmd.push(owned("qemu-img"));
        cmd.push(owned("info"));
        cmd.push(owned("--output=json"));
        cmd.push(img_path.clone());
        cmd.push(owned("--force-share"));
        proof { assert(views(cmd@) =~= seq!["qemu-img"@, "info"@, "--output=json"@, img_path@, "--force-share"@]); }
        cmd
    }

    /// The command that asks about a guest's domain.
    pub fn dominfo_command(guest_name: &String) -> (r: Vec<String>)
        ensures
            views(r@) == seq!["virsh"@, "dominfo"@, guest_name@],
    {
        let mut cmd: Vec<String> = Vec::new();
        cmd.push(owned("virsh"));
        cmd.push(owned("dominfo"));
        cmd.push(guest_name.clone());
        proof { assert(views(cmd@) =~= seq!["virsh"@, "dominfo"@, guest_name@]); }
        cmd
    }

    /// The command that shuts a guest down.
    pub fn stop_command(guest_name: &String) -> (r: Vec<String>)
        ensures
            views(r@) == seq!["virsh"@, "shutdown"@, guest_name@],
    {
        let mut cmd: Vec<String> = Vec::new();
        cmd.push(owned("virsh"));
        cmd.push(owned("shutdown"));
        cmd.push(guest_name.clone());
        proof { assert(views(cmd@) =~= seq!["virsh"@, "shutdown"@, guest_name@]); }
        cmd
    }

    /// The command that starts the guest of the image from its domain definition (see
    /// [`QemuImg::get_domain_xml_path`]); refused when the image name shows no guest name, and
    /// `None` when the image path has no folder or file name.
    pub fn start_command(&self) -> (r: Option<Result<Vec<String>, SnapshotError>>)
        ensures
            match (path_parent(self.filename@), path_file_stem(self.filename@)) {
                (Some(folder), Some(stem)) => r matches Some(x) && match domain_xml_path_spec(folder, stem) {
                    Some(p) => x matches Ok(c) && views(c@) == seq!["virsh"@, "create"@, p],
                    None => x == Err::<Vec<String>, SnapshotError>(SnapshotError::NoGuestName),
                },
                _ => r is None,
            },
    {
        match self.domain_xml_path_if_named() {
            None => None,
            Some(Err(e)) => Some(Err(e)),
            Some(Ok(p)) => {
                let mut cmd: Vec<String> = Vec::new();
                cmd.push(owned("virsh"));
                cmd.push(owned("create"));
                let ghost pv = p@;
                cmd.push(p);
                proof { assert(views(cmd@) =~= seq!["virsh"@, "create"@, pv]); }
                Some(Ok(cmd))
            },
        }
    }
}

/// The commands run by a plan of disk actions, in the order they come.
pub open spec fn runs_in(p: Seq<Option<Option<Seq<Seq<char>>>>>) -> Seq<Seq<Seq<char>>>
    decreases p.len(),
{
    if p.len() == 0 {
        Seq::empty()
    } else {
        match p[0] {
            Some(Some(c)) => seq![c] + runs_in(p.drop_first()),
            _ => runs_in(p.drop_first()),
        }
    }
}

/// The runs of two plans one after the other.
proof fn lemma_runs_in_concat(a: Seq<Option<Option<Seq<Seq<char>>>>>, b: Seq<Option<Option<Seq<Seq<char>>>>>)
    ensures
        runs_in(a + b) == runs_in(a) + runs_in(b),
    decreases a.len(),
{
    if a.len() == 0 {
        assert(a + b =~= b);
        assert(runs_in(a) + runs_in(b) =~= runs_in(b));
    } else {
        assert((a + b).drop_first() =~= a.drop_first() + b);
        assert((a + b)[0] == a[0]);
        lemma_runs_in_concat(a.drop_first(), b);
        match a[0] {
            Some(Some(c)) => { assert(seq![c] + (runs_in(a.drop_first()) + runs_in(b)) =~= (seq![c] + runs_in(a.drop_first())) + runs_in(b)); },
            _ => {},
        }
    }
}

/// A plan of runs only runs its commands.
proof fn lemma_runs_in_commands(cmds: Seq<Seq<Seq<char>>>)
    ensures
        runs_in(cmds.map_values(|c: Seq<Seq<char>>| Some(Some(c)))) == cmds,
    decreases cmds.len(),
{
    let p = cmds.map_values(|c: Seq<Seq<char>>| Some(Some(c)));
    if cmds.len() > 0 {
        assert(p.drop_first() =~= cmds.drop_first().map_values(|c: Seq<Seq<char>>| Some(Some(c))));
        lemma_runs_in_commands(cmds.drop_first());
        assert(seq![cmds[0]] + cmds.drop_first() =~= cmds);
    } else {
        assert(p =~= Seq::<Option<Option<Seq<Seq<char>>>>>::empty());
    }
}

/// A disk plan runs every command it is given, once each and in order, and nothing else; a
/// running guest is stopped before the first and started after the last, and a stopped guest
/// is neither stopped nor started.
pub proof fn law_disk_plan_runs_every_command(cmds: Seq<Seq<Seq<char>>>, running: bool)
    ensures
        runs_in(around_stop(cmds, running)) == cmds,
        around_stop(cmds, running).len() == cmds.len() + (if running { 2int } else { 0int }),
        running ==> around_stop(cmds, running)[0] is None
            && around_stop(cmds, running)[around_stop(cmds, running).len() - 1] == Some(None::<Seq<Seq<char>>>),
{
    let head: Seq<Option<Option<Seq<Seq<char>>>>> = if running { seq![None] } else { Seq::empty() };
    let mid = cmds.map_values(|c: Seq<Seq<char>>| Some(Some(c)));
    let tail: Seq<Option<Option<Seq<Seq<char>>>>> = if running { seq![Some(None)] } else { Seq::empty() };
    assert(around_stop(cmds, running) == head + mid + tail);
    lemma_runs_in_concat(head + mid, tail);
    lemma_runs_in_concat(head, mid);
    lemma_runs_in_commands(cmds);
    if running {
        assert(head.drop_first() =~= Seq::<Option<Option<Seq<Seq<char>>>>>::empty());
        assert(runs_in(head.drop_first()) =~= Seq::<Seq<Seq<char>>>::empty());
        assert(runs_in(head) =~= Seq::<Seq<Seq<char>>>::empty());
        assert(tail.drop_first() =~= Seq::<Option<Option<Seq<Seq<char>>>>>::empty());
        assert(runs_in(tail.drop_first()) =~= Seq::<Seq<Seq<char>>>::empty());
        assert(runs_in(tail) =~= Seq::<Seq<Seq<char>>>::empty());
    } else {
        assert(runs_in(head) =~= Seq::<Seq<Seq<char>>>::empty());
        assert(runs_in(tail) =~= Seq::<Seq<Seq<char>>>::empty());
    }
    assert(Seq::<Seq<Seq<char>>>::empty() + cmds + Seq::<Seq<Seq<char>>>::empty() =~= cmds);
}

} // verus!
