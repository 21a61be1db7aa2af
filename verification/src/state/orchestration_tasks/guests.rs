//! Orchestration of guests: where their images and files are, which backing images must be
//! copied to which hosts, and reading the address OVN gave a guest.

use vstd::prelude::*;
use crate::orchestration::{common_wf, names_unique, OrchestrationCommon};
use crate::ovn::ovn_state::{first_where, lemma_first_where, lemma_first_where_found, lemma_first_where_absent};
use crate::state::{StateTestbedHost, StateTestbedGuestList};
use crate::state::schema::guest::{StateGuestType, StateTestbedGuest};
use crate::state::schema::machines::libvirt::StateLibvirtGuestOptions;
use crate::text::{owned, push_str, split_parts, split_on, views};

verus! {

/// A master testbed host.
pub open spec fn is_master(e: (String, StateTestbedHost)) -> bool {
    e.1.is_master_host
}

/// The position of the first master host.
pub open spec fn master_index(common: OrchestrationCommon) -> Option<int> {
    first_where(common.testbed_hosts@, |e: (String, StateTestbedHost)| is_master(e))
}

/// The name of the master testbed host: the first host marked as master.
pub fn get_master_testbed_name(common: &OrchestrationCommon) -> (r: String)
    requires
        master_index(*common) is Some,
    ensures
        r@ == common.testbed_hosts@[master_index(*common).unwrap()].0@,
{
    let ghost f = |e: (String, StateTestbedHost)| is_master(e);
    let mut i: usize = 0;
    proof { lemma_first_where(common.testbed_hosts@, f); }
    while i < common.testbed_hosts.len()
        invariant
            i <= common.testbed_hosts@.len(),
            f == (|e: (String, StateTestbedHost)| is_master(e)),
            first_where(common.testbed_hosts@, f) is Some,
            forall|k: int| 0 <= k < i ==> !f(#[trigger] common.testbed_hosts@[k]),
        decreases common.testbed_hosts@.len() - i,
    {
        if common.testbed_hosts[i].1.is_master_host {
            proof { lemma_first_where_found(common.testbed_hosts@, f, i as int); }
            return common.testbed_hosts[i].0.clone();
        }
        i = i + 1;
    }
    proof { lemma_first_where_absent(common.testbed_hosts@, f); }
    vstd::pervasive::unreached()
}

/// Whether some testbed host is marked as the master.
pub(crate) fn has_master(common: &OrchestrationCommon) -> (b: bool)
    ensures
        b == (master_index(*common) is Some),
{
    let ghost f = |e: (String, StateTestbedHost)| is_master(e);
    let mut i: usize = 0;
    while i < common.testbed_hosts.len()
        invariant
            i <= common.testbed_hosts@.len(),
            f == (|e: (String, StateTestbedHost)| is_master(e)),
            forall|k: int| 0 <= k < i ==> !f(#[trigger] common.testbed_hosts@[k]),
        decreases common.testbed_hosts@.len() - i,
    {
        if common.testbed_hosts[i].1.is_master_host {
            proof { lemma_first_where_found(common.testbed_hosts@, f, i as int); }
            return true;
        }
        i = i + 1;
    }
    proof { lemma_first_where_absent(common.testbed_hosts@, f); }
    false
}

/// The folder of the project's images on the master host.
pub fn get_local_image_folder_path(project_working_dir: &String) -> (r: String)
    ensures
        r@ == project_working_dir@ + "/artefacts/"@,
{
    let mut r = project_working_dir.clone();
    push_str(&mut r, "/artefacts/");
    r
}

/// The path of a guest's domain definition in a folder.
pub fn get_xml_path(local_image_parent_path: &String, machine_config: &StateTestbedGuest) -> (r: String)
    ensures
        r@ == local_image_parent_path@ + "/"@ + machine_config.guest_type.name@ + "-domain.xml"@,
{
    let mut r = local_image_parent_path.clone();
    push_str(&mut r, "/");
    push_str(&mut r, machine_config.guest_type.name.as_str());
    push_str(&mut r, "-domain.xml");
    r
}

/// The testbed host of the given name.
pub open spec fn host_named(n: Seq<char>) -> spec_fn((String, StateTestbedHost)) -> bool {
    |e: (String, StateTestbedHost)| e.0@ == n
}

/// The position of the first testbed host with the given name, if any.
fn find_host(common: &OrchestrationCommon, name: &String) -> (r: Option<usize>)
    requires
        common_wf(*common),
    ensures
        match (r, first_where(common.testbed_hosts@, host_named(name@))) {
            (Some(i), Some(k)) => i == k && i < common.testbed_hosts@.len(),
            (None, None) => true,
            _ => false,
        },
{
    let ghost f = host_named(name@);
    let mut i: usize = 0;
    while i < common.testbed_hosts.len()
        invariant
            i <= common.testbed_hosts@.len(),
            f == host_named(name@),
            forall|k: int| 0 <= k < i ==> !f(#[trigger] common.testbed_hosts@[k]),
        decreases common.testbed_hosts@.len() - i,
    {
        if common.testbed_hosts[i].0 == *name {
            proof { lemma_first_where_found(common.testbed_hosts@, f, i as int); }
            return Some(i);
        }
        i = i + 1;
    }
    proof { lemma_first_where_absent(common.testbed_hosts@, f); }
    None
}

/// The project folder on a remote host: `/home/<user>/testbed-projects/<project>`.
pub open spec fn remote_project_folder(user: Seq<char>, project: Seq<char>) -> Seq<char> {
    "/home/"@ + user + "/testbed-projects/"@ + project
}

/// The project folder, with a trailing separator, on the testbed host `testbed_host`; refused
/// if there is no such host.
pub fn get_remote_project_folder(common: &OrchestrationCommon, testbed_host: &String) -> (r: Result<String, String>)
    requires
        common_wf(*common),
    ensures
        match first_where(common.testbed_hosts@, host_named(testbed_host@)) {
            Some(i) => r matches Ok(s) && s@ == remote_project_folder(common.testbed_hosts@[i].1.username@, common.project_name@) + "/"@,
            None => r matches Err(m) && m@ == "Could not find remote testbed in config"@,
        },
{
    match find_host(common, testbed_host) {
        None => Err(owned("Could not find remote testbed in config")),
        Some(i) => {
            let mut s = owned("/home/");
            push_str(&mut s, common.testbed_hosts[i].1.username.as_str());
            push_str(&mut s, "/testbed-projects/");
            push_str(&mut s, common.project_name.as_str());
            push_str(&mut s, "/");
            proof {
                assert(s@ =~= remote_project_folder(common.testbed_hosts@[i as int].1.username@, common.project_name@) + "/"@);
            }
            Ok(s)
        },
    }
}

/// A guest of the given name.
pub open spec fn guest_named(n: Seq<char>) -> spec_fn((String, StateTestbedGuest)) -> bool {
    |e: (String, StateTestbedGuest)| e.0@ == n
}

/// The image of a backing image guest: the path of its cloud image or existing disk. `None` for
/// a guest with no such image.
pub open spec fn backing_image_path(g: StateTestbedGuest) -> Option<Seq<char>> {
    match g.guest_type.guest_type {
        StateGuestType::Libvirt(l) => match l.libvirt_type {
            StateLibvirtGuestOptions::CloudImage { path, .. } => match path {
                Some(p) => Some(p@),
                None => None,
            },
            StateLibvirtGuestOptions::ExistingDisk { path, .. } => Some(path@),
            StateLibvirtGuestOptions::IsoGuest { .. } => None,
        },
        _ => None,
    }
}

/// The position of the first guest with the given name, if any.
pub(crate) fn find_guest(list: &StateTestbedGuestList, name: &String) -> (r: Option<usize>)
    requires
        names_unique(list.0@),
    ensures
        match (r, first_where(list.0@, guest_named(name@))) {
            (Some(i), Some(k)) => i == k && i < list.0@.len(),
            (None, None) => true,
            _ => false,
        },
{
    let ghost f = guest_named(name@);
    let mut i: usize = 0;
    while i < list.0.len()
        invariant
            i <= list.0@.len(),
            f == guest_named(name@),
            forall|k: int| 0 <= k < i ==> !f(#[trigger] list.0@[k]),
        decreases list.0@.len() - i,
    {
        if list.0[i].0 == *name {
            proof { lemma_first_where_found(list.0@, f, i as int); }
            return Some(i);
        }
        i = i + 1;
    }
    proof { lemma_first_where_absent(list.0@, f); }
    None
}

/// The local path of the image of the backing image guest `backing_guest_name`: the guest must
/// exist and be a libvirt guest from a cloud image with a path, or from an existing disk.
pub fn get_backing_image_local_path(testbed_guests: &StateTestbedGuestList, backing_guest_name: &String) -> (r: String)
    requires
        names_unique(testbed_guests.0@),
        first_where(testbed_guests.0@, guest_named(backing_guest_name@)) matches Some(i)
            && backing_image_path(testbed_guests.0@[i].1) is Some,
    ensures
        r@ == backing_image_path(testbed_guests.0@[first_where(testbed_guests.0@, guest_named(backing_guest_name@)).unwrap()].1).unwrap(),
{
    let i = match find_guest(testbed_guests, backing_guest_name) {
        Some(i) => i,
        None => { return vstd::pervasive::unreached(); },
    };
    match &testbed_guests.0[i].1.guest_type.guest_type {
        StateGuestType::Libvirt(l) => match &l.libvirt_type {
            StateLibvirtGuestOptions::CloudImage { path, .. } => match path {
                Some(p) => p.clone(),
                None => vstd::pervasive::unreached(),
            },
            StateLibvirtGuestOptions::ExistingDisk { path, .. } => path.clone(),
            StateLibvirtGuestOptions::IsoGuest { .. } => vstd::pervasive::unreached(),
        },
        _ => vstd::pervasive::unreached(),
    }
}

/// The file name a path ends with, as `std::path::Path::file_name` gives it; `None` for a path
/// that ends in `..`, a root, or nothing.
pub uninterp spec fn path_file_name(p: Seq<char>) -> Option<Seq<char>>;

/// Calls `std::path::Path::file_name` on a path and returns the name as a string. The result is
/// a function of the path alone, named [`path_file_name`]; its rules are not stated.
#[verifier::external_body]
pub(crate) fn file_name(p: &str) -> (r: Option<String>)
    ensures
        match (r, path_file_name(p@)) {
            (Some(a), Some(b)) => a@ == b,
            (None, None) => true,
            _ => false,
        },
{
    std::path::Path::new(p).file_name().map(|n| n.to_string_lossy().to_string())
}

/// Where the image of a backing image guest is put on a remote host: the artefacts folder of
/// the project there, under the image's file name. The guest must be as for
/// [`get_backing_image_local_path`], its image path must have a file name, and the target host
/// must exist.
pub fn get_backing_image_remote_path(
    common: &OrchestrationCommon,
    testbed_guests: &StateTestbedGuestList,
    backing_guest_name: &String,
    target_testbed: &String,
) -> (r: Result<String, String>)
    requires
        common_wf(*common),
        names_unique(testbed_guests.0@),
        first_where(testbed_guests.0@, guest_named(backing_guest_name@)) matches Some(i)
            && backing_image_path(testbed_guests.0@[i].1) is Some
            && path_file_name(backing_image_path(testbed_guests.0@[i].1)->0) is Some,
        first_where(common.testbed_hosts@, host_named(target_testbed@)) is Some,
    ensures
        ({
            let local = backing_image_path(testbed_guests.0@[first_where(testbed_guests.0@, guest_named(backing_guest_name@)).unwrap()].1).unwrap();
            let user = common.testbed_hosts@[first_where(common.testbed_hosts@, host_named(target_testbed@)).unwrap()].1.username@;
            r matches Ok(s) && s@ == remote_project_folder(user, common.project_name@) + "/artefacts/"@ + path_file_name(local)->0
        }),
{
    let local_src = get_backing_image_local_path(testbed_guests, backing_guest_name);
    let name = match file_name(local_src.as_str()) {
        Some(n) => n,
        None => { return vstd::pervasive::unreached(); },
    };
    let i = match find_host(common, target_testbed) {
        Some(i) => i,
        None => { return vstd::pervasive::unreached(); },
    };
    let mut s = owned("/home/");
    push_str(&mut s, common.testbed_hosts[i].1.username.as_str());
    push_str(&mut s, "/testbed-projects/");
    push_str(&mut s, common.project_name.as_str());
    push_str(&mut s, "/artefacts/");
    push_str(&mut s, name.as_str());
    proof {
        assert(s@ =~= remote_project_folder(common.testbed_hosts@[i as int].1.username@, common.project_name@) + "/artefacts/"@ + name@);
    }
    Ok(s)
}

/// Where the image of a backing image guest is put on a remote host (see
/// [`get_backing_image_remote_path`]) when its image path has a file name; `None` when it has
/// none. The guest and the host are as for that function.
pub fn backing_image_remote_path_if_named(
    common: &OrchestrationCommon,
    testbed_guests: &StateTestbedGuestList,
    backing_guest_name: &String,
    target_testbed: &String,
) -> (r: Option<String>)
    requires
        common_wf(*common),
        names_unique(testbed_guests.0@),
        first_where(testbed_guests.0@, guest_named(backing_guest_name@)) matches Some(i)
            && backing_image_path(testbed_guests.0@[i].1) is Some,
        first_where(common.testbed_hosts@, host_named(target_testbed@)) is Some,
    ensures
        ({
            let local = backing_image_path(testbed_guests.0@[first_where(testbed_guests.0@, guest_named(backing_guest_name@)).unwrap()].1).unwrap();
            let user = common.testbed_hosts@[first_where(common.testbed_hosts@, host_named(target_testbed@)).unwrap()].1.username@;
            match path_file_name(local) {
                Some(f) => r matches Some(s) && s@ == remote_project_folder(user, common.project_name@) + "/artefacts/"@ + f,
                None => r is None,
            }
        }),
{
    let local_src = get_backing_image_local_path(testbed_guests, backing_guest_name);
    if file_name(local_src.as_str()).is_none() {
        return None;
    }
    match get_backing_image_remote_path(common, testbed_guests, backing_guest_name, target_testbed) {
        Ok(s) => Some(s),
        Err(_) => None,
    }
}

/// The backing image a clone guest needs on its host, when that host is not the master: the
/// pair (backing image guest, host).
pub open spec fn push_pair(g: StateTestbedGuest, master: Seq<char>) -> Option<(Seq<char>, Seq<char>)> {
    match g.guest_type.guest_type {
        StateGuestType::Libvirt(l) => match (l.is_clone_of, g.testbed_host) {
            (Some(b), Some(h)) => if h@ != master { Some((b@, h@)) } else { None },
            _ => None,
        },
        _ => None,
    }
}

/// Every libvirt guest has been placed on a testbed host.
pub open spec fn libvirt_guests_placed(list: Seq<(String, StateTestbedGuest)>) -> bool {
    forall|i: int| 0 <= i < list.len() ==> ((#[trigger] list[i]).1.guest_type.guest_type is Libvirt ==> list[i].1.testbed_host is Some)
}

/// The views of pairs of strings.
pub open spec fn pair_views(s: Seq<(String, String)>) -> Seq<(Seq<char>, Seq<char>)> {
    s.map_values(|p: (String, String)| (p.0@, p.1@))
}

/// The name of the master testbed host.
pub open spec fn master_name(common: OrchestrationCommon) -> Seq<char> {
    common.testbed_hosts@[master_index(common).unwrap()].0@
}

/// Some guest needs the pair `p`.
pub open spec fn pair_due(guests: Seq<(String, StateTestbedGuest)>, master: Seq<char>, p: (Seq<char>, Seq<char>)) -> bool {
    exists|i: int| 0 <= i < guests.len() && push_pair(#[trigger] guests[i].1, master) === Some(p)
}

/// `pairs` holds, once each, exactly the pairs [`push_pair`] gives for the guests.
pub open spec fn push_pairs_exact(guests: Seq<(String, StateTestbedGuest)>, master: Seq<char>, pairs: Seq<(Seq<char>, Seq<char>)>) -> bool {
    &&& forall|k: int| 0 <= k < pairs.len() ==> pair_due(guests, master, #[trigger] pairs[k])
    &&& forall|i: int| 0 <= i < guests.len() && (#[trigger] push_pair(guests[i].1, master)) is Some
        ==> pairs.contains(push_pair(guests[i].1, master).unwrap())
    &&& forall|a: int, b: int| 0 <= a < b < pairs.len() ==> pairs[a] != pairs[b]
}

/// The pairs are exact when each has a witness guest, every pair due is present and none
/// repeats.
proof fn lemma_push_pairs_exact(guests: Seq<(String, StateTestbedGuest)>, master: Seq<char>, pairs: Seq<(Seq<char>, Seq<char>)>, wit: Seq<int>)
    requires
        wit.len() == pairs.len(),
        forall|k: int| 0 <= k < pairs.len() ==> 0 <= #[trigger] wit[k] < guests.len()
            && push_pair(guests[wit[k]].1, master) === Some(pairs[k]),
        forall|i: int| 0 <= i < guests.len() && (#[trigger] push_pair(guests[i].1, master)) is Some
            ==> pairs.contains(push_pair(guests[i].1, master).unwrap()),
        forall|a: int, b: int| 0 <= a < b < pairs.len() ==> pairs[a] != pairs[b],
    ensures
        push_pairs_exact(guests, master, pairs),
{
    assert forall|k: int| 0 <= k < pairs.len() implies pair_due(guests, master, #[trigger] pairs[k]) by {
        let j = wit[k];
        assert(push_pair(guests[j].1, master) === Some(pairs[k]));
    }
}

/// Which backing images must be copied to which testbed hosts: one pair (backing image guest,
/// host) for every clone guest placed on a host other than the master, each pair once.
pub fn calculate_backing_images_to_push(testbed_guests: &StateTestbedGuestList, common: &OrchestrationCommon) -> (r: Vec<(String, String)>)
    requires
        master_index(*common) is Some,
        libvirt_guests_placed(testbed_guests.0@),
    ensures
        push_pairs_exact(testbed_guests.0@, master_name(*common), pair_views(r@)),
{
    let master = get_master_testbed_name(common);
    let ghost m = master@;
    let mut r: Vec<(String, String)> = Vec::new();
    let ghost mut wit: Seq<int> = Seq::empty();
    let mut i: usize = 0;
    while i < testbed_guests.0.len()
        invariant
            i <= testbed_guests.0@.len(),
            m == master@,
            m == master_name(*common),
            libvirt_guests_placed(testbed_guests.0@),
            wit.len() == r@.len(),
            forall|k: int| 0 <= k < r@.len() ==> 0 <= #[trigger] wit[k] < testbed_guests.0@.len()
                && push_pair(testbed_guests.0@[wit[k]].1, m) === Some(pair_views(r@)[k]),
            forall|j: int| 0 <= j < i && (#[trigger] push_pair(testbed_guests.0@[j].1, m)) is Some
                ==> pair_views(r@).contains(push_pair(testbed_guests.0@[j].1, m).unwrap()),
            forall|a: int, b: int| 0 <= a < b < r@.len() ==> pair_views(r@)[a] != pair_views(r@)[b],
        decreases testbed_guests.0@.len() - i,
    {
        let g = &testbed_guests.0[i].1;
        let ghost gi = testbed_guests.0@[i as int].1;
        proof { assert(gi.guest_type.guest_type is Libvirt ==> gi.testbed_host is Some); }
        match &g.guest_type.guest_type {
            StateGuestType::Libvirt(l) => {
                let host = match &g.testbed_host {
                    Some(h) => h,
                    None => { return vstd::pervasive::unreached(); },
                };
                match &l.is_clone_of {
                    Some(b) => {
                        if *host != master {
                            let ghost pv = (b@, host@);
                            proof { assert(push_pair(gi, m) === Some(pv)); }
                            let mut present = false;
                            let mut k: usize = 0;
                            while k < r.len()
                                invariant
                                    k <= r@.len(),
                                    pv == (b@, host@),
                                    present ==> pair_views(r@).contains(pv),
                                    !present ==> forall|x: int| 0 <= x < k ==> pair_views(r@)[x] != pv,
                                decreases r@.len() - k,
                            {
                                if r[k].0 == *b && r[k].1 == *host {
                                    proof { assert(pair_views(r@)[k as int] == pv); }
                                    present = true;
                                }
                                k = k + 1;
                            }
                            if !present {
                                let ghost old_r = r@;
                                let ghost old_wit = wit;
                                r.push((b.clone(), host.clone()));
                                proof {
                                    wit = wit.push(i as int);
                                    assert(pair_views(r@) =~= pair_views(old_r).push(pv));
                                    assert forall|x: int| 0 <= x < r@.len() implies 0 <= #[trigger] wit[x] < testbed_guests.0@.len()
                                        && push_pair(testbed_guests.0@[wit[x]].1, m) === Some(pair_views(r@)[x]) by {
                                        if x < old_r.len() {
                                            assert(wit[x] == old_wit[x]);
                                            assert(pair_views(r@)[x] == pair_views(old_r)[x]);
                                        }
                                    }
                                    assert forall|j: int| 0 <= j < i + 1 && (#[trigger] push_pair(testbed_guests.0@[j].1, m)) is Some
                                        implies pair_views(r@).contains(push_pair(testbed_guests.0@[j].1, m).unwrap()) by {
                                        if j == i as int {
                                            assert(pair_views(r@)[old_r.len() as int] == pv);
                                        } else {
                                            let w = choose|w: int| 0 <= w < pair_views(old_r).len() && pair_views(old_r)[w] == push_pair(testbed_guests.0@[j].1, m).unwrap();
                                            assert(pair_views(r@)[w] == pair_views(old_r)[w]);
                                        }
                                    }
                                }
                            }
                        }
                    },
                    None => {},
                }
            },
            _ => {},
        }
        i = i + 1;
    }
    proof { lemma_push_pairs_exact(testbed_guests.0@, m, pair_views(r@), wit); }
    r
}

/// The address OVN gave a port, read from the `dynamic_addresses` answer `<mac> <ip>\n`.
pub open spec fn dynamic_ip_result(res: Seq<char>, lsp_name: Seq<char>) -> Result<Seq<char>, Seq<char>> {
    let parts = split_on(res, ' ');
    if parts.len() != 2 {
        Err("could not get the dynamic ip for lsp "@ + lsp_name + " as result from NB DB was "@ + res)
    } else if parts[1].len() > 0 && parts[1].last() == '\n' {
        Ok(parts[1].drop_last())
    } else {
        Err("stripping newline from dynamic ip"@)
    }
}

/// The query for the address OVN gave a port.
pub open spec fn dynamic_query_spec(lsp_name: Seq<char>) -> Seq<Seq<char>> {
    seq!["ovn-nbctl"@, "--bare"@, "--columns=dynamic_addresses"@, "find"@, "Logical_Switch_Port"@, "name="@ + lsp_name]
}

/// The query for the address OVN gave a port (see [`dynamic_query_spec`]).
pub fn dynamic_ip_query(lsp_name: &String) -> (r: Vec<String>)
    ensures
        views(r@) == dynamic_query_spec(lsp_name@),
{
    let mut v: Vec<String> = Vec::new();
    v.push(owned("ovn-nbctl"));
    v.push(owned("--bare"));
    v.push(owned("--columns=dynamic_addresses"));
    v.push(owned("find"));
    v.push(owned("Logical_Switch_Port"));
    let mut n = owned("name=");
    push_str(&mut n, lsp_name.as_str());
    v.push(n);
    proof {
        assert(views(v@) =~= seq!["ovn-nbctl"@, "--bare"@, "--columns=dynamic_addresses"@, "find"@, "Logical_Switch_Port"@, "name="@ + lsp_name@]);
    }
    v
}

/// Reads the address OVN gave a port from the answer of `ovn-nbctl --bare
/// --columns=dynamic_addresses find Logical_Switch_Port name=<port>`.
pub fn parse_dynamic_ip(res: &String, lsp_name: &String) -> (r: Result<String, String>)
    ensures
        match (r, dynamic_ip_result(res@, lsp_name@)) {
            (Ok(a), Ok(b)) => a@ == b,
            (Err(a), Err(b)) => a@ == b,
            _ => false,
        },
{
    let parts = split_parts(res.as_str(), ' ');
    if parts.len() != 2 {
        let mut m = owned("could not get the dynamic ip for lsp ");
        push_str(&mut m, lsp_name.as_str());
        push_str(&mut m, " as result from NB DB was ");
        push_str(&mut m, res.as_str());
        proof { assert(m@ =~= "could not get the dynamic ip for lsp "@ + lsp_name@ + " as result from NB DB was "@ + res@); }
        return Err(m);
    }
    proof { assert(parts@[1]@ == split_on(res@, ' ')[1]); }
    let c = crate::text::chars_of(parts[1].as_str());
    if c.len() > 0 && c[c.len() - 1] == '\n' {
        let mut ip = String::new();
        let mut k: usize = 0;
        while k + 1 < c.len()
            invariant
                c.len() > 0,
                k + 1 <= c@.len(),
                ip@ == c@.subrange(0, k as int),
            decreases c@.len() - k,
        {
            crate::text::push_char(&mut ip, c[k]);
            proof { assert(ip@ =~= c@.subrange(0, k + 1)); }
            k = k + 1;
        }
        proof { assert(ip@ =~= c@.drop_last()); }
        Ok(ip)
    } else {
        Err(owned("stripping newline from dynamic ip"))
    }
}

/// What one poll of a booting guest decides.
#[derive(Debug, Clone, PartialEq, Eq)]
pub enum WaitStep {
    /// The guest answered.
    Up,
    /// Wait five seconds and poll again; `next` counts the polls that failed.
    Retry { next: u32 },
    /// Give up, with this message.
    GiveUp(String),
}

/// The message given when a guest never answered.
pub open spec fn never_up_text(project: Seq<char>, guest: Seq<char>) -> Seq<char> {
    "could not connect to guest "@ + project + "-"@ + guest + " to check if it is up, might not have booted successfully"@
}

/// Decides, after a poll of a booting guest, whether it is up, to poll again, or to give up:
/// the guest is given up once more than 24 polls have failed and this one failed too.
pub fn wait_step(common: &OrchestrationCommon, g: &StateTestbedGuest, failed_polls: u32, poll_ok: bool) -> (r: WaitStep)
    ensures
        failed_polls > 24 && !poll_ok ==> (r matches WaitStep::GiveUp(m) && m@ == never_up_text(common.project_name@, g.guest_type.name@)),
        !(failed_polls > 24 && !poll_ok) && poll_ok ==> r == WaitStep::Up,
        !(failed_polls > 24) && !poll_ok ==> r == (WaitStep::Retry { next: (failed_polls + 1) as u32 }),
{
    if failed_polls > 24 && !poll_ok {
        let mut m = owned("could not connect to guest ");
        push_str(&mut m, common.project_name.as_str());
        push_str(&mut m, "-");
        push_str(&mut m, g.guest_type.name.as_str());
        push_str(&mut m, " to check if it is up, might not have booted successfully");
        proof { assert(m@ =~= never_up_text(common.project_name@, g.guest_type.name@)); }
        WaitStep::GiveUp(m)
    } else if poll_ok {
        WaitStep::Up
    } else {
        WaitStep::Retry { next: failed_polls + 1 }
    }
}

} // verus!
