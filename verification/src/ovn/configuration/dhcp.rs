//! DHCP configuration: the options of a switch, and the DHCP table entry of OVN that ports
//! are linked to.

use vstd::prelude::*;
use crate::ovn::components::{MacAddress, OvnIpAddr, ovn_ip_text};
use crate::ovn::components::logical_switch_port::LogicalSwitchPort;
use crate::text::{owned, concat2, views, push_str};
use std::hash::{Hash, Hasher};

verus! {

/// DHCP options of a logical switch.
#[derive(Debug, Clone)]
pub struct SwitchDhcpOptions {
    /// The range of addresses DHCP must not hand out (one range only).
    pub exclude_ips: String,
}

impl SwitchDhcpOptions {
    /// Options excluding the given range.
    pub fn new(exclude_ips: String) -> (r: SwitchDhcpOptions)
        ensures
            r.exclude_ips == exclude_ips,
    {
        SwitchDhcpOptions { exclude_ips }
    }

    /// An identical copy.
    pub fn duplicate(&self) -> (r: SwitchDhcpOptions)
        ensures
            r == *self,
    {
        SwitchDhcpOptions { exclude_ips: self.exclude_ips.clone() }
    }
}

/// The kind of DHCP a logical switch port uses.
#[derive(Debug, Clone, Copy)]
pub enum SwitchPortDhcpOptions {
    DhcpV4,
}

/// The DHCP table entry of OVN built from a router's configuration: the router answers the
/// DHCP requests and is the default gateway of the guests on the ports linked to it.
#[derive(Debug, Clone, PartialEq, Eq, Hash)]
pub struct DhcpDatabaseEntry {
    /// Must be a subnet.
    pub cidr: OvnIpAddr,
    pub lease_time: String,
    /// Address of the router, the default gateway.
    pub router: String,
    /// Address of the virtual DHCP server.
    pub server_id: String,
    /// MAC address of the virtual DHCP server.
    pub server_mac: MacAddress,
}

/// The plain values of a DHCP entry.
pub struct DhcpEntryView {
    pub cidr: OvnIpAddr,
    pub lease_time: Seq<char>,
    pub router: Seq<char>,
    pub server_id: Seq<char>,
    pub server_mac: Seq<char>,
    pub server_mac_bytes: Option<u64>,
}

impl View for DhcpDatabaseEntry {
    type V = DhcpEntryView;

    open spec fn view(&self) -> DhcpEntryView {
        DhcpEntryView {
            cidr: self.cidr,
            lease_time: self.lease_time@,
            router: self.router@,
            server_id: self.server_id@,
            server_mac: self.server_mac.address@,
            server_mac_bytes: self.server_mac.as_bytes,
        }
    }
}

/// The key under which a DHCP entry is known before OVN assigns it an id: the entry's hash.
pub uninterp spec fn dhcp_entry_hash(e: DhcpEntryView) -> u64;

/// Hashes a DHCP entry with `std::collections::hash_map::DefaultHasher::new()` and the derived
/// `Hash` of the entry. `DefaultHasher::new` starts from fixed keys, so the result is a
/// function of the entry's values alone, named [`dhcp_entry_hash`]; what that function is, is
/// not stated.
#[verifier::external_body]
pub(crate) fn hash_dhcp_entry(e: &DhcpDatabaseEntry) -> (h: u64)
    ensures
        h == dhcp_entry_hash(e@),
{
    let mut s = std::collections::hash_map::DefaultHasher::new();
    e.hash(&mut s);
    s.finish()
}

/// The `options` argument of a DHCP table entry.
pub open spec fn dhcp_options_text(lease: Seq<char>, router: Seq<char>, server_id: Seq<char>, mac: Seq<char>, dns: Seq<char>) -> Seq<char> {
    "options=\"lease_time\"=\""@ + lease + "\" \"router\"=\""@ + router + "\" \"server_id\"=\""@ + server_id
        + "\" \"server_mac\"=\""@ + mac + "\" \"dns_server\"=\""@ + dns + "\""@
}

/// Builds the `options` argument of a DHCP table entry.
fn dhcp_options(lease: &str, router: &str, server_id: &str, mac: &str, dns: &str) -> (r: String)
    ensures
        r@ == dhcp_options_text(lease@, router@, server_id@, mac@, dns@),
{
    let mut s = owned("options=\"lease_time\"=\"");
    push_str(&mut s, lease);
    push_str(&mut s, "\" \"router\"=\"");
    push_str(&mut s, router);
    push_str(&mut s, "\" \"server_id\"=\"");
    push_str(&mut s, server_id);
    push_str(&mut s, "\" \"server_mac\"=\"");
    push_str(&mut s, mac);
    push_str(&mut s, "\" \"dns_server\"=\"");
    push_str(&mut s, dns);
    push_str(&mut s, "\"");
    proof { assert(s@ =~= dhcp_options_text(lease@, router@, server_id@, mac@, dns@)); }
    s
}

/// The command that finds the id of a DHCP table entry of a project.
pub open spec fn rule_uuid_cmd(cidr: Seq<char>, lease: Seq<char>, router: Seq<char>, server_id: Seq<char>, mac: Seq<char>, project: Seq<char>, dns: Seq<char>) -> Seq<Seq<char>> {
    seq![
        "ovn-nbctl"@, "--bare"@, "--columns=_uuid"@, "find"@, "dhcp_options"@,
        "cidr=\""@ + cidr + "\""@,
        dhcp_options_text(lease, router, server_id, mac, dns),
        "external_ids:testbedos-project="@ + project,
    ]
}

/// Builds the command that finds the id of a DHCP table entry of a project.
pub fn get_rule_uuid_cmd(
    cidr: &String,
    lease: &String,
    router: &String,
    server_id: &String,
    mac: &String,
    project: &String,
    dns: &String,
) -> (r: Vec<String>)
    ensures
        views(r@) == rule_uuid_cmd(cidr@, lease@, router@, server_id@, mac@, project@, dns@),
{
    let mut cmd: Vec<String> = Vec::new();
    cmd.push(owned("ovn-nbctl"));
    cmd.push(owned("--bare"));
    cmd.push(owned("--columns=_uuid"));
    cmd.push(owned("find"));
    cmd.push(owned("dhcp_options"));
    let mut c = owned("cidr=\"");
    push_str(&mut c, cidr.as_str());
    push_str(&mut c, "\"");
    cmd.push(c);
    cmd.push(dhcp_options(lease.as_str(), router.as_str(), server_id.as_str(), mac.as_str(), dns.as_str()));
    cmd.push(concat2("external_ids:testbedos-project=", project.as_str()));
    proof { assert(views(cmd@) =~= rule_uuid_cmd(cidr@, lease@, router@, server_id@, mac@, project@, dns@)); }
    cmd
}

/// The DNS server given to guests, for access outside the testbed.
pub open spec fn dns_server() -> Seq<char> {
    "{8.8.8.8}"@
}

/// The command that creates a DHCP table entry for a project.
pub open spec fn dhcp_create_rule_cmd(e: DhcpEntryView, project: Seq<char>) -> Seq<Seq<char>> {
    seq![
        "ovn-nbctl"@, "create"@, "dhcp_options"@, "cidr="@ + ovn_ip_text(e.cidr),
        dhcp_options_text(e.lease_time, e.router, e.server_id, e.server_mac, dns_server()),
        "external_ids:testbedos-project="@ + project,
    ]
}

/// The command that links a switch port to a DHCP table entry.
pub open spec fn set_dhcp_cmd(lsp: Seq<char>, uuid: Seq<char>) -> Seq<Seq<char>> {
    seq!["ovn-nbctl"@, "lsp-set-dhcpv4-options"@, lsp, uuid]
}

/// The command that deletes a DHCP table entry.
pub open spec fn destroy_rule_cmd(uuid: Seq<char>) -> Seq<Seq<char>> {
    seq!["ovn-nbctl"@, "destroy"@, "dhcp_options"@, uuid]
}

/// Why the id returned for a created DHCP table entry was refused: it did not end in a newline.
#[derive(Debug, Clone, Copy, PartialEq, Eq)]
pub enum DhcpError {
    MissingNewline,
}

/// The names of the ports linked to the entry with the given key, in order.
pub open spec fn ports_with_dhcp(ports: Seq<LogicalSwitchPort>, key: u64) -> Seq<Seq<char>>
    decreases ports.len(),
{
    if ports.len() == 0 {
        Seq::empty()
    } else {
        let rest = ports_with_dhcp(ports.drop_last(), key);
        if ports.last().dhcp_options_uuid == Some(key) {
            rest.push(ports.last().name@)
        } else {
            rest
        }
    }
}

/// The parts of a text between its blank-line separators (`\n\n`), read from the left.
pub open spec fn split_blank_lines(s: Seq<char>) -> Seq<Seq<char>>
    decreases s.len(),
{
    if s.len() < 2 {
        seq![s]
    } else if s[0] == '\n' && s[1] == '\n' {
        seq![Seq::<char>::empty()] + split_blank_lines(s.skip(2))
    } else {
        let rest = split_blank_lines(s.drop_first());
        rest.update(0, seq![s[0]] + rest[0])
    }
}

/// Splitting always yields at least one part.
pub proof fn lemma_split_blank_lines_nonempty(s: Seq<char>)
    ensures
        split_blank_lines(s).len() >= 1,
    decreases s.len(),
{
    if s.len() >= 2 {
        if s[0] == '\n' && s[1] == '\n' {
            lemma_split_blank_lines_nonempty(s.skip(2));
        } else {
            lemma_split_blank_lines_nonempty(s.drop_first());
        }
    }
}

/// A text without one trailing newline, if it has one.
pub open spec fn strip_newline(s: Seq<char>) -> Seq<char> {
    if s.len() > 0 && s.last() == '\n' { s.drop_last() } else { s }
}

impl DhcpDatabaseEntry {
    /// An entry with the given values.
    pub fn new(
        cidr: OvnIpAddr,
        lease_time: String,
        router: String,
        server_id: String,
        server_mac: MacAddress,
    ) -> (r: DhcpDatabaseEntry)
        ensures
            r == (DhcpDatabaseEntry { cidr, lease_time, router, server_id, server_mac }),
    {
        DhcpDatabaseEntry { cidr, lease_time, router, server_id, server_mac }
    }

    /// An identical copy.
    pub fn duplicate(&self) -> (r: DhcpDatabaseEntry)
        ensures
            r == *self,
    {
        DhcpDatabaseEntry {
            cidr: self.cidr,
            lease_time: self.lease_time.clone(),
            router: self.router.clone(),
            server_id: self.server_id.clone(),
            server_mac: self.server_mac.duplicate(),
        }
    }

    /// Whether two entries hold the same values.
    pub fn same(&self, other: &DhcpDatabaseEntry) -> (b: bool)
        ensures
            b == (self@ == other@),
    {
        self.cidr.same(&other.cidr) && self.lease_time == other.lease_time && self.router
            == other.router && self.server_id == other.server_id && self.server_mac.address
            == other.server_mac.address && self.server_mac.as_bytes == other.server_mac.as_bytes
    }

    /// The command that creates this entry in OVN for a project.
    pub fn create_rule_command(&self, project_name: &String) -> (r: Vec<String>)
        ensures
            views(r@) == dhcp_create_rule_cmd(self@, project_name@),
    {
        let mut cmd: Vec<String> = Vec::new();
        cmd.push(owned("ovn-nbctl"));
        cmd.push(owned("create"));
        cmd.push(owned("dhcp_options"));
        cmd.push(concat2("cidr=", self.cidr.to_string().as_str()));
        cmd.push(dhcp_options(self.lease_time.as_str(), self.router.as_str(), self.server_id.as_str(),
            self.server_mac.address.as_str(), "{8.8.8.8}"));
        cmd.push(concat2("external_ids:testbedos-project=", project_name.as_str()));
        proof { assert(views(cmd@) =~= dhcp_create_rule_cmd(self@, project_name@)); }
        cmd
    }

    /// The command that finds this entry's id in OVN.
    pub fn lookup_command(&self, project_name: &String) -> (r: Vec<String>)
        ensures
            views(r@) == rule_uuid_cmd(ovn_ip_text(self.cidr), self.lease_time@, self.router@,
                self.server_id@, self.server_mac.address@, project_name@, dns_server()),
    {
        get_rule_uuid_cmd(&self.cidr.to_string(), &self.lease_time, &self.router, &self.server_id,
            &self.server_mac.address, project_name, &owned("{8.8.8.8}"))
    }
}

/// The id OVN printed for a created entry: empty output is kept as is; otherwise the output
/// must end in a newline, which is removed.
pub fn rule_uuid_from_output(out: &String) -> (r: Result<String, DhcpError>)
    ensures
        out@.len() == 0 ==> r == Ok::<String, DhcpError>(*out),
        out@.len() > 0 && out@.last() == '\n' ==> (r matches Ok(u) && u@ == out@.drop_last()),
        out@.len() > 0 && out@.last() != '\n' ==> r == Err::<String, DhcpError>(DhcpError::MissingNewline),
{
    let cs = crate::text::chars_of(out.as_str());
    if cs.len() == 0 {
        return Ok(out.clone());
    }
    if cs[cs.len() - 1] != '\n' {
        return Err(DhcpError::MissingNewline);
    }
    let u = out.as_str().substring_char(0, cs.len() - 1);
    proof { assert(out@.subrange(0, out@.len() - 1) =~= out@.drop_last()); }
    Ok(owned(u))
}

/// The command that links a switch port to a DHCP table entry.
pub fn set_dhcp_command(lsp_name: &String, uuid: &String) -> (r: Vec<String>)
    ensures
        views(r@) == set_dhcp_cmd(lsp_name@, uuid@),
{
    let mut cmd: Vec<String> = Vec::new();
    cmd.push(owned("ovn-nbctl"));
    cmd.push(owned("lsp-set-dhcpv4-options"));
    cmd.push(lsp_name.clone());
    cmd.push(uuid.clone());
    proof { assert(views(cmd@) =~= set_dhcp_cmd(lsp_name@, uuid@)); }
    cmd
}

/// The command that deletes a DHCP table entry.
pub fn destroy_rule_command(uuid: &String) -> (r: Vec<String>)
    ensures
        views(r@) == destroy_rule_cmd(uuid@),
{
    let mut cmd: Vec<String> = Vec::new();
    cmd.push(owned("ovn-nbctl"));
    cmd.push(owned("destroy"));
    cmd.push(owned("dhcp_options"));
    cmd.push(uuid.clone());
    proof { assert(views(cmd@) =~= destroy_rule_cmd(uuid@)); }
    cmd
}

/// The names of the switch ports linked to the entry with the given key.
pub fn dhcp_ports(ports: &Vec<LogicalSwitchPort>, key: u64) -> (r: Vec<String>)
    ensures
        views(r@) == ports_with_dhcp(ports@, key),
{
    let mut r: Vec<String> = Vec::new();
    let mut i: usize = 0;
    while i < ports.len()
        invariant
            i <= ports@.len(),
            views(r@) == ports_with_dhcp(ports@.subrange(0, i as int), key),
        decreases ports@.len() - i,
    {
        proof { assert(ports@.subrange(0, i + 1).drop_last() =~= ports@.subrange(0, i as int)); }
        if ports[i].dhcp_options_uuid == Some(key) {
            r.push(ports[i].name.clone());
        }
        i = i + 1;
        proof { assert(views(r@) =~= ports_with_dhcp(ports@.subrange(0, i as int), key)); }
    }
    proof { assert(ports@.subrange(0, ports@.len() as int) =~= ports@); }
    r
}

/// A list of parts with `c` put in front of its first part.
pub open spec fn prepend_first(c: Seq<char>, l: Seq<Seq<char>>) -> Seq<Seq<char>> {
    l.update(0, c + l[0])
}

/// Removes one trailing newline, if there is one.
fn strip_one_newline(s: &str) -> (r: String)
    ensures
        r@ == strip_newline(s@),
{
    let n = s.unicode_len();
    if n > 0 && s.get_char(n - 1) == '\n' {
        proof { assert(s@.subrange(0, n - 1) =~= s@.drop_last()); }
        owned(s.substring_char(0, n - 1))
    } else {
        owned(s)
    }
}

/// The ids OVN printed when looking up an entry: several ids (duplicate entries) are separated
/// by blank lines; one trailing newline is removed from each.
pub fn rule_uuids_from_output(out: &String) -> (r: Vec<String>)
    ensures
        views(r@) == split_blank_lines(out@).map_values(|p: Seq<char>| strip_newline(p)),
{
    let cs = crate::text::chars_of(out.as_str());
    let n = cs.len();
    let ghost whole = out@;
    let ghost mut done: Seq<Seq<char>> = Seq::empty();
    let mut parts: Vec<String> = Vec::new();
    let mut i: usize = 0;
    let mut start: usize = 0;
    proof {
        lemma_split_blank_lines_nonempty(whole);
        assert(whole.skip(0) =~= whole);
        let l = split_blank_lines(whole);
        assert(whole.subrange(0, 0) + l[0] =~= l[0]);
        assert(prepend_first(whole.subrange(0, 0), l) =~= l);
        assert(done + l =~= l);
    }
    while i < n
        invariant
            cs@ == whole,
            whole == out@,
            n == whole.len(),
            start <= i <= n,
            split_blank_lines(whole) == done + prepend_first(whole.subrange(start as int, i as int),
                split_blank_lines(whole.skip(i as int))),
            views(parts@) == done.map_values(|p: Seq<char>| strip_newline(p)),
        decreases n - i,
    {
        let ghost rest = whole.skip(i as int);
        proof {
            lemma_split_blank_lines_nonempty(rest);
            lemma_split_blank_lines_nonempty(whole.skip(i + 1));
            if i + 2 <= n {
                lemma_split_blank_lines_nonempty(whole.skip(i + 2));
            }
            assert(rest.len() >= 1);
            assert(rest[0] == cs@[i as int]);
        }
        if i + 1 < n && cs[i] == '\n' && cs[i + 1] == '\n' {
            let piece = out.as_str().substring_char(start, i);
            let ghost before = parts@;
            parts.push(strip_one_newline(piece));
            proof {
                assert(views(parts@) =~= views(before).push(strip_newline(whole.subrange(start as int, i as int))));
                assert(rest[1] == cs@[i + 1]);
                assert(rest.skip(2) =~= whole.skip(i + 2));
                let x = split_blank_lines(whole.skip(i + 2));
                assert(split_blank_lines(rest) == seq![Seq::<char>::empty()] + x);
                assert(prepend_first(whole.subrange(start as int, i as int), seq![Seq::<char>::empty()] + x)
                    =~= seq![whole.subrange(start as int, i as int)] + x);
                assert(prepend_first(whole.subrange(i + 2, i + 2), x) =~= x);
                assert(done + seq![whole.subrange(start as int, i as int)] + x
                    =~= done.push(whole.subrange(start as int, i as int)) + x);
                done = done.push(whole.subrange(start as int, i as int));
                assert(views(parts@) =~= done.map_values(|p: Seq<char>| strip_newline(p)));
            }
            i = i + 2;
            start = i;
        } else {
            proof {
                let cur = whole.subrange(start as int, i as int);
                let y = split_blank_lines(whole.skip(i + 1));
                assert(cur.push(cs@[i as int]) =~= whole.subrange(start as int, i + 1));
                if rest.len() >= 2 {
                    assert(rest.drop_first() =~= whole.skip(i + 1));
                    assert(split_blank_lines(rest) == y.update(0, seq![rest[0]] + y[0]));
                    assert(cur + (seq![rest[0]] + y[0]) =~= cur.push(cs@[i as int]) + y[0]);
                    assert(y.update(0, seq![rest[0]] + y[0])[0] == seq![rest[0]] + y[0]);
                    assert(prepend_first(cur, y.update(0, seq![rest[0]] + y[0]))
                        =~= prepend_first(cur.push(cs@[i as int]), y));
                } else {
                    assert(whole.skip(i + 1) =~= Seq::<char>::empty());
                    assert(split_blank_lines(rest) == seq![rest]);
                    assert(y == seq![Seq::<char>::empty()]);
                    assert(rest =~= seq![cs@[i as int]]);
                    assert(prepend_first(cur, seq![rest]) =~= seq![cur + rest]);
                    assert(prepend_first(cur.push(cs@[i as int]), y) =~= seq![cur.push(cs@[i as int]) + Seq::<char>::empty()]);
                    assert(cur + rest =~= cur.push(cs@[i as int]) + Seq::<char>::empty());
                }
            }
            i = i + 1;
        }
    }
    let piece = out.as_str().substring_char(start, n);
    let ghost before = parts@;
    parts.push(strip_one_newline(piece));
    proof {
        assert(views(parts@) =~= views(before).push(strip_newline(whole.subrange(start as int, n as int))));
        assert(whole.skip(n as int) =~= Seq::<char>::empty());
        assert(split_blank_lines(whole.skip(n as int)) == seq![Seq::<char>::empty()]);
        assert(prepend_first(whole.subrange(start as int, n as int), seq![Seq::<char>::empty()])
            =~= seq![whole.subrange(start as int, n as int)]);
        let fin = done.push(whole.subrange(start as int, n as int));
        assert(done + seq![whole.subrange(start as int, n as int)] =~= fin);
        assert(views(parts@) =~= fin.map_values(|p: Seq<char>| strip_newline(p)));
    }
    parts
}

/// What happens next while a DHCP entry is created in OVN or removed from it.
#[derive(Debug, Clone, PartialEq, Eq)]
pub enum DhcpAction {
    /// Run this command and report its reply.
    Run(Vec<String>),
    /// The work is done.
    Done,
    /// The work stopped with this error.
    Fail(String),
}

/// The plain value of a [`DhcpAction`].
pub enum DhcpNext {
    Run(Seq<Seq<char>>),
    Done,
    Fail(Seq<char>),
}

/// The plain value of an action.
pub open spec fn action_view(a: DhcpAction) -> DhcpNext {
    match a {
        DhcpAction::Run(c) => DhcpNext::Run(views(c@)),
        DhcpAction::Done => DhcpNext::Done,
        DhcpAction::Fail(e) => DhcpNext::Fail(e@),
    }
}

/// The plain value of a command's reply: its output, or its error text.
pub open spec fn reply_text(r: Result<String, String>) -> Result<Seq<char>, Seq<char>> {
    match r {
        Ok(o) => Ok(o@),
        Err(e) => Err(e@),
    }
}

/// The plain values of the replies so far.
pub open spec fn replies_text(rs: Seq<Result<String, String>>) -> Seq<Result<Seq<char>, Seq<char>>> {
    rs.map_values(|r: Result<String, String>| reply_text(r))
}

/// The first error among the replies from position `i` on.
pub open spec fn first_err_from(rs: Seq<Result<Seq<char>, Seq<char>>>, i: int) -> Option<Seq<char>>
    decreases rs.len() - i,
{
    if i < 0 || i >= rs.len() {
        None
    } else {
        match rs[i] {
            Err(e) => Some(e),
            Ok(_) => first_err_from(rs, i + 1),
        }
    }
}

/// The error given when OVN refused to create the entry.
pub open spec fn create_fail_text(e: DhcpEntryView, err: Seq<char>) -> Seq<char> {
    "could not create DHCP Options database rule cidr: "@ + ovn_ip_text(e.cidr) + " router: "@ + e.router
        + ", with err: "@ + err
}

/// The error given when OVN could not look the entry up.
pub open spec fn lookup_fail_text(e: DhcpEntryView, err: Seq<char>) -> Seq<char> {
    "could not find the UUID for the DHCP cidr: "@ + ovn_ip_text(e.cidr) + " router: "@ + e.router
        + ", with err: "@ + err
}

/// Creating an entry, given the replies so far: first the entry is created; OVN's reply is its
/// id, which must end in a newline unless empty; then each of `ports` (the switch ports linked
/// to the entry's key) is linked to that id in turn; the first failing command stops the work
/// with its error.
pub open spec fn create_next(e: DhcpEntryView, project: Seq<char>, ports: Seq<Seq<char>>, rs: Seq<Result<Seq<char>, Seq<char>>>) -> DhcpNext {
    if rs.len() == 0 {
        DhcpNext::Run(dhcp_create_rule_cmd(e, project))
    } else {
        match rs[0] {
            Err(err) => DhcpNext::Fail(create_fail_text(e, err)),
            Ok(out) => if out.len() > 0 && out.last() != '\n' {
                DhcpNext::Fail("stripping newline from DHCP options uuid"@)
            } else {
                match first_err_from(rs, 1) {
                    Some(err) => DhcpNext::Fail(err),
                    None => if rs.len() - 1 < ports.len() {
                        DhcpNext::Run(set_dhcp_cmd(ports[rs.len() - 1], strip_newline(out)))
                    } else {
                        DhcpNext::Done
                    },
                }
            },
        }
    }
}

/// Removing an entry, given the replies so far: first its ids are looked up (several when the
/// entry was created more than once); then each id is destroyed in turn; the first failing
/// command stops the work with its error.
pub open spec fn destroy_next(e: DhcpEntryView, project: Seq<char>, rs: Seq<Result<Seq<char>, Seq<char>>>) -> DhcpNext {
    if rs.len() == 0 {
        DhcpNext::Run(rule_uuid_cmd(ovn_ip_text(e.cidr), e.lease_time, e.router, e.server_id, e.server_mac, project, dns_server()))
    } else {
        match rs[0] {
            Err(err) => DhcpNext::Fail(lookup_fail_text(e, err)),
            Ok(out) => {
                let ids = split_blank_lines(out).map_values(|p: Seq<char>| strip_newline(p));
                match first_err_from(rs, 1) {
                    Some(err) => DhcpNext::Fail(err),
                    None => if rs.len() - 1 < ids.len() {
                        DhcpNext::Run(destroy_rule_cmd(ids[rs.len() - 1]))
                    } else {
                        DhcpNext::Done
                    },
                }
            },
        }
    }
}

/// The first error among the replies from position one on.
fn first_error(replies: &Vec<Result<String, String>>) -> (r: Option<String>)
    ensures
        opt_text(r) == first_err_from(replies_text(replies@), 1),
{
    let ghost v = replies_text(replies@);
    let mut i: usize = 1;
    if replies.len() == 0 {
        return None;
    }
    while i < replies.len()
        invariant
            1 <= i <= replies@.len(),
            v == replies_text(replies@),
            first_err_from(v, 1) == first_err_from(v, i as int),
        decreases replies@.len() - i,
    {
        proof { assert(v[i as int] == reply_text(replies@[i as int])); }
        match &replies[i] {
            Err(e) => { return Some(e.clone()); },
            Ok(_) => {},
        }
        i = i + 1;
    }
    None
}

/// The plain value of an optional text.
pub open spec fn opt_text(o: Option<String>) -> Option<Seq<char>> {
    match o {
        Some(s) => Some(s@),
        None => None,
    }
}

impl DhcpDatabaseEntry {
    /// The next step of creating this entry in OVN for a project (see [`create_next`]), given the
    /// replies to the commands run so far; the ports linked are those of `switch_ports` whose
    /// DHCP key is this entry's hash.
    pub fn create_step(&self, project_name: &String, switch_ports: &Vec<LogicalSwitchPort>, replies: &Vec<Result<String, String>>) -> (r: DhcpAction)
        ensures
            action_view(r) == create_next(self@, project_name@, ports_with_dhcp(switch_ports@, dhcp_entry_hash(self@)),
                replies_text(replies@)),
    {
        let ghost v = replies_text(replies@);
        if replies.len() == 0 {
            return DhcpAction::Run(self.create_rule_command(project_name));
        }
        proof { assert(v[0] == reply_text(replies@[0])); }
        let out = match &replies[0] {
            Err(err) => {
                let mut t = owned("could not create DHCP Options database rule cidr: ");
                push_str(&mut t, self.cidr.to_string().as_str());
                push_str(&mut t, " router: ");
                push_str(&mut t, self.router.as_str());
                push_str(&mut t, ", with err: ");
                push_str(&mut t, err.as_str());
                proof { assert(t@ =~= create_fail_text(self@, err@)); }
                return DhcpAction::Fail(t);
            },
            Ok(out) => out,
        };
        let uuid = match rule_uuid_from_output(out) {
            Ok(u) => u,
            Err(_) => { return DhcpAction::Fail(owned("stripping newline from DHCP options uuid")); },
        };
        proof {
            if out@.len() > 0 {
                assert(uuid@ == strip_newline(out@));
            } else {
                assert(uuid@ =~= strip_newline(out@));
            }
        }
        match first_error(replies) {
            Some(e) => { return DhcpAction::Fail(e); },
            None => {},
        }
        let ports = dhcp_ports(switch_ports, hash_dhcp_entry(self));
        let k = replies.len() - 1;
        if k < ports.len() {
            let cmd = set_dhcp_command(&ports[k], &uuid);
            proof { assert(views(ports@)[k as int] == ports@[k as int]@); }
            DhcpAction::Run(cmd)
        } else {
            DhcpAction::Done
        }
    }

    /// The next step of removing this entry of a project from OVN (see [`destroy_next`]), given
    /// the replies to the commands run so far.
    pub fn destroy_step(&self, project_name: &String, replies: &Vec<Result<String, String>>) -> (r: DhcpAction)
        ensures
            action_view(r) == destroy_next(self@, project_name@, replies_text(replies@)),
    {
        let ghost v = replies_text(replies@);
        if replies.len() == 0 {
            return DhcpAction::Run(self.lookup_command(project_name));
        }
        proof { assert(v[0] == reply_text(replies@[0])); }
        let out = match &replies[0] {
            Err(err) => {
                let mut t = owned("could not find the UUID for the DHCP cidr: ");
                push_str(&mut t, self.cidr.to_string().as_str());
                push_str(&mut t, " router: ");
                push_str(&mut t, self.router.as_str());
                push_str(&mut t, ", with err: ");
                push_str(&mut t, err.as_str());
                proof { assert(t@ =~= lookup_fail_text(self@, err@)); }
                return DhcpAction::Fail(t);
            },
            Ok(out) => out,
        };
        match first_error(replies) {
            Some(e) => { return DhcpAction::Fail(e); },
            None => {},
        }
        let ids = rule_uuids_from_output(out);
        let k = replies.len() - 1;
        if k < ids.len() {
            let cmd = destroy_rule_command(&ids[k]);
            proof { assert(views(ids@)[k as int] == ids@[k as int]@); }
            DhcpAction::Run(cmd)
        } else {
            DhcpAction::Done
        }
    }
}

} // verus!
