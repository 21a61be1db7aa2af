//! Checking whether deployed components are up: the shell command that asks, and how its answer
//! is read.

use vstd::prelude::*;
use crate::ovn::components::logical_router::LogicalRouter;
use crate::ovn::components::logical_router_port::LogicalRouterPort;
use crate::ovn::components::logical_switch::LogicalSwitch;
use crate::ovn::components::logical_switch_port::LogicalSwitchPort;
use crate::ovn::components::ovs::OvsPort;
use crate::ovn::configuration::dhcp::DhcpDatabaseEntry;
use crate::state::schema::guest::{StateGuestType, StateTestbedGuest};
use crate::text::{chars_of, owned, push_char, push_str};

verus! {

/// The state of a component.
#[derive(Debug, Clone, PartialEq, Eq)]
pub enum StateComponentStatus {
    Up,
    /// Not up, with the state reported.
    Down(String),
    DoesNotExist,
}

/// Whether a character has the Unicode `White_Space` property, as `char::is_whitespace` tests.
pub open spec fn is_white_space(c: char) -> bool {
    ('\u{9}' <= c <= '\u{d}') || c == ' ' || c == '\u{85}' || c == '\u{a0}' || c == '\u{1680}'
        || ('\u{2000}' <= c <= '\u{200a}') || c == '\u{2028}' || c == '\u{2029}' || c == '\u{202f}'
        || c == '\u{205f}' || c == '\u{3000}'
}

/// A text without its leading white space.
pub open spec fn trim_start(s: Seq<char>) -> Seq<char>
    decreases s.len(),
{
    if s.len() > 0 && is_white_space(s[0]) {
        trim_start(s.subrange(1, s.len() as int))
    } else {
        s
    }
}

/// A text without its trailing white space.
pub open spec fn trim_end(s: Seq<char>) -> Seq<char>
    decreases s.len(),
{
    if s.len() > 0 && is_white_space(s.last()) {
        trim_end(s.drop_last())
    } else {
        s
    }
}

/// A text without its leading and trailing white space, as `str::trim` gives it.
pub open spec fn trim_text(s: Seq<char>) -> Seq<char> {
    trim_end(trim_start(s))
}

/// How a check's answer is read: `does_not_exist`, `running` (up), or any other state (down),
/// after trimming white space.
pub open spec fn status_result(out: Seq<char>, r: StateComponentStatus) -> bool {
    let t = trim_text(out);
    if t == "does_not_exist"@ {
        r == StateComponentStatus::DoesNotExist
    } else if t == "running"@ {
        r == StateComponentStatus::Up
    } else {
        r matches StateComponentStatus::Down(s) && s@ == t
    }
}

/// Whether a character is white space.
fn white_space(c: char) -> (b: bool)
    ensures
        b == is_white_space(c),
{
    ('\u{9}' <= c && c <= '\u{d}') || c == ' ' || c == '\u{85}' || c == '\u{a0}' || c == '\u{1680}'
        || ('\u{2000}' <= c && c <= '\u{200a}') || c == '\u{2028}' || c == '\u{2029}' || c
        == '\u{202f}' || c == '\u{205f}' || c == '\u{3000}'
}

/// A string without its leading and trailing white space.
pub fn trim(s: &str) -> (r: String)
    ensures
        r@ == trim_text(s@),
{
    let c = chars_of(s);
    let n = c.len();
    let mut lo: usize = 0;
    proof { assert(c@.subrange(0, n as int) =~= c@); }
    while lo < n && white_space(c[lo])
        invariant
            n == c@.len(),
            lo <= n,
            trim_start(c@.subrange(lo as int, n as int)) == trim_start(c@),
        decreases n - lo,
    {
        proof {
            assert(c@.subrange(lo as int, n as int).subrange(1, (n - lo) as int) =~= c@.subrange(lo + 1, n as int));
        }
        lo = lo + 1;
    }
    let mut hi: usize = n;
    while hi > lo && white_space(c[hi - 1])
        invariant
            n == c@.len(),
            lo <= hi <= n,
            trim_start(c@) == c@.subrange(lo as int, n as int),
            trim_end(c@.subrange(lo as int, hi as int)) == trim_end(c@.subrange(lo as int, n as int)),
        decreases hi - lo,
    {
        proof {
            assert(c@.subrange(lo as int, hi as int).drop_last() =~= c@.subrange(lo as int, hi - 1));
        }
        hi = hi - 1;
    }
    let mut r = String::new();
    let mut i: usize = lo;
    while i < hi
        invariant
            n == c@.len(),
            lo <= i <= hi <= n,
            r@ == c@.subrange(lo as int, i as int),
        decreases hi - i,
    {
        push_char(&mut r, c[i]);
        proof { assert(r@ =~= c@.subrange(lo as int, i + 1)); }
        i = i + 1;
    }
    r
}

/// Reads the answer of a check command (see [`status_result`]).
pub fn status_from_output(out: &str) -> (r: StateComponentStatus)
    ensures
        status_result(out@, r),
{
    let t = trim(out);
    if t == owned("does_not_exist") {
        StateComponentStatus::DoesNotExist
    } else if t == owned("running") {
        StateComponentStatus::Up
    } else {
        StateComponentStatus::Down(t)
    }
}

/// Components whose state can be checked with a shell command that prints it.
pub trait EvaluateState {
    /// The shell command that prints the component's state.
    fn get_check_command(&self, project_name: &String) -> (r: String);
}

/// The check command for a guest of the given kind and full name.
pub open spec fn guest_check_command(t: StateGuestType, full_name: Seq<char>) -> Seq<char> {
    match t {
        StateGuestType::Libvirt(_) => "virsh domstate \""@ + full_name + "\" 2>/dev/null || echo \"does_not_exist\""@,
        StateGuestType::Docker(_) => "docker inspect -f '{{.State.Status}}' \""@ + full_name
            + "\" 2>/dev/null || echo \"does_not_exist\""@,
        StateGuestType::Android(_) => "emulator -list-avds 2>/dev/null | grep -Fxq \""@ + full_name
            + "\" && (pgrep -f \"emulator.*-name "@ + full_name
            + "\" >/dev/null && echo \"up\" || echo \"shut off\") || echo \"does_not_exist\""@,
    }
}

impl EvaluateState for StateTestbedGuest {
    /// Asks libvirt, docker or the Android emulator about the guest `<project>-<name>`.
    fn get_check_command(&self, project_name: &String) -> (r: String)
        ensures
            r@ == guest_check_command(self.guest_type.guest_type, project_name@ + "-"@ + self.guest_type.name@),
    {
        let mut full = project_name.clone();
        push_str(&mut full, "-");
        push_str(&mut full, self.guest_type.name.as_str());
        let mut r = String::new();
        match &self.guest_type.guest_type {
            StateGuestType::Libvirt(_) => {
                push_str(&mut r, "virsh domstate \"");
                push_str(&mut r, full.as_str());
                push_str(&mut r, "\" 2>/dev/null || echo \"does_not_exist\"");
            },
            StateGuestType::Docker(_) => {
                push_str(&mut r, "docker inspect -f '{{.State.Status}}' \"");
                push_str(&mut r, full.as_str());
                push_str(&mut r, "\" 2>/dev/null || echo \"does_not_exist\"");
            },
            StateGuestType::Android(_) => {
                push_str(&mut r, "emulator -list-avds 2>/dev/null | grep -Fxq \"");
                push_str(&mut r, full.as_str());
                push_str(&mut r, "\" && (pgrep -f \"emulator.*-name ");
                push_str(&mut r, full.as_str());
                push_str(&mut r, "\" >/dev/null && echo \"up\" || echo \"shut off\") || echo \"does_not_exist\"");
            },
        }
        proof { assert(r@ =~= guest_check_command(self.guest_type.guest_type, project_name@ + "-"@ + self.guest_type.name@)); }
        r
    }
}

/// A check command that prints `up` if `<command> "<name>" <rest>` succeeds and
/// `does_not_exist` otherwise.
pub open spec fn exists_check(command: Seq<char>, name: Seq<char>, rest: Seq<char>, found: Seq<char>) -> Seq<char> {
    command + " \""@ + name + "\" "@ + rest + " >/dev/null 2>&1 && echo \""@ + found + "\" || echo \"does_not_exist\""@
}

/// Builds an [`exists_check`] command.
fn exists_check_command(command: &str, name: &str, rest: &str, found: &str) -> (r: String)
    ensures
        r@ == exists_check(command@, name@, rest@, found@),
{
    let mut r = owned(command);
    push_str(&mut r, " \"");
    push_str(&mut r, name);
    push_str(&mut r, "\" ");
    push_str(&mut r, rest);
    push_str(&mut r, " >/dev/null 2>&1 && echo \"");
    push_str(&mut r, found);
    push_str(&mut r, "\" || echo \"does_not_exist\"");
    proof { assert(r@ =~= exists_check(command@, name@, rest@, found@)); }
    r
}

impl EvaluateState for LogicalSwitch {
    /// Asks the OVN northbound database for the switch.
    fn get_check_command(&self, project_name: &String) -> (r: String)
        ensures
            r@ == exists_check("ovn-nbctl --bare get Logical_Switch"@, self.name@, "_uuid"@, "up"@),
    {
        exists_check_command("ovn-nbctl --bare get Logical_Switch", self.name.as_str(), "_uuid", "up")
    }
}

impl EvaluateState for LogicalRouter {
    /// Asks the OVN northbound database for the router.
    fn get_check_command(&self, project_name: &String) -> (r: String)
        ensures
            r@ == exists_check("ovn-nbctl --bare get Logical_Router"@, self.name@, "_uuid"@, "up"@),
    {
        exists_check_command("ovn-nbctl --bare get Logical_Router", self.name.as_str(), "_uuid", "up")
    }
}

impl EvaluateState for LogicalRouterPort {
    /// Asks the OVN northbound database for the router port.
    fn get_check_command(&self, project_name: &String) -> (r: String)
        ensures
            r@ == exists_check("ovn-nbctl --bare get Logical_Router_Port"@, self.name@, "_uuid"@, "up"@),
    {
        exists_check_command("ovn-nbctl --bare get Logical_Router_Port", self.name.as_str(), "_uuid", "up")
    }
}

impl EvaluateState for DhcpDatabaseEntry {
    /// Asks the OVN northbound database for the DHCP entry, by its lease time.
    fn get_check_command(&self, project_name: &String) -> (r: String)
        ensures
            r@ == exists_check("ovn-nbctl --bare get DHCP_Options"@, self.lease_time@, "_uuid"@, "active"@),
    {
        exists_check_command("ovn-nbctl --bare get DHCP_Options", self.lease_time.as_str(), "_uuid", "active")
    }
}

/// The check command for a switch port: `up`, `down`, or `does_not_exist`.
pub open spec fn lsp_check(name: Seq<char>) -> Seq<char> {
    "STATE=$(ovn-nbctl --bare get Logical_Switch_Port \""@ + name
        + "\" up 2>/dev/null); if [ -z \"$STATE\" ]; then echo \"does_not_exist\"; elif [ \"$STATE\" = \"true\" ]; then echo \"up\"; else echo \"down\"; fi"@
}

impl EvaluateState for LogicalSwitchPort {
    /// Asks the OVN northbound database whether the switch port is up.
    fn get_check_command(&self, project_name: &String) -> (r: String)
        ensures
            r@ == lsp_check(self.name@),
    {
        let mut r = owned("STATE=$(ovn-nbctl --bare get Logical_Switch_Port \"");
        push_str(&mut r, self.name.as_str());
        push_str(&mut r, "\" up 2>/dev/null); if [ -z \"$STATE\" ]; then echo \"does_not_exist\"; elif [ \"$STATE\" = \"true\" ]; then echo \"up\"; else echo \"down\"; fi");
        proof { assert(r@ =~= lsp_check(self.name@)); }
        r
    }
}

/// The check command for an OVS port: its administrative state, or `does_not_exist`.
pub open spec fn ovs_check(name: Seq<char>) -> Seq<char> {
    "ovs-vsctl --bare get Interface \""@ + name + "\" admin_state 2>/dev/null || echo \"does_not_exist\""@
}

impl EvaluateState for OvsPort {
    /// Asks OVS for the port's administrative state.
    fn get_check_command(&self, project_name: &String) -> (r: String)
        ensures
            r@ == ovs_check(self.name@),
    {
        let mut r = owned("ovs-vsctl --bare get Interface \"");
        push_str(&mut r, self.name.as_str());
        push_str(&mut r, "\" admin_state 2>/dev/null || echo \"does_not_exist\"");
        proof { assert(r@ =~= ovs_check(self.name@)); }
        r
    }
}

} // verus!
