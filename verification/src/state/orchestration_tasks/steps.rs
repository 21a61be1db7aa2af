//! The steps of a guest's deployment: given the replies to the commands run so far, the next
//! command to run on the guest's host, or the outcome.

use vstd::prelude::*;
use crate::ovn::configuration::dhcp::{reply_text, replies_text};
use crate::text::{command_views, copy_words, views};

verus! {

/// What happens next while a guest is deployed.
#[derive(Debug, Clone, PartialEq, Eq)]
pub enum GuestAction {
    /// Run this command on the guest's host and report its reply.
    Run(Vec<String>),
    /// The deployment is done.
    Done,
    /// The deployment stopped with this error.
    Fail(String),
}

/// The plain value of a [`GuestAction`].
pub enum GuestNext {
    Run(Seq<Seq<char>>),
    Done,
    Fail(Seq<char>),
}

/// The plain value of an action.
pub open spec fn guest_action_view(a: GuestAction) -> GuestNext {
    match a {
        GuestAction::Run(c) => GuestNext::Run(views(c@)),
        GuestAction::Done => GuestNext::Done,
        GuestAction::Fail(e) => GuestNext::Fail(e@),
    }
}

/// The plain value of an optional action.
pub open spec fn opt_action_view(a: Option<GuestAction>) -> Option<GuestNext> {
    match a {
        Some(x) => Some(guest_action_view(x)),
        None => None,
    }
}

/// The first error among the replies at positions `lo` up to `hi`, not included.
pub open spec fn first_err_between(rs: Seq<Result<Seq<char>, Seq<char>>>, lo: int, hi: int) -> Option<Seq<char>>
    decreases hi - lo,
{
    if lo < 0 || lo >= hi || lo >= rs.len() {
        None
    } else {
        match rs[lo] {
            Err(e) => Some(e),
            Ok(_) => first_err_between(rs, lo + 1, hi),
        }
    }
}

/// How many of `n` commands run from reply position `i` have been answered.
pub open spec fn answered(n: int, rs_len: int, i: int) -> int {
    if rs_len - i < n { rs_len - i } else { n }
}

/// Running `cmds` in order, their replies starting at position `i`: the first failing command
/// stops the deployment with its error; otherwise the first command not answered yet is next;
/// `None` once every command succeeded.
pub open spec fn run_all_from(cmds: Seq<Seq<Seq<char>>>, rs: Seq<Result<Seq<char>, Seq<char>>>, i: int) -> Option<GuestNext> {
    let a = answered(cmds.len() as int, rs.len() as int, i);
    match first_err_between(rs, i, i + a) {
        Some(e) => Some(GuestNext::Fail(e)),
        None => if a < cmds.len() { Some(GuestNext::Run(cmds[a])) } else { None },
    }
}

/// The next action of running `cmds` in order (see [`run_all_from`]).
pub fn run_all_step(cmds: &Vec<Vec<String>>, replies: &Vec<Result<String, String>>, i: usize) -> (r: Option<GuestAction>)
    requires
        i <= replies@.len(),
    ensures
        opt_action_view(r) == run_all_from(command_views(cmds@), replies_text(replies@), i as int),
{
    let ghost v = replies_text(replies@);
    let ghost cv = command_views(cmds@);
    let a: usize = if replies.len() - i < cmds.len() { replies.len() - i } else { cmds.len() };
    let mut k: usize = 0;
    while k < a
        invariant
            k <= a,
            a == answered(cmds@.len() as int, replies@.len() as int, i as int),
            i + a <= replies@.len(),
            replies@.len() == replies.len(),
            v == replies_text(replies@),
            first_err_between(v, i as int, (i + a) as int) == first_err_between(v, (i + k) as int, (i + a) as int),
        decreases a - k,
    {
        proof { assert(v[(i + k) as int] == reply_text(replies@[(i + k) as int])); }
        match &replies[i + k] {
            Err(e) => { return Some(GuestAction::Fail(e.clone())); },
            Ok(_) => {},
        }
        k = k + 1;
    }
    if a < cmds.len() {
        proof { assert(cv[a as int] == views(cmds@[a as int]@)); }
        Some(GuestAction::Run(copy_words(&cmds[a])))
    } else {
        None
    }
}

/// The reply at a position, as text.
pub fn reply_at(replies: &Vec<Result<String, String>>, i: usize) -> (r: &Result<String, String>)
    requires
        i < replies@.len(),
    ensures
        reply_text(*r) == replies_text(replies@)[i as int],
{
    &replies[i]
}

} // verus!
