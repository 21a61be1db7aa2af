//! The OVN logical network: its components, their configuration, and the network model that
//! keeps them consistent.

pub mod components;
pub mod ovn_state;

use vstd::prelude::*;
use crate::text::views;

verus! {

/// A component of the logical network that one command adds and one command removes.
pub trait OvnCommand {
    /// The words of the command that adds the component.
    spec fn create_words(&self) -> Seq<Seq<char>>;

    /// The words of the command that removes the component.
    spec fn destroy_words(&self) -> Seq<Seq<char>>;

    /// The command that adds the component.
    fn create_command(&self) -> (r: Vec<String>)
        ensures
            views(r@) == self.create_words();

    /// The command that removes the component.
    fn destroy_command(&self) -> (r: Vec<String>)
        ensures
            views(r@) == self.destroy_words();
}

/// The outcomes, other than success, of adding or removing components of the logical network.
#[derive(Debug, PartialEq, Eq, PartialOrd)]
pub enum LogicalOperationResult {
    /// A component of that name already exists.
    AlreadyExists { name: String },
    /// No component of that name exists.
    DoesNotExist { name: String },
    /// The parent named for the component does not exist.
    ParentDoesNotExist { name: String, parent: String },
    /// The component still has children.
    HasChildren { name: String },
    /// Any other failure.
    Error { msg: String },
}

} // verus!
pub mod configuration;
