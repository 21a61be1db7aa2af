//! Access control list records applied to logical switches.

use vstd::prelude::*;
use crate::ovn::OvnCommand;
use crate::text::{owned, views, signed_decimal, signed_decimal_string};

verus! {

/// What an ACL record is attached to.
#[derive(Debug, Clone, Copy, PartialEq, Eq)]
pub enum ACLRecordType {
    Switch,
}

impl ACLRecordType {
    /// The name of the attachment kind.
    pub fn to_string(&self) -> (r: String)
        ensures
            r@ == "switch"@,
    {
        owned("switch")
    }
}

/// The direction of traffic an ACL rule matches.
#[derive(Debug, Clone, Copy, PartialEq, Eq)]
pub enum ACLDirection {
    ToLport,
    FromLport,
}

/// What an ACL rule does with matching traffic.
#[derive(Debug, Clone, Copy, PartialEq, Eq)]
pub enum ACLAction {
    Allow,
    AllowRelated,
    AllowStateless,
    Drop,
    Reject,
    Pass,
}

/// The name OVN uses for a direction.
pub open spec fn direction_text(d: ACLDirection) -> Seq<char> {
    match d {
        ACLDirection::ToLport => "to-lport"@,
        ACLDirection::FromLport => "from-lport"@,
    }
}

/// The name OVN uses for an action.
pub open spec fn action_text(a: ACLAction) -> Seq<char> {
    match a {
        ACLAction::Allow => "allow"@,
        ACLAction::AllowRelated => "allow-related"@,
        ACLAction::AllowStateless => "allow-stateless"@,
        ACLAction::Drop => "drop"@,
        ACLAction::Reject => "reject"@,
        ACLAction::Pass => "pass"@,
    }
}

impl ACLDirection {
    /// The name OVN uses for this direction.
    pub fn to_string(&self) -> (r: String)
        ensures
            r@ == direction_text(*self),
    {
        match self {
            ACLDirection::ToLport => owned("to-lport"),
            ACLDirection::FromLport => owned("from-lport"),
        }
    }
}

impl ACLAction {
    /// The name OVN uses for this action.
    pub fn to_string(&self) -> (r: String)
        ensures
            r@ == action_text(*self),
    {
        match self {
            ACLAction::Allow => owned("allow"),
            ACLAction::AllowRelated => owned("allow-related"),
            ACLAction::AllowStateless => owned("allow-stateless"),
            ACLAction::Drop => owned("drop"),
            ACLAction::Reject => owned("reject"),
            ACLAction::Pass => owned("pass"),
        }
    }
}

/// An ACL rule as written in the testbed configuration.
#[derive(Debug, Clone)]
pub struct ACLRule {
    pub direction: ACLDirection,
    /// Between 0 and 32,767.
    pub priority: i16,
    pub _match: String,
    pub action: ACLAction,
}

/// An ACL record of the logical network.
#[derive(Debug, Clone)]
pub struct LogicalACLRecord {
    /// The switch (or port group) the record applies to.
    pub entity_name: String,
    pub _type: ACLRecordType,
    pub direction: ACLDirection,
    /// Between 0 and 32,767.
    pub priority: i16,
    pub _match: String,
    pub action: ACLAction,
}

/// The command that adds an ACL record.
pub open spec fn acl_create_cmd(a: LogicalACLRecord) -> Seq<Seq<char>> {
    seq![
        "ovn-nbctl"@, "--may-exist"@, "acl-add"@, a.entity_name@, direction_text(a.direction),
        signed_decimal(a.priority as int), a._match@, action_text(a.action),
    ]
}

/// The command that deletes an ACL record.
pub open spec fn acl_destroy_cmd(a: LogicalACLRecord) -> Seq<Seq<char>> {
    seq![
        "ovn-nbctl"@, "acl-del"@, a.entity_name@, direction_text(a.direction),
        signed_decimal(a.priority as int), a._match@, action_text(a.action),
    ]
}

impl LogicalACLRecord {
    /// A record with the given fields.
    pub fn new(
        entity_name: String,
        _type: ACLRecordType,
        direction: ACLDirection,
        priority: i16,
        _match: String,
        action: ACLAction,
    ) -> (r: LogicalACLRecord)
        ensures
            r == (LogicalACLRecord { entity_name, _type, direction, priority, _match, action }),
    {
        LogicalACLRecord { entity_name, _type, direction, priority, _match, action }
    }

    /// An identical copy.
    pub fn duplicate(&self) -> (r: LogicalACLRecord)
        ensures
            r == *self,
    {
        LogicalACLRecord {
            entity_name: self.entity_name.clone(),
            _type: self._type,
            direction: self.direction,
            priority: self.priority,
            _match: self._match.clone(),
            action: self.action,
        }
    }
}

impl OvnCommand for LogicalACLRecord {
    open spec fn create_words(&self) -> Seq<Seq<char>> {
        acl_create_cmd(*self)
    }

    open spec fn destroy_words(&self) -> Seq<Seq<char>> {
        acl_destroy_cmd(*self)
    }

    /// The command that adds this record.
    fn create_command(&self) -> (r: Vec<String>) {
        let mut cmd: Vec<String> = Vec::new();
        cmd.push(owned("ovn-nbctl"));
        cmd.push(owned("--may-exist"));
        cmd.push(owned("acl-add"));
        cmd.push(self.entity_name.clone());
        cmd.push(self.direction.to_string());
        cmd.push(signed_decimal_string(self.priority as i64));
        cmd.push(self._match.clone());
        cmd.push(self.action.to_string());
        proof { assert(views(cmd@) =~= acl_create_cmd(*self)); }
        cmd
    }

    /// The command that deletes this record.
    fn destroy_command(&self) -> (r: Vec<String>) {
        let mut cmd: Vec<String> = Vec::new();
        cmd.push(owned("ovn-nbctl"));
        cmd.push(owned("acl-del"));
        cmd.push(self.entity_name.clone());
        cmd.push(self.direction.to_string());
        cmd.push(signed_decimal_string(self.priority as i64));
        cmd.push(self._match.clone());
        cmd.push(self.action.to_string());
        proof { assert(views(cmd@) =~= acl_destroy_cmd(*self)); }
        cmd
    }
}

} // verus!
