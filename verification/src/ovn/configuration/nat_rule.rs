//! Network address translation rules of logical routers.

use vstd::prelude::*;
use crate::ovn::OvnCommand;
use crate::ovn::components::{OvnIpAddr, ovn_ip_text};
use crate::text::{owned, views};

verus! {

/// The kind of address translation.
#[derive(Debug, Clone, Copy, PartialEq, Eq)]
pub enum OvnNatType {
    SNat,
    DnatSNat,
}

/// The name OVN uses for a kind of translation.
pub open spec fn nat_type_text(t: OvnNatType) -> Seq<char> {
    match t {
        OvnNatType::SNat => "snat"@,
        OvnNatType::DnatSNat => "dnat_and_snat"@,
    }
}

/// The text `{:?}` gives for a kind of translation: the variant's name.
pub open spec fn nat_type_debug(t: OvnNatType) -> Seq<char> {
    match t {
        OvnNatType::SNat => "SNat"@,
        OvnNatType::DnatSNat => "DnatSNat"@,
    }
}

impl OvnNatType {
    /// The text `{:?}` gives, see [`nat_type_debug`].
    pub fn to_debug_string(&self) -> (r: String)
        ensures
            r@ == nat_type_debug(*self),
    {
        match self {
            OvnNatType::SNat => owned("SNat"),
            OvnNatType::DnatSNat => owned("DnatSNat"),
        }
    }

    /// The name OVN uses for this kind of translation.
    pub fn to_string(&self) -> (r: String)
        ensures
            r@ == nat_type_text(*self),
    {
        match self {
            OvnNatType::SNat => owned("snat"),
            OvnNatType::DnatSNat => owned("dnat_and_snat"),
        }
    }
}

/// An address translation rule of a logical router.
#[derive(Debug, Clone)]
pub struct OvnNat {
    pub logical_router_name: String,
    /// Must be a plain IP address.
    pub external_ip: OvnIpAddr,
    /// A plain IP address or a subnet.
    pub logical_ip: OvnIpAddr,
    pub nat_type: OvnNatType,
}

/// Why a translation rule was refused.
#[derive(Debug, Clone, Copy, PartialEq, Eq)]
pub enum OvnNatError {
    /// An address is dynamic.
    DynamicIp,
    /// The external address is a subnet.
    SubnetIp,
}

/// What [`OvnNat::new`] decides for the two addresses: the external address must be a plain
/// address and the logical one must not be dynamic.
pub open spec fn nat_check(external_ip: OvnIpAddr, logical_ip: OvnIpAddr) -> Result<(), OvnNatError> {
    match external_ip {
        OvnIpAddr::Dynamic => Err(OvnNatError::DynamicIp),
        OvnIpAddr::Subnet { .. } => Err(OvnNatError::SubnetIp),
        OvnIpAddr::Ip(_) => match logical_ip {
            OvnIpAddr::Dynamic => Err(OvnNatError::DynamicIp),
            _ => Ok(()),
        },
    }
}

/// The command that adds a translation rule.
pub open spec fn nat_create_cmd(n: OvnNat) -> Seq<Seq<char>> {
    seq![
        "ovn-nbctl"@, "--may-exist"@, "lr-nat-add"@, n.logical_router_name@,
        nat_type_text(n.nat_type), ovn_ip_text(n.external_ip), ovn_ip_text(n.logical_ip),
    ]
}

/// The command that deletes a translation rule.
pub open spec fn nat_destroy_cmd(n: OvnNat) -> Seq<Seq<char>> {
    seq![
        "ovn-nbctl"@, "lr-nat-del"@, n.logical_router_name@, nat_type_text(n.nat_type),
        ovn_ip_text(n.external_ip),
    ]
}

impl OvnNat {
    /// A translation rule, after checking its addresses (see [`nat_check`]).
    pub fn new(
        logical_router_name: String,
        external_ip: OvnIpAddr,
        logical_ip: OvnIpAddr,
        nat_type: OvnNatType,
    ) -> (r: Result<OvnNat, OvnNatError>)
        ensures
            match (r, nat_check(external_ip, logical_ip)) {
                (Ok(n), Ok(_)) => n.logical_router_name == logical_router_name && n.external_ip
                    == external_ip && n.logical_ip == logical_ip && n.nat_type == nat_type,
                (Err(e), Err(f)) => e == f,
                _ => false,
            },
    {
        match external_ip {
            OvnIpAddr::Ip(_) => {},
            OvnIpAddr::Dynamic => { return Err(OvnNatError::DynamicIp); },
            OvnIpAddr::Subnet { .. } => { return Err(OvnNatError::SubnetIp); },
        }
        match logical_ip {
            OvnIpAddr::Dynamic => { return Err(OvnNatError::DynamicIp); },
            _ => {},
        }
        Ok(OvnNat { logical_router_name, external_ip, logical_ip, nat_type })
    }

    /// An identical copy.
    pub fn duplicate(&self) -> (r: OvnNat)
        ensures
            r == *self,
    {
        OvnNat {
            logical_router_name: self.logical_router_name.clone(),
            external_ip: self.external_ip,
            logical_ip: self.logical_ip,
            nat_type: self.nat_type,
        }
    }
}

impl OvnCommand for OvnNat {
    open spec fn create_words(&self) -> Seq<Seq<char>> {
        nat_create_cmd(*self)
    }

    open spec fn destroy_words(&self) -> Seq<Seq<char>> {
        nat_destroy_cmd(*self)
    }

    /// The command that adds this rule.
    fn create_command(&self) -> (r: Vec<String>) {
        let mut cmd: Vec<String> = Vec::new();
        cmd.push(owned("ovn-nbctl"));
        cmd.push(owned("--may-exist"));
        cmd.push(owned("lr-nat-add"));
        cmd.push(self.logical_router_name.clone());
        cmd.push(self.nat_type.to_string());
        cmd.push(self.external_ip.to_string());
        cmd.push(self.logical_ip.to_string());
        proof { assert(views(cmd@) =~= nat_create_cmd(*self)); }
        cmd
    }

    /// The command that deletes this rule.
    fn destroy_command(&self) -> (r: Vec<String>) {
        let mut cmd: Vec<String> = Vec::new();
        cmd.push(owned("ovn-nbctl"));
        cmd.push(owned("lr-nat-del"));
        cmd.push(self.logical_router_name.clone());
        cmd.push(self.nat_type.to_string());
        cmd.push(self.external_ip.to_string());
        proof { assert(views(cmd@) =~= nat_destroy_cmd(*self)); }
        cmd
    }
}

} // verus!
