//! The OVN logical router, with its routes, external gateways and address translation rules.

use vstd::prelude::*;
use crate::ovn::OvnCommand;
use crate::ovn::configuration::external_gateway::OvnExternalGateway;
use crate::ovn::configuration::nat_rule::OvnNat;
use crate::ovn::configuration::route::OvnRoute;
use crate::text::{owned, views};

verus! {

/// The routes of a router, keyed by (router, prefix, next hop).
#[derive(Debug, Clone)]
pub struct RoutingMap(pub Vec<((String, String, String), OvnRoute)>);

impl RoutingMap {
    /// The entries after storing `value` under `key`: the entry with that key gets the new key
    /// and value in its place, or the pair is added at the end.
    pub open spec fn put(entries: Seq<((String, String, String), OvnRoute)>, key: (String, String, String), value: OvnRoute) -> Seq<((String, String, String), OvnRoute)> {
        if exists|i: int| 0 <= i < entries.len() && Self::key_view(#[trigger] entries[i].0) == Self::key_view(key) {
            entries.map_values(|e: ((String, String, String), OvnRoute)| if Self::key_view(e.0) == Self::key_view(key) { (key, value) } else { e })
        } else {
            entries.push((key, value))
        }
    }

    /// The plain values of a key.
    pub open spec fn key_view(k: (String, String, String)) -> (Seq<char>, Seq<char>, Seq<char>) {
        (k.0@, k.1@, k.2@)
    }

    /// No key occurs twice.
    pub open spec fn wf(self) -> bool {
        forall|i: int, j: int|
            0 <= i < j < self.0@.len() ==> Self::key_view(#[trigger] self.0@[i].0) != Self::key_view(
                #[trigger] self.0@[j].0,
            )
    }

    /// Whether some entry has this key.
    pub open spec fn has_key(self, k: (Seq<char>, Seq<char>, Seq<char>)) -> bool {
        exists|i: int| 0 <= i < self.0@.len() && Self::key_view(#[trigger] self.0@[i].0) == k
    }

    /// An empty map.
    pub fn new() -> (r: RoutingMap)
        ensures
            r.0@ == Seq::<((String, String, String), OvnRoute)>::empty(),
            r.wf(),
    {
        RoutingMap(Vec::new())
    }

    /// Whether two keys are the same.
    fn same_key(a: &(String, String, String), b: &(String, String, String)) -> (r: bool)
        ensures
            r == (Self::key_view(*a) == Self::key_view(*b)),
    {
        a.0 == b.0 && a.1 == b.1 && a.2 == b.2
    }

    /// The position of the entry with the given key, if any.
    pub fn position(&self, key: &(String, String, String)) -> (r: Option<usize>)
        requires
            self.wf(),
        ensures
            r matches Some(i) ==> i < self.0@.len() && Self::key_view(self.0@[i as int].0) == Self::key_view(*key),
            r is None ==> !self.has_key(Self::key_view(*key)),
    {
        let mut i: usize = 0;
        while i < self.0.len()
            invariant
                i <= self.0@.len(),
                forall|j: int| 0 <= j < i ==> Self::key_view(#[trigger] self.0@[j].0) != Self::key_view(*key),
            decreases self.0@.len() - i,
        {
            if Self::same_key(&self.0[i].0, key) {
                return Some(i);
            }
            i = i + 1;
        }
        None
    }

    /// The value stored under a key, if any.
    pub fn get(&self, key: &(String, String, String)) -> (r: Option<&OvnRoute>)
        requires
            self.wf(),
        ensures
            r matches Some(v) ==> exists|i: int| 0 <= i < self.0@.len() && Self::key_view(self.0@[i].0)
                == Self::key_view(*key) && self.0@[i].1 == *v,
            r is None ==> !self.has_key(Self::key_view(*key)),
    {
        match self.position(key) {
            Some(i) => Some(&self.0[i].1),
            None => None,
        }
    }

    /// Stores a value under a key, replacing the value already stored under it.
    pub fn insert(&mut self, key: (String, String, String), value: OvnRoute)
        requires
            old(self).wf(),
        ensures
            final(self).wf(),
            final(self).0@ == Self::put(old(self).0@, key, value),
            old(self).has_key(Self::key_view(key)) ==> final(self).0@.len() == old(self).0@.len()
                && forall|j: int|
                0 <= j < old(self).0@.len() ==> #[trigger] final(self).0@[j] == if Self::key_view(
                    old(self).0@[j].0,
                ) == Self::key_view(key) {
                    (key, value)
                } else {
                    old(self).0@[j]
                },
            !old(self).has_key(Self::key_view(key)) ==> final(self).0@ == old(self).0@.push((key, value)),
    {
        match self.position(&key) {
            Some(i) => {
                let ghost k = key;
                self.0.set(i, (key, value));
                proof {
                    assert forall|j: int| 0 <= j < old(self).0@.len() implies #[trigger] self.0@[j] == if Self::key_view(
                        old(self).0@[j].0,
                    ) == Self::key_view(k) {
                        (k, value)
                    } else {
                        old(self).0@[j]
                    } by {
                        if j != i && Self::key_view(old(self).0@[j].0) == Self::key_view(k) {
                            if j < i {
                                assert(Self::key_view(old(self).0@[j].0) != Self::key_view(old(self).0@[i as int].0));
                            } else {
                                assert(Self::key_view(old(self).0@[i as int].0) != Self::key_view(old(self).0@[j].0));
                            }
                        }
                    }
                    assert(Self::key_view(old(self).0@[i as int].0) == Self::key_view(k));
                    assert(self.0@ =~= Self::put(old(self).0@, k, value));
                }
            },
            None => {
                let ghost k = key;
                self.0.push((key, value));
                proof {
                    assert(!old(self).has_key(Self::key_view(k)));
                    assert(self.0@ =~= Self::put(old(self).0@, k, value));
                    assert forall|i: int, j: int|
                        0 <= i < j < self.0@.len() implies Self::key_view(#[trigger] self.0@[i].0) != Self::key_view(
                        #[trigger] self.0@[j].0) by {
                        if j == self.0@.len() - 1 {
                            assert(self.0@[i] == old(self).0@[i]);
                        } else {
                            assert(self.0@[i] == old(self).0@[i]);
                            assert(self.0@[j] == old(self).0@[j]);
                        }
                    }
                }
            },
        }
    }

    /// An identical copy.
    pub fn duplicate(&self) -> (r: RoutingMap)
        ensures
            r.0@ == self.0@,
    {
        let mut v: Vec<((String, String, String), OvnRoute)> = Vec::new();
        let mut i: usize = 0;
        while i < self.0.len()
            invariant
                i <= self.0@.len(),
                v@ == self.0@.subrange(0, i as int),
            decreases self.0@.len() - i,
        {
            let e = &self.0[i];
            v.push(((e.0.0.clone(), e.0.1.clone(), e.0.2.clone()), e.1.duplicate()));
            i = i + 1;
            proof { assert(v@ =~= self.0@.subrange(0, i as int)); }
        }
        proof { assert(v@ =~= self.0@); }
        RoutingMap(v)
    }
}

/// The external gateways of a router, keyed by (router port, chassis).
#[derive(Debug, Clone)]
pub struct ExternalGatewayMap(pub Vec<((String, String), OvnExternalGateway)>);

impl ExternalGatewayMap {
    /// The entries after storing `value` under `key`: the entry with that key gets the new key
    /// and value in its place, or the pair is added at the end.
    pub open spec fn put(entries: Seq<((String, String), OvnExternalGateway)>, key: (String, String), value: OvnExternalGateway) -> Seq<((String, String), OvnExternalGateway)> {
        if exists|i: int| 0 <= i < entries.len() && Self::key_view(#[trigger] entries[i].0) == Self::key_view(key) {
            entries.map_values(|e: ((String, String), OvnExternalGateway)| if Self::key_view(e.0) == Self::key_view(key) { (key, value) } else { e })
        } else {
            entries.push((key, value))
        }
    }

    /// The plain values of a key.
    pub open spec fn key_view(k: (String, String)) -> (Seq<char>, Seq<char>) {
        (k.0@, k.1@)
    }

    /// No key occurs twice.
    pub open spec fn wf(self) -> bool {
        forall|i: int, j: int|
            0 <= i < j < self.0@.len() ==> Self::key_view(#[trigger] self.0@[i].0) != Self::key_view(
                #[trigger] self.0@[j].0,
            )
    }

    /// Whether some entry has this key.
    pub open spec fn has_key(self, k: (Seq<char>, Seq<char>)) -> bool {
        exists|i: int| 0 <= i < self.0@.len() && Self::key_view(#[trigger] self.0@[i].0) == k
    }

    /// An empty map.
    pub fn new() -> (r: ExternalGatewayMap)
        ensures
            r.0@ == Seq::<((String, String), OvnExternalGateway)>::empty(),
            r.wf(),
    {
        ExternalGatewayMap(Vec::new())
    }

    /// Whether two keys are the same.
    fn same_key(a: &(String, String), b: &(String, String)) -> (r: bool)
        ensures
            r == (Self::key_view(*a) == Self::key_view(*b)),
    {
        a.0 == b.0 && a.1 == b.1
    }

    /// The position of the entry with the given key, if any.
    pub fn position(&self, key: &(String, String)) -> (r: Option<usize>)
        requires
            self.wf(),
        ensures
            r matches Some(i) ==> i < self.0@.len() && Self::key_view(self.0@[i as int].0) == Self::key_view(*key),
            r is None ==> !self.has_key(Self::key_view(*key)),
    {
        let mut i: usize = 0;
        while i < self.0.len()
            invariant
                i <= self.0@.len(),
                forall|j: int| 0 <= j < i ==> Self::key_view(#[trigger] self.0@[j].0) != Self::key_view(*key),
            decreases self.0@.len() - i,
        {
            if Self::same_key(&self.0[i].0, key) {
                return Some(i);
            }
            i = i + 1;
        }
        None
    }

    /// The value stored under a key, if any.
    pub fn get(&self, key: &(String, String)) -> (r: Option<&OvnExternalGateway>)
        requires
            self.wf(),
        ensures
            r matches Some(v) ==> exists|i: int| 0 <= i < self.0@.len() && Self::key_view(self.0@[i].0)
                == Self::key_view(*key) && self.0@[i].1 == *v,
            r is None ==> !self.has_key(Self::key_view(*key)),
    {
        match self.position(key) {
            Some(i) => Some(&self.0[i].1),
            None => None,
        }
    }

    /// Stores a value under a key, replacing the value already stored under it.
    pub fn insert(&mut self, key: (String, String), value: OvnExternalGateway)
        requires
            old(self).wf(),
        ensures
            final(self).wf(),
            final(self).0@ == Self::put(old(self).0@, key, value),
            old(self).has_key(Self::key_view(key)) ==> final(self).0@.len() == old(self).0@.len()
                && forall|j: int|
                0 <= j < old(self).0@.len() ==> #[trigger] final(self).0@[j] == if Self::key_view(
                    old(self).0@[j].0,
                ) == Self::key_view(key) {
                    (key, value)
                } else {
                    old(self).0@[j]
                },
            !old(self).has_key(Self::key_view(key)) ==> final(self).0@ == old(self).0@.push((key, value)),
    {
        match self.position(&key) {
            Some(i) => {
                let ghost k = key;
                self.0.set(i, (key, value));
                proof {
                    assert forall|j: int| 0 <= j < old(self).0@.len() implies #[trigger] self.0@[j] == if Self::key_view(
                        old(self).0@[j].0,
                    ) == Self::key_view(k) {
                        (k, value)
                    } else {
                        old(self).0@[j]
                    } by {
                        if j != i && Self::key_view(old(self).0@[j].0) == Self::key_view(k) {
                            if j < i {
                                assert(Self::key_view(old(self).0@[j].0) != Self::key_view(old(self).0@[i as int].0));
                            } else {
                                assert(Self::key_view(old(self).0@[i as int].0) != Self::key_view(old(self).0@[j].0));
                            }
                        }
                    }
                    assert(Self::key_view(old(self).0@[i as int].0) == Self::key_view(k));
                    assert(self.0@ =~= Self::put(old(self).0@, k, value));
                }
            },
            None => {
                let ghost k = key;
                self.0.push((key, value));
                proof {
                    assert(!old(self).has_key(Self::key_view(k)));
                    assert(self.0@ =~= Self::put(old(self).0@, k, value));
                    assert forall|i: int, j: int|
                        0 <= i < j < self.0@.len() implies Self::key_view(#[trigger] self.0@[i].0) != Self::key_view(
                        #[trigger] self.0@[j].0) by {
                        if j == self.0@.len() - 1 {
                            assert(self.0@[i] == old(self).0@[i]);
                        } else {
                            assert(self.0@[i] == old(self).0@[i]);
                            assert(self.0@[j] == old(self).0@[j]);
                        }
                    }
                }
            },
        }
    }

    /// An identical copy.
    pub fn duplicate(&self) -> (r: ExternalGatewayMap)
        ensures
            r.0@ == self.0@,
    {
        let mut v: Vec<((String, String), OvnExternalGateway)> = Vec::new();
        let mut i: usize = 0;
        while i < self.0.len()
            invariant
                i <= self.0@.len(),
                v@ == self.0@.subrange(0, i as int),
            decreases self.0@.len() - i,
        {
            let e = &self.0[i];
            v.push(((e.0.0.clone(), e.0.1.clone()), e.1.duplicate()));
            i = i + 1;
            proof { assert(v@ =~= self.0@.subrange(0, i as int)); }
        }
        proof { assert(v@ =~= self.0@); }
        ExternalGatewayMap(v)
    }
}

/// The address translation rules of a router, keyed by (router, kind, external address).
#[derive(Debug, Clone)]
pub struct NatMap(pub Vec<((String, String, String), OvnNat)>);

impl NatMap {
    /// The entries after storing `value` under `key`: the entry with that key gets the new key
    /// and value in its place, or the pair is added at the end.
    pub open spec fn put(entries: Seq<((String, String, String), OvnNat)>, key: (String, String, String), value: OvnNat) -> Seq<((String, String, String), OvnNat)> {
        if exists|i: int| 0 <= i < entries.len() && Self::key_view(#[trigger] entries[i].0) == Self::key_view(key) {
            entries.map_values(|e: ((String, String, String), OvnNat)| if Self::key_view(e.0) == Self::key_view(key) { (key, value) } else { e })
        } else {
            entries.push((key, value))
        }
    }

    /// The plain values of a key.
    pub open spec fn key_view(k: (String, String, String)) -> (Seq<char>, Seq<char>, Seq<char>) {
        (k.0@, k.1@, k.2@)
    }

    /// No key occurs twice.
    pub open spec fn wf(self) -> bool {
        forall|i: int, j: int|
            0 <= i < j < self.0@.len() ==> Self::key_view(#[trigger] self.0@[i].0) != Self::key_view(
                #[trigger] self.0@[j].0,
            )
    }

    /// Whether some entry has this key.
    pub open spec fn has_key(self, k: (Seq<char>, Seq<char>, Seq<char>)) -> bool {
        exists|i: int| 0 <= i < self.0@.len() && Self::key_view(#[trigger] self.0@[i].0) == k
    }

    /// An empty map.
    pub fn new() -> (r: NatMap)
        ensures
            r.0@ == Seq::<((String, String, String), OvnNat)>::empty(),
            r.wf(),
    {
        NatMap(Vec::new())
    }

    /// Whether two keys are the same.
    fn same_key(a: &(String, String, String), b: &(String, String, String)) -> (r: bool)
        ensures
            r == (Self::key_view(*a) == Self::key_view(*b)),
    {
        a.0 == b.0 && a.1 == b.1 && a.2 == b.2
    }

    /// The position of the entry with the given key, if any.
    pub fn position(&self, key: &(String, String, String)) -> (r: Option<usize>)
        requires
            self.wf(),
        ensures
            r matches Some(i) ==> i < self.0@.len() && Self::key_view(self.0@[i as int].0) == Self::key_view(*key),
            r is None ==> !self.has_key(Self::key_view(*key)),
    {
        let mut i: usize = 0;
        while i < self.0.len()
            invariant
                i <= self.0@.len(),
                forall|j: int| 0 <= j < i ==> Self::key_view(#[trigger] self.0@[j].0) != Self::key_view(*key),
            decreases self.0@.len() - i,
        {
            if Self::same_key(&self.0[i].0, key) {
                return Some(i);
            }
            i = i + 1;
        }
        None
    }

    /// The value stored under a key, if any.
    pub fn get(&self, key: &(String, String, String)) -> (r: Option<&OvnNat>)
        requires
            self.wf(),
        ensures
            r matches Some(v) ==> exists|i: int| 0 <= i < self.0@.len() && Self::key_view(self.0@[i].0)
                == Self::key_view(*key) && self.0@[i].1 == *v,
            r is None ==> !self.has_key(Self::key_view(*key)),
    {
        match self.position(key) {
            Some(i) => Some(&self.0[i].1),
            None => None,
        }
    }

    /// Stores a value under a key, replacing the value already stored under it.
    pub fn insert(&mut self, key: (String, String, String), value: OvnNat)
        requires
            old(self).wf(),
        ensures
            final(self).wf(),
            final(self).0@ == Self::put(old(self).0@, key, value),
            old(self).has_key(Self::key_view(key)) ==> final(self).0@.len() == old(self).0@.len()
                && forall|j: int|
                0 <= j < old(self).0@.len() ==> #[trigger] final(self).0@[j] == if Self::key_view(
                    old(self).0@[j].0,
                ) == Self::key_view(key) {
                    (key, value)
                } else {
                    old(self).0@[j]
                },
            !old(self).has_key(Self::key_view(key)) ==> final(self).0@ == old(self).0@.push((key, value)),
    {
        match self.position(&key) {
            Some(i) => {
                let ghost k = key;
                self.0.set(i, (key, value));
                proof {
                    assert forall|j: int| 0 <= j < old(self).0@.len() implies #[trigger] self.0@[j] == if Self::key_view(
                        old(self).0@[j].0,
                    ) == Self::key_view(k) {
                        (k, value)
                    } else {
                        old(self).0@[j]
                    } by {
                        if j != i && Self::key_view(old(self).0@[j].0) == Self::key_view(k) {
                            if j < i {
                                assert(Self::key_view(old(self).0@[j].0) != Self::key_view(old(self).0@[i as int].0));
                            } else {
                                assert(Self::key_view(old(self).0@[i as int].0) != Self::key_view(old(self).0@[j].0));
                            }
                        }
                    }
                    assert(Self::key_view(old(self).0@[i as int].0) == Self::key_view(k));
                    assert(self.0@ =~= Self::put(old(self).0@, k, value));
                }
            },
            None => {
                let ghost k = key;
                self.0.push((key, value));
                proof {
                    assert(!old(self).has_key(Self::key_view(k)));
                    assert(self.0@ =~= Self::put(old(self).0@, k, value));
                    assert forall|i: int, j: int|
                        0 <= i < j < self.0@.len() implies Self::key_view(#[trigger] self.0@[i].0) != Self::key_view(
                        #[trigger] self.0@[j].0) by {
                        if j == self.0@.len() - 1 {
                            assert(self.0@[i] == old(self).0@[i]);
                        } else {
                            assert(self.0@[i] == old(self).0@[i]);
                            assert(self.0@[j] == old(self).0@[j]);
                        }
                    }
                }
            },
        }
    }

    /// An identical copy.
    pub fn duplicate(&self) -> (r: NatMap)
        ensures
            r.0@ == self.0@,
    {
        let mut v: Vec<((String, String, String), OvnNat)> = Vec::new();
        let mut i: usize = 0;
        while i < self.0.len()
            invariant
                i <= self.0@.len(),
                v@ == self.0@.subrange(0, i as int),
            decreases self.0@.len() - i,
        {
            let e = &self.0[i];
            v.push(((e.0.0.clone(), e.0.1.clone(), e.0.2.clone()), e.1.duplicate()));
            i = i + 1;
            proof { assert(v@ =~= self.0@.subrange(0, i as int)); }
        }
        proof { assert(v@ =~= self.0@); }
        NatMap(v)
    }
}

/// An OVN logical router with its optional routes, gateways and translation rules.
#[derive(Debug, Clone)]
pub struct LogicalRouter {
    pub name: String,
    pub routing: RoutingMap,
    pub external_gateway: ExternalGatewayMap,
    pub nat: NatMap,
}

/// The command that creates a router.
pub open spec fn router_create_cmd(name: Seq<char>) -> Seq<Seq<char>> {
    seq!["ovn-nbctl"@, "--may-exist"@, "lr-add"@, name]
}

/// The command that deletes a router.
pub open spec fn router_destroy_cmd(name: Seq<char>) -> Seq<Seq<char>> {
    seq!["ovn-nbctl"@, "lr-del"@, name]
}

impl LogicalRouter {
    /// Its maps have no repeated key.
    pub open spec fn wf(self) -> bool {
        self.routing.wf() && self.external_gateway.wf() && self.nat.wf()
    }

    /// A router with no routes, gateways or translation rules.
    pub fn new(name: String) -> (r: LogicalRouter)
        ensures
            r.name == name,
            r.routing.0@.len() == 0,
            r.external_gateway.0@.len() == 0,
            r.nat.0@.len() == 0,
            r.wf(),
    {
        LogicalRouter {
            name,
            routing: RoutingMap::new(),
            external_gateway: ExternalGatewayMap::new(),
            nat: NatMap::new(),
        }
    }

    /// Whether two routers hold the same values.
    pub open spec fn same_as(self, other: LogicalRouter) -> bool {
        self.name == other.name && self.routing.0@ == other.routing.0@ && self.external_gateway.0@
            == other.external_gateway.0@ && self.nat.0@ == other.nat.0@
    }

    /// An identical copy.
    pub fn duplicate(&self) -> (r: LogicalRouter)
        ensures
            r.same_as(*self),
    {
        LogicalRouter {
            name: self.name.clone(),
            routing: self.routing.duplicate(),
            external_gateway: self.external_gateway.duplicate(),
            nat: self.nat.duplicate(),
        }
    }
}

impl OvnCommand for LogicalRouter {
    open spec fn create_words(&self) -> Seq<Seq<char>> {
        router_create_cmd(self.name@)
    }

    open spec fn destroy_words(&self) -> Seq<Seq<char>> {
        router_destroy_cmd(self.name@)
    }

    /// The command that creates this router.
    fn create_command(&self) -> (r: Vec<String>) {
        let mut cmd: Vec<String> = Vec::new();
        cmd.push(owned("ovn-nbctl"));
        cmd.push(owned("--may-exist"));
        cmd.push(owned("lr-add"));
        cmd.push(self.name.clone());
        proof { assert(views(cmd@) =~= router_create_cmd(self.name@)); }
        cmd
    }

    /// The command that deletes this router.
    fn destroy_command(&self) -> (r: Vec<String>) {
        let mut cmd: Vec<String> = Vec::new();
        cmd.push(owned("ovn-nbctl"));
        cmd.push(owned("lr-del"));
        cmd.push(self.name.clone());
        proof { assert(views(cmd@) =~= router_destroy_cmd(self.name@)); }
        cmd
    }
}

} // verus!
