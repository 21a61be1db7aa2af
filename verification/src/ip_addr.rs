//! IP addresses of the testbed's logical network and their textual form, as the network tools
//! expect it (dotted decimal for IPv4, RFC 5952 style compressed hexadecimal for IPv6).

use vstd::prelude::*;
use crate::text::{decimal, hex, push_char, push_decimal, push_hex, push_str};

verus! {

broadcast use vstd::array::group_array_axioms;

/// An IPv4 address, held as its four octets.
#[derive(Debug, Clone, Copy, PartialEq, Eq, Hash)]
pub struct Ipv4Addr {
    pub octets: [u8; 4],
}

/// An IPv6 address, held as its eight 16-bit segments.
#[derive(Debug, Clone, Copy, PartialEq, Eq, Hash)]
pub struct Ipv6Addr {
    pub segments: [u16; 8],
}

/// An IP address of either family.
#[derive(Debug, Clone, Copy, PartialEq, Eq, Hash)]
pub enum IpAddr {
    V4(Ipv4Addr),
    V6(Ipv6Addr),
}

/// Dotted decimal notation of four octets.
pub open spec fn ipv4_text(o: Seq<u8>) -> Seq<char> {
    decimal(o[0] as nat) + seq!['.'] + decimal(o[1] as nat) + seq!['.'] + decimal(o[2] as nat)
        + seq!['.'] + decimal(o[3] as nat)
}

/// Segments in lowercase hexadecimal, separated by colons.
pub open spec fn segments_text(s: Seq<u16>) -> Seq<char>
    decreases s.len(),
{
    if s.len() == 0 {
        Seq::empty()
    } else if s.len() == 1 {
        hex(s[0] as nat)
    } else {
        segments_text(s.drop_last()) + seq![':'] + hex(s.last() as nat)
    }
}

/// Scans segments from the left and keeps the first longest run of zero segments seen so far,
/// together with the run of zeros that ends at the last segment. The result is
/// (longest start, longest length, current start, current length).
pub open spec fn zero_scan(s: Seq<u16>) -> (nat, nat, nat, nat)
    decreases s.len(),
{
    if s.len() == 0 {
        (0, 0, 0, 0)
    } else {
        let (ls, ll, cs, cl) = zero_scan(s.drop_last());
        let i = (s.len() - 1) as nat;
        if s.last() == 0 {
            let ncs = if cl == 0 { i } else { cs };
            let ncl = cl + 1;
            if ncl > ll { (ncs, ncl, ncs, ncl) } else { (ls, ll, ncs, ncl) }
        } else {
            (ls, ll, 0, 0)
        }
    }
}

/// Whether the eight segments form an IPv4-mapped address `::ffff:a.b.c.d`.
pub open spec fn is_ipv4_mapped(s: Seq<u16>) -> bool {
    s[0] == 0 && s[1] == 0 && s[2] == 0 && s[3] == 0 && s[4] == 0 && s[5] == 0xffff
}

/// The octets of the IPv4 address embedded in the last two segments.
pub open spec fn mapped_octets(s: Seq<u16>) -> Seq<u8> {
    seq![(s[6] / 256) as u8, (s[6] % 256) as u8, (s[7] / 256) as u8, (s[7] % 256) as u8]
}

/// Textual form of an IPv6 address: IPv4-mapped addresses as `::ffff:` followed by the dotted
/// IPv4 address; otherwise the first longest run of at least two zero segments is replaced by
/// `::`, and all other segments are written in lowercase hexadecimal separated by colons.
pub open spec fn ipv6_text(s: Seq<u16>) -> Seq<char> {
    if is_ipv4_mapped(s) {
        seq![':', ':', 'f', 'f', 'f', 'f', ':'] + ipv4_text(mapped_octets(s))
    } else {
        let (ls, ll, cs, cl) = zero_scan(s);
        if ll > 1 {
            segments_text(s.subrange(0, ls as int)) + seq![':', ':'] + segments_text(
                s.subrange((ls + ll) as int, s.len() as int),
            )
        } else {
            segments_text(s)
        }
    }
}

/// Textual form of an address of either family.
pub open spec fn ip_text(ip: IpAddr) -> Seq<char> {
    match ip {
        IpAddr::V4(v4) => ipv4_text(v4.octets@),
        IpAddr::V6(v6) => ipv6_text(v6.segments@),
    }
}

/// The text `{:?}` gives for an address: the family's variant around its textual form.
pub open spec fn ip_debug(ip: IpAddr) -> Seq<char> {
    match ip {
        IpAddr::V4(_) => "V4("@ + ip_text(ip) + ")"@,
        IpAddr::V6(_) => "V6("@ + ip_text(ip) + ")"@,
    }
}

/// The longest zero run found by the scan lies inside the address and holds only zeros.
proof fn lemma_zero_scan_bounds(s: Seq<u16>)
    ensures
        ({
            let (ls, ll, cs, cl) = zero_scan(s);
            &&& ls + ll <= s.len()
            &&& cs + cl == s.len() || cl == 0
            &&& cl <= ll
        }),
    decreases s.len(),
{
    if s.len() > 0 {
        lemma_zero_scan_bounds(s.drop_last());
    }
}

impl Ipv4Addr {
    /// The address `a.b.c.d`.
    pub fn new(a: u8, b: u8, c: u8, d: u8) -> (r: Ipv4Addr)
        ensures
            r.octets@ == seq![a, b, c, d],
    {
        let r = Ipv4Addr { octets: [a, b, c, d] };
        proof { assert(r.octets@ =~= seq![a, b, c, d]); }
        r
    }

    /// Whether two addresses are the same.
    pub fn same(&self, other: &Ipv4Addr) -> (b: bool)
        ensures
            b == (self@ == other@),
    {
        let r = self.octets[0] == other.octets[0] && self.octets[1] == other.octets[1]
            && self.octets[2] == other.octets[2] && self.octets[3] == other.octets[3];
        proof {
            if r { assert(self.octets@ =~= other.octets@); }
        }
        r
    }

    /// Dotted decimal notation.
    pub fn to_string(&self) -> (r: String)
        ensures
            r@ == ipv4_text(self.octets@),
    {
        let mut s = String::new();
        push_ipv4(&mut s, self.octets[0], self.octets[1], self.octets[2], self.octets[3]);
        proof { assert(s@ =~= ipv4_text(self.octets@)); }
        s
    }
}

impl View for Ipv4Addr {
    type V = Seq<u8>;

    open spec fn view(&self) -> Seq<u8> {
        self.octets@
    }
}

impl View for Ipv6Addr {
    type V = Seq<u16>;

    open spec fn view(&self) -> Seq<u16> {
        self.segments@
    }
}

/// Appends the dotted decimal notation of four octets.
fn push_ipv4(s: &mut String, a: u8, b: u8, c: u8, d: u8)
    ensures
        final(s)@ == old(s)@ + ipv4_text(seq![a, b, c, d]),
{
    push_decimal(s, a as u64);
    push_char(s, '.');
    push_decimal(s, b as u64);
    push_char(s, '.');
    push_decimal(s, c as u64);
    push_char(s, '.');
    push_decimal(s, d as u64);
    proof { assert(final(s)@ =~= old(s)@ + ipv4_text(seq![a, b, c, d])); }
}

/// Appends the segments `seg[lo..hi]` in hexadecimal, separated by colons.
fn push_segments(s: &mut String, seg: &[u16; 8], lo: usize, hi: usize)
    requires
        lo <= hi <= 8,
    ensures
        final(s)@ == old(s)@ + segments_text(seg@.subrange(lo as int, hi as int)),
{
    let mut i = lo;
    while i < hi
        invariant
            lo <= i <= hi <= 8,
            seg@.len() == 8,
            s@ == old(s)@ + segments_text(seg@.subrange(lo as int, i as int)),
        decreases hi - i,
    {
        proof {
            assert(seg@.subrange(lo as int, i + 1).drop_last() =~= seg@.subrange(lo as int, i as int));
        }
        if i > lo {
            push_char(s, ':');
        }
        push_hex(s, seg[i] as u64);
        i = i + 1;
        proof {
            let t = seg@.subrange(lo as int, i as int);
            if i - 1 == lo {
                assert(t =~= seq![seg@[lo as int]]);
            }
        }
    }
}

impl Ipv6Addr {
    /// The address with the given eight segments.
    pub fn new(a: u16, b: u16, c: u16, d: u16, e: u16, f: u16, g: u16, h: u16) -> (r: Ipv6Addr)
        ensures
            r.segments@ == seq![a, b, c, d, e, f, g, h],
    {
        let r = Ipv6Addr { segments: [a, b, c, d, e, f, g, h] };
        proof { assert(r.segments@ =~= seq![a, b, c, d, e, f, g, h]); }
        r
    }

    /// Whether two addresses are the same.
    pub fn same(&self, other: &Ipv6Addr) -> (b: bool)
        ensures
            b == (self@ == other@),
    {
        let mut i: usize = 0;
        while i < 8
            invariant
                i <= 8,
                self.segments@.len() == 8,
                other.segments@.len() == 8,
                forall|j: int| 0 <= j < i ==> self.segments@[j] == other.segments@[j],
            decreases 8 - i,
        {
            if self.segments[i] != other.segments[i] {
                return false;
            }
            i = i + 1;
        }
        proof { assert(self.segments@ =~= other.segments@); }
        true
    }

    /// Compressed textual form, see [`ipv6_text`].
    pub fn to_string(&self) -> (r: String)
        ensures
            r@ == ipv6_text(self.segments@),
    {
        let seg = &self.segments;
        let ghost sv = seg@;
        let mut s = String::new();
        if seg[0] == 0 && seg[1] == 0 && seg[2] == 0 && seg[3] == 0 && seg[4] == 0 && seg[5] == 0xffff {
            push_str(&mut s, "::ffff:");
            proof { reveal_strlit("::ffff:"); }
            push_ipv4(&mut s, (seg[6] / 256) as u8, (seg[6] % 256) as u8, (seg[7] / 256) as u8, (seg[7] % 256) as u8);
            proof {
                assert(mapped_octets(sv) =~= seq![(seg[6] / 256) as u8, (seg[6] % 256) as u8, (seg[7] / 256) as u8, (seg[7] % 256) as u8]);
                assert(s@ =~= ipv6_text(sv));
            }
            return s;
        }
        // find the first longest run of zero segments
        let mut ls: usize = 0;
        let mut ll: usize = 0;
        let mut cs: usize = 0;
        let mut cl: usize = 0;
        let mut i: usize = 0;
        while i < 8
            invariant
                i <= 8,
                sv.len() == 8,
                sv == seg@,
                (ls as nat, ll as nat, cs as nat, cl as nat) == zero_scan(sv.subrange(0, i as int)),
            decreases 8 - i,
        {
            proof {
                lemma_zero_scan_bounds(sv.subrange(0, i as int));
                assert(sv.subrange(0, i + 1).drop_last() =~= sv.subrange(0, i as int));
            }
            if seg[i] == 0 {
                if cl == 0 {
                    cs = i;
                }
                cl = cl + 1;
                if cl > ll {
                    ls = cs;
                    ll = cl;
                }
            } else {
                cs = 0;
                cl = 0;
            }
            i = i + 1;
        }
        proof {
            assert(sv.subrange(0, 8) =~= sv);
            lemma_zero_scan_bounds(sv);
        }
        if ll > 1 {
            push_segments(&mut s, seg, 0, ls);
            push_char(&mut s, ':');
            push_char(&mut s, ':');
            push_segments(&mut s, seg, ls + ll, 8);
            proof { assert(s@ =~= ipv6_text(sv)); }
        } else {
            push_segments(&mut s, seg, 0, 8);
            proof { assert(s@ =~= ipv6_text(sv)); }
        }
        s
    }
}

impl IpAddr {
    /// Whether two addresses are the same.
    pub fn same(&self, other: &IpAddr) -> (b: bool)
        ensures
            b == (*self == *other),
    {
        match (self, other) {
            (IpAddr::V4(a), IpAddr::V4(b)) => {
                let r = a.same(b);
                proof { if r { assert(a.octets =~= b.octets); } }
                r
            },
            (IpAddr::V6(a), IpAddr::V6(b)) => {
                let r = a.same(b);
                proof { if r { assert(a.segments =~= b.segments); } }
                r
            },
            _ => false,
        }
    }

    /// Textual form, see [`ip_text`].
    pub fn to_string(&self) -> (r: String)
        ensures
            r@ == ip_text(*self),
    {
        match self {
            IpAddr::V4(a) => a.to_string(),
            IpAddr::V6(a) => a.to_string(),
        }
    }

    /// The text `{:?}` gives, see [`ip_debug`].
    pub fn to_debug_string(&self) -> (r: String)
        ensures
            r@ == ip_debug(*self),
    {
        let mut s = String::new();
        match self {
            IpAddr::V4(_) => push_str(&mut s, "V4("),
            IpAddr::V6(_) => push_str(&mut s, "V6("),
        }
        let t = self.to_string();
        push_str(&mut s, t.as_str());
        push_str(&mut s, ")");
        proof { assert(s@ =~= ip_debug(*self)); }
        s
    }
}

} // verus!
