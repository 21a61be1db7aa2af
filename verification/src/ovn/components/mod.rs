//! Addresses shared by the OVN components: MAC addresses and the IP forms a port can carry.

pub mod logical_switch;
pub mod logical_router;
pub mod chassis;
pub mod logical_switch_port;
pub mod logical_router_port;
pub mod ovs;
pub mod acl;

use vstd::prelude::*;
use vstd::string::*;
use crate::ip_addr::{IpAddr, ip_text, ip_debug};
use crate::text::{decimal, digit_char, hex_byte, push_char, push_decimal, push_hex_byte, push_str, owned, chars_of};

verus! {

/// The parts of a string between its `:` separators (as `str::split(":")`, always at least one).
pub open spec fn split_colon(s: Seq<char>) -> Seq<Seq<char>>
    decreases s.len(),
{
    if s.len() == 0 {
        seq![Seq::<char>::empty()]
    } else {
        let p = split_colon(s.drop_last());
        if s.last() == ':' {
            p.push(Seq::<char>::empty())
        } else {
            p.update(p.len() - 1, p.last().push(s.last()))
        }
    }
}

/// Splitting always yields at least one part.
pub proof fn lemma_split_colon_nonempty(s: Seq<char>)
    ensures
        split_colon(s).len() >= 1,
    decreases s.len(),
{
    if s.len() > 0 {
        lemma_split_colon_nonempty(s.drop_last());
    }
}

/// The value of a hexadecimal digit (either case).
pub open spec fn hex_value(c: char) -> Option<nat> {
    if '0' <= c <= '9' {
        Some((c as nat - '0' as nat) as nat)
    } else if 'a' <= c <= 'f' {
        Some((c as nat - 'a' as nat + 10) as nat)
    } else if 'A' <= c <= 'F' {
        Some((c as nat - 'A' as nat + 10) as nat)
    } else {
        None
    }
}

/// Whether every character is a hexadecimal digit.
pub open spec fn all_hex(d: Seq<char>) -> bool {
    forall|i: int| 0 <= i < d.len() ==> (#[trigger] hex_value(d[i])) is Some
}

/// The number written by a string of hexadecimal digits.
pub open spec fn hex_number(d: Seq<char>) -> nat
    decreases d.len(),
{
    if d.len() == 0 {
        0
    } else {
        hex_number(d.drop_last()) * 16 + hex_value(d.last())->0
    }
}

/// The byte that `u8::from_str_radix(part, 16)` reads from a string: an optional leading `+`
/// followed by at least one hexadecimal digit, of value at most 255.
pub open spec fn parse_octet(p: Seq<char>) -> Option<u8> {
    let d = if p.len() > 0 && p[0] == '+' { p.drop_first() } else { p };
    if d.len() == 0 || !all_hex(d) {
        None
    } else if hex_number(d) <= 255 {
        Some(hex_number(d) as u8)
    } else {
        None
    }
}

/// Whether every part reads as a byte.
pub open spec fn all_parse(parts: Seq<Seq<char>>) -> bool {
    forall|i: int| 0 <= i < parts.len() ==> (#[trigger] parse_octet(parts[i])) is Some
}

/// The bytes read from each part.
pub open spec fn parsed_octets(parts: Seq<Seq<char>>) -> Seq<u8> {
    parts.map_values(|p: Seq<char>| parse_octet(p)->0)
}

/// The big-endian number formed by a sequence of bytes.
pub open spec fn octets_value(os: Seq<u8>) -> nat
    decreases os.len(),
{
    if os.len() == 0 {
        0
    } else {
        octets_value(os.drop_last()) * 256 + os.last() as nat
    }
}

/// The length in bytes of the UTF-8 encoding of a string.
pub open spec fn byte_len(s: Seq<char>) -> nat {
    vstd::utf8::encode_utf8(s).len()
}

/// Whether every part is two bytes long, as the MAC address check requires.
pub open spec fn octets_two_bytes(parts: Seq<Seq<char>>) -> bool {
    forall|i: int| 0 <= i < parts.len() ==> byte_len(#[trigger] parts[i]) == 2
}

/// Why a MAC address was refused.
#[derive(Debug, Clone, Copy, PartialEq, Eq)]
pub enum MacAddressError {
    /// The address is `00:00:00:00:00:00`.
    AllZero,
    /// A part between the colons is not two bytes long.
    OctetLength,
    /// The address does not have six parts.
    NotSixOctets,
    /// The number is zero in its low 48 bits.
    ZeroNumber,
    /// A part between the colons is not a hexadecimal byte.
    NotHexadecimal,
}

/// What [`MacAddress::get_mac_as_bytes`] gives for an address: an error unless it has six parts
/// that all read as hexadecimal bytes, otherwise the 48-bit number they spell.
pub open spec fn mac_bytes_result(a: Seq<char>) -> Result<u64, MacAddressError> {
    let parts = split_colon(a);
    if parts.len() != 6 {
        Err(MacAddressError::NotSixOctets)
    } else if !all_parse(parts) {
        Err(MacAddressError::NotHexadecimal)
    } else {
        Ok(octets_value(parsed_octets(parts)) as u64)
    }
}

/// What [`MacAddress::new`] gives for an address: `router` is accepted with no number; the
/// all-zero address is refused; otherwise every part must be two bytes long and there must be
/// six of them, each a hexadecimal byte, and the number is the one they spell.
pub open spec fn mac_new_result(a: Seq<char>) -> Result<Option<u64>, MacAddressError> {
    if a == "router"@ {
        Ok(None)
    } else if a == "00:00:00:00:00:00"@ {
        Err(MacAddressError::AllZero)
    } else if !octets_two_bytes(split_colon(a)) {
        Err(MacAddressError::OctetLength)
    } else {
        match mac_bytes_result(a) {
            Ok(v) => Ok(Some(v)),
            Err(e) => Err(e),
        }
    }
}

/// The text of a 48-bit number as a MAC address: six two-digit lowercase hexadecimal bytes,
/// most significant first, separated by colons.
pub open spec fn mac_text(n: nat) -> Seq<char> {
    hex_byte(((n / 0x10000000000) % 256) as u8) + seq![':'] + hex_byte(((n / 0x100000000) % 256) as u8)
        + seq![':'] + hex_byte(((n / 0x1000000) % 256) as u8) + seq![':'] + hex_byte(
        ((n / 0x10000) % 256) as u8,
    ) + seq![':'] + hex_byte(((n / 0x100) % 256) as u8) + seq![':'] + hex_byte((n % 256) as u8)
}

/// A MAC address as written in the configuration, with the 48-bit number it spells (none for
/// the placeholder `router`).
#[derive(Debug, Clone, PartialEq, Eq, Hash)]
pub struct MacAddress {
    pub address: String,
    pub as_bytes: Option<u64>,
}

/// The ranges of the parts of `a` between its colons.
fn split_ranges(a: &Vec<char>) -> (r: Vec<(usize, usize)>)
    ensures
        r@.len() == split_colon(a@).len(),
        forall|k: int|
            0 <= k < r@.len() ==> {
                &&& (#[trigger] r@[k]).0 <= r@[k].1 <= a@.len()
                &&& a@.subrange(r@[k].0 as int, r@[k].1 as int) == split_colon(a@)[k]
            },
{
    let mut done: Vec<(usize, usize)> = Vec::new();
    let mut cs: usize = 0;
    let mut i: usize = 0;
    while i < a.len()
        invariant
            cs <= i <= a@.len(),
            split_colon(a@.subrange(0, i as int)).len() == done@.len() + 1,
            forall|k: int|
                0 <= k < done@.len() ==> {
                    &&& (#[trigger] done@[k]).0 <= done@[k].1 <= i
                    &&& a@.subrange(done@[k].0 as int, done@[k].1 as int) == split_colon(
                        a@.subrange(0, i as int),
                    )[k]
                },
            split_colon(a@.subrange(0, i as int)).last() == a@.subrange(cs as int, i as int),
        decreases a@.len() - i,
    {
        let ghost pre = a@.subrange(0, i as int);
        proof {
            assert(a@.subrange(0, i + 1).drop_last() =~= pre);
            assert(a@.subrange(0, i + 1).last() == a@[i as int]);
        }
        if a[i] == ':' {
            done.push((cs, i));
            cs = i + 1;
            proof {
                assert(a@.subrange(cs as int, i + 1) =~= Seq::<char>::empty());
            }
        } else {
            proof {
                assert(a@.subrange(cs as int, i + 1) =~= a@.subrange(cs as int, i as int).push(a@[i as int]));
            }
        }
        i = i + 1;
    }
    done.push((cs, i));
    proof {
        assert(a@.subrange(0, a@.len() as int) =~= a@);
    }
    done
}

/// Reads the characters `p[lo..hi]` as `u8::from_str_radix(.., 16)` does.
fn parse_octet_chars(p: &Vec<char>, lo: usize, hi: usize) -> (r: Option<u8>)
    requires
        lo <= hi <= p@.len(),
    ensures
        r == parse_octet(p@.subrange(lo as int, hi as int)),
{
    let ghost whole = p@.subrange(lo as int, hi as int);
    let mut start = lo;
    if lo < hi && p[lo] == '+' {
        start = lo + 1;
    }
    let ghost d = p@.subrange(start as int, hi as int);
    proof {
        if lo < hi && p@[lo as int] == '+' {
            assert(whole[0] == p@[lo as int]);
            assert(whole.drop_first() =~= d);
        } else {
            if lo < hi {
                assert(whole[0] == p@[lo as int]);
            }
            assert(whole =~= d);
        }
        assert(d == (if whole.len() > 0 && whole[0] == '+' { whole.drop_first() } else { whole }));
    }
    if start == hi {
        return None;
    }
    // the value read so far, capped at 256
    let mut v: u64 = 0;
    let mut i = start;
    while i < hi
        invariant
            lo <= start <= i <= hi <= p@.len(),
            d == p@.subrange(start as int, hi as int),
            whole == p@.subrange(lo as int, hi as int),
            d == (if whole.len() > 0 && whole[0] == '+' { whole.drop_first() } else { whole }),
            all_hex(p@.subrange(start as int, i as int)),
            v == if hex_number(p@.subrange(start as int, i as int)) < 256 {
                hex_number(p@.subrange(start as int, i as int))
            } else {
                256
            },
        decreases hi - i,
    {
        let c = p[i];
        let ghost pre = p@.subrange(start as int, i as int);
        let ghost nxt = p@.subrange(start as int, i + 1);
        proof {
            assert(nxt.drop_last() =~= pre);
            assert(nxt.last() == c);
        }
        let dv: u64 = if '0' <= c && c <= '9' {
            (c as u64) - ('0' as u64)
        } else if 'a' <= c && c <= 'f' {
            (c as u64) - ('a' as u64) + 10
        } else if 'A' <= c && c <= 'F' {
            (c as u64) - ('A' as u64) + 10
        } else {
            proof {
                assert(!all_hex(d)) by {
                    assert(d[i - start] == c);
                    assert(hex_value(d[i - start]) is None);
                }
                assert(parse_octet(whole) is None);
            }
            return None;
        };
        proof {
            assert(hex_value(c) == Some(dv as nat));
            assert forall|j: int| 0 <= j < nxt.len() implies (#[trigger] hex_value(nxt[j])) is Some by {
                if j < pre.len() {
                    assert(nxt[j] == pre[j]);
                }
            }
        }
        if v >= 256 {
            v = 256;
        } else {
            v = v * 16 + dv;
            if v > 256 {
                v = 256;
            }
        }
        i = i + 1;
    }
    proof {
        assert(p@.subrange(start as int, hi as int) =~= d);
    }
    if v <= 255 {
        Some(v as u8)
    } else {
        None
    }
}

/// The number of bytes UTF-8 uses for one character.
pub(crate) fn utf8_width(c: char) -> (n: u64)
    ensures
        n == vstd::utf8::encode_scalar(c as u32).len(),
        1 <= n <= 4,
{
    proof { vstd::utf8::char_is_scalar(c); }
    let v = c as u32;
    proof { assert(v <= 0x10FFFF); }
    if v <= 0x7F {
        1
    } else if v <= 0x7FF {
        2
    } else if v <= 0xFFFF {
        3
    } else {
        4
    }
}

/// Whether the UTF-8 encoding of `a[lo..hi]` is two bytes long.
fn utf8_len_is_two(a: &Vec<char>, lo: usize, hi: usize) -> (b: bool)
    requires
        lo <= hi <= a@.len(),
    ensures
        b == (byte_len(a@.subrange(lo as int, hi as int)) == 2),
{
    // the byte count so far, capped at 3
    let mut n: u64 = 0;
    let mut i = hi;
    while i > lo
        invariant
            lo <= i <= hi <= a@.len(),
            n == if byte_len(a@.subrange(i as int, hi as int)) < 3 {
                byte_len(a@.subrange(i as int, hi as int))
            } else {
                3
            },
        decreases i - lo,
    {
        let ghost rest = a@.subrange(i as int, hi as int);
        let ghost more = a@.subrange(i - 1, hi as int);
        proof {
            assert(more.drop_first() =~= rest);
            assert(more[0] == a@[i - 1]);
        }
        let w = utf8_width(a[i - 1]);
        n = if n + w > 3 { 3 } else { n + w };
        i = i - 1;
    }
    n == 2
}

/// Whether the string equals a literal.
fn is_literal(s: &String, lit: &str) -> (b: bool)
    ensures
        b == (s@ == lit@),
{
    let l = owned(lit);
    *s == l
}

/// Whether a text has no colon.
pub open spec fn no_colon(t: Seq<char>) -> bool {
    forall|i: int| 0 <= i < t.len() ==> t[i] != ':'
}

/// Characters without a colon extend the last part.
proof fn lemma_split_colon_tail(a: Seq<char>, t: Seq<char>)
    requires
        no_colon(t),
    ensures
        split_colon(a + t) == split_colon(a).update(split_colon(a).len() - 1, split_colon(a).last() + t),
    decreases t.len(),
{
    lemma_split_colon_nonempty(a);
    let p = split_colon(a);
    if t.len() == 0 {
        assert(a + t =~= a);
        assert(p.last() + t =~= p.last());
        assert(p.update(p.len() - 1, p.last()) =~= p);
    } else {
        let s = a + t;
        assert(s.drop_last() =~= a + t.drop_last());
        assert(s.last() == t.last());
        lemma_split_colon_tail(a, t.drop_last());
        let q = split_colon(a + t.drop_last());
        assert(q.last() == p.last() + t.drop_last());
        assert(q.last().push(t.last()) =~= p.last() + t);
        assert(q.update(q.len() - 1, q.last().push(t.last())) =~= p.update(p.len() - 1, p.last() + t));
    }
}

/// A colon followed by characters without a colon starts a new last part.
proof fn lemma_split_colon_part(a: Seq<char>, t: Seq<char>)
    requires
        no_colon(t),
    ensures
        split_colon(a + seq![':'] + t) == split_colon(a).push(t),
{
    let b = a + seq![':'];
    assert(b.drop_last() =~= a);
    lemma_split_colon_tail(b, t);
    let p = split_colon(a).push(Seq::<char>::empty());
    assert(Seq::<char>::empty() + t =~= t);
    assert(p.update(p.len() - 1, t) =~= split_colon(a).push(t));
}

/// A text without a colon is one part.
proof fn lemma_split_colon_single(t: Seq<char>)
    requires
        no_colon(t),
    ensures
        split_colon(t) == seq![t],
{
    lemma_split_colon_tail(Seq::<char>::empty(), t);
    assert(Seq::<char>::empty() + t =~= t);
    assert(seq![Seq::<char>::empty()].update(0, Seq::<char>::empty() + t) =~= seq![t]);
}

/// A digit written by [`digit_char`] reads back as its value.
proof fn lemma_digit_reads_back(d: nat)
    requires
        d < 16,
    ensures
        hex_value(digit_char(d)) == Some(d),
        digit_char(d) != ':',
        crate::packet_capture::is_alphanumeric(digit_char(d)),
{
}

/// The two digits of a byte read back as the byte, and take two bytes of UTF-8.
proof fn lemma_hex_byte_reads_back(b: u8)
    ensures
        parse_octet(hex_byte(b)) == Some(b),
        no_colon(hex_byte(b)),
        byte_len(hex_byte(b)) == 2,
{
    let h = hex_byte(b);
    lemma_digit_reads_back((b / 16) as nat);
    lemma_digit_reads_back((b % 16) as nat);
    assert(h[0] != '+');
    assert(all_hex(h));
    assert(h.drop_last() =~= seq![h[0]]);
    assert(seq![h[0]].drop_last() =~= Seq::<char>::empty());
    assert(hex_number(Seq::<char>::empty()) == 0);
    assert(hex_number(seq![h[0]]) == (b / 16) as nat);
    assert(hex_number(h) == hex_number(seq![h[0]]) * 16 + (b % 16) as nat);
    assert(hex_number(h) == b);
    crate::packet_capture::lemma_alphanumeric_bytes(h);
}

/// Six bytes taken from a number, most significant first, spell its low 48 bits.
proof fn lemma_six_bytes(n: u64, b0: u64, b1: u64, b2: u64, b3: u64, b4: u64, b5: u64)
    by (bit_vector)
    requires
        b0 == (n / 0x10000000000) % 256,
        b1 == (n / 0x100000000) % 256,
        b2 == (n / 0x1000000) % 256,
        b3 == (n / 0x10000) % 256,
        b4 == (n / 0x100) % 256,
        b5 == n % 256,
    ensures
        ((((b0 * 256 + b1) * 256 + b2) * 256 + b3) * 256 + b4) * 256 + b5 == n % 0x1000000000000,
{
}

/// The number spelled by six bytes, most significant first.
proof fn lemma_octets_six(b0: u8, b1: u8, b2: u8, b3: u8, b4: u8, b5: u8)
    ensures
        octets_value(seq![b0, b1, b2, b3, b4, b5]) == ((((b0 * 256 + b1) * 256 + b2) * 256 + b3) * 256 + b4) * 256 + b5,
{
    assert(seq![b0, b1, b2, b3, b4, b5].drop_last() =~= seq![b0, b1, b2, b3, b4]);
    assert(seq![b0, b1, b2, b3, b4].drop_last() =~= seq![b0, b1, b2, b3]);
    assert(seq![b0, b1, b2, b3].drop_last() =~= seq![b0, b1, b2]);
    assert(seq![b0, b1, b2].drop_last() =~= seq![b0, b1]);
    assert(seq![b0, b1].drop_last() =~= seq![b0]);
    assert(seq![b0].drop_last() =~= Seq::<u8>::empty());
    assert(octets_value(Seq::<u8>::empty()) == 0);
    assert(octets_value(seq![b0]) == b0);
    assert(octets_value(seq![b0, b1]) == b0 * 256 + b1);
    assert(octets_value(seq![b0, b1, b2]) == (b0 * 256 + b1) * 256 + b2);
    assert(octets_value(seq![b0, b1, b2, b3]) == ((b0 * 256 + b1) * 256 + b2) * 256 + b3);
    assert(octets_value(seq![b0, b1, b2, b3, b4]) == (((b0 * 256 + b1) * 256 + b2) * 256 + b3) * 256 + b4);
}

/// Six two-digit parts joined by colons split back into those parts, each read as its byte.
proof fn lemma_six_parts(b0: u8, b1: u8, b2: u8, b3: u8, b4: u8, b5: u8)
    ensures
        ({
            let c = seq![':'];
            let t = hex_byte(b0) + c + hex_byte(b1) + c + hex_byte(b2) + c + hex_byte(b3) + c + hex_byte(b4) + c + hex_byte(b5);
            &&& split_colon(t).len() == 6
            &&& all_parse(split_colon(t))
            &&& octets_two_bytes(split_colon(t))
            &&& parsed_octets(split_colon(t)) == seq![b0, b1, b2, b3, b4, b5]
        }),
{
    let (h0, h1, h2, h3, h4, h5) = (hex_byte(b0), hex_byte(b1), hex_byte(b2), hex_byte(b3), hex_byte(b4), hex_byte(b5));
    lemma_hex_byte_reads_back(b0);
    lemma_hex_byte_reads_back(b1);
    lemma_hex_byte_reads_back(b2);
    lemma_hex_byte_reads_back(b3);
    lemma_hex_byte_reads_back(b4);
    lemma_hex_byte_reads_back(b5);
    let c = seq![':'];
    lemma_split_colon_single(h0);
    lemma_split_colon_part(h0, h1);
    lemma_split_colon_part(h0 + c + h1, h2);
    lemma_split_colon_part(h0 + c + h1 + c + h2, h3);
    lemma_split_colon_part(h0 + c + h1 + c + h2 + c + h3, h4);
    lemma_split_colon_part(h0 + c + h1 + c + h2 + c + h3 + c + h4, h5);
    let parts = split_colon(h0 + c + h1 + c + h2 + c + h3 + c + h4 + c + h5);
    assert(parts =~= seq![h0, h1, h2, h3, h4, h5]);
    assert(parsed_octets(parts) =~= seq![b0, b1, b2, b3, b4, b5]);
}

/// The text of a number splits into six two-digit parts that read back as its low 48 bits.
proof fn lemma_mac_text_value(n: u64)
    ensures
        split_colon(mac_text(n as nat)).len() == 6,
        all_parse(split_colon(mac_text(n as nat))),
        octets_two_bytes(split_colon(mac_text(n as nat))),
        mac_bytes_result(mac_text(n as nat)) == Ok::<u64, MacAddressError>((n % 0x1000000000000) as u64),
{
    let m = n as nat;
    let b0 = ((m / 0x10000000000) % 256) as u8;
    let b1 = ((m / 0x100000000) % 256) as u8;
    let b2 = ((m / 0x1000000) % 256) as u8;
    let b3 = ((m / 0x10000) % 256) as u8;
    let b4 = ((m / 0x100) % 256) as u8;
    let b5 = (m % 256) as u8;
    lemma_six_parts(b0, b1, b2, b3, b4, b5);
    lemma_octets_six(b0, b1, b2, b3, b4, b5);
    lemma_six_bytes(n, b0 as u64, b1 as u64, b2 as u64, b3 as u64, b4 as u64, b5 as u64);
}

/// Reading back the text of a number gives the number: [`MacAddress::new`] on the address that
/// [`MacAddress::from_u64`] writes for `n` accepts it with the low 48 bits of `n`, the number
/// `from_u64` records.
pub proof fn law_mac_text_reads_back(n: u64)
    requires
        n % 0x1000000000000 != 0,
    ensures
        mac_new_result(mac_text(n as nat)) == Ok::<Option<u64>, MacAddressError>(Some((n % 0x1000000000000) as u64)),
{
    lemma_mac_text_value(n);
    reveal_strlit("router");
    assert(mac_text(n as nat) != "router"@) by {
        assert(mac_text(n as nat).len() == 17);
    }
    assert(mac_text(n as nat) != "00:00:00:00:00:00"@) by {
        reveal_strlit("00:00:00:00:00:00");
        lemma_mac_text_value(0);
        assert(mac_text(0) =~= "00:00:00:00:00:00"@);
    }
}

impl MacAddress {
    /// Checks and reads a MAC address written as text. The placeholder `router` is accepted
    /// without a number.
    pub fn new(address: String) -> (r: Result<MacAddress, MacAddressError>)
        ensures
            match (r, mac_new_result(address@)) {
                (Ok(m), Ok(v)) => m.address@ == address@ && m.as_bytes == v,
                (Err(e), Err(f)) => e == f,
                _ => false,
            },
    {
        if is_literal(&address, "router") {
            return Ok(MacAddress { address, as_bytes: None });
        }
        if is_literal(&address, "00:00:00:00:00:00") {
            return Err(MacAddressError::AllZero);
        }
        if !validate_mac(&address) {
            return Err(MacAddressError::OctetLength);
        }
        match Self::get_mac_as_bytes(&address) {
            Ok(v) => Ok(MacAddress { address, as_bytes: Some(v) }),
            Err(e) => Err(e),
        }
    }

    /// Reads the six colon-separated hexadecimal bytes of an address as a 48-bit number; refuses an
    /// address with another number of parts, or with a part that is not a hexadecimal byte.
    pub fn get_mac_as_bytes(address: &String) -> (r: Result<u64, MacAddressError>)
        ensures
            r == mac_bytes_result(address@),
    {
        let a = chars_of(address.as_str());
        let ranges = split_ranges(&a);
        if ranges.len() != 6 {
            return Err(MacAddressError::NotSixOctets);
        }
        let ghost parts = split_colon(address@);
        let mut value: u64 = 0;
        let mut k: usize = 0;
        while k < 6
            invariant
                k <= 6,
                a@ == address@,
                parts == split_colon(address@),
                parts.len() == 6,
                ranges@.len() == 6,
                forall|j: int| 0 <= j < k ==> (#[trigger] parse_octet(parts[j])) is Some,
                forall|j: int|
                    0 <= j < ranges@.len() ==> {
                        &&& (#[trigger] ranges@[j]).0 <= ranges@[j].1 <= a@.len()
                        &&& a@.subrange(ranges@[j].0 as int, ranges@[j].1 as int) == parts[j]
                    },
                value == octets_value(parsed_octets(parts.subrange(0, k as int))),
                value < pow256(k as nat),
            decreases 6 - k,
        {
            let (lo, hi) = ranges[k];
            let o = parse_octet_chars(&a, lo, hi);
            if o.is_none() {
                proof { assert(!all_parse(parts)); }
                return Err(MacAddressError::NotHexadecimal);
            }
            proof {
                assert(parse_octet(parts[k as int]) is Some);
                assert(parsed_octets(parts.subrange(0, k + 1)).drop_last() =~= parsed_octets(parts.subrange(0, k as int)));
                assert(parsed_octets(parts.subrange(0, k + 1)).last() == parse_octet(parts[k as int])->0);
                assert(pow256((k + 1) as nat) == pow256(k as nat) * 256);
                lemma_pow256_le(k as nat);
            }
            let b = match o { Some(b) => b, None => 0 };
            value = value * 256 + b as u64;
            k = k + 1;
        }
        proof {
            assert(parts.subrange(0, 6) =~= parts);
            assert(all_parse(parts));
        }
        Ok(value)
    }

    /// Reads six parts as bytes.
    pub fn get_octets(address: Vec<&str>) -> (r: [u8; 6])
        requires
            address@.len() == 6,
            forall|i: int| 0 <= i < 6 ==> (#[trigger] parse_octet(address@[i]@)) is Some,
        ensures
            forall|i: int| 0 <= i < 6 ==> r@[i] == parse_octet(address@[i]@)->0,
    {
        let mut out: Vec<u8> = Vec::new();
        let mut i: usize = 0;
        while i < 6
            invariant
                i <= 6,
                address@.len() == 6,
                forall|j: int| 0 <= j < 6 ==> (#[trigger] parse_octet(address@[j]@)) is Some,
                out@.len() == i,
                forall|j: int| 0 <= j < i ==> out@[j] == parse_octet(address@[j]@)->0,
            decreases 6 - i,
        {
            let cs = chars_of(address[i]);
            proof { assert(cs@.subrange(0, cs@.len() as int) =~= cs@); }
            let o = parse_octet_chars(&cs, 0, cs.len());
            let b = match o { Some(b) => b, None => 0 };
            out.push(b);
            i = i + 1;
        }
        let r = [out[0], out[1], out[2], out[3], out[4], out[5]];
        proof {
            assert forall|i: int| 0 <= i < 6 implies r@[i] == parse_octet(address@[i]@)->0 by {
                assert(r@[i] == out@[i]);
            }
        }
        r
    }

    /// Builds the address for a number, from its low 48 bits. Zero in those bits is refused.
    pub fn from_u64(num: u64) -> (r: Result<MacAddress, MacAddressError>)
        ensures
            num == 0 ==> r == Err::<MacAddress, MacAddressError>(MacAddressError::ZeroNumber),
            num != 0 && num % 0x1000000000000 == 0 ==> r == Err::<MacAddress, MacAddressError>(
                MacAddressError::AllZero,
            ),
            num % 0x1000000000000 != 0 ==> (r matches Ok(m) && m.address@ == mac_text(num as nat)
                && m.as_bytes == Some((num % 0x1000000000000) as u64)),
    {
        if num == 0 {
            return Err(MacAddressError::ZeroNumber);
        }
        let low = num % 0x1000000000000;
        if low == 0 {
            return Err(MacAddressError::AllZero);
        }
        let mut s = String::new();
        push_hex_byte(&mut s, ((num / 0x10000000000) % 256) as u8);
        push_char(&mut s, ':');
        push_hex_byte(&mut s, ((num / 0x100000000) % 256) as u8);
        push_char(&mut s, ':');
        push_hex_byte(&mut s, ((num / 0x1000000) % 256) as u8);
        push_char(&mut s, ':');
        push_hex_byte(&mut s, ((num / 0x10000) % 256) as u8);
        push_char(&mut s, ':');
        push_hex_byte(&mut s, ((num / 0x100) % 256) as u8);
        push_char(&mut s, ':');
        push_hex_byte(&mut s, (num % 256) as u8);
        proof { assert(s@ =~= mac_text(num as nat)); }
        Ok(MacAddress { address: s, as_bytes: Some(low) })
    }

    /// An identical copy.
    pub fn duplicate(&self) -> (r: MacAddress)
        ensures
            r == *self,
    {
        MacAddress { address: self.address.clone(), as_bytes: self.as_bytes }
    }

    /// The address as written.
    pub fn get_string(&self) -> (r: String)
        ensures
            r@ == self.address@,
    {
        self.address.clone()
    }
}

/// 256 to the power `k`.
pub open spec fn pow256(k: nat) -> nat
    decreases k,
{
    if k == 0 { 1 } else { pow256((k - 1) as nat) * 256 }
}

proof fn lemma_pow256_le(k: nat)
    requires
        k < 6,
    ensures
        pow256(k) * 256 <= 0x1000000000000,
{
    reveal_with_fuel(pow256, 7);
    assert(pow256(6) == 0x1000000000000);
}

/// Checks that every part between the colons is two bytes long.
pub fn validate_mac(mac: &String) -> (ok: bool)
    ensures
        ok == octets_two_bytes(split_colon(mac@)),
{
    let a = chars_of(mac.as_str());
    let ranges = split_ranges(&a);
    let ghost parts = split_colon(mac@);
    let mut k: usize = 0;
    while k < ranges.len()
        invariant
            k <= ranges@.len(),
            a@ == mac@,
            parts == split_colon(mac@),
            ranges@.len() == parts.len(),
            forall|j: int|
                0 <= j < ranges@.len() ==> {
                    &&& (#[trigger] ranges@[j]).0 <= ranges@[j].1 <= a@.len()
                    &&& a@.subrange(ranges@[j].0 as int, ranges@[j].1 as int) == parts[j]
                },
            forall|j: int| 0 <= j < k ==> byte_len(#[trigger] parts[j]) == 2,
        decreases ranges@.len() - k,
    {
        let (lo, hi) = ranges[k];
        if !utf8_len_is_two(&a, lo, hi) {
            return false;
        }
        k = k + 1;
    }
    true
}

/// The address a port is given: a plain IP address, a dynamic one handed out by DHCP, or an
/// address with its subnet mask.
#[derive(Debug, Clone, Copy, PartialEq, Eq, Hash)]
pub enum OvnIpAddr {
    Ip(IpAddr),
    Dynamic,
    Subnet { ip: IpAddr, mask: u16 },
}

/// Textual form of a port address: the IP address, `dynamic`, or `ip/mask`.
pub open spec fn ovn_ip_text(a: OvnIpAddr) -> Seq<char> {
    match a {
        OvnIpAddr::Ip(ip) => ip_text(ip),
        OvnIpAddr::Dynamic => "dynamic"@,
        OvnIpAddr::Subnet { ip, mask } => ip_text(ip) + seq!['/'] + decimal(mask as nat),
    }
}

/// The text `{:?}` gives for a port address, variant by variant.
pub open spec fn ovn_ip_debug(a: OvnIpAddr) -> Seq<char> {
    match a {
        OvnIpAddr::Ip(ip) => "Ip("@ + ip_debug(ip) + ")"@,
        OvnIpAddr::Dynamic => "Dynamic"@,
        OvnIpAddr::Subnet { ip, mask } => "Subnet { ip: "@ + ip_debug(ip) + ", mask: "@ + decimal(mask as nat) + " }"@,
    }
}

impl OvnIpAddr {
    /// The text `{:?}` gives, see [`ovn_ip_debug`].
    pub fn to_debug_string(&self) -> (r: String)
        ensures
            r@ == ovn_ip_debug(*self),
    {
        let mut s = String::new();
        match self {
            OvnIpAddr::Ip(ip) => {
                push_str(&mut s, "Ip(");
                let t = ip.to_debug_string();
                push_str(&mut s, t.as_str());
                push_str(&mut s, ")");
            },
            OvnIpAddr::Dynamic => push_str(&mut s, "Dynamic"),
            OvnIpAddr::Subnet { ip, mask } => {
                push_str(&mut s, "Subnet { ip: ");
                let t = ip.to_debug_string();
                push_str(&mut s, t.as_str());
                push_str(&mut s, ", mask: ");
                push_decimal(&mut s, *mask as u64);
                push_str(&mut s, " }");
            },
        }
        proof { assert(s@ =~= ovn_ip_debug(*self)); }
        s
    }

    /// Textual form, see [`ovn_ip_text`].
    pub fn to_string(&self) -> (r: String)
        ensures
            r@ == ovn_ip_text(*self),
    {
        match self {
            OvnIpAddr::Ip(ip) => ip.to_string(),
            OvnIpAddr::Dynamic => owned("dynamic"),
            OvnIpAddr::Subnet { ip, mask } => {
                let mut s = ip.to_string();
                push_char(&mut s, '/');
                push_decimal(&mut s, *mask as u64);
                s
            },
        }
    }

    /// Whether two port addresses are the same.
    pub fn same(&self, other: &OvnIpAddr) -> (b: bool)
        ensures
            b == (*self == *other),
    {
        match (self, other) {
            (OvnIpAddr::Ip(a), OvnIpAddr::Ip(b)) => a.same(b),
            (OvnIpAddr::Dynamic, OvnIpAddr::Dynamic) => true,
            (OvnIpAddr::Subnet { ip: a, mask: m }, OvnIpAddr::Subnet { ip: b, mask: n }) => {
                *m == *n && a.same(b)
            },
            _ => false,
        }
    }
}

} // verus!
