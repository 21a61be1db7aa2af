//! Character-level helpers for building and inspecting strings, with their specifications.

use vstd::prelude::*;
use vstd::string::*;

verus! {

/// The lowercase hexadecimal digit for a value below sixteen.
pub open spec fn digit_char(d: nat) -> char {
    if d == 0 { '0' }
    else if d == 1 { '1' }
    else if d == 2 { '2' }
    else if d == 3 { '3' }
    else if d == 4 { '4' }
    else if d == 5 { '5' }
    else if d == 6 { '6' }
    else if d == 7 { '7' }
    else if d == 8 { '8' }
    else if d == 9 { '9' }
    else if d == 10 { 'a' }
    else if d == 11 { 'b' }
    else if d == 12 { 'c' }
    else if d == 13 { 'd' }
    else if d == 14 { 'e' }
    else { 'f' }
}

/// Decimal notation of a natural number, without leading zeros.
pub open spec fn decimal(n: nat) -> Seq<char>
    decreases n,
{
    if n < 10 {
        seq![digit_char(n)]
    } else {
        decimal(n / 10).push(digit_char(n % 10))
    }
}

/// Lowercase hexadecimal notation of a natural number, without leading zeros.
pub open spec fn hex(n: nat) -> Seq<char>
    decreases n,
{
    if n < 16 {
        seq![digit_char(n)]
    } else {
        hex(n / 16).push(digit_char(n % 16))
    }
}

/// Decimal notation of a signed integer, with a leading minus sign when negative.
pub open spec fn signed_decimal(n: int) -> Seq<char> {
    if n < 0 {
        seq!['-'] + decimal((-n) as nat)
    } else {
        decimal(n as nat)
    }
}

/// Two lowercase hexadecimal digits of a byte.
pub open spec fn hex_byte(b: u8) -> Seq<char> {
    seq![digit_char((b / 16) as nat), digit_char((b % 16) as nat)]
}

/// Appends one character to a string (`String::push`).
#[verifier::external_body]
pub(crate) fn push_char(s: &mut String, c: char)
    ensures
        final(s)@ == old(s)@.push(c),
{
    s.push(c);
}

/// The digit character for a value below sixteen.
pub fn digit(d: u8) -> (c: char)
    requires
        d < 16,
    ensures
        c == digit_char(d as nat),
{
    if d == 0 { '0' }
    else if d == 1 { '1' }
    else if d == 2 { '2' }
    else if d == 3 { '3' }
    else if d == 4 { '4' }
    else if d == 5 { '5' }
    else if d == 6 { '6' }
    else if d == 7 { '7' }
    else if d == 8 { '8' }
    else if d == 9 { '9' }
    else if d == 10 { 'a' }
    else if d == 11 { 'b' }
    else if d == 12 { 'c' }
    else if d == 13 { 'd' }
    else if d == 14 { 'e' }
    else { 'f' }
}

/// Appends the decimal notation of `n`.
pub fn push_decimal(s: &mut String, n: u64)
    ensures
        final(s)@ == old(s)@ + decimal(n as nat),
    decreases n,
{
    if n >= 10 {
        push_decimal(s, n / 10);
    }
    let d = (n % 10) as u8;
    push_char(s, digit(d));
    proof {
        assert(old(s)@ + decimal(n as nat) =~= if n >= 10 {
            (old(s)@ + decimal((n / 10) as nat)).push(digit_char((n % 10) as nat))
        } else {
            old(s)@.push(digit_char(n as nat))
        });
    }
}

/// Appends the lowercase hexadecimal notation of `n`.
pub fn push_hex(s: &mut String, n: u64)
    ensures
        final(s)@ == old(s)@ + hex(n as nat),
    decreases n,
{
    if n >= 16 {
        push_hex(s, n / 16);
    }
    let d = (n % 16) as u8;
    push_char(s, digit(d));
    proof {
        assert(old(s)@ + hex(n as nat) =~= if n >= 16 {
            (old(s)@ + hex((n / 16) as nat)).push(digit_char((n % 16) as nat))
        } else {
            old(s)@.push(digit_char(n as nat))
        });
    }
}

/// Decimal notation of an unsigned integer as a new string.
pub fn decimal_string(n: u64) -> (r: String)
    ensures
        r@ == decimal(n as nat),
{
    let mut s = String::new();
    push_decimal(&mut s, n);
    proof { assert(s@ =~= decimal(n as nat)); }
    s
}

/// Decimal notation of a signed integer as a new string.
pub fn signed_decimal_string(n: i64) -> (r: String)
    ensures
        r@ == signed_decimal(n as int),
{
    let mut s = String::new();
    if n < 0 {
        push_char(&mut s, '-');
        let m: u64 = if n == i64::MIN { 9223372036854775808u64 } else { (-n) as u64 };
        push_decimal(&mut s, m);
        proof { assert(s@ =~= signed_decimal(n as int)); }
    } else {
        push_decimal(&mut s, n as u64);
        proof { assert(s@ =~= signed_decimal(n as int)); }
    }
    s
}

/// Appends the two lowercase hexadecimal digits of a byte.
pub fn push_hex_byte(s: &mut String, b: u8)
    ensures
        final(s)@ == old(s)@ + hex_byte(b),
{
    push_char(s, digit(b / 16));
    push_char(s, digit(b % 16));
    proof { assert(final(s)@ =~= old(s)@ + hex_byte(b)); }
}

/// A new string holding the characters of a string slice.
pub fn owned(s: &str) -> (r: String)
    ensures
        r@ == s@,
{
    String::from_str(s)
}

/// Appends a string slice.
pub fn push_str(s: &mut String, t: &str)
    ensures
        final(s)@ == old(s)@ + t@,
{
    s.append(t);
}

/// The characters of a string slice, one by one.
pub fn chars_of(s: &str) -> (r: Vec<char>)
    ensures
        r@ == s@,
{
    let n = s.unicode_len();
    let mut r: Vec<char> = Vec::new();
    let mut i: usize = 0;
    while i < n
        invariant
            n == s@.len(),
            i <= n,
            r@ == s@.subrange(0, i as int),
        decreases n - i,
    {
        let c = s.get_char(i);
        r.push(c);
        i = i + 1;
        proof { assert(r@ =~= s@.subrange(0, i as int)); }
    }
    proof { assert(r@ =~= s@); }
    r
}

/// Whether `p` occurs in `s` at `start`.
pub fn matches_at(s: &Vec<char>, p: &Vec<char>, start: usize) -> (b: bool)
    requires
        start + p@.len() <= s@.len(),
    ensures
        b == (s@.subrange(start as int, start + p@.len()) == p@),
{
    let n = s.len();
    let mut k: usize = 0;
    while k < p.len()
        invariant
            start + p@.len() <= s@.len(),
            n == s@.len(),
            k <= p@.len(),
            forall|j: int| 0 <= j < k ==> s@[start + j] == p@[j],
        decreases p@.len() - k,
    {
        if s[start + k] != p[k] {
            proof { assert(s@.subrange(start as int, start + p@.len())[k as int] != p@[k as int]); }
            return false;
        }
        k = k + 1;
    }
    proof { assert(s@.subrange(start as int, start + p@.len()) =~= p@); }
    true
}

/// Whether `s` begins with `prefix`.
pub fn starts_with(s: &str, prefix: &str) -> (b: bool)
    ensures
        b == (prefix@.len() <= s@.len() && s@.subrange(0, prefix@.len() as int) == prefix@),
{
    let a = chars_of(s);
    let p = chars_of(prefix);
    if p.len() > a.len() {
        return false;
    }
    let mut i: usize = 0;
    while i < p.len()
        invariant
            a@ == s@,
            p@ == prefix@,
            p@.len() <= a@.len(),
            i <= p@.len(),
            forall|j: int| 0 <= j < i ==> a@[j] == p@[j],
        decreases p@.len() - i,
    {
        if a[i] != p[i] {
            proof { assert(s@.subrange(0, prefix@.len() as int)[i as int] != prefix@[i as int]); }
            return false;
        }
        i = i + 1;
    }
    proof { assert(s@.subrange(0, prefix@.len() as int) =~= prefix@); }
    true
}

/// Joins the strings of a list with a single space between neighbours.
pub open spec fn join_spaced(parts: Seq<Seq<char>>) -> Seq<char>
    decreases parts.len(),
{
    if parts.len() == 0 {
        Seq::empty()
    } else if parts.len() == 1 {
        parts[0]
    } else {
        join_spaced(parts.drop_last()) + seq![' '] + parts.last()
    }
}

/// The views of a list of strings.
pub open spec fn views(v: Seq<String>) -> Seq<Seq<char>> {
    v.map_values(|s: String| s@)
}

/// Joins a command line into one string, its words separated by single spaces.
pub fn join_words(parts: &Vec<String>) -> (r: String)
    ensures
        r@ == join_spaced(views(parts@)),
{
    let mut r = String::new();
    let mut i: usize = 0;
    while i < parts.len()
        invariant
            i <= parts@.len(),
            r@ == join_spaced(views(parts@.subrange(0, i as int))),
        decreases parts@.len() - i,
    {
        proof {
            assert(views(parts@.subrange(0, i as int + 1)).drop_last() =~= views(parts@.subrange(0, i as int)));
        }
        if i > 0 {
            push_char(&mut r, ' ');
        }
        push_str(&mut r, parts[i].as_str());
        i = i + 1;
    }
    proof { assert(parts@.subrange(0, parts@.len() as int) =~= parts@); }
    r
}

/// `s` with every occurrence of `pat` replaced by `rep`, read from the left, as
/// `str::replace` gives it for a non-empty `pat`.
pub open spec fn replace_all(s: Seq<char>, pat: Seq<char>, rep: Seq<char>) -> Seq<char>
    decreases s.len(),
{
    if s.len() == 0 {
        s
    } else if 0 < pat.len() <= s.len() && s.subrange(0, pat.len() as int) == pat {
        rep + replace_all(s.subrange(pat.len() as int, s.len() as int), pat, rep)
    } else {
        seq![s[0]] + replace_all(s.subrange(1, s.len() as int), pat, rep)
    }
}

/// Replaces every occurrence of a non-empty `pat` in `s` by `rep` (see [`replace_all`]).
pub fn replace_text(s: &str, pat: &str, rep: &str) -> (r: String)
    requires
        pat@.len() > 0,
    ensures
        r@ == replace_all(s@, pat@, rep@),
{
    let c = chars_of(s);
    let p = chars_of(pat);
    let n = c.len();
    let mut r = String::new();
    let mut i: usize = 0;
    proof { assert(c@.subrange(0, n as int) =~= c@); }
    while i < n
        invariant
            c@ == s@,
            p@ == pat@,
            p@.len() > 0,
            n == c@.len(),
            i <= n,
            r@ + replace_all(c@.subrange(i as int, n as int), pat@, rep@) == replace_all(s@, pat@, rep@),
        decreases n - i,
    {
        let ghost rest = c@.subrange(i as int, n as int);
        if p.len() <= n - i && matches_at(&c, &p, i) {
            proof {
                assert(rest.subrange(0, p@.len() as int) =~= c@.subrange(i as int, i + p@.len()));
                assert(rest.subrange(p@.len() as int, rest.len() as int) =~= c@.subrange(i + p@.len(), n as int));
            }
            push_str(&mut r, rep);
            i = i + p.len();
        } else {
            proof {
                if p@.len() <= rest.len() {
                    assert(rest.subrange(0, p@.len() as int) =~= c@.subrange(i as int, i + p@.len()));
                }
                assert(rest.subrange(1, rest.len() as int) =~= c@.subrange(i + 1, n as int));
            }
            push_char(&mut r, c[i]);
            i = i + 1;
        }
    }
    proof { assert(r@ == r@ + replace_all(Seq::<char>::empty(), pat@, rep@)); assert(c@.subrange(n as int, n as int) =~= Seq::<char>::empty()); }
    r
}

/// The views of a list of commands.
pub open spec fn command_views(v: Seq<Vec<String>>) -> Seq<Seq<Seq<char>>> {
    v.map_values(|c: Vec<String>| views(c@))
}

/// Appends a string to a list of strings.
pub fn push_arg(v: &mut Vec<String>, s: String)
    ensures
        views(final(v)@) == views(old(v)@).push(s@),
{
    v.push(s);
    proof { assert(views(v@) =~= views(old(v)@).push(s@)); }
}

/// Appends a copy of a string slice to a list of strings.
pub fn push_lit(v: &mut Vec<String>, s: &str)
    ensures
        views(final(v)@) == views(old(v)@).push(s@),
{
    push_arg(v, owned(s));
}

/// The text `format!("{:?}", s)` gives for a string: the string in double quotes, with
/// special characters escaped.
pub uninterp spec fn debug_text(s: Seq<char>) -> Seq<char>;

/// Formats a string with `{:?}` (`<str as Debug>::fmt`): quoted and escaped. The escaping
/// depends on the characters alone and is named [`debug_text`]; its rules are not stated.
#[verifier::external_body]
pub(crate) fn debug_string(s: &str) -> (r: String)
    ensures
        r@ == debug_text(s@),
{
    format!("{:?}", s)
}

/// A string built from two pieces.
pub fn concat2(a: &str, b: &str) -> (r: String)
    ensures
        r@ == a@ + b@,
{
    let mut s = owned(a);
    push_str(&mut s, b);
    s
}

/// A string built from three pieces.
pub fn concat3(a: &str, b: &str, c: &str) -> (r: String)
    ensures
        r@ == a@ + b@ + c@,
{
    let mut s = owned(a);
    push_str(&mut s, b);
    push_str(&mut s, c);
    s
}

/// A copy of an optional string.
pub fn copy_opt(s: &Option<String>) -> (r: Option<String>)
    ensures
        r == *s,
{
    match s {
        Some(t) => Some(t.clone()),
        None => None,
    }
}

/// The views of an optional string.
pub open spec fn opt_view(s: Option<String>) -> Option<Seq<char>> {
    match s {
        Some(t) => Some(t@),
        None => None,
    }
}


/// The parts of a text between its `sep` separators, as `str::split` gives them (always at least
/// one).
pub open spec fn split_on(s: Seq<char>, sep: char) -> Seq<Seq<char>>
    decreases s.len(),
{
    if s.len() == 0 {
        seq![Seq::<char>::empty()]
    } else {
        let p = split_on(s.drop_last(), sep);
        if s.last() == sep {
            p.push(Seq::<char>::empty())
        } else {
            p.update(p.len() - 1, p.last().push(s.last()))
        }
    }
}

/// Splitting always yields at least one part.
pub proof fn lemma_split_on_nonempty(s: Seq<char>, sep: char)
    ensures
        split_on(s, sep).len() >= 1,
    decreases s.len(),
{
    if s.len() > 0 {
        lemma_split_on_nonempty(s.drop_last(), sep);
    }
}

/// The parts of a string between its `sep` separators (see [`split_on`]).
pub fn split_parts(text: &str, sep: char) -> (r: Vec<String>)
    ensures
        views(r@) == split_on(text@, sep),
{
    let a = chars_of(text);
    let mut done: Vec<String> = Vec::new();
    let mut cur = String::new();
    let mut i: usize = 0;
    while i < a.len()
        invariant
            i <= a@.len(),
            a@ == text@,
            split_on(a@.subrange(0, i as int), sep) == views(done@).push(cur@),
        decreases a@.len() - i,
    {
        let ghost pre = a@.subrange(0, i as int);
        proof {
            assert(a@.subrange(0, i + 1).drop_last() =~= pre);
            assert(a@.subrange(0, i + 1).last() == a@[i as int]);
        }
        if a[i] == sep {
            let ghost old_done = done@;
            let finished = cur;
            done.push(finished);
            cur = String::new();
            proof {
                assert(views(done@) =~= views(old_done).push(finished@));
                assert(split_on(a@.subrange(0, i + 1), sep) =~= views(done@).push(cur@));
            }
        } else {
            let ghost before = cur@;
            push_char(&mut cur, a[i]);
            proof {
                assert(split_on(a@.subrange(0, i + 1), sep) =~= views(done@).push(cur@));
            }
        }
        i = i + 1;
    }
    proof { assert(a@.subrange(0, a@.len() as int) =~= a@); }
    let ghost old_done = done@;
    done.push(cur);
    proof { assert(views(done@) =~= views(old_done).push(cur@)); }
    done
}

/// A copy of a command line.
pub fn copy_words(v: &Vec<String>) -> (r: Vec<String>)
    ensures
        views(r@) == views(v@),
{
    let mut out: Vec<String> = Vec::new();
    let mut i: usize = 0;
    while i < v.len()
        invariant
            i <= v@.len(),
            views(out@) == views(v@.subrange(0, i as int)),
        decreases v@.len() - i,
    {
        let ghost prev = out@;
        out.push(v[i].clone());
        proof {
            assert(out@ == prev.push(v@[i as int]));
            assert(views(out@) =~= views(prev).push(v@[i as int]@));
            assert(v@.subrange(0, i + 1) =~= v@.subrange(0, i as int).push(v@[i as int]));
            assert(views(v@.subrange(0, i + 1)) =~= views(v@.subrange(0, i as int)).push(v@[i as int]@));
        }
        i = i + 1;
    }
    proof { assert(v@.subrange(0, v@.len() as int) =~= v@); }
    out
}

} // verus!
