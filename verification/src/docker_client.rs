//! The requests a minimal client sends to the docker daemon's socket, and how it finds the end
//! of a reply's header and the JSON of its body.

use vstd::prelude::*;
use crate::text::{chars_of, concat3, owned, push_char};

verus! {

/// The HTTP request for a path of the docker API.
pub open spec fn get_request_spec(path: Seq<char>) -> Seq<char> {
    "GET "@ + path + " HTTP/1.1\r\nHost: v1.43\r\n\r\n"@
}

/// The HTTP request for a path of the docker API (see [`get_request_spec`]).
pub fn get_request_text(path: &String) -> (r: String)
    ensures
        r@ == get_request_spec(path@),
{
    concat3("GET ", path.as_str(), " HTTP/1.1\r\nHost: v1.43\r\n\r\n")
}

/// The path of the daemon's version.
pub fn version_path() -> (r: String)
    ensures
        r@ == "/version"@,
{
    owned("/version")
}

/// The path of a container's resource statistics, sampled once.
pub fn stats_path(guest_name: &String) -> (r: String)
    ensures
        r@ == "/containers/"@ + guest_name@ + "/stats?stream=false"@,
{
    concat3("/containers/", guest_name.as_str(), "/stats?stream=false")
}

/// The path of a container's description.
pub fn inspect_path(guest_name: &String) -> (r: String)
    ensures
        r@ == "/containers/"@ + guest_name@ + "/json"@,
{
    concat3("/containers/", guest_name.as_str(), "/json")
}

/// Whether the bytes read so far end the header of a reply: they end with an empty line.
pub fn header_complete(buf: &Vec<u8>) -> (b: bool)
    ensures
        b == (buf@.len() >= 4 && buf@.subrange(buf@.len() - 4, buf@.len() as int) == seq![13u8, 10u8, 13u8, 10u8]),
{
    let n = buf.len();
    if n < 4 {
        return false;
    }
    let b = buf[n - 4] == 13 && buf[n - 3] == 10 && buf[n - 2] == 13 && buf[n - 1] == 10;
    proof {
        let t = buf@.subrange(n - 4, n as int);
        if b {
            assert(t =~= seq![13u8, 10u8, 13u8, 10u8]);
        } else {
            assert(t[0] == buf@[n - 4] && t[1] == buf@[n - 3] && t[2] == buf@[n - 2] && t[3] == buf@[n - 1]);
            assert(t != seq![13u8, 10u8, 13u8, 10u8]) by {
                let e = seq![13u8, 10u8, 13u8, 10u8];
                assert(e[0] == 13u8 && e[1] == 10u8 && e[2] == 13u8 && e[3] == 10u8);
            }
        }
    }
    b
}

/// The position of the first occurrence of a character, as `str::find` finds it (counted in
/// characters).
pub open spec fn find_char(s: Seq<char>, c: char) -> Option<int>
    decreases s.len(),
{
    if s.len() == 0 {
        None
    } else if s[0] == c {
        Some(0)
    } else {
        match find_char(s.subrange(1, s.len() as int), c) {
            Some(i) => Some(i + 1),
            None => None,
        }
    }
}

/// The position of the last occurrence of a character, as `str::rfind` finds it.
pub open spec fn rfind_char(s: Seq<char>, c: char) -> Option<int>
    decreases s.len(),
{
    if s.len() == 0 {
        None
    } else if s.last() == c {
        Some(s.len() - 1)
    } else {
        rfind_char(s.drop_last(), c)
    }
}

/// The JSON in a reply's body: from its first `{`, if any, to the last `}` after it, if any.
pub open spec fn json_body_spec(body: Seq<char>) -> Seq<char> {
    let from = match find_char(body, '{') {
        Some(i) => body.subrange(i, body.len() as int),
        None => body,
    };
    match rfind_char(from, '}') {
        Some(j) => from.subrange(0, j + 1),
        None => from,
    }
}

/// Where the first occurrence of a character is (see [`find_char`]).
fn find_first(s: &Vec<char>, c: char) -> (r: Option<usize>)
    ensures
        match (r, find_char(s@, c)) {
            (Some(i), Some(j)) => i == j && i < s@.len(),
            (None, None) => true,
            _ => false,
        },
{
    let mut i: usize = 0;
    proof { assert(s@.subrange(0, s@.len() as int) =~= s@); }
    while i < s.len()
        invariant
            i <= s@.len(),
            find_char(s@.subrange(i as int, s@.len() as int), c) matches Some(k) ==> find_char(s@, c) == Some(i + k),
            find_char(s@.subrange(i as int, s@.len() as int), c) is None ==> find_char(s@, c) is None,
        decreases s@.len() - i,
    {
        let ghost rest = s@.subrange(i as int, s@.len() as int);
        if s[i] == c {
            proof { assert(rest[0] == c); }
            return Some(i);
        }
        proof { assert(rest.subrange(1, rest.len() as int) =~= s@.subrange(i + 1, s@.len() as int)); }
        i = i + 1;
    }
    proof { assert(s@.subrange(i as int, s@.len() as int) =~= Seq::<char>::empty()); }
    None
}

/// Where the last occurrence of a character is (see [`rfind_char`]).
fn find_last(s: &Vec<char>, c: char) -> (r: Option<usize>)
    ensures
        match (r, rfind_char(s@, c)) {
            (Some(i), Some(j)) => i == j && i < s@.len(),
            (None, None) => true,
            _ => false,
        },
{
    let mut end: usize = s.len();
    proof { assert(s@.subrange(0, end as int) =~= s@); }
    while end > 0
        invariant
            end <= s@.len(),
            rfind_char(s@.subrange(0, end as int), c) == rfind_char(s@, c),
        decreases end,
    {
        let ghost t = s@.subrange(0, end as int);
        if s[end - 1] == c {
            proof { assert(t.last() == c); }
            return Some(end - 1);
        }
        proof { assert(t.drop_last() =~= s@.subrange(0, end - 1)); }
        end = end - 1;
    }
    None
}

/// The characters of `s` from `lo` up to `hi`, as a string.
fn slice_chars(s: &Vec<char>, lo: usize, hi: usize) -> (r: String)
    requires
        lo <= hi <= s@.len(),
    ensures
        r@ == s@.subrange(lo as int, hi as int),
{
    let mut r = String::new();
    let mut i: usize = lo;
    while i < hi
        invariant
            lo <= i <= hi <= s@.len(),
            r@ == s@.subrange(lo as int, i as int),
        decreases hi - i,
    {
        push_char(&mut r, s[i]);
        i = i + 1;
        proof { assert(r@ =~= s@.subrange(lo as int, i as int)); }
    }
    r
}

/// The JSON in a reply's body (see [`json_body_spec`]).
pub fn json_body(body: &String) -> (r: String)
    ensures
        r@ == json_body_spec(body@),
{
    let c = chars_of(body.as_str());
    let from = match find_first(&c, '{') {
        Some(i) => slice_chars(&c, i, c.len()),
        None => body.clone(),
    };
    let f = chars_of(from.as_str());
    match find_last(&f, '}') {
        Some(j) => {
            let n = f.len();
            proof { assert(j < n); }
            slice_chars(&f, 0, j + 1)
        },
        None => from,
    }
}

} // verus!
