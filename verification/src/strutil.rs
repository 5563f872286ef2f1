//! Character-level string utilities used by the locator and the orchestrator.
//!
//! Mount URIs are compared after normalizing a trailing slash, fall back to a
//! `:<port>` substring search, and worker status text is scanned for a JSON
//! payload; the helpers here give those operations exact contracts over
//! `Seq<char>` views.

use vstd::prelude::*;
use vstd::string::StrSliceExecFns;
use vstd::string::StringExecFns;

verus! {

/// `c` is an ASCII decimal digit.
pub open spec fn is_ascii_digit_char(c: char) -> bool {
    48 <= c as u32 <= 57
}

/// `s` with a trailing `/` appended when absent.
pub open spec fn with_slash(s: Seq<char>) -> Seq<char> {
    if s.len() > 0 && s.last() == '/' {
        s
    } else {
        s.push('/')
    }
}

/// `needle` occurs in `hay` starting at position `i`.
pub open spec fn match_at(hay: Seq<char>, needle: Seq<char>, i: int) -> bool {
    &&& 0 <= i
    &&& i + needle.len() <= hay.len()
    &&& hay.subrange(i, i + needle.len()) == needle
}

/// `needle` occurs somewhere in `hay`.
pub open spec fn contains_seq(hay: Seq<char>, needle: Seq<char>) -> bool {
    exists|i: int| match_at(hay, needle, i)
}

/// `prefix` is a prefix of `s`.
pub open spec fn starts_with_seq(s: Seq<char>, prefix: Seq<char>) -> bool {
    prefix.len() <= s.len() && s.subrange(0, prefix.len() as int) == prefix
}

/// Index of the first occurrence of `c` in `s` at or after position `i`.
pub open spec fn find_from(s: Seq<char>, c: char, i: int) -> Option<int>
    decreases s.len() - i,
{
    if i < 0 || i >= s.len() {
        None
    } else if s[i] == c {
        Some(i)
    } else {
        find_from(s, c, i + 1)
    }
}

/// Index of the first occurrence of `c` in `s`.
pub open spec fn find_first(s: Seq<char>, c: char) -> Option<int> {
    find_from(s, c, 0)
}

/// Index of the last occurrence of `c` in `s` at or before position `i`.
pub open spec fn rfind_from(s: Seq<char>, c: char, i: int) -> Option<int>
    decreases i + 1,
{
    if i < 0 {
        None
    } else if s[i] == c {
        Some(i)
    } else {
        rfind_from(s, c, i - 1)
    }
}

/// Index of the last occurrence of `c` in `s`.
pub open spec fn rfind(s: Seq<char>, c: char) -> Option<int> {
    rfind_from(s, c, s.len() - 1)
}

/// `s` with every trailing `/` removed.
pub open spec fn trim_trailing_slashes(s: Seq<char>) -> Seq<char>
    decreases s.len(),
{
    if s.len() > 0 && s.last() == '/' {
        trim_trailing_slashes(s.drop_last())
    } else {
        s
    }
}

/// Every character of `s` is an ASCII decimal digit.
pub open spec fn all_digits(s: Seq<char>) -> bool {
    forall|i: int| 0 <= i < s.len() ==> is_ascii_digit_char(s[i])
}

/// Whether `s` ends with `/`.
pub fn ends_with_slash(s: &str) -> (r: bool)
    ensures
        r == (s@.len() > 0 && s@.last() == '/'),
{
    let n = s.unicode_len();
    if n == 0 {
        false
    } else {
        s.get_char(n - 1) == '/'
    }
}

/// `s` with a trailing `/` appended when absent.
pub fn normalize_uri(s: &str) -> (r: String)
    ensures
        r@ == with_slash(s@),
{
    if ends_with_slash(s) {
        s.to_owned()
    } else {
        let mut r = String::from_str(s);
        r.append("/");
        proof {
            reveal_strlit("/");
            assert(r@ =~= with_slash(s@));
        }
        r
    }
}

/// Character-by-character string equality.
pub fn str_eq(a: &str, b: &str) -> (r: bool)
    ensures
        r == (a@ == b@),
{
    let alen = a.unicode_len();
    let blen = b.unicode_len();
    if alen != blen {
        return false;
    }
    let mut i: usize = 0;
    while i < alen
        invariant
            alen == a@.len(),
            blen == b@.len(),
            alen == blen,
            0 <= i <= alen,
            forall|j: int| 0 <= j < i ==> a@[j] == b@[j],
        decreases alen - i,
    {
        if s_ne_at(a, b, i) {
            return false;
        }
        i += 1;
    }
    proof {
        assert(a@ =~= b@);
    }
    true
}

/// The characters of `a` and `b` differ at position `i`.
fn s_ne_at(a: &str, b: &str, i: usize) -> (r: bool)
    requires
        i < a@.len(),
        i < b@.len(),
    ensures
        r == (a@[i as int] != b@[i as int]),
{
    a.get_char(i) != b.get_char(i)
}

/// Whether `needle` occurs in `hay` starting at position `i`.
fn match_at_exec(hay: &str, needle: &str, i: usize) -> (r: bool)
    requires
        i + needle@.len() <= hay@.len(),
    ensures
        r == match_at(hay@, needle@, i as int),
{
    let nlen = needle.unicode_len();
    let hlen = hay.unicode_len();
    let mut j: usize = 0;
    while j < nlen
        invariant
            nlen == needle@.len(),
            hlen == hay@.len(),
            i + nlen <= hlen,
            0 <= j <= nlen,
            forall|k: int| 0 <= k < j ==> hay@[i + k] == needle@[k],
        decreases nlen - j,
    {
        if hay.get_char(i + j) != needle.get_char(j) {
            proof {
                assert(!match_at(hay@, needle@, i as int)) by {
                    if match_at(hay@, needle@, i as int) {
                        assert(hay@.subrange(i as int, i + nlen as int)[j as int]
                            == needle@[j as int]);
                    }
                }
            }
            return false;
        }
        j += 1;
    }
    proof {
        assert(hay@.subrange(i as int, i + nlen as int) =~= needle@);
    }
    true
}

/// Substring search: whether `needle` occurs anywhere in `hay`.
pub fn contains_str(hay: &str, needle: &str) -> (r: bool)
    ensures
        r == contains_seq(hay@, needle@),
{
    let hlen = hay.unicode_len();
    let nlen = needle.unicode_len();
    if nlen > hlen {
        proof {
            assert forall|k: int| !match_at(hay@, needle@, k) by {}
        }
        return false;
    }
    if nlen == 0 {
        proof {
            assert(hay@.subrange(0, 0) =~= needle@);
            assert(match_at(hay@, needle@, 0));
        }
        return true;
    }
    let mut i: usize = 0;
    while i <= hlen - nlen
        invariant
            hlen == hay@.len(),
            nlen == needle@.len(),
            1 <= nlen <= hlen,
            0 <= i <= hlen - nlen + 1,
            forall|k: int| 0 <= k < i ==> !match_at(hay@, needle@, k),
        decreases hlen - nlen + 1 - i,
    {
        if match_at_exec(hay, needle, i) {
            return true;
        }
        i += 1;
    }
    proof {
        assert forall|k: int| !match_at(hay@, needle@, k) by {}
    }
    false
}

/// Whether `prefix` is a prefix of `s`.
pub fn starts_with_str(s: &str, prefix: &str) -> (r: bool)
    ensures
        r == starts_with_seq(s@, prefix@),
{
    let slen = s.unicode_len();
    let plen = prefix.unicode_len();
    if plen > slen {
        return false;
    }
    match_at_exec(s, prefix, 0)
}

/// Index of the first occurrence of `c` in `s`.
pub fn find_char(s: &str, c: char) -> (r: Option<usize>)
    ensures
        (r is Some) == (find_first(s@, c) is Some),
        r matches Some(i) ==> find_first(s@, c) == Some(i as int) && i < s@.len(),
{
    let len = s.unicode_len();
    let mut i: usize = 0;
    while i < len
        invariant
            len == s@.len(),
            0 <= i <= len,
            find_from(s@, c, 0) == find_from(s@, c, i as int),
        decreases len - i,
    {
        if s.get_char(i) == c {
            return Some(i);
        }
        i += 1;
    }
    None
}

/// Index of the first occurrence of `c` in `s` at or after `start`.
pub fn find_char_from(s: &str, c: char, start: usize) -> (r: Option<usize>)
    ensures
        (r is Some) == (find_from(s@, c, start as int) is Some),
        r matches Some(i) ==> find_from(s@, c, start as int) == Some(i as int) && start <= i
            < s@.len(),
{
    let len = s.unicode_len();
    let mut i: usize = start;
    while i < len
        invariant
            len == s@.len(),
            start <= i,
            find_from(s@, c, start as int) == find_from(s@, c, i as int),
        decreases len - i,
    {
        if s.get_char(i) == c {
            return Some(i);
        }
        i += 1;
    }
    None
}

/// Index of the last occurrence of `c` in `s`, scanning from the end.
pub fn rfind_char(s: &str, c: char) -> (r: Option<usize>)
    ensures
        (r is Some) == (rfind(s@, c) is Some),
        r matches Some(i) ==> rfind(s@, c) == Some(i as int) && i < s@.len(),
{
    let len = s.unicode_len();
    let mut i: usize = len;
    while i > 0
        invariant
            len == s@.len(),
            0 <= i <= len,
            rfind(s@, c) == rfind_from(s@, c, i as int - 1),
        decreases i,
    {
        i = i - 1;
        if s.get_char(i) == c {
            return Some(i);
        }
    }
    None
}

/// The length of `s` once every trailing `/` is removed.
pub fn trimmed_end(s: &str) -> (e: usize)
    ensures
        e <= s@.len(),
        s@.subrange(0, e as int) == trim_trailing_slashes(s@),
{
    let len = s.unicode_len();
    let mut e: usize = len;
    proof {
        assert(s@.subrange(0, len as int) =~= s@);
    }
    while e > 0 && s.get_char(e - 1) == '/'
        invariant
            len == s@.len(),
            0 <= e <= len,
            trim_trailing_slashes(s@) == trim_trailing_slashes(s@.subrange(0, e as int)),
        decreases e,
    {
        proof {
            assert(s@.subrange(0, e as int).drop_last() =~= s@.subrange(0, e as int - 1));
        }
        e = e - 1;
    }
    proof {
        if e == 0 {
            assert(s@.subrange(0, 0) =~= Seq::<char>::empty());
        }
    }
    e
}

/// Whether every character of `s` is an ASCII decimal digit.
pub fn all_digits_str(s: &str) -> (r: bool)
    ensures
        r == all_digits(s@),
{
    let len = s.unicode_len();
    let mut i: usize = 0;
    while i < len
        invariant
            len == s@.len(),
            0 <= i <= len,
            forall|j: int| 0 <= j < i ==> is_ascii_digit_char(s@[j]),
        decreases len - i,
    {
        let u = s.get_char(i) as u32;
        if !(48 <= u && u <= 57) {
            return false;
        }
        i += 1;
    }
    true
}

/// The decimal digit character for `d`.
pub open spec fn dec_digit(d: nat) -> char {
    ((d + 48) as u8) as char
}

/// The decimal representation of `n`, most significant digit first.
pub open spec fn dec_str(n: nat) -> Seq<char>
    decreases n,
{
    if n < 10 {
        seq![dec_digit(n)]
    } else {
        dec_str(n / 10).push(dec_digit(n % 10))
    }
}

/// The one-character string for a single decimal digit.
fn digit_str(d: u16) -> (r: &'static str)
    requires
        d < 10,
    ensures
        r@ == seq![dec_digit(d as nat)],
{
    proof {
        reveal_strlit("0");
        reveal_strlit("1");
        reveal_strlit("2");
        reveal_strlit("3");
        reveal_strlit("4");
        reveal_strlit("5");
        reveal_strlit("6");
        reveal_strlit("7");
        reveal_strlit("8");
        reveal_strlit("9");
    }
    let r = match d {
        0 => "0",
        1 => "1",
        2 => "2",
        3 => "3",
        4 => "4",
        5 => "5",
        6 => "6",
        7 => "7",
        8 => "8",
        _ => "9",
    };
    proof {
        assert(r@ =~= seq![dec_digit(d as nat)]);
    }
    r
}

/// The decimal representation of `n` as a string.
pub fn u16_to_string(n: u16) -> (r: String)
    ensures
        r@ == dec_str(n as nat),
    decreases n,
{
    if n < 10 {
        String::from_str(digit_str(n))
    } else {
        let mut s = u16_to_string(n / 10);
        s.append(digit_str(n % 10));
        proof {
            assert(s@ =~= dec_str(n as nat));
        }
        s
    }
}

} // verus!
