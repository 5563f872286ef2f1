//! Mount locator: match a target endpoint URI against the OS mount table.
//!
//! The table is a sequence of `(uri, can_unmount)` pairs queried fresh from
//! the OS. Matching is tolerant of trailing-slash differences (the OS always
//! reports a trailing slash) and, when no URI matches exactly, falls back to
//! searching for the target's `:<port>` token anywhere in a mount URI, which
//! tolerates host-representation differences such as a numeric loopback
//! address standing in for `localhost`. First match wins in both passes.

use vstd::prelude::*;
use vstd::string::StrSliceExecFns;
use vstd::string::StringExecFns;

use crate::strutil::all_digits;
use crate::strutil::all_digits_str;
use crate::strutil::contains_seq;
use crate::strutil::contains_str;
use crate::strutil::normalize_uri;
use crate::strutil::rfind;
use crate::strutil::rfind_char;
use crate::strutil::rfind_from;
use crate::strutil::str_eq;
use crate::strutil::trim_trailing_slashes;
use crate::strutil::trimmed_end;
use crate::strutil::with_slash;

verus! {

/// Result of looking the target up in the mount table.
#[derive(Debug, Clone, Copy, PartialEq, Eq, Structural)]
pub enum MountLookup {
    /// A matching mount exists and the OS reports it can be unmounted.
    Unmountable,
    /// A matching mount exists but the OS reports it cannot be unmounted.
    NotUnmountable,
    /// No mount matches the target, by URI or by port.
    NotFound,
}

/// `uri` and `target` are equal once each carries a trailing slash.
pub open spec fn uri_matches(uri: Seq<char>, target: Seq<char>) -> bool {
    with_slash(uri) == with_slash(target)
}

/// The entry at `i` matches the target exactly (after slash normalization).
pub open spec fn exact_match_at(m: Seq<(String, bool)>, t: Seq<char>, i: int) -> bool {
    0 <= i < m.len() && uri_matches(m[i].0@, t)
}

/// Index of the first exact match at or after `i`.
pub open spec fn first_exact_from(m: Seq<(String, bool)>, t: Seq<char>, i: int) -> Option<int>
    decreases m.len() - i,
{
    if i < 0 || i >= m.len() {
        None
    } else if uri_matches(m[i].0@, t) {
        Some(i)
    } else {
        first_exact_from(m, t, i + 1)
    }
}

/// The `:<port>` token of the target: `:` followed by the characters after
/// the last `:`, with trailing slashes removed, provided they are all digits.
pub open spec fn port_token(t: Seq<char>) -> Option<Seq<char>> {
    match rfind(t, ':') {
        Some(ci) => {
            let digits = trim_trailing_slashes(t.subrange(ci + 1, t.len() as int));
            if all_digits(digits) {
                Some(seq![':'] + digits)
            } else {
                None
            }
        },
        None => None,
    }
}

/// Index of the first entry at or after `i` whose URI contains `tok`.
pub open spec fn first_port_from(m: Seq<(String, bool)>, tok: Seq<char>, i: int) -> Option<int>
    decreases m.len() - i,
{
    if i < 0 || i >= m.len() {
        None
    } else if contains_seq(m[i].0@, tok) {
        Some(i)
    } else {
        first_port_from(m, tok, i + 1)
    }
}

/// What the locator returns: the flag of the first exact match; otherwise,
/// when the target carries a port token, the flag of the first entry whose
/// URI contains that token; otherwise nothing.
pub open spec fn locate_spec(m: Seq<(String, bool)>, t: Seq<char>) -> Option<bool> {
    match first_exact_from(m, t, 0) {
        Some(i) => Some(m[i].1),
        None => match port_token(t) {
            Some(tok) => match first_port_from(m, tok, 0) {
                Some(i) => Some(m[i].1),
                None => None,
            },
            None => None,
        },
    }
}

/// The tri-state reading of the locator's raw result.
pub open spec fn lookup_of(r: Option<bool>) -> MountLookup {
    match r {
        Some(true) => MountLookup::Unmountable,
        Some(false) => MountLookup::NotUnmountable,
        None => MountLookup::NotFound,
    }
}

/// The `:<port>` token of `target`, when the characters after its last `:`
/// (ignoring trailing slashes) are all digits.
pub fn extract_port_token(target: &str) -> (r: Option<String>)
    ensures
        (r is Some) == (port_token(target@) is Some),
        r matches Some(s) ==> port_token(target@) == Some(s@),
{
    let len = target.unicode_len();
    match rfind_char(target, ':') {
        None => None,
        Some(ci) => {
            let after = target.substring_char(ci + 1, len);
            let e = trimmed_end(after);
            let digits = after.substring_char(0, e);
            if all_digits_str(digits) {
                let mut r = String::from_str(":");
                r.append(digits);
                proof {
                    reveal_strlit(":");
                    assert(r@ =~= seq![':'] + digits@);
                }
                Some(r)
            } else {
                None
            }
        },
    }
}

/// Look the target up in the mount table: first by exact URI (after slash
/// normalization), then by `:<port>` substring. Returns the matching entry's
/// unmountable flag, or nothing when neither pass matches.
pub fn find_mount_by_uri(mounts: &Vec<(String, bool)>, target: &str) -> (r: Option<bool>)
    ensures
        r == locate_spec(mounts@, target@),
{
    let nt = normalize_uri(target);
    let n = mounts.len();
    let mut i: usize = 0;
    while i < n
        invariant
            n == mounts@.len(),
            nt@ == with_slash(target@),
            0 <= i <= n,
            first_exact_from(mounts@, target@, 0) == first_exact_from(
                mounts@,
                target@,
                i as int,
            ),
        decreases n - i,
    {
        let nu = normalize_uri(mounts[i].0.as_str());
        if str_eq(nu.as_str(), nt.as_str()) {
            return Some(mounts[i].1);
        }
        i += 1;
    }
    match extract_port_token(target) {
        None => None,
        Some(tok) => {
            let mut i: usize = 0;
            while i < n
                invariant
                    n == mounts@.len(),
                    port_token(target@) == Some(tok@),
                    first_exact_from(mounts@, target@, 0) is None,
                    0 <= i <= n,
                    first_port_from(mounts@, tok@, 0) == first_port_from(
                        mounts@,
                        tok@,
                        i as int,
                    ),
                decreases n - i,
            {
                if contains_str(mounts[i].0.as_str(), tok.as_str()) {
                    return Some(mounts[i].1);
                }
                i += 1;
            }
            None
        },
    }
}

/// Tri-state lookup of the target in the mount table.
pub fn locate(mounts: &Vec<(String, bool)>, target: &str) -> (r: MountLookup)
    ensures
        r == lookup_of(locate_spec(mounts@, target@)),
{
    match find_mount_by_uri(mounts, target) {
        Some(true) => MountLookup::Unmountable,
        Some(false) => MountLookup::NotUnmountable,
        None => MountLookup::NotFound,
    }
}

proof fn lemma_first_exact_found(m: Seq<(String, bool)>, t: Seq<char>, k: int, i: int)
    requires
        0 <= k <= i,
        exact_match_at(m, t, i),
        forall|j: int| k <= j < i ==> !exact_match_at(m, t, j),
    ensures
        first_exact_from(m, t, k) == Some(i),
    decreases i - k,
{
    if k < i {
        lemma_first_exact_found(m, t, k + 1, i);
        assert(!exact_match_at(m, t, k));
        assert(first_exact_from(m, t, k) == first_exact_from(m, t, k + 1));
    } else {
        assert(first_exact_from(m, t, k) == Some(i));
    }
}

proof fn lemma_first_exact_none(m: Seq<(String, bool)>, t: Seq<char>, k: int)
    requires
        0 <= k,
        forall|j: int| k <= j < m.len() ==> !exact_match_at(m, t, j),
    ensures
        first_exact_from(m, t, k) is None,
    decreases m.len() - k,
{
    if k < m.len() {
        lemma_first_exact_none(m, t, k + 1);
        assert(!exact_match_at(m, t, k));
    }
}

proof fn lemma_first_port_found(m: Seq<(String, bool)>, tok: Seq<char>, k: int, i: int)
    requires
        0 <= k <= i < m.len(),
        contains_seq(m[i].0@, tok),
        forall|j: int| k <= j < i ==> !contains_seq(m[j].0@, tok),
    ensures
        first_port_from(m, tok, k) == Some(i),
    decreases i - k,
{
    if k < i {
        lemma_first_port_found(m, tok, k + 1, i);
        assert(!contains_seq(m[k].0@, tok));
    }
}

proof fn lemma_first_port_none(m: Seq<(String, bool)>, tok: Seq<char>, k: int)
    requires
        0 <= k,
        forall|j: int| k <= j < m.len() ==> !contains_seq(m[j].0@, tok),
    ensures
        first_port_from(m, tok, k) is None,
    decreases m.len() - k,
{
    if k < m.len() {
        lemma_first_port_none(m, tok, k + 1);
        assert(!contains_seq(m[k].0@, tok));
    }
}

proof fn lemma_rfind_range(s: Seq<char>, c: char, i: int, j: int)
    requires
        rfind_from(s, c, i) == Some(j),
    ensures
        0 <= j <= i,
        s[j] == c,
    decreases i + 1,
{
    if i >= 0 && s[i] != c {
        lemma_rfind_range(s, c, i - 1, j);
    }
}

proof fn lemma_rfind_push_ne(s: Seq<char>, c: char, x: char, i: int)
    requires
        x != c,
        i < s.len(),
    ensures
        rfind_from(s.push(x), c, i) == rfind_from(s, c, i),
    decreases i + 1,
{
    if i >= 0 {
        assert(s.push(x)[i] == s[i]);
        if s[i] != c {
            lemma_rfind_push_ne(s, c, x, i - 1);
        }
    }
}

/// The port token does not change when a trailing slash is appended to the
/// target: the last `:` stays where it was and trailing slashes are ignored.
proof fn lemma_port_token_slash(t: Seq<char>)
    ensures
        port_token(with_slash(t)) == port_token(t),
{
    if t.len() > 0 && t.last() == '/' {
    } else {
        let t2 = t.push('/');
        assert(t2[t.len() as int] == '/');
        assert(rfind(t2, ':') == rfind_from(t2, ':', t.len() as int - 1));
        if t.len() > 0 {
            lemma_rfind_push_ne(t, ':', '/', t.len() as int - 1);
        }
        assert(rfind(t2, ':') == rfind(t, ':'));
        match rfind(t, ':') {
            Some(ci) => {
                lemma_rfind_range(t, ':', t.len() as int - 1, ci);
                let a = t.subrange(ci + 1, t.len() as int);
                let a2 = t2.subrange(ci + 1, t2.len() as int);
                assert(a2 =~= a.push('/'));
                assert(a.push('/').drop_last() =~= a);
                assert(trim_trailing_slashes(a2) == trim_trailing_slashes(a));
            },
            None => {},
        }
    }
}

proof fn lemma_first_exact_norm(m: Seq<(String, bool)>, t1: Seq<char>, t2: Seq<char>, k: int)
    requires
        with_slash(t1) == with_slash(t2),
    ensures
        first_exact_from(m, t1, k) == first_exact_from(m, t2, k),
    decreases m.len() - k,
{
    if 0 <= k < m.len() {
        lemma_first_exact_norm(m, t1, t2, k + 1);
    }
}

/// The locator is invariant under appending a trailing slash to a target
/// that lacks one: the slashless and the slash-terminated form of the same
/// target locate the same mount, whatever the table holds.
pub proof fn lemma_locate_slash_invariant(m: Seq<(String, bool)>, t: Seq<char>)
    ensures
        locate_spec(m, with_slash(t)) == locate_spec(m, t),
{
    let ts = with_slash(t);
    assert(with_slash(ts) == with_slash(t)) by {
        if !(t.len() > 0 && t.last() == '/') {
            assert(ts.last() == '/');
        }
    }
    lemma_first_exact_norm(m, ts, t, 0);
    lemma_port_token_slash(t);
}

/// An exact URI match wins: when entry `i` is the first entry that matches
/// the target exactly, the locator returns its flag and the port-fallback
/// pass is never consulted.
pub proof fn lemma_exact_match_wins(m: Seq<(String, bool)>, t: Seq<char>, i: int)
    requires
        exact_match_at(m, t, i),
        forall|j: int| 0 <= j < i ==> !exact_match_at(m, t, j),
    ensures
        locate_spec(m, t) == Some(m[i].1),
{
    lemma_first_exact_found(m, t, 0, i);
}

/// Port fallback: when no entry matches the target exactly but entry `i` is
/// the only one whose URI contains the target's `:<port>` token, the locator
/// returns that entry's flag.
pub proof fn lemma_port_fallback_unique(m: Seq<(String, bool)>, t: Seq<char>, tok: Seq<char>, i: int)
    requires
        forall|j: int| 0 <= j < m.len() ==> !exact_match_at(m, t, j),
        port_token(t) == Some(tok),
        0 <= i < m.len(),
        contains_seq(m[i].0@, tok),
        forall|j: int| 0 <= j < m.len() && j != i ==> !contains_seq(m[j].0@, tok),
    ensures
        locate_spec(m, t) == Some(m[i].1),
{
    lemma_first_exact_none(m, t, 0);
    lemma_first_port_found(m, tok, 0, i);
}

/// When no entry matches the target by URI and none contains its port token,
/// the locator reports that the target is not mounted.
pub proof fn lemma_locate_not_found(m: Seq<(String, bool)>, t: Seq<char>)
    requires
        forall|j: int| 0 <= j < m.len() ==> !exact_match_at(m, t, j),
        forall|j: int| 0 <= j < m.len() ==> (port_token(t) matches Some(tok)
            ==> !contains_seq(#[trigger] m[j].0@, tok)),
    ensures
        locate_spec(m, t) is None,
{
    lemma_first_exact_none(m, t, 0);
    match port_token(t) {
        Some(tok) => {
            lemma_first_port_none(m, tok, 0);
        },
        None => {},
    }
}

} // verus!
