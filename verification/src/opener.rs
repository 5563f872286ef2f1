//! Choosing how to open the served location: file-manager path or browser
//! URL, and the `dav://` form preferred for the system file manager.
//!
//! Absolute paths, `file://` URIs (handed over with the scheme stripped)
//! and `dav://` URIs go to the path opener so the file manager can mount or
//! open them; anything else goes to the URL opener. When no explicit path
//! is given, the worker's `http(s)://` status URL is converted to the
//! `dav://` form on the same authority, falling back to the canonical local
//! endpoint.

use vstd::prelude::*;
use vstd::string::StrSliceExecFns;
use vstd::string::StringExecFns;

use crate::errors::CommandError;
use crate::mountctl::mount_uri;
use crate::mountctl::mount_uri_spec;
use crate::strutil::find_char;
use crate::strutil::find_char_from;
use crate::strutil::find_from;
use crate::strutil::starts_with_seq;
use crate::strutil::starts_with_str;

verus! {

/// The URI should be handed to the path opener rather than the URL opener.
pub open spec fn path_like(uri: Seq<char>) -> bool {
    ||| starts_with_seq(uri, "/"@)
    ||| starts_with_seq(uri, "file://"@)
    ||| starts_with_seq(uri, "dav://"@)
}

/// Absolute filesystem paths, `file://` URIs and `dav://` URIs are opened
/// as paths, so the system file manager can mount or open them.
pub fn should_open_with_path(uri: &str) -> (r: bool)
    ensures
        r == path_like(uri@),
{
    starts_with_str(uri, "/") || starts_with_str(uri, "file://") || starts_with_str(uri, "dav://")
}

/// `s` with every leading repetition of `p` removed.
pub open spec fn strip_prefix_rep(s: Seq<char>, p: Seq<char>) -> Seq<char>
    decreases s.len(),
{
    if p.len() > 0 && starts_with_seq(s, p) {
        strip_prefix_rep(s.subrange(p.len() as int, s.len() as int), p)
    } else {
        s
    }
}

/// Remove every leading repetition of `p` from `s`.
pub fn strip_prefix_rep_str(s: &str, p: &str) -> (r: String)
    requires
        p@.len() > 0,
    ensures
        r@ == strip_prefix_rep(s@, p@),
{
    let plen = p.unicode_len();
    let mut cur: String = s.to_owned();
    while starts_with_str(cur.as_str(), p)
        invariant
            plen == p@.len(),
            plen > 0,
            strip_prefix_rep(s@, p@) == strip_prefix_rep(cur@, p@),
        decreases cur@.len(),
    {
        let clen = cur.as_str().unicode_len();
        let tmp = cur.as_str().substring_char(plen, clen).to_owned();
        cur = tmp;
    }
    cur
}

/// Which opener handles the URI, and with what argument: `file://` URIs go
/// to the path opener with the scheme stripped, other path-like URIs go to
/// it unchanged, and the rest go to the URL opener.
pub open spec fn open_target(uri: Seq<char>) -> (bool, Seq<char>) {
    if starts_with_seq(uri, "file://"@) {
        (true, strip_prefix_rep(uri, "file://"@))
    } else if path_like(uri) {
        (true, uri)
    } else {
        (false, uri)
    }
}

/// Dispatch the URI to the path opener or the URL opener, as
/// [`open_target`] decides, and return that opener's result.
pub fn open_uri_with<FPath, FUrl>(uri: &str, open_path: FPath, open_url: FUrl) -> (r: Result<
    (),
    CommandError,
>) where FPath: Fn(&str) -> Result<(), CommandError>, FUrl: Fn(&str) -> Result<(), CommandError>
    requires
        forall|a: &str|
            a@ == open_target(uri@).1 && open_target(uri@).0 ==> call_requires(open_path, (a,)),
        forall|a: &str|
            a@ == open_target(uri@).1 && !open_target(uri@).0 ==> call_requires(open_url, (a,)),
    ensures
        open_target(uri@).0 ==> exists|a: &str|
            a@ == open_target(uri@).1 && call_ensures(open_path, (a,), r),
        !open_target(uri@).0 ==> exists|a: &str|
            a@ == open_target(uri@).1 && call_ensures(open_url, (a,), r),
{
    if starts_with_str(uri, "file://") {
        proof {
            reveal_strlit("file://");
        }
        let path = strip_prefix_rep_str(uri, "file://");
        open_path(path.as_str())
    } else if should_open_with_path(uri) {
        open_path(uri)
    } else {
        open_url(uri)
    }
}

/// The authority component of a URI with at least two `/`: the characters
/// after the second `/` up to the next `/`, so `host:port` for the usual
/// `scheme://host:port/...` shape; empty when the shape does not fit.
pub open spec fn authority_of(s: Seq<char>) -> Seq<char> {
    match find_from(s, '/', 0) {
        Some(i1) => match find_from(s, '/', i1 + 1) {
            Some(i2) => {
                let rest = s.subrange(i2 + 1, s.len() as int);
                match find_from(rest, '/', 0) {
                    Some(j) => rest.subrange(0, j),
                    None => rest,
                }
            },
            None => Seq::<char>::empty(),
        },
        None => Seq::<char>::empty(),
    }
}

/// The `host:port` authority of `s`, or the empty string when `s` has no
/// second `/`.
pub fn authority_str(s: &str) -> (r: String)
    ensures
        r@ == authority_of(s@),
{
    let len = s.unicode_len();
    match find_char(s, '/') {
        None => String::new(),
        Some(i1) => match find_char_from(s, '/', i1 + 1) {
            None => String::new(),
            Some(i2) => {
                let rest = s.substring_char(i2 + 1, len);
                let rlen = rest.unicode_len();
                match find_char(rest, '/') {
                    Some(j) => rest.substring_char(0, j).to_owned(),
                    None => rest.to_owned(),
                }
            },
        },
    }
}

/// The URI opened when no explicit path is given: the worker's `dav://`
/// URL as is; an `http(s)://` URL converted to `dav://` on the same
/// authority; otherwise the canonical local endpoint for the configured
/// port.
pub open spec fn dav_uri_choice(server_url: Option<String>, port: u16) -> Seq<char> {
    match server_url {
        None => mount_uri_spec(port),
        Some(surl) => if starts_with_seq(surl@, "dav://"@) {
            surl@
        } else if starts_with_seq(surl@, "http://"@) || starts_with_seq(surl@, "https://"@) {
            if authority_of(surl@).len() > 0 {
                "dav://"@ + authority_of(surl@)
            } else {
                mount_uri_spec(port)
            }
        } else {
            mount_uri_spec(port)
        },
    }
}

/// Choose the URI to open from the worker's reported server URL and the
/// configured port.
pub fn choose_open_uri(server_url: &Option<String>, port: u16) -> (r: String)
    ensures
        r@ == dav_uri_choice(*server_url, port),
{
    match server_url {
        None => mount_uri(port),
        Some(surl) => {
            if starts_with_str(surl.as_str(), "dav://") {
                surl.clone()
            } else if starts_with_str(surl.as_str(), "http://") || starts_with_str(
                surl.as_str(),
                "https://",
            ) {
                let hp = authority_str(surl.as_str());
                if hp.as_str().unicode_len() > 0 {
                    let mut r = String::from_str("dav://");
                    r.append(hp.as_str());
                    r
                } else {
                    mount_uri(port)
                }
            } else {
                mount_uri(port)
            }
        },
    }
}

} // verus!
