//! Mount orchestration decisions: the canonical endpoint URI, the check
//! that the server is running, normalization of the mount callback's outcome, the
//! bounded-wait outcome, and the unmount plan for the live mount table.
//!
//! The OS mount call itself is callback-based and platform-specific; the
//! caller runs it on a dedicated thread and feeds what came back — the
//! callback's result, or the expiry of the outer bound — into the decision
//! functions here.

use vstd::prelude::*;
use vstd::string::StrSliceExecFns;
use vstd::string::StringExecFns;

use crate::errors::CommandError;
use crate::locator::extract_port_token;
use crate::locator::find_mount_by_uri;
use crate::locator::first_exact_from;
use crate::locator::first_port_from;
use crate::locator::locate_spec;
use crate::locator::port_token;
use crate::locator::uri_matches;
use crate::status::StatusResponse;
use crate::strutil::contains_seq;
use crate::strutil::contains_str;
use crate::strutil::dec_str;
use crate::strutil::normalize_uri;
use crate::strutil::str_eq;
use crate::strutil::u16_to_string;
use crate::strutil::with_slash;

verus! {

/// The canonical local endpoint URI for `port`.
pub open spec fn mount_uri_spec(port: u16) -> Seq<char> {
    "dav://localhost:"@ + dec_str(port as nat)
}

/// The `dav://localhost:<port>` URI used to address the worker's served
/// filesystem; distinct from the `http(s)://` URL used for status display.
pub fn mount_uri(port: u16) -> (r: String)
    ensures
        r@ == mount_uri_spec(port),
{
    let mut s = String::from_str("dav://localhost:");
    s.append(u16_to_string(port).as_str());
    s
}

/// Gate of `mount`: the worker must report a running server; then the mount
/// targets the canonical local endpoint for the configured port.
pub fn mount_precheck(status: &StatusResponse) -> (r: Result<String, CommandError>)
    ensures
        status.server.running ==> (r matches Ok(u) && u@ == mount_uri_spec(
            status.config.webdav.port,
        )),
        !status.server.running ==> (r matches Err(e) && e matches CommandError::GioError(d)
            && d@ == "WebDAV server is not running. Start the server first."@),
{
    if status.server.running {
        Ok(mount_uri(status.config.webdav.port))
    } else {
        Err(
            CommandError::GioError(
                String::from_str("WebDAV server is not running. Start the server first."),
            ),
        )
    }
}

/// The diagnostic text reports that the target is already mounted.
pub open spec fn already_mounted_msg(m: Seq<char>) -> bool {
    contains_seq(m, "already mounted"@) || contains_seq(m, "Already mounted"@)
}

/// Whether a mount error's text means the target is already mounted, in
/// either capitalization the OS uses.
pub fn is_already_mounted_error(msg: &str) -> (r: bool)
    ensures
        r == already_mounted_msg(msg@),
{
    contains_str(msg, "already mounted") || contains_str(msg, "Already mounted")
}

/// Normalize the mount callback's outcome: an error whose message says the
/// target is already mounted counts as success; every other error passes
/// through unchanged.
pub fn classify_mount_callback(result: Result<(), String>) -> (r: Result<(), String>)
    ensures
        result is Ok ==> r is Ok,
        result matches Err(e) ==> ((already_mounted_msg(e@) ==> r is Ok) && (!already_mounted_msg(
            e@,
        ) ==> (r matches Err(d) && d == e))),
{
    match result {
        Ok(()) => Ok(()),
        Err(e) => {
            if is_already_mounted_error(e.as_str()) {
                Ok(())
            } else {
                Err(e)
            }
        },
    }
}

/// What the orchestrator's outer bounded wait on the mount thread yielded.
#[derive(Debug)]
pub enum MountWait {
    /// The mount thread delivered the (already normalized) callback result.
    Completed(Result<(), String>),
    /// The outer bound expired before the mount thread delivered anything.
    TimedOut,
}

/// The mount operation's final result: success passes through; a callback
/// error is surfaced as a `GioError` carrying the OS's diagnostic text; an
/// expired outer bound is a distinct, never silently swallowed timeout.
pub fn finish_mount(w: MountWait) -> (r: Result<(), CommandError>)
    ensures
        w matches MountWait::Completed(res) ==> ((res is Ok ==> r is Ok) && (res matches Err(e)
            ==> (r matches Err(ce) && ce matches CommandError::GioError(d) && d@
            == "Failed to mount: "@ + e@))),
        w is TimedOut ==> (r matches Err(ce) && ce is MountTimeout),
{
    match w {
        MountWait::Completed(res) => match res {
            Ok(()) => Ok(()),
            Err(e) => {
                let mut m = String::from_str("Failed to mount: ");
                m.append(e.as_str());
                Err(CommandError::GioError(m))
            },
        },
        MountWait::TimedOut => Err(CommandError::MountTimeout),
    }
}

/// What the unmount operation should do, given the live mount table.
#[derive(Debug, Clone, Copy, PartialEq, Eq, Structural)]
pub enum UnmountPlan {
    /// The entry at this index is the locator's match; dispatch the OS
    /// unmount call on its URI.
    Unmount(usize),
    /// A matching mount exists but the OS reports it cannot be unmounted.
    NotUnmountable,
    /// No mount matches the target.
    NotFound,
}

/// Decide the unmount: run the locator over the table; an unmountable match
/// is dispatched on the matched entry — the first whose URI equals the
/// target exactly (after slash normalization) or, when no URI does, the
/// first whose URI contains the target's `:<port>` token.
pub fn plan_unmount(mounts: &Vec<(String, bool)>, target: &str) -> (r: UnmountPlan)
    ensures
        (r is NotFound) == (locate_spec(mounts@, target@) is None),
        (r is NotUnmountable) == (locate_spec(mounts@, target@) == Some(false)),
        (r matches UnmountPlan::Unmount(_)) == (locate_spec(mounts@, target@) == Some(true)),
        r matches UnmountPlan::Unmount(i) ==> i < mounts@.len() && mounts@[i as int].1 && (
        match first_exact_from(mounts@, target@, 0) {
            Some(j) => i as int == j,
            None => (port_token(target@) matches Some(tok) && first_port_from(mounts@, tok, 0)
                == Some(i as int)),
        }),
{
    match find_mount_by_uri(mounts, target) {
        None => UnmountPlan::NotFound,
        Some(false) => UnmountPlan::NotUnmountable,
        Some(true) => {
            let nt = normalize_uri(target);
            let n = mounts.len();
            let mut i: usize = 0;
            while i < n
                invariant
                    n == mounts@.len(),
                    nt@ == with_slash(target@),
                    0 <= i <= n,
                    first_exact_from(mounts@, target@, 0) == first_exact_from(
                        mounts@,
                        target@,
                        i as int,
                    ),
                    locate_spec(mounts@, target@) == Some(true),
                decreases n - i,
            {
                let nu = normalize_uri(mounts[i].0.as_str());
                if str_eq(nu.as_str(), nt.as_str()) {
                    return UnmountPlan::Unmount(i);
                }
                i += 1;
            }
            match extract_port_token(target) {
                Some(tok) => {
                    let mut i: usize = 0;
                    while i < n
                        invariant
                            n == mounts@.len(),
                            0 <= i <= n,
                            port_token(target@) == Some(tok@),
                            first_exact_from(mounts@, target@, 0) is None,
                            first_port_from(mounts@, tok@, 0) == first_port_from(
                                mounts@,
                                tok@,
                                i as int,
                            ),
                            locate_spec(mounts@, target@) == Some(true),
                        decreases n - i,
                    {
                        if contains_str(mounts[i].0.as_str(), tok.as_str()) {
                            return UnmountPlan::Unmount(i);
                        }
                        i += 1;
                    }
                    proof {
                        assert(false);
                    }
                    UnmountPlan::NotFound
                },
                None => {
                    proof {
                        assert(false);
                    }
                    UnmountPlan::NotFound
                },
            }
        },
    }
}

/// The refusal for a plan that dispatches nothing: a mount the OS cannot
/// unmount and a missing mount are distinct user-facing errors, never
/// merged; a plan that names an entry is no refusal.
pub fn unmount_refusal(plan: &UnmountPlan) -> (r: Option<CommandError>)
    ensures
        plan matches UnmountPlan::Unmount(_) ==> r is None,
        plan is NotUnmountable ==> (r matches Some(e) && e matches CommandError::GioError(d)
            && d@ == "Mount cannot be unmounted via GIO"@),
        plan is NotFound ==> (r matches Some(e) && e matches CommandError::GioError(d) && d@
            == "Mount not found"@),
{
    match plan {
        UnmountPlan::Unmount(_) => None,
        UnmountPlan::NotUnmountable => Some(
            CommandError::GioError(String::from_str("Mount cannot be unmounted via GIO")),
        ),
        UnmountPlan::NotFound => Some(CommandError::GioError(String::from_str("Mount not found"))),
    }
}

/// The unmount dispatch's result: a nonzero OS result is surfaced as a
/// `GioError` carrying the OS's diagnostic text.
pub fn finish_unmount(success: bool, stderr: &str) -> (r: Result<(), CommandError>)
    ensures
        (r is Ok) == success,
        !success ==> (r matches Err(e) && e matches CommandError::GioError(d) && d@
            == "Failed to unmount: "@ + stderr@),
{
    if success {
        Ok(())
    } else {
        let mut m = String::from_str("Failed to unmount: ");
        m.append(stderr);
        Err(CommandError::GioError(m))
    }
}

/// Index of the first exact match at or after `i` among bare mount URIs.
pub open spec fn first_exact_uri_from(uris: Seq<String>, t: Seq<char>, i: int) -> Option<int>
    decreases uris.len() - i,
{
    if i < 0 || i >= uris.len() {
        None
    } else if uri_matches(uris[i]@, t) {
        Some(i)
    } else {
        first_exact_uri_from(uris, t, i + 1)
    }
}

/// The first mount whose URI equals the target exactly (after slash
/// normalization), used to answer "is the target currently mounted" and to
/// name the matching mount.
pub fn find_exact_mount(uris: &Vec<String>, target: &str) -> (r: Option<usize>)
    ensures
        (r is Some) == (first_exact_uri_from(uris@, target@, 0) is Some),
        r matches Some(i) ==> first_exact_uri_from(uris@, target@, 0) == Some(i as int)
            && i < uris@.len(),
{
    let nt = normalize_uri(target);
    let n = uris.len();
    let mut i: usize = 0;
    while i < n
        invariant
            n == uris@.len(),
            nt@ == with_slash(target@),
            0 <= i <= n,
            first_exact_uri_from(uris@, target@, 0) == first_exact_uri_from(
                uris@,
                target@,
                i as int,
            ),
        decreases n - i,
    {
        let nu = normalize_uri(uris[i].as_str());
        if str_eq(nu.as_str(), nt.as_str()) {
            return Some(i);
        }
        i += 1;
    }
    None
}

} // verus!
