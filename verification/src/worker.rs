//! The worker's command-line contract: argument lists for each subcommand
//! and classification of each invocation's outcome.
//!
//! Every operation invokes the worker binary once with a fixed argument
//! list and reads its exit status; stderr carries the diagnostic on failure.

use vstd::prelude::*;
use vstd::string::StringExecFns;

use crate::errors::CommandError;
use crate::strutil::dec_str;
use crate::strutil::u16_to_string;

verus! {

/// Arguments that launch the worker in the foreground: interactive
/// authentication is disabled so mounting works before login, and
/// daemonization is disabled so the output streams stay capturable.
/// The optional port is passed through as `--port N`.
pub fn build_start_args(port: Option<u16>) -> (r: Vec<String>)
    ensures
        port is None ==> r@.len() == 3,
        port matches Some(p) ==> r@.len() == 5 && r@[3]@ == "--port"@ && r@[4]@ == dec_str(
            p as nat,
        ),
        r@[0]@ == "start"@,
        r@[1]@ == "--no-auth"@,
        r@[2]@ == "--no-daemon"@,
{
    let mut args: Vec<String> = Vec::new();
    args.push(String::from_str("start"));
    args.push(String::from_str("--no-auth"));
    args.push(String::from_str("--no-daemon"));
    if let Some(p) = port {
        args.push(String::from_str("--port"));
        args.push(u16_to_string(p));
    }
    args
}

/// Arguments of the graceful-shutdown invocation.
pub fn build_stop_args() -> (r: Vec<String>)
    ensures
        r@.len() == 1,
        r@[0]@ == "stop"@,
{
    let mut args: Vec<String> = Vec::new();
    args.push(String::from_str("stop"));
    args
}

/// Arguments of the status query: one JSON object on stdout.
pub fn build_status_args() -> (r: Vec<String>)
    ensures
        r@.len() == 2,
        r@[0]@ == "status"@,
        r@[1]@ == "--json"@,
{
    let mut args: Vec<String> = Vec::new();
    args.push(String::from_str("status"));
    args.push(String::from_str("--json"));
    args
}

/// Arguments that initiate authentication for `email`.
pub fn build_login_args(email: &str) -> (r: Vec<String>)
    ensures
        r@.len() == 4,
        r@[0]@ == "auth"@,
        r@[1]@ == "login"@,
        r@[2]@ == "--username"@,
        r@[3]@ == email@,
{
    let mut args: Vec<String> = Vec::new();
    args.push(String::from_str("auth"));
    args.push(String::from_str("login"));
    args.push(String::from_str("--username"));
    args.push(email.to_owned());
    args
}

/// Arguments that clear the worker's stored credentials.
pub fn build_logout_args() -> (r: Vec<String>)
    ensures
        r@.len() == 2,
        r@[0]@ == "auth"@,
        r@[1]@ == "--logout"@,
{
    let mut args: Vec<String> = Vec::new();
    args.push(String::from_str("auth"));
    args.push(String::from_str("--logout"));
    args
}

/// Arguments that clear the worker-side cache.
pub fn build_purge_cache_args() -> (r: Vec<String>)
    ensures
        r@.len() == 2,
        r@[0]@ == "config"@,
        r@[1]@ == "--purge-cache"@,
{
    let mut args: Vec<String> = Vec::new();
    args.push(String::from_str("config"));
    args.push(String::from_str("--purge-cache"));
    args
}

/// Outcome of an authentication invocation (login or logout): a nonzero
/// exit reports `AuthFailed` carrying the worker's stderr text.
pub fn classify_auth_result(success: bool, stderr: &str) -> (r: Result<(), CommandError>)
    ensures
        (r is Ok) == success,
        !success ==> (r matches Err(e) && e matches CommandError::AuthFailed(d) && d@ == stderr@),
{
    if success {
        Ok(())
    } else {
        Err(CommandError::AuthFailed(stderr.to_owned()))
    }
}

/// Outcome of a plain worker command such as the cache purge: a nonzero
/// exit reports `SidecarCommandFailed` carrying the worker's stderr text.
pub fn classify_command_result(success: bool, stderr: &str) -> (r: Result<(), CommandError>)
    ensures
        (r is Ok) == success,
        !success ==> (r matches Err(e) && e matches CommandError::SidecarCommandFailed(d)
            && d@ == stderr@),
{
    if success {
        Ok(())
    } else {
        Err(CommandError::SidecarCommandFailed(stderr.to_owned()))
    }
}

} // verus!
