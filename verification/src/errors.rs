//! Closed error taxonomy shared by every supervisor operation.
//!
//! Each failure kind carries an optional free-text diagnostic and exposes a
//! stable machine-readable code, distinct from its human-readable message,
//! so callers can discriminate programmatically while still showing text.

use vstd::prelude::*;
use vstd::string::StringExecFns;

use crate::strutil::dec_str;
use crate::strutil::u16_to_string;

verus! {

/// A failure of a supervisor command.
///
/// The set is closed: every operation of the crate reports one of these
/// kinds, and each kind maps to exactly one stable code string.
#[derive(Debug, Clone)]
pub enum CommandError {
    SidecarAlreadyRunning,
    SidecarNotRunning,
    SidecarSpawnFailed(String),
    SidecarCommandFailed(String),
    InvalidPort(String),
    PortInUse(u16),
    InvalidEmail(String),
    AuthFailed(String),
    ServerInitTimeout,
    MountTimeout,
    ServerNotRunning,
    GioError(String),
    IoError(String),
    Unknown(String),
}

/// The stable machine code of each error kind.
pub open spec fn code_spec(e: CommandError) -> Seq<char> {
    match e {
        CommandError::SidecarAlreadyRunning => "SIDECAR_ALREADY_RUNNING"@,
        CommandError::SidecarNotRunning => "SIDECAR_NOT_RUNNING"@,
        CommandError::SidecarSpawnFailed(_) => "SIDECAR_SPAWN_FAILED"@,
        CommandError::SidecarCommandFailed(_) => "SIDECAR_COMMAND_FAILED"@,
        CommandError::InvalidPort(_) => "INVALID_PORT"@,
        CommandError::PortInUse(_) => "PORT_IN_USE"@,
        CommandError::InvalidEmail(_) => "INVALID_EMAIL"@,
        CommandError::AuthFailed(_) => "AUTH_FAILED"@,
        CommandError::ServerInitTimeout => "SERVER_INIT_TIMEOUT"@,
        CommandError::MountTimeout => "MOUNT_TIMEOUT"@,
        CommandError::ServerNotRunning => "SERVER_NOT_RUNNING"@,
        CommandError::GioError(_) => "GIO_ERROR"@,
        CommandError::IoError(_) => "IO_ERROR"@,
        CommandError::Unknown(_) => "UNKNOWN_ERROR"@,
    }
}

impl CommandError {
    /// The stable code for client-side discrimination.
    pub fn code(&self) -> (r: &'static str)
        ensures
            r@ == code_spec(*self),
    {
        match self {
            CommandError::SidecarAlreadyRunning => "SIDECAR_ALREADY_RUNNING",
            CommandError::SidecarNotRunning => "SIDECAR_NOT_RUNNING",
            CommandError::SidecarSpawnFailed(_) => "SIDECAR_SPAWN_FAILED",
            CommandError::SidecarCommandFailed(_) => "SIDECAR_COMMAND_FAILED",
            CommandError::InvalidPort(_) => "INVALID_PORT",
            CommandError::PortInUse(_) => "PORT_IN_USE",
            CommandError::InvalidEmail(_) => "INVALID_EMAIL",
            CommandError::AuthFailed(_) => "AUTH_FAILED",
            CommandError::ServerInitTimeout => "SERVER_INIT_TIMEOUT",
            CommandError::MountTimeout => "MOUNT_TIMEOUT",
            CommandError::ServerNotRunning => "SERVER_NOT_RUNNING",
            CommandError::GioError(_) => "GIO_ERROR",
            CommandError::IoError(_) => "IO_ERROR",
            CommandError::Unknown(_) => "UNKNOWN_ERROR",
        }
    }

    /// The human-readable message of each error kind, with the diagnostic
    /// detail appended where the kind carries one.
    pub fn message(&self) -> (r: String)
        ensures
            r@ == message_spec(*self),
    {
        match self {
            CommandError::SidecarAlreadyRunning => String::from_str("Sidecar already running"),
            CommandError::SidecarNotRunning => String::from_str("Sidecar not running"),
            CommandError::SidecarSpawnFailed(d) => {
                let mut m = String::from_str("Failed to spawn sidecar: ");
                m.append(d.as_str());
                m
            },
            CommandError::SidecarCommandFailed(d) => {
                let mut m = String::from_str("Sidecar command failed: ");
                m.append(d.as_str());
                m
            },
            CommandError::InvalidPort(d) => {
                let mut m = String::from_str("Invalid port number: ");
                m.append(d.as_str());
                m
            },
            CommandError::PortInUse(p) => {
                let mut m = String::from_str("Port already in use: ");
                m.append(u16_to_string(*p).as_str());
                m
            },
            CommandError::InvalidEmail(d) => {
                let mut m = String::from_str("Invalid email format: ");
                m.append(d.as_str());
                m
            },
            CommandError::AuthFailed(d) => {
                let mut m = String::from_str("Authentication failed: ");
                m.append(d.as_str());
                m
            },
            CommandError::ServerInitTimeout => String::from_str("Server initialization timeout"),
            CommandError::MountTimeout => String::from_str("Mount operation timeout"),
            CommandError::ServerNotRunning => String::from_str("Server not running"),
            CommandError::GioError(d) => {
                let mut m = String::from_str("GIO error: ");
                m.append(d.as_str());
                m
            },
            CommandError::IoError(d) => {
                let mut m = String::from_str("IO error: ");
                m.append(d.as_str());
                m
            },
            CommandError::Unknown(d) => {
                let mut m = String::from_str("Unknown error: ");
                m.append(d.as_str());
                m
            },
        }
    }
}

/// The human-readable message of each error kind.
pub open spec fn message_spec(e: CommandError) -> Seq<char> {
    match e {
        CommandError::SidecarAlreadyRunning => "Sidecar already running"@,
        CommandError::SidecarNotRunning => "Sidecar not running"@,
        CommandError::SidecarSpawnFailed(d) => "Failed to spawn sidecar: "@ + d@,
        CommandError::SidecarCommandFailed(d) => "Sidecar command failed: "@ + d@,
        CommandError::InvalidPort(d) => "Invalid port number: "@ + d@,
        CommandError::PortInUse(p) => "Port already in use: "@ + dec_str(p as nat),
        CommandError::InvalidEmail(d) => "Invalid email format: "@ + d@,
        CommandError::AuthFailed(d) => "Authentication failed: "@ + d@,
        CommandError::ServerInitTimeout => "Server initialization timeout"@,
        CommandError::MountTimeout => "Mount operation timeout"@,
        CommandError::ServerNotRunning => "Server not running"@,
        CommandError::GioError(d) => "GIO error: "@ + d@,
        CommandError::IoError(d) => "IO error: "@ + d@,
        CommandError::Unknown(d) => "Unknown error: "@ + d@,
    }
}

} // verus!
