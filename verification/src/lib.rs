//! Supervision core for a long-lived WebDAV bridge worker process.
//!
//! The crate models the logic of a desktop front-end that supervises the
//! worker: the closed error taxonomy, the tracked-process state machine,
//! the argument lists and result classification for each worker subcommand,
//! status reconciliation with graceful degradation, and the mount locator
//! that matches a target endpoint against the live OS mount table.

pub mod errors;
pub mod jsonio;
pub mod locator;
pub mod mountctl;
pub mod opener;
pub mod status;
pub mod strutil;
pub mod supervisor;
pub mod worker;
