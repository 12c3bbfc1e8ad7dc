//! A small library behind a desktop PDF viewer shell.
//!
//! Two concerns live here, both verified:
//! - provisioning the prebuilt native rendering library at build time
//!   (platform tags, artifact naming, cache decisions, archive extraction,
//!   and the install step's effect on the output directory), and
//! - the session state machine that holds the currently loaded document
//!   behind the application's lock.

pub mod archive;
pub mod artifact;
pub mod platform;
pub mod provision;
pub mod session;
pub mod text;
