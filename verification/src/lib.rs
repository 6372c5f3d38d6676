//! Job-runner core of a small audiobook maker: the concatenation manifest,
//! the encoder's argument list, the run's status log and its outcome.
//!
//! The library decides and formats; it opens no file and starts no process.
//! A caller asks [`M4bApp::generate_m4b`] for a run, writes the request's
//! manifest to a file, and then reports what happens as [`RunEvent`]s to
//! [`JobRequest::advance`], which keeps the status log and answers each
//! event with the next [`RunAction`].

pub mod command;
pub mod job;
pub mod manifest;
pub mod outcome;
pub mod state;
pub mod status;
pub mod text;

pub use crate::job::{JobRequest, RunAction, RunEvent};
pub use crate::manifest::BuildError;
pub use crate::outcome::RunOutcome;
pub use crate::state::M4bApp;
pub use crate::status::StatusLog;
