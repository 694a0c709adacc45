//! Supervision of a local backend server that a desktop shell starts as a
//! child process: where the backend listens, how its output and its health
//! endpoint are read for readiness, and what is published to the frontend.
//!
//! The library decides; the shell around it performs the process, network and
//! timer work and hands back what it observed.

pub mod command;
pub mod endpoints;
pub mod marker;
pub mod runs;
pub mod status;
pub mod supervisor;
