//! Bootstrap core for the ORDER Multisig Dashboard desktop application.
//!
//! The library models the application's startup sequence as a small state
//! machine: an application is built, runs its one-time setup phase (the
//! debug-only window inspector and logging installer), enters the platform
//! run loop at most once, and terminates either cleanly or with a fixed
//! diagnostic and a non-zero exit code.  The platform layer that actually
//! opens windows, registers plugins and pumps events lives outside the
//! library; it drives the machine with the outcomes it observes and carries
//! out the directives the machine hands back.

pub mod bootstrap;
pub mod laws;
pub mod model;
pub mod report;
