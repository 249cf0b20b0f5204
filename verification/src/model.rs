//! Plain data carried through the bootstrap machine: build modes, lifecycle
//! phases, plugins, errors, and the directives the machine hands to the
//! platform layer.

use vstd::prelude::*;

verus! {

/// Whether the process was compiled for development or for release.
/// The mode is fixed for the whole process lifetime.
#[derive(Clone, Copy, Debug, PartialEq, Eq, Structural)]
pub enum BuildMode {
    Debug,
    Release,
}

/// The severity floor of a logging capability: messages at this severity
/// and above are emitted.
#[derive(Clone, Copy, Debug, PartialEq, Eq, Structural)]
pub enum LogLevel {
    Off,
    Error,
    Warn,
    Info,
    Debug,
    Trace,
}

/// A capability registered into the application's plugin set during setup.
/// The bootstrap core registers a single logging capability.
#[derive(Clone, Copy, Debug, PartialEq, Eq, Structural)]
pub struct Plugin {
    /// Severity floor the capability was configured with.
    pub level: LogLevel,
}

/// Lifecycle phase of the bootstrap state machine.
#[derive(Clone, Copy, Debug, PartialEq, Eq, Structural)]
pub enum Phase {
    /// The builder exists but the application has not been constructed.
    Unbuilt,
    /// The application exists with its default configuration.
    Built,
    /// The one-time setup phase is in progress.
    SettingUp,
    /// The platform run loop owns the thread.
    Running,
    /// The run loop ended cleanly; the process exits with status 0.
    Terminated,
    /// A fatal condition was hit; the process exits non-zero after the
    /// fixed diagnostic.
    Aborted,
}

/// Why the bootstrap aborted.
#[derive(Clone, Copy, Debug, PartialEq, Eq, Structural)]
pub enum BootError {
    /// The window named "main" was absent during debug-only setup.
    MissingWindow,
    /// The logging capability could not be registered.
    PluginRegistration,
    /// The platform run loop failed after `Running` was entered.
    RunLoop,
}

/// What the window controller asks the platform layer to do.
#[derive(Clone, Copy, Debug, PartialEq, Eq, Structural)]
pub enum WindowDirective {
    /// Attach the development inspector to the window named "main".
    OpenInspector,
    /// Leave the window alone (release builds).
    Skip,
    /// Stop at once: a required window is missing.
    Abort,
}

/// What the logging installer asks the platform layer to do.
#[derive(Clone, Copy, Debug, PartialEq, Eq, Structural)]
pub enum LoggingDirective {
    /// Register a logging capability with the given severity floor and
    /// report the outcome back to the machine.
    Register(LogLevel),
    /// Register nothing (release builds).
    Skip,
}

} // verus!
