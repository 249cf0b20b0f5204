//! The bootstrap state machine itself: the abstract state, its transitions,
//! the builder, and the executable application handle that the platform
//! layer drives.
//!
//! Each executable method's contract pins the new state to a spec-level
//! transition function, so every property of the machine can be stated and
//! proved over the abstract state alone.

use vstd::prelude::*;

use crate::model::BootError;
use crate::model::BuildMode;
use crate::model::LogLevel;
use crate::model::LoggingDirective;
use crate::model::Phase;
use crate::model::Plugin;
use crate::model::WindowDirective;

verus! {

/// Abstract state of the bootstrap machine.
///
/// `runs` counts how often the platform run loop has been entered; the
/// well-formedness invariant keeps it at most one.  `window_checked`,
/// `registration_pending` and `logging_done` record progress through the
/// one-time setup phase.
pub struct AppView {
    /// Build mode fixed for the process lifetime.
    pub mode: BuildMode,
    /// Current lifecycle phase.
    pub phase: Phase,
    /// The window controller has finished (looked up "main", or skipped).
    pub window_checked: bool,
    /// A logging registration was handed to the platform layer and its
    /// outcome has not been reported back yet.
    pub registration_pending: bool,
    /// The logging installer has finished (registered, or skipped).
    pub logging_done: bool,
    /// The development inspector was ordered open on the main window.
    pub inspector_open: bool,
    /// The application's registered plugin set, in registration order.
    pub plugins: Seq<Plugin>,
    /// How often the run loop has been entered.
    pub runs: nat,
    /// The fatal condition that ended the bootstrap, if any.
    pub error: Option<BootError>,
}

/// An event reported to the machine by the platform layer, or a phase
/// change the driver requests.  Used to state machine-wide laws over a
/// single total step function.
pub enum BootEvent {
    /// Construct the application from the builder.
    Build,
    /// Enter the one-time setup phase.
    BeginSetup,
    /// The platform layer looked the window named "main" up.
    WindowLookup { window_present: bool },
    /// Run the logging installer.
    InstallLogging,
    /// The platform layer reports whether the logging capability
    /// registered successfully.
    RegistrationOutcome { registered: bool },
    /// Hand the thread to the platform run loop.
    EnterRunLoop,
    /// The run loop returned, cleanly or not.
    RunFinished { clean: bool },
}

impl AppView {
    /// The state a fresh builder starts from.
    pub open spec fn initial(mode: BuildMode) -> AppView {
        AppView {
            mode: mode,
            phase: Phase::Unbuilt,
            window_checked: false,
            registration_pending: false,
            logging_done: false,
            inspector_open: false,
            plugins: Seq::empty(),
            runs: 0,
            error: None,
        }
    }

    /// Well-formedness: what holds of every state the machine can reach.
    pub open spec fn wf(self) -> bool {
        &&& self.runs <= 1
        &&& (self.phase == Phase::Unbuilt || self.phase == Phase::Built) ==> {
            &&& !self.window_checked
            &&& !self.registration_pending
            &&& !self.logging_done
            &&& !self.inspector_open
            &&& self.plugins.len() == 0
            &&& self.runs == 0
            &&& self.error is None
        }
        &&& self.phase == Phase::SettingUp ==> {
            &&& self.runs == 0
            &&& self.error is None
            &&& (self.registration_pending ==> self.mode == BuildMode::Debug
                && self.window_checked && !self.logging_done)
        }
        &&& (self.phase == Phase::Running || self.phase == Phase::Terminated) ==> {
            &&& self.window_checked
            &&& !self.registration_pending
            &&& self.logging_done
            &&& self.runs == 1
            &&& self.error is None
        }
        &&& self.phase == Phase::Aborted ==> {
            &&& self.error is Some
            &&& (self.error == Some(BootError::RunLoop) <==> self.runs == 1)
            &&& (self.error == Some(BootError::MissingWindow) ==> self.mode == BuildMode::Debug
                && !self.inspector_open && self.plugins.len() == 0)
            &&& (self.error == Some(BootError::PluginRegistration) ==> self.mode == BuildMode::Debug
                && self.plugins.len() == 0)
        }
        &&& self.inspector_open ==> self.mode == BuildMode::Debug && self.window_checked
        &&& self.plugins.len() <= 1
        &&& self.plugins.len() == 1 ==> self.mode == BuildMode::Debug
            && self.logging_done && self.plugins[0] == (Plugin { level: LogLevel::Info })
        &&& self.mode == BuildMode::Release ==> !self.inspector_open && self.plugins.len() == 0
        &&& self.logging_done ==> self.window_checked && !self.registration_pending
    }

    /// The builder may construct the application.
    pub open spec fn can_build(self) -> bool {
        self.phase == Phase::Unbuilt
    }

    /// Construction: deterministic, no failure path.
    pub open spec fn spec_build(self) -> AppView {
        AppView { phase: Phase::Built, ..self }
    }

    /// The one-time setup phase may begin.
    pub open spec fn can_begin_setup(self) -> bool {
        self.phase == Phase::Built
    }

    /// Setup begins on the thread that will later run the loop.
    pub open spec fn spec_begin_setup(self) -> AppView {
        AppView { phase: Phase::SettingUp, ..self }
    }

    /// The window controller may run: setup has begun and it has not run.
    pub open spec fn can_check_main_window(self) -> bool {
        self.phase == Phase::SettingUp && !self.window_checked
    }

    /// The window controller's step, given whether the platform layer
    /// found a window named "main".  Debug builds abort on a missing
    /// window and otherwise order the inspector open; release builds do
    /// nothing, whether or not the window exists.
    pub open spec fn spec_check_main_window(self, window_present: bool) -> (AppView, WindowDirective) {
        if self.mode == BuildMode::Debug {
            if window_present {
                (
                    AppView { window_checked: true, inspector_open: true, ..self },
                    WindowDirective::OpenInspector,
                )
            } else {
                (
                    AppView {
                        phase: Phase::Aborted,
                        error: Some(BootError::MissingWindow),
                        ..self
                    },
                    WindowDirective::Abort,
                )
            }
        } else {
            (AppView { window_checked: true, ..self }, WindowDirective::Skip)
        }
    }

    /// The logging installer may run: after the window controller, once.
    pub open spec fn can_install_logging(self) -> bool {
        &&& self.phase == Phase::SettingUp
        &&& self.window_checked
        &&& !self.registration_pending
        &&& !self.logging_done
    }

    /// The logging installer's step: debug builds hand the platform layer
    /// a registration at severity floor `Info`; release builds register
    /// nothing.
    pub open spec fn spec_install_logging(self) -> (AppView, LoggingDirective) {
        if self.mode == BuildMode::Debug {
            (
                AppView { registration_pending: true, ..self },
                LoggingDirective::Register(LogLevel::Info),
            )
        } else {
            (AppView { logging_done: true, ..self }, LoggingDirective::Skip)
        }
    }

    /// A registration outcome may be reported: one was handed out.
    pub open spec fn can_finish_registration(self) -> bool {
        self.phase == Phase::SettingUp && self.registration_pending
    }

    /// Recording the registration outcome: on success the capability joins
    /// the plugin set; on failure setup aborts with a registration error.
    pub open spec fn spec_finish_registration(self, registered: bool) -> AppView {
        if registered {
            AppView {
                registration_pending: false,
                logging_done: true,
                plugins: self.plugins.push(Plugin { level: LogLevel::Info }),
                ..self
            }
        } else {
            AppView {
                registration_pending: false,
                phase: Phase::Aborted,
                error: Some(BootError::PluginRegistration),
                ..self
            }
        }
    }

    /// Setup is complete and the run loop has never been entered: only
    /// here may the run loop start.
    pub open spec fn can_enter_run_loop(self) -> bool {
        &&& self.phase == Phase::SettingUp
        &&& self.window_checked
        &&& self.logging_done
        &&& !self.registration_pending
        &&& self.runs == 0
    }

    /// Entering the run loop: the thread is handed to the platform layer.
    pub open spec fn spec_enter_run_loop(self) -> AppView {
        AppView { phase: Phase::Running, runs: (self.runs + 1) as nat, ..self }
    }

    /// The run loop may end only while it is running.
    pub open spec fn can_finish_run(self) -> bool {
        self.phase == Phase::Running
    }

    /// The run loop returned: clean termination, or a fatal platform
    /// error.
    pub open spec fn spec_finish_run(self, clean: bool) -> AppView {
        if clean {
            AppView { phase: Phase::Terminated, ..self }
        } else {
            AppView { phase: Phase::Aborted, error: Some(BootError::RunLoop), ..self }
        }
    }

    /// The whole machine as one total step function: an event outside its
    /// guard changes nothing.  In particular a registration reported after
    /// the run loop started has no effect on the plugin set.
    pub open spec fn spec_step(self, event: BootEvent) -> AppView {
        match event {
            BootEvent::Build => if self.can_build() {
                self.spec_build()
            } else {
                self
            },
            BootEvent::BeginSetup => if self.can_begin_setup() {
                self.spec_begin_setup()
            } else {
                self
            },
            BootEvent::WindowLookup { window_present } => if self.can_check_main_window() {
                self.spec_check_main_window(window_present).0
            } else {
                self
            },
            BootEvent::InstallLogging => if self.can_install_logging() {
                self.spec_install_logging().0
            } else {
                self
            },
            BootEvent::RegistrationOutcome { registered } => if self.can_finish_registration() {
                self.spec_finish_registration(registered)
            } else {
                self
            },
            BootEvent::EnterRunLoop => if self.can_enter_run_loop() {
                self.spec_enter_run_loop()
            } else {
                self
            },
            BootEvent::RunFinished { clean } => if self.can_finish_run() {
                self.spec_finish_run(clean)
            } else {
                self
            },
        }
    }

    /// The machine after a whole sequence of events, applied in order.
    pub open spec fn spec_run(self, events: Seq<BootEvent>) -> AppView
        decreases events.len(),
    {
        if events.len() == 0 {
            self
        } else {
            self.spec_step(events[0]).spec_run(events.drop_first())
        }
    }
}

/// Builds the application with its default configuration.  Construction
/// cannot fail; the builder only fixes the build mode.
pub struct AppBuilder {
    mode: BuildMode,
}

impl View for AppBuilder {
    type V = AppView;

    closed spec fn view(&self) -> AppView {
        AppView::initial(self.mode)
    }
}

impl AppBuilder {
    /// A fresh builder for the given build mode.
    pub fn new(mode: BuildMode) -> (builder: AppBuilder)
        ensures
            builder@ == AppView::initial(mode),
    {
        AppBuilder { mode }
    }

    /// Construct the application.  Deterministic; no failure path.
    pub fn build(self) -> (app: App)
        ensures
            app@ == self@.spec_build(),
    {
        App {
            mode: self.mode,
            phase: Phase::Built,
            window_checked: false,
            registration_pending: false,
            logging_done: false,
            inspector_open: false,
            plugins: Vec::new(),
            runs: 0,
            error: None,
        }
    }
}

/// The executable application handle: one per process.  The platform layer
/// drives it through the setup phase, the run loop and termination; every
/// method's effect equals the matching spec transition on the view.
pub struct App {
    mode: BuildMode,
    phase: Phase,
    window_checked: bool,
    registration_pending: bool,
    logging_done: bool,
    inspector_open: bool,
    plugins: Vec<Plugin>,
    runs: u32,
    error: Option<BootError>,
}

impl View for App {
    type V = AppView;

    closed spec fn view(&self) -> AppView {
        AppView {
            mode: self.mode,
            phase: self.phase,
            window_checked: self.window_checked,
            registration_pending: self.registration_pending,
            logging_done: self.logging_done,
            inspector_open: self.inspector_open,
            plugins: self.plugins@,
            runs: self.runs as nat,
            error: self.error,
        }
    }
}

impl App {
    /// Enter the one-time setup phase.
    pub fn begin_setup(&mut self)
        requires
            old(self)@.can_begin_setup(),
        ensures
            final(self)@ == old(self)@.spec_begin_setup(),
    {
        self.phase = Phase::SettingUp;
    }

    /// The window controller: given whether the platform layer found a
    /// window named "main", record the outcome and say what to do.  In a
    /// debug build a missing window is fatal; in a release build nothing
    /// happens either way.
    pub fn check_main_window(&mut self, window_present: bool) -> (directive: WindowDirective)
        requires
            old(self)@.can_check_main_window(),
        ensures
            final(self)@ == old(self)@.spec_check_main_window(window_present).0,
            directive == old(self)@.spec_check_main_window(window_present).1,
    {
        if self.mode == BuildMode::Debug {
            if window_present {
                self.window_checked = true;
                self.inspector_open = true;
                WindowDirective::OpenInspector
            } else {
                self.phase = Phase::Aborted;
                self.error = Some(BootError::MissingWindow);
                WindowDirective::Abort
            }
        } else {
            self.window_checked = true;
            WindowDirective::Skip
        }
    }

    /// The logging installer: in a debug build, hand the platform layer a
    /// logging registration at severity floor `Info`; in a release build,
    /// register nothing.
    pub fn install_logging(&mut self) -> (directive: LoggingDirective)
        requires
            old(self)@.can_install_logging(),
        ensures
            final(self)@ == old(self)@.spec_install_logging().0,
            directive == old(self)@.spec_install_logging().1,
    {
        if self.mode == BuildMode::Debug {
            self.registration_pending = true;
            LoggingDirective::Register(LogLevel::Info)
        } else {
            self.logging_done = true;
            LoggingDirective::Skip
        }
    }

    /// Record the outcome of the logging registration the platform layer
    /// performed.  Success appends the capability to the plugin set;
    /// failure aborts setup before the run loop.
    pub fn finish_registration(&mut self, registered: bool)
        requires
            old(self)@.can_finish_registration(),
        ensures
            final(self)@ == old(self)@.spec_finish_registration(registered),
    {
        self.registration_pending = false;
        if registered {
            self.logging_done = true;
            self.plugins.push(Plugin { level: LogLevel::Info });
        } else {
            self.phase = Phase::Aborted;
            self.error = Some(BootError::PluginRegistration);
        }
    }

    /// Hand the calling thread to the platform run loop.  Only a machine
    /// whose setup completed, and whose run loop has never started, may
    /// enter it.
    pub fn enter_run_loop(&mut self)
        requires
            old(self)@.can_enter_run_loop(),
        ensures
            final(self)@ == old(self)@.spec_enter_run_loop(),
    {
        self.phase = Phase::Running;
        self.runs = self.runs + 1;
    }

    /// Record that the run loop returned: cleanly (the user closed the
    /// window or a collaborator signalled exit), or with a platform error.
    pub fn finish_run(&mut self, clean: bool)
        requires
            old(self)@.can_finish_run(),
        ensures
            final(self)@ == old(self)@.spec_finish_run(clean),
    {
        if clean {
            self.phase = Phase::Terminated;
        } else {
            self.phase = Phase::Aborted;
            self.error = Some(BootError::RunLoop);
        }
    }

    /// The build mode the application was constructed with.
    pub fn mode(&self) -> (mode: BuildMode)
        ensures
            mode == self@.mode,
    {
        self.mode
    }

    /// The current lifecycle phase.
    pub fn phase(&self) -> (phase: Phase)
        ensures
            phase == self@.phase,
    {
        self.phase
    }

    /// Whether the development inspector was ordered open.
    pub fn inspector_open(&self) -> (open_now: bool)
        ensures
            open_now == self@.inspector_open,
    {
        self.inspector_open
    }

    /// The registered plugin set, in registration order.
    pub fn plugins(&self) -> (plugins: &Vec<Plugin>)
        ensures
            plugins@ == self@.plugins,
    {
        &self.plugins
    }

    /// How often the run loop has been entered.
    pub fn runs(&self) -> (runs: u32)
        ensures
            runs == self@.runs,
    {
        self.runs
    }

    /// The fatal condition recorded so far, if any.
    pub fn error(&self) -> (error: Option<BootError>)
        ensures
            error == self@.error,
    {
        self.error
    }

    /// Whether the machine may enter the run loop now: setup is complete
    /// and the run loop has never started.
    pub fn ready_to_run(&self) -> (ready: bool)
        ensures
            ready == self@.can_enter_run_loop(),
    {
        self.phase == Phase::SettingUp && self.window_checked && self.logging_done
            && !self.registration_pending && self.runs == 0
    }
}

} // verus!
