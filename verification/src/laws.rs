//! Machine-wide guarantees of the bootstrap, each proved over the abstract
//! state and the spec transitions that the executable methods are pinned
//! to.

use vstd::prelude::*;

use crate::bootstrap::AppView;
use crate::bootstrap::BootEvent;
use crate::model::BootError;
use crate::model::BuildMode;
use crate::model::LogLevel;
use crate::model::LoggingDirective;
use crate::model::Phase;
use crate::model::Plugin;
use crate::model::WindowDirective;
use crate::report::emits_diagnostic;
use crate::report::spec_exit_code;

verus! {

/// A fresh builder's state is well formed.
pub proof fn lemma_initial_wf(mode: BuildMode)
    ensures
        AppView::initial(mode).wf(),
{
}

/// Every step of the machine preserves well-formedness, never runs the
/// run loop a second time, and never leaves a terminal or running phase
/// for the setup phase again.  In particular, once `Running` is entered
/// the plugin set never changes again.
pub proof fn lemma_step_preserves_wf(state: AppView, event: BootEvent)
    requires
        state.wf(),
    ensures
        state.spec_step(event).wf(),
        state.spec_step(event).runs <= 1,
        state.spec_step(event).runs >= state.runs,
        (state.phase == Phase::Running || state.phase == Phase::Terminated
            || state.phase == Phase::Aborted) ==> state.spec_step(event).phase != Phase::SettingUp,
        state.phase == Phase::Running || state.phase == Phase::Terminated
            || state.phase == Phase::Aborted ==> state.spec_step(event).plugins == state.plugins,
{
}

/// The run loop is entered at most once: in any well-formed state whose
/// run counter already reached one, no step can enter it again.
pub proof fn lemma_run_loop_at_most_once(state: AppView, event: BootEvent)
    requires
        state.wf(),
        state.runs >= 1,
    ensures
        !state.can_enter_run_loop(),
        state.spec_step(event).runs == state.runs,
{
}

/// Every state reachable by any finite sequence of events from a
/// well-formed state — in particular from a fresh builder — is well
/// formed and has entered the run loop at most once.
pub proof fn lemma_reachable_wf(state: AppView, events: Seq<BootEvent>)
    requires
        state.wf(),
    ensures
        state.spec_run(events).wf(),
        state.spec_run(events).runs <= 1,
    decreases events.len(),
{
    if events.len() > 0 {
        lemma_step_preserves_wf(state, events[0]);
        lemma_reachable_wf(state.spec_step(events[0]), events.drop_first());
    }
}

/// Release builds never run the debug-only steps: for any window lookup
/// outcome, setup skips the inspector and the logging registration,
/// completes, and enters the run loop — with no inspector open and an
/// empty plugin set.
pub proof fn lemma_release_setup(state: AppView, window_present: bool)
    requires
        state.wf(),
        state.mode == BuildMode::Release,
        state.phase == Phase::Built,
    ensures
        ({
            let setup = state.spec_begin_setup();
            let (checked, window_directive) = setup.spec_check_main_window(window_present);
            let (installed, logging_directive) = checked.spec_install_logging();
            &&& setup.can_check_main_window()
            &&& window_directive == WindowDirective::Skip
            &&& checked.can_install_logging()
            &&& logging_directive == LoggingDirective::Skip
            &&& installed.can_enter_run_loop()
            &&& !installed.inspector_open
            &&& installed.plugins.len() == 0
            &&& installed.spec_enter_run_loop().phase == Phase::Running
            &&& installed.spec_enter_run_loop().runs == 1
        }),
{
}

/// A debug build whose main window exists and whose logging registration
/// succeeds completes setup: the inspector is ordered open, exactly the
/// logging capability at severity floor `Info` is registered, and the run
/// loop is entered exactly once.
pub proof fn lemma_debug_setup_success(state: AppView)
    requires
        state.wf(),
        state.mode == BuildMode::Debug,
        state.phase == Phase::Built,
    ensures
        ({
            let setup = state.spec_begin_setup();
            let (checked, window_directive) = setup.spec_check_main_window(true);
            let (installed, logging_directive) = checked.spec_install_logging();
            let registered = installed.spec_finish_registration(true);
            let running = registered.spec_enter_run_loop();
            &&& window_directive == WindowDirective::OpenInspector
            &&& checked.inspector_open
            &&& logging_directive == LoggingDirective::Register(LogLevel::Info)
            &&& registered.can_enter_run_loop()
            &&& registered.plugins =~= seq![(Plugin { level: LogLevel::Info })]
            &&& running.phase == Phase::Running
            &&& running.runs == 1
            &&& running.wf()
        }),
{
}

/// A debug build whose main window is absent aborts during setup, before
/// the run loop is ever entered: the abort directive comes back, the
/// machine is `Aborted` with a missing-window error, its run counter is
/// still zero, and no state reachable from it can enter the run loop.
pub proof fn lemma_debug_missing_window_aborts(state: AppView, event: BootEvent)
    requires
        state.wf(),
        state.mode == BuildMode::Debug,
        state.phase == Phase::Built,
    ensures
        ({
            let setup = state.spec_begin_setup();
            let (aborted, window_directive) = setup.spec_check_main_window(false);
            &&& window_directive == WindowDirective::Abort
            &&& aborted.phase == Phase::Aborted
            &&& aborted.error == Some(BootError::MissingWindow)
            &&& aborted.runs == 0
            &&& !aborted.can_enter_run_loop()
            &&& aborted.spec_step(event) == aborted
        }),
{
}

/// Every recorded error is fatal: a well-formed state holding a setup or
/// run-loop error is `Aborted`, owes a non-zero exit status, and owes the
/// fixed diagnostic.
pub proof fn lemma_errors_are_fatal(state: AppView)
    requires
        state.wf(),
        state.error is Some,
    ensures
        state.phase == Phase::Aborted,
        spec_exit_code(state.phase) != 0,
        emits_diagnostic(state.phase),
{
}

/// Clean termination owes exit status 0 and no diagnostic: the run loop
/// ran exactly once and no error was recorded.
pub proof fn lemma_clean_termination(state: AppView)
    requires
        state.wf(),
        state.phase == Phase::Terminated,
    ensures
        spec_exit_code(state.phase) == 0,
        !emits_diagnostic(state.phase),
        state.error is None,
        state.runs == 1,
{
}

} // verus!
