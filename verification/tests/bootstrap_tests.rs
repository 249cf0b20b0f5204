//! Scenario tests that drive the bootstrap machine the way the platform
//! layer does, and check the observable outcomes: directives, phases, the
//! plugin set, exit status and the diagnostic.

use order_dashboard::bootstrap::App;
use order_dashboard::bootstrap::AppBuilder;
use order_dashboard::model::BootError;
use order_dashboard::model::BuildMode;
use order_dashboard::model::LogLevel;
use order_dashboard::model::LoggingDirective;
use order_dashboard::model::Phase;
use order_dashboard::model::WindowDirective;
use order_dashboard::report::diagnostic_message;
use order_dashboard::report::exit_report;

const DIAGNOSTIC: &str = "ORDER Multisig Dashboard uygulaması çalıştırılırken hata oluştu";

fn built(mode: BuildMode) -> App {
    AppBuilder::new(mode).build()
}

#[test]
fn builder_constructs_default_application() {
    let app = built(BuildMode::Debug);
    assert_eq!(app.phase(), Phase::Built);
    assert_eq!(app.plugins().len(), 0);
    assert!(!app.inspector_open());
    assert_eq!(app.runs(), 0);
    assert!(app.error().is_none());
    assert!(!app.ready_to_run());
}

#[test]
fn scenario_a_debug_clean_run() {
    let mut app = built(BuildMode::Debug);
    app.begin_setup();
    let directive = app.check_main_window(true);
    assert_eq!(directive, WindowDirective::OpenInspector);
    assert!(app.inspector_open());
    let directive = app.install_logging();
    assert_eq!(directive, LoggingDirective::Register(LogLevel::Info));
    app.finish_registration(true);
    assert_eq!(app.plugins().len(), 1);
    assert_eq!(app.plugins()[0].level, LogLevel::Info);
    assert!(app.ready_to_run());
    app.enter_run_loop();
    assert_eq!(app.phase(), Phase::Running);
    assert_eq!(app.runs(), 1);
    app.finish_run(true);
    assert_eq!(app.phase(), Phase::Terminated);
    let report = exit_report(app.phase());
    assert_eq!(report.code, 0);
    assert!(report.diagnostic.is_none());
}

#[test]
fn scenario_b_debug_missing_window() {
    let mut app = built(BuildMode::Debug);
    app.begin_setup();
    let directive = app.check_main_window(false);
    assert_eq!(directive, WindowDirective::Abort);
    assert_eq!(app.phase(), Phase::Aborted);
    assert_eq!(app.error(), Some(BootError::MissingWindow));
    assert_eq!(app.runs(), 0);
    assert!(!app.ready_to_run());
    assert!(!app.inspector_open());
    let report = exit_report(app.phase());
    assert_ne!(report.code, 0);
    assert_eq!(report.diagnostic.as_deref(), Some(DIAGNOSTIC));
}

#[test]
fn scenario_c_release_run_window_present() {
    let mut app = built(BuildMode::Release);
    app.begin_setup();
    assert_eq!(app.check_main_window(true), WindowDirective::Skip);
    assert_eq!(app.install_logging(), LoggingDirective::Skip);
    assert!(!app.inspector_open());
    assert_eq!(app.plugins().len(), 0);
    app.enter_run_loop();
    assert_eq!(app.phase(), Phase::Running);
    app.finish_run(true);
    let report = exit_report(app.phase());
    assert_eq!(report.code, 0);
    assert!(report.diagnostic.is_none());
}

#[test]
fn scenario_c_release_run_window_absent() {
    let mut app = built(BuildMode::Release);
    app.begin_setup();
    assert_eq!(app.check_main_window(false), WindowDirective::Skip);
    assert_eq!(app.install_logging(), LoggingDirective::Skip);
    assert!(!app.inspector_open());
    assert_eq!(app.plugins().len(), 0);
    assert!(app.ready_to_run());
    app.enter_run_loop();
    app.finish_run(true);
    assert_eq!(exit_report(app.phase()).code, 0);
}

#[test]
fn scenario_d_run_loop_failure() {
    let mut app = built(BuildMode::Release);
    app.begin_setup();
    app.check_main_window(true);
    app.install_logging();
    app.enter_run_loop();
    app.finish_run(false);
    assert_eq!(app.phase(), Phase::Aborted);
    assert_eq!(app.error(), Some(BootError::RunLoop));
    let report = exit_report(app.phase());
    assert_ne!(report.code, 0);
    assert_eq!(report.diagnostic.as_deref(), Some(DIAGNOSTIC));
}

#[test]
fn debug_run_loop_failure_also_fatal() {
    let mut app = built(BuildMode::Debug);
    app.begin_setup();
    app.check_main_window(true);
    app.install_logging();
    app.finish_registration(true);
    app.enter_run_loop();
    app.finish_run(false);
    assert_eq!(app.error(), Some(BootError::RunLoop));
    let report = exit_report(app.phase());
    assert_ne!(report.code, 0);
    assert!(report.diagnostic.is_some());
}

#[test]
fn registration_failure_aborts_before_run_loop() {
    let mut app = built(BuildMode::Debug);
    app.begin_setup();
    app.check_main_window(true);
    let directive = app.install_logging();
    assert!(matches!(directive, LoggingDirective::Register(LogLevel::Info)));
    app.finish_registration(false);
    assert_eq!(app.phase(), Phase::Aborted);
    assert_eq!(app.error(), Some(BootError::PluginRegistration));
    assert_eq!(app.plugins().len(), 0);
    assert_eq!(app.runs(), 0);
    assert!(!app.ready_to_run());
    let report = exit_report(app.phase());
    assert_ne!(report.code, 0);
    assert_eq!(report.diagnostic.as_deref(), Some(DIAGNOSTIC));
}

#[test]
fn release_never_registers_logging() {
    let mut app = built(BuildMode::Release);
    app.begin_setup();
    app.check_main_window(false);
    assert_eq!(app.install_logging(), LoggingDirective::Skip);
    assert_eq!(app.plugins().len(), 0);
    assert!(!app.inspector_open());
}

#[test]
fn run_loop_entered_at_most_once() {
    let mut app = built(BuildMode::Release);
    app.begin_setup();
    app.check_main_window(true);
    app.install_logging();
    assert!(app.ready_to_run());
    app.enter_run_loop();
    assert!(!app.ready_to_run());
    assert_eq!(app.runs(), 1);
    app.finish_run(true);
    assert!(!app.ready_to_run());
    assert_eq!(app.runs(), 1);
}

#[test]
fn diagnostic_message_is_fixed() {
    assert_eq!(diagnostic_message(), DIAGNOSTIC);
    assert_eq!(diagnostic_message(), diagnostic_message());
}
