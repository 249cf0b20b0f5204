//! The fatal-error handler's side of the bootstrap: the fixed diagnostic
//! message and the exit report the platform layer acts on when the machine
//! reaches a terminal phase.  Every failure is fatal at process
//! granularity: the diagnostic is printed and the process exits non-zero;
//! clean termination exits with status 0 and prints nothing.

use vstd::prelude::*;
use vstd::string::StringExecFns;

use crate::model::Phase;

verus! {

/// The fixed, localized diagnostic printed to standard error whenever the
/// bootstrap aborts.
pub open spec fn diagnostic_text() -> Seq<char> {
    "ORDER Multisig Dashboard uygulaması çalıştırılırken hata oluştu"@
}

/// The exit status owed in a terminal phase: 0 for clean termination,
/// 1 for any abort.
pub open spec fn spec_exit_code(phase: Phase) -> int {
    if phase == Phase::Terminated {
        0
    } else {
        1
    }
}

/// Whether the diagnostic is emitted in a terminal phase.
pub open spec fn emits_diagnostic(phase: Phase) -> bool {
    phase == Phase::Aborted
}

/// What the platform layer does when the machine stops: exit with `code`,
/// after printing `diagnostic` to standard error if there is one.
pub struct ExitReport {
    /// Process exit status.
    pub code: i32,
    /// The diagnostic to print, present exactly when the bootstrap
    /// aborted.
    pub diagnostic: Option<String>,
}

/// The diagnostic message itself, always the same.
pub fn diagnostic_message() -> (message: String)
    ensures
        message@ == diagnostic_text(),
{
    String::from_str("ORDER Multisig Dashboard uygulaması çalıştırılırken hata oluştu")
}

/// The fatal-error handler's decision for a terminal phase: a clean
/// termination owes exit status 0 and no diagnostic; any abort owes the
/// fixed diagnostic and a non-zero status.
pub fn exit_report(phase: Phase) -> (report: ExitReport)
    requires
        phase == Phase::Terminated || phase == Phase::Aborted,
    ensures
        report.code == spec_exit_code(phase),
        report.diagnostic is Some <==> emits_diagnostic(phase),
        report.diagnostic matches Some(message) ==> message@ == diagnostic_text(),
{
    if phase == Phase::Terminated {
        ExitReport { code: 0, diagnostic: None }
    } else {
        ExitReport { code: 1, diagnostic: Some(diagnostic_message()) }
    }
}

} // verus!
