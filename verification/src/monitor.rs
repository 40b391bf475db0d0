//! The fault monitor: how one evaluation may end, what that does to the
//! monitor's state, and which diagnostics reach the user.

use vstd::prelude::*;
use crate::compile::{CompileFailure, CompileFailureView};

verus! {

/// Where the monitor stands.
#[derive(Clone, Copy, Debug, PartialEq, Eq, Structural)]
pub enum MonitorState {
    /// No evaluation has been started yet.
    Idle,
    /// A worker is executing an evaluation.
    Running,
    /// The last worker returned, with success or with a reported failure.
    Completed,
    /// The last worker terminated abnormally and the monitor contained it.
    Recovered,
}

/// The kind of payload with which a worker terminated abnormally.
#[derive(Clone, Copy, Debug, PartialEq, Eq, Structural)]
pub enum FaultKind {
    /// A fatal error whose diagnostic was emitted before the fault was raised.
    FatalError,
    /// An explicit bug report whose diagnostic was emitted before the fault
    /// was raised.
    ExplicitBug,
    /// Anything else.
    Other,
}

impl FaultKind {
    /// Whether the fault's diagnostic has reached the user already.
    pub open spec fn spec_already_reported(self) -> bool {
        self is FatalError || self is ExplicitBug
    }

    /// Whether the fault's diagnostic has reached the user already.
    pub fn already_reported(self) -> (reported: bool)
        ensures
            reported == self.spec_already_reported(),
    {
        match self {
            FaultKind::FatalError => true,
            FaultKind::ExplicitBug => true,
            FaultKind::Other => false,
        }
    }
}

/// Why a compiled artifact could not be entered.
#[derive(Clone, Copy, Debug, PartialEq, Eq, Structural)]
pub enum InvocationFailure {
    /// The artifact is malformed, or something it depends on is missing.
    LoadFailure,
    /// The artifact holds no symbol of the requested name.
    SymbolNotFound,
}

/// A failure that the worker reported by returning it.
#[derive(Debug, PartialEq, Eq)]
pub enum EvalFailure {
    /// The unit did not compile.
    Compile(CompileFailure),
    /// The unit compiled, but its entry point could not be called.
    Invocation(InvocationFailure),
}

/// The mathematical content of an [`EvalFailure`].
pub ghost enum EvalFailureView {
    Compile(CompileFailureView),
    Invocation(InvocationFailure),
}

impl View for EvalFailure {
    type V = EvalFailureView;

    open spec fn view(&self) -> EvalFailureView {
        match self {
            EvalFailure::Compile(failure) => EvalFailureView::Compile(failure@),
            EvalFailure::Invocation(failure) => EvalFailureView::Invocation(*failure),
        }
    }
}

/// How a worker ended.
#[derive(Debug, PartialEq, Eq)]
pub enum WorkerExit {
    /// It returned: with success, or with the failure it met.
    Finished(Result<(), EvalFailure>),
    /// It terminated abnormally with a payload of the given kind.
    Faulted(FaultKind),
}

/// The mathematical content of a [`WorkerExit`].
pub ghost enum WorkerExitView {
    Succeeded,
    Failed(EvalFailureView),
    Faulted(FaultKind),
}

impl View for WorkerExit {
    type V = WorkerExitView;

    open spec fn view(&self) -> WorkerExitView {
        match self {
            WorkerExit::Finished(Ok(_)) => WorkerExitView::Succeeded,
            WorkerExit::Finished(Err(failure)) => WorkerExitView::Failed(failure@),
            WorkerExit::Faulted(kind) => WorkerExitView::Faulted(*kind),
        }
    }
}

/// One message for the user.
#[derive(Debug, PartialEq, Eq)]
pub enum Diagnostic {
    /// What the toolchain printed when it rejected the unit.
    CompileError(String),
    /// The engine's own artifact could not be entered.
    InternalError(InvocationFailure),
    /// The worker terminated with a fault that nobody had reported.
    UnexpectedFault,
    /// The output that was captured while the worker ran.
    Captured(String),
}

/// The mathematical content of a [`Diagnostic`].
pub ghost enum DiagnosticView {
    CompileError(Seq<char>),
    InternalError(InvocationFailure),
    UnexpectedFault,
    Captured(Seq<char>),
}

impl View for Diagnostic {
    type V = DiagnosticView;

    open spec fn view(&self) -> DiagnosticView {
        match self {
            Diagnostic::CompileError(output) => DiagnosticView::CompileError(output@),
            Diagnostic::InternalError(failure) => DiagnosticView::InternalError(*failure),
            Diagnostic::UnexpectedFault => DiagnosticView::UnexpectedFault,
            Diagnostic::Captured(output) => DiagnosticView::Captured(output@),
        }
    }
}

/// The text of a diagnostic.
pub open spec fn spec_message(diagnostic: DiagnosticView) -> Seq<char> {
    match diagnostic {
        DiagnosticView::CompileError(output) => output,
        DiagnosticView::InternalError(InvocationFailure::LoadFailure) =>
            "error: internal error: the compiled artifact could not be loaded"@,
        DiagnosticView::InternalError(InvocationFailure::SymbolNotFound) =>
            "error: internal error: the entry point is missing from the compiled artifact"@,
        DiagnosticView::UnexpectedFault => "error: internal error: unexpected panic"@,
        DiagnosticView::Captured(output) => output,
    }
}

impl Diagnostic {
    /// The text of this diagnostic.
    pub fn message(&self) -> (text: String)
        ensures
            text@ == spec_message(self@),
    {
        match self {
            Diagnostic::CompileError(output) => output.clone(),
            Diagnostic::InternalError(InvocationFailure::LoadFailure) => String::from_str(
                "error: internal error: the compiled artifact could not be loaded",
            ),
            Diagnostic::InternalError(InvocationFailure::SymbolNotFound) => String::from_str(
                "error: internal error: the entry point is missing from the compiled artifact",
            ),
            Diagnostic::UnexpectedFault => String::from_str(
                "error: internal error: unexpected panic",
            ),
            Diagnostic::Captured(output) => output.clone(),
        }
    }
}

/// The state in which an evaluation that ended with `exit` leaves the monitor.
pub open spec fn spec_resting_state(exit: WorkerExitView) -> MonitorState {
    match exit {
        WorkerExitView::Faulted(_) => MonitorState::Recovered,
        _ => MonitorState::Completed,
    }
}

/// The diagnostics that an evaluation which ended with `exit` owes the user,
/// in the order of their emission, where `captured` is what the worker's
/// output sink holds.
///
/// A success owes nothing. A reported failure owes its own message, then the
/// sink. An abnormal termination owes the sink, preceded by one synthesized
/// message unless the fault's kind says that it was reported already.
pub open spec fn spec_diagnostics(exit: WorkerExitView, captured: Seq<char>) -> Seq<
    DiagnosticView,
> {
    match exit {
        WorkerExitView::Succeeded => Seq::empty(),
        WorkerExitView::Failed(EvalFailureView::Compile(CompileFailureView::ToolchainRejected {
            output,
        })) => seq![DiagnosticView::CompileError(output), DiagnosticView::Captured(captured)],
        WorkerExitView::Failed(EvalFailureView::Invocation(failure)) => seq![
            DiagnosticView::InternalError(failure),
            DiagnosticView::Captured(captured),
        ],
        WorkerExitView::Faulted(kind) => if kind.spec_already_reported() {
            seq![DiagnosticView::Captured(captured)]
        } else {
            seq![DiagnosticView::UnexpectedFault, DiagnosticView::Captured(captured)]
        },
    }
}

/// The views of a list of diagnostics.
pub open spec fn diagnostics_view(diagnostics: Seq<Diagnostic>) -> Seq<DiagnosticView> {
    Seq::new(diagnostics.len(), |i: int| diagnostics[i]@)
}

/// How many of `diagnostics` the monitor synthesized for an unreported fault.
pub open spec fn synthesized_count(diagnostics: Seq<DiagnosticView>) -> nat
    decreases diagnostics.len(),
{
    if diagnostics.len() == 0 {
        0
    } else {
        synthesized_count(diagnostics.drop_last()) + if diagnostics.last() is UnexpectedFault {
            1nat
        } else {
            0nat
        }
    }
}

/// Computes the diagnostics that an ended evaluation owes the user.
pub fn diagnose(exit: WorkerExit, captured: String) -> (diagnostics: Vec<Diagnostic>)
    ensures
        diagnostics_view(diagnostics@) == spec_diagnostics(exit@, captured@),
{
    let mut diagnostics: Vec<Diagnostic> = Vec::new();
    match exit {
        WorkerExit::Finished(Ok(_)) => {},
        WorkerExit::Finished(Err(EvalFailure::Compile(CompileFailure::ToolchainRejected {
            output,
        }))) => {
            diagnostics.push(Diagnostic::CompileError(output));
            diagnostics.push(Diagnostic::Captured(captured));
        },
        WorkerExit::Finished(Err(EvalFailure::Invocation(failure))) => {
            diagnostics.push(Diagnostic::InternalError(failure));
            diagnostics.push(Diagnostic::Captured(captured));
        },
        WorkerExit::Faulted(kind) => {
            if !kind.already_reported() {
                diagnostics.push(Diagnostic::UnexpectedFault);
            }
            diagnostics.push(Diagnostic::Captured(captured));
        },
    }
    diagnostics
}

/// The state from which a new evaluation may start, if `state` allows one:
/// evaluations are serialized, so none starts while a worker is running.
pub open spec fn spec_begin(state: MonitorState) -> Option<MonitorState> {
    if state is Running {
        None
    } else {
        Some(MonitorState::Running)
    }
}

/// The state after the running worker ended with `exit`, if one was running.
pub open spec fn spec_settle(state: MonitorState, exit: WorkerExitView) -> Option<MonitorState> {
    if state is Running {
        Some(spec_resting_state(exit))
    } else {
        None
    }
}

/// The controller's record of the worker.
#[derive(Debug)]
pub struct FaultMonitor {
    state: MonitorState,
}

impl View for FaultMonitor {
    type V = MonitorState;

    closed spec fn view(&self) -> MonitorState {
        self.state
    }
}

impl FaultMonitor {
    /// A monitor that has seen no evaluation.
    pub fn new() -> (monitor: FaultMonitor)
        ensures
            monitor@ == MonitorState::Idle,
    {
        FaultMonitor { state: MonitorState::Idle }
    }

    /// The monitor's state.
    pub fn state(&self) -> (state: MonitorState)
        ensures
            state == self@,
    {
        self.state
    }

    /// Starts an evaluation unless one is running. Says whether it did.
    pub fn begin(&mut self) -> (started: bool)
        ensures
            started == spec_begin(old(self)@).is_some(),
            final(self)@ == match spec_begin(old(self)@) {
                Some(next) => next,
                None => old(self)@,
            },
        no_unwind
    {
        match self.state {
            MonitorState::Running => false,
            _ => {
                self.state = MonitorState::Running;
                true
            },
        }
    }

    /// Records that the running worker ended with `exit`. Says whether a
    /// worker was running.
    pub fn settle(&mut self, exit: &WorkerExit) -> (settled: bool)
        ensures
            settled == spec_settle(old(self)@, exit@).is_some(),
            final(self)@ == match spec_settle(old(self)@, exit@) {
                Some(next) => next,
                None => old(self)@,
            },
        no_unwind
    {
        match self.state {
            MonitorState::Running => {
                self.state = match exit {
                    WorkerExit::Faulted(_) => MonitorState::Recovered,
                    WorkerExit::Finished(_) => MonitorState::Completed,
                };
                true
            },
            _ => false,
        }
    }
}

} // verus!
