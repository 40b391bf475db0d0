//! The worker's script: which outside action follows which event while one
//! evaluation is compiled, loaded and entered.

use vstd::prelude::*;
use vstd::utf8::encode_utf8;
use crate::compile::{
    external_outcome, spec_exit_success, spec_file_text, ArtifactOutcome, CompileFailureView,
};
use crate::engine::{CompileRequest, CompileRequestView};
use crate::monitor::{EvalFailure, EvalFailureView, InvocationFailure};

verus! {

/// What the host reports back to the worker's script.
#[derive(Debug, PartialEq, Eq)]
pub enum WorkerEvent {
    /// The worker has been started.
    Started,
    /// Whatever lay at the artifact's path has been removed, if anything did.
    StaleRemoved,
    /// The source file has been written.
    SourceWritten,
    /// The compiler's process has ended with this exit code, if it has one,
    /// after printing `output`.
    Compiled { exit_code: Option<i32>, output: String },
    /// The loader has returned.
    Invoked(Result<(), InvocationFailure>),
}

/// The mathematical content of a [`WorkerEvent`].
pub ghost enum WorkerEventView {
    Started,
    StaleRemoved,
    SourceWritten,
    Compiled { exit_code: Option<i32>, output: Seq<char> },
    Invoked(Result<(), InvocationFailure>),
}

impl View for WorkerEvent {
    type V = WorkerEventView;

    open spec fn view(&self) -> WorkerEventView {
        match self {
            WorkerEvent::Started => WorkerEventView::Started,
            WorkerEvent::StaleRemoved => WorkerEventView::StaleRemoved,
            WorkerEvent::SourceWritten => WorkerEventView::SourceWritten,
            WorkerEvent::Compiled { exit_code, output } => WorkerEventView::Compiled {
                exit_code: *exit_code,
                output: output@,
            },
            WorkerEvent::Invoked(result) => WorkerEventView::Invoked(*result),
        }
    }
}

/// What the worker's script asks of the host.
#[derive(Debug, PartialEq, Eq)]
pub enum WorkerAction {
    /// Remove the file at `path`; it does not matter whether there is one.
    RemoveStale { path: String },
    /// Write `text` into the file `file`, replacing what it held.
    WriteSource { file: String, text: String },
    /// Run `program` with `arguments` and wait for it.
    Compile { program: String, arguments: Vec<String> },
    /// Load the library at `artifact_path`, look up the symbol whose name is
    /// exactly the bytes `symbol`, and call it.
    LoadAndCall { artifact_path: String, symbol: Vec<u8> },
    /// Return this result: the worker is done.
    Finish(Result<(), EvalFailure>),
}

/// The mathematical content of a [`WorkerAction`].
pub ghost enum WorkerActionView {
    RemoveStale { path: Seq<char> },
    WriteSource { file: Seq<char>, text: Seq<char> },
    Compile { program: Seq<char>, arguments: Seq<Seq<char>> },
    LoadAndCall { artifact_path: Seq<char>, symbol: Seq<u8> },
    Finish(Result<(), EvalFailureView>),
}

impl View for WorkerAction {
    type V = WorkerActionView;

    open spec fn view(&self) -> WorkerActionView {
        match self {
            WorkerAction::RemoveStale { path } => WorkerActionView::RemoveStale { path: path@ },
            WorkerAction::WriteSource { file, text } => WorkerActionView::WriteSource {
                file: file@,
                text: text@,
            },
            WorkerAction::Compile { program, arguments } => WorkerActionView::Compile {
                program: program@,
                arguments: arguments.deep_view(),
            },
            WorkerAction::LoadAndCall { artifact_path, symbol } => WorkerActionView::LoadAndCall {
                artifact_path: artifact_path@,
                symbol: symbol@,
            },
            WorkerAction::Finish(Ok(_)) => WorkerActionView::Finish(Ok(())),
            WorkerAction::Finish(Err(failure)) => WorkerActionView::Finish(Err(failure@)),
        }
    }
}

/// The action that follows `event` in the evaluation that `request`
/// describes: remove the stale artifact, write the source, compile, then
/// enter the library if the compiler succeeded and report its rejection
/// if it did not; and report how the call went. The symbol to look up is
/// the entry point's name, byte for byte as UTF-8 writes it.
pub open spec fn spec_worker_step(
    request: CompileRequestView,
    event: WorkerEventView,
) -> WorkerActionView {
    match event {
        WorkerEventView::Started => WorkerActionView::RemoveStale { path: request.artifact_path },
        WorkerEventView::StaleRemoved => WorkerActionView::WriteSource {
            file: request.source_file,
            text: spec_file_text(request.unit),
        },
        WorkerEventView::SourceWritten => WorkerActionView::Compile {
            program: request.program,
            arguments: request.arguments,
        },
        WorkerEventView::Compiled { exit_code, output } => if spec_exit_success(exit_code) {
            WorkerActionView::LoadAndCall {
                artifact_path: request.artifact_path,
                symbol: encode_utf8(request.entry_symbol),
            }
        } else {
            WorkerActionView::Finish(
                Err(EvalFailureView::Compile(CompileFailureView::ToolchainRejected { output })),
            )
        },
        WorkerEventView::Invoked(Ok(_)) => WorkerActionView::Finish(Ok(())),
        WorkerEventView::Invoked(Err(failure)) => WorkerActionView::Finish(
            Err(EvalFailureView::Invocation(failure)),
        ),
    }
}

/// A library is entered only after the compiler has succeeded, and it is
/// the library that the request names, entered at the symbol that the
/// request names.
pub proof fn lemma_only_compiled_artifacts_are_entered(
    request: CompileRequestView,
    event: WorkerEventView,
)
    ensures
        spec_worker_step(request, event) is LoadAndCall <==> (event matches
        WorkerEventView::Compiled { exit_code, .. } && spec_exit_success(exit_code)),
        spec_worker_step(request, event) is LoadAndCall ==> spec_worker_step(request, event)
            == (WorkerActionView::LoadAndCall {
            artifact_path: request.artifact_path,
            symbol: encode_utf8(request.entry_symbol),
        }),
{
}

/// A copy of a list of texts.
fn copy_texts(texts: &Vec<String>) -> (copy: Vec<String>)
    ensures
        copy.deep_view() == texts.deep_view(),
{
    let mut copy: Vec<String> = Vec::new();
    let mut i: usize = 0;
    while i < texts.len()
        invariant
            i <= texts@.len(),
            copy@.len() == i,
            forall|j: int| 0 <= j < i ==> (#[trigger] copy@[j])@ == texts@[j]@,
        decreases texts@.len() - i,
    {
        copy.push(texts[i].clone());
        i += 1;
    }
    copy
}

/// Says what the host is to do next in the evaluation that `request`
/// describes, given what it reports.
pub fn worker_step(request: &CompileRequest, event: WorkerEvent) -> (action: WorkerAction)
    ensures
        action@ == spec_worker_step(request@, event@),
{
    match event {
        WorkerEvent::Started => WorkerAction::RemoveStale { path: request.artifact_path.clone() },
        WorkerEvent::StaleRemoved => WorkerAction::WriteSource {
            file: request.source_file.clone(),
            text: request.unit.file_text(),
        },
        WorkerEvent::SourceWritten => WorkerAction::Compile {
            program: request.program.clone(),
            arguments: copy_texts(&request.arguments),
        },
        WorkerEvent::Compiled { exit_code, output } => {
            match external_outcome(exit_code, output, request.artifact_path.clone()) {
                Ok(ArtifactOutcome::Library(path)) => WorkerAction::LoadAndCall {
                    artifact_path: path,
                    symbol: request.entry_symbol.as_str().as_bytes_vec(),
                },
                Ok(ArtifactOutcome::Analysis) => WorkerAction::Finish(Ok(())),
                Err(failure) => WorkerAction::Finish(Err(EvalFailure::Compile(failure))),
            }
        },
        WorkerEvent::Invoked(Ok(_)) => WorkerAction::Finish(Ok(())),
        WorkerEvent::Invoked(Err(failure)) => WorkerAction::Finish(
            Err(EvalFailure::Invocation(failure)),
        ),
    }
}

} // verus!
