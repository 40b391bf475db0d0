//! The compiler invoker's data: the unit handed to the toolchain, and the
//! reading of what the toolchain answered.

use vstd::prelude::*;
use crate::chain::{
    dependencies_view, spec_dependencies, spec_prelude, ArtifactChain, ArtifactRecordView,
};

verus! {

/// What one attempt hands to the compiler.
#[derive(Debug, PartialEq, Eq)]
pub struct CompilationUnit {
    /// The generated text that precedes the body.
    pub prelude: String,
    /// The submitted source, verbatim.
    pub body: String,
    /// The generations that the unit may link against, each with its
    /// artifact path, oldest first.
    pub dependencies: Vec<(u64, String)>,
}

/// The mathematical content of a [`CompilationUnit`].
pub ghost struct CompilationUnitView {
    pub prelude: Seq<char>,
    pub body: Seq<char>,
    pub dependencies: Seq<(nat, Seq<char>)>,
}

impl View for CompilationUnit {
    type V = CompilationUnitView;

    open spec fn view(&self) -> CompilationUnitView {
        CompilationUnitView {
            prelude: self.prelude@,
            body: self.body@,
            dependencies: dependencies_view(self.dependencies@),
        }
    }
}

/// The unit that submits `body` on top of `chain`.
pub open spec fn spec_unit(chain: Seq<ArtifactRecordView>, body: Seq<char>) -> CompilationUnitView {
    CompilationUnitView {
        prelude: spec_prelude(chain.len()),
        body,
        dependencies: spec_dependencies(chain),
    }
}

/// The content of the source file that holds `unit`: the prelude and the
/// body, each ended by a line feed.
pub open spec fn spec_file_text(unit: CompilationUnitView) -> Seq<char> {
    unit.prelude + "\n"@ + unit.body + "\n"@
}

/// The content under which `unit` is served from memory: the prelude, a line
/// feed, and the body.
pub open spec fn spec_virtual_text(unit: CompilationUnitView) -> Seq<char> {
    unit.prelude + "\n"@ + unit.body
}

impl CompilationUnit {
    /// Builds the unit that submits `body` on top of `chain`.
    pub fn new(chain: &ArtifactChain, body: &str) -> (unit: CompilationUnit)
        ensures
            unit@ == spec_unit(chain@, body@),
    {
        CompilationUnit {
            prelude: chain.prelude_for_next(),
            body: String::from_str(body),
            dependencies: chain.current_dependencies(),
        }
    }

    /// The text to write into the unit's source file.
    pub fn file_text(&self) -> (text: String)
        ensures
            text@ == spec_file_text(self@),
    {
        let mut text = self.prelude.clone();
        text.append("\n");
        text.append(self.body.as_str());
        text.append("\n");
        text
    }

    /// The text to serve for the unit from memory.
    pub fn virtual_text(&self) -> (text: String)
        ensures
            text@ == spec_virtual_text(self@),
    {
        let mut text = self.prelude.clone();
        text.append("\n");
        text.append(self.body.as_str());
        text
    }
}

/// A source that is served from memory: whatever path is asked for, it is
/// there and holds the same text, and it has no place on disk.
#[derive(Debug, PartialEq, Eq)]
pub struct VirtualSource {
    text: String,
}

impl View for VirtualSource {
    type V = Seq<char>;

    closed spec fn view(&self) -> Seq<char> {
        self.text@
    }
}

impl VirtualSource {
    /// The source that holds `text`.
    pub fn new(text: String) -> (source: VirtualSource)
        ensures
            source@ == text@,
    {
        VirtualSource { text }
    }

    /// Whether there is a file at `path`: there always is.
    pub fn file_exists(&self, path: &str) -> (exists: bool)
        ensures
            exists,
    {
        true
    }

    /// The absolute form of `path`: there is none.
    pub fn abs_path(&self, path: &str) -> (absolute: Option<String>)
        ensures
            absolute is None,
    {
        None
    }

    /// The content of the file at `path`: the text, whatever the path.
    pub fn read_file(&self, path: &str) -> (content: String)
        ensures
            content@ == self@,
    {
        self.text.clone()
    }
}

/// What a successful compilation produced.
#[derive(Debug, PartialEq, Eq)]
pub enum ArtifactOutcome {
    /// A loadable library at the given path.
    Library(String),
    /// No artifact: the unit was analysed in process and the result was
    /// handed to the caller's callback.
    Analysis,
}

/// The mathematical content of an [`ArtifactOutcome`].
pub ghost enum ArtifactOutcomeView {
    Library(Seq<char>),
    Analysis,
}

impl View for ArtifactOutcome {
    type V = ArtifactOutcomeView;

    open spec fn view(&self) -> ArtifactOutcomeView {
        match self {
            ArtifactOutcome::Library(path) => ArtifactOutcomeView::Library(path@),
            ArtifactOutcome::Analysis => ArtifactOutcomeView::Analysis,
        }
    }
}

/// Why no artifact was produced.
#[derive(Debug, PartialEq, Eq)]
pub enum CompileFailure {
    /// The toolchain ended with a failure status; `output` is what it printed.
    ToolchainRejected { output: String },
}

/// The mathematical content of a [`CompileFailure`].
pub ghost enum CompileFailureView {
    ToolchainRejected { output: Seq<char> },
}

impl View for CompileFailure {
    type V = CompileFailureView;

    open spec fn view(&self) -> CompileFailureView {
        match self {
            CompileFailure::ToolchainRejected { output } => CompileFailureView::ToolchainRejected {
                output: output@,
            },
        }
    }
}

/// Whether a child process with this exit code succeeded. A process that
/// ended without a code did not.
pub open spec fn spec_exit_success(exit_code: Option<i32>) -> bool {
    exit_code == Some(0i32)
}

/// The view of a compilation's result.
pub open spec fn compile_result_view(result: Result<ArtifactOutcome, CompileFailure>) -> Result<
    ArtifactOutcomeView,
    CompileFailureView,
> {
    match result {
        Ok(outcome) => Ok(outcome@),
        Err(failure) => Err(failure@),
    }
}

/// The result of an external compilation whose process ended with
/// `exit_code` after printing `output`, and which was told to write its
/// library to `artifact_path`.
pub open spec fn spec_external_outcome(
    exit_code: Option<i32>,
    output: Seq<char>,
    artifact_path: Seq<char>,
) -> Result<ArtifactOutcomeView, CompileFailureView> {
    if spec_exit_success(exit_code) {
        Ok(ArtifactOutcomeView::Library(artifact_path))
    } else {
        Err(CompileFailureView::ToolchainRejected { output })
    }
}

/// Reads the end of an external compilation.
pub fn external_outcome(exit_code: Option<i32>, output: String, artifact_path: String) -> (result:
    Result<ArtifactOutcome, CompileFailure>)
    ensures
        compile_result_view(result) == spec_external_outcome(exit_code, output@, artifact_path@),
{
    match exit_code {
        Some(0) => Ok(ArtifactOutcome::Library(artifact_path)),
        _ => Err(CompileFailure::ToolchainRejected { output }),
    }
}

/// The result of an analysis by the in-process driver: the callback's
/// result if the driver came as far as the callback, else a rejection that
/// carries what the driver printed.
pub open spec fn spec_driver_outcome(analysed: bool, output: Seq<char>) -> Result<
    ArtifactOutcomeView,
    CompileFailureView,
> {
    if analysed {
        Ok(ArtifactOutcomeView::Analysis)
    } else {
        Err(CompileFailureView::ToolchainRejected { output })
    }
}

/// Reads the end of an analysis by the in-process driver.
pub fn driver_outcome(analysed: bool, output: String) -> (result: Result<
    ArtifactOutcome,
    CompileFailure,
>)
    ensures
        compile_result_view(result) == spec_driver_outcome(analysed, output@),
{
    if analysed {
        Ok(ArtifactOutcome::Analysis)
    } else {
        Err(CompileFailure::ToolchainRejected { output })
    }
}

} // verus!
