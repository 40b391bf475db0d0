//! The toolchain locator: which compiler binary to ask for its installation
//! root, how its answer is read, and the cache that keeps the answer.

use vstd::prelude::*;
use vstd::utf8::{decode_utf8, valid_utf8};
use std::string::FromUtf8Error;
use crate::text::{spec_trim_line_endings, trim_line_endings};

verus! {

/// The error of `String::from_utf8`. Nothing is said of what it holds.
#[verifier::external_type_specification]
#[verifier::external_body]
pub struct ExFromUtf8Error(FromUtf8Error);

/// Taken on trust from the standard library's documentation, not proved:
/// `String::from_utf8` accepts a byte vector exactly if it is valid UTF-8,
/// and the string it then returns holds the characters that the bytes
/// encode.
pub assume_specification[ String::from_utf8 ](vec: Vec<u8>) -> (result: Result<
    String,
    FromUtf8Error,
>)
    ensures
        result is Ok <==> valid_utf8(vec@),
        result matches Ok(text) ==> text@ == decode_utf8(vec@),
;

/// Why the toolchain's root could not be found.
#[derive(Clone, Copy, Debug, PartialEq, Eq, Structural)]
pub enum ToolchainError {
    /// The compiler binary could not be launched.
    ToolchainNotFound,
    /// The compiler's answer is not valid text.
    ToolchainOutputInvalid,
}

/// What came of asking the compiler for its root.
#[derive(Debug, PartialEq, Eq)]
pub enum ProbeOutcome {
    /// The binary could not be launched.
    LaunchFailed,
    /// The binary ran; this is its standard output.
    Output(Vec<u8>),
}

/// The mathematical content of a [`ProbeOutcome`].
pub ghost enum ProbeOutcomeView {
    LaunchFailed,
    Output(Seq<u8>),
}

impl View for ProbeOutcome {
    type V = ProbeOutcomeView;

    open spec fn view(&self) -> ProbeOutcomeView {
        match self {
            ProbeOutcome::LaunchFailed => ProbeOutcomeView::LaunchFailed,
            ProbeOutcome::Output(stdout) => ProbeOutcomeView::Output(stdout@),
        }
    }
}

/// The view of a located root or of the reason why there is none.
pub open spec fn located_view(result: Result<String, ToolchainError>) -> Result<
    Seq<char>,
    ToolchainError,
> {
    match result {
        Ok(path) => Ok(path@),
        Err(error) => Err(error),
    }
}

/// The name of the compiler binary.
pub open spec fn spec_compiler_binary(windows: bool) -> Seq<char> {
    if windows {
        "rustc.exe"@
    } else {
        "rustc"@
    }
}

/// The arguments that ask the compiler for its root.
pub open spec fn spec_probe_arguments() -> Seq<Seq<char>> {
    seq!["--print"@, "sysroot"@]
}

/// The root that the compiler's standard output names: its text without the
/// line endings at its end, if it is text.
pub open spec fn spec_parse_sysroot(stdout: Seq<u8>) -> Result<Seq<char>, ToolchainError> {
    if valid_utf8(stdout) {
        Ok(spec_trim_line_endings(decode_utf8(stdout)))
    } else {
        Err(ToolchainError::ToolchainOutputInvalid)
    }
}

/// The root that a probe found.
pub open spec fn spec_read_probe(outcome: ProbeOutcomeView) -> Result<Seq<char>, ToolchainError> {
    match outcome {
        ProbeOutcomeView::LaunchFailed => Err(ToolchainError::ToolchainNotFound),
        ProbeOutcomeView::Output(stdout) => spec_parse_sysroot(stdout),
    }
}

/// The cache after a resolution that was handed `outcome`: a cached root
/// stays whatever the probe says, and an empty cache takes the root that
/// the probe found.
pub open spec fn spec_resolved_cache(
    cached: Option<Seq<char>>,
    outcome: ProbeOutcomeView,
) -> Option<Seq<char>> {
    match cached {
        Some(_) => cached,
        None => match spec_read_probe(outcome) {
            Ok(path) => Some(path),
            Err(_) => None,
        },
    }
}

/// The answer of a resolution that was handed `outcome`.
pub open spec fn spec_resolve(cached: Option<Seq<char>>, outcome: ProbeOutcomeView) -> Result<
    Seq<char>,
    ToolchainError,
> {
    match cached {
        Some(path) => Ok(path),
        None => spec_read_probe(outcome),
    }
}

/// Resolution is idempotent: once a resolution has answered with a root,
/// every later one answers with the same root and leaves the cache as it is,
/// whatever it is handed, and the locator asks for no further probe.
pub proof fn lemma_resolve_is_idempotent(
    cached: Option<Seq<char>>,
    first: ProbeOutcomeView,
    later: ProbeOutcomeView,
    windows: bool,
)
    requires
        spec_resolve(cached, first) is Ok,
    ensures
        spec_resolve(spec_resolved_cache(cached, first), later) == spec_resolve(cached, first),
        spec_resolved_cache(spec_resolved_cache(cached, first), later) == spec_resolved_cache(
            cached,
            first,
        ),
        spec_plan(spec_resolved_cache(cached, first), windows) == LocatorStepView::Resolved(
            spec_resolve(cached, first)->Ok_0,
        ),
{
}

/// The cache after a series of resolutions, one after the other.
pub open spec fn spec_resolved_cache_all(
    cached: Option<Seq<char>>,
    outcomes: Seq<ProbeOutcomeView>,
) -> Option<Seq<char>>
    decreases outcomes.len(),
{
    if outcomes.len() == 0 {
        cached
    } else {
        spec_resolved_cache(spec_resolved_cache_all(cached, outcomes.drop_last()), outcomes.last())
    }
}

/// However often a locator is asked after it has found the root, and
/// whatever it is handed, its cache stays as the first answer left it, and
/// so does its answer.
pub proof fn lemma_resolve_stays_resolved(
    cached: Option<Seq<char>>,
    first: ProbeOutcomeView,
    later: Seq<ProbeOutcomeView>,
    last: ProbeOutcomeView,
)
    requires
        spec_resolve(cached, first) is Ok,
    ensures
        spec_resolved_cache_all(spec_resolved_cache(cached, first), later) == spec_resolved_cache(
            cached,
            first,
        ),
        spec_resolve(spec_resolved_cache_all(spec_resolved_cache(cached, first), later), last)
            == spec_resolve(cached, first),
    decreases later.len(),
{
    if later.len() > 0 {
        lemma_resolve_stays_resolved(cached, first, later.drop_last(), later.last());
    }
}

/// A failed resolution caches nothing: the locator asks for a probe again.
pub proof fn lemma_failed_resolve_caches_nothing(first: ProbeOutcomeView, windows: bool)
    requires
        spec_resolve(None, first) is Err,
    ensures
        spec_resolved_cache(None, first) is None,
        spec_plan(spec_resolved_cache(None, first), windows) is Probe,
{
}

/// The name of the compiler binary on this kind of system.
pub fn compiler_binary(windows: bool) -> (name: String)
    ensures
        name@ == spec_compiler_binary(windows),
{
    if windows {
        String::from_str("rustc.exe")
    } else {
        String::from_str("rustc")
    }
}

/// The arguments that ask the compiler for its root.
pub fn probe_arguments() -> (arguments: Vec<String>)
    ensures
        arguments.deep_view() == spec_probe_arguments(),
{
    let mut arguments: Vec<String> = Vec::new();
    arguments.push(String::from_str("--print"));
    arguments.push(String::from_str("sysroot"));
    arguments
}

/// Reads the root from the compiler's standard output.
pub fn parse_sysroot(stdout: Vec<u8>) -> (result: Result<String, ToolchainError>)
    ensures
        located_view(result) == spec_parse_sysroot(stdout@),
{
    match String::from_utf8(stdout) {
        Ok(text) => Ok(trim_line_endings(text.as_str())),
        Err(_) => Err(ToolchainError::ToolchainOutputInvalid),
    }
}

/// Reads the root from what came of a probe.
pub fn read_probe(outcome: ProbeOutcome) -> (result: Result<String, ToolchainError>)
    ensures
        located_view(result) == spec_read_probe(outcome@),
{
    match outcome {
        ProbeOutcome::LaunchFailed => Err(ToolchainError::ToolchainNotFound),
        ProbeOutcome::Output(stdout) => parse_sysroot(stdout),
    }
}

/// What a locator needs next.
#[derive(Debug, PartialEq, Eq)]
pub enum LocatorStep {
    /// Nothing: the root is known.
    Resolved(String),
    /// The compiler has to be asked: launch `program` with `arguments` and
    /// hand what comes of it to [`ToolchainLocator::resolve`].
    Probe { program: String, arguments: Vec<String> },
}

/// The mathematical content of a [`LocatorStep`].
pub ghost enum LocatorStepView {
    Resolved(Seq<char>),
    Probe { program: Seq<char>, arguments: Seq<Seq<char>> },
}

impl View for LocatorStep {
    type V = LocatorStepView;

    open spec fn view(&self) -> LocatorStepView {
        match self {
            LocatorStep::Resolved(path) => LocatorStepView::Resolved(path@),
            LocatorStep::Probe { program, arguments } => LocatorStepView::Probe {
                program: program@,
                arguments: arguments.deep_view(),
            },
        }
    }
}

/// What a locator with cache `cached` needs next.
pub open spec fn spec_plan(cached: Option<Seq<char>>, windows: bool) -> LocatorStepView {
    match cached {
        Some(path) => LocatorStepView::Resolved(path),
        None => LocatorStepView::Probe {
            program: spec_compiler_binary(windows),
            arguments: spec_probe_arguments(),
        },
    }
}

/// Finds the toolchain's root once and keeps it.
#[derive(Debug)]
pub struct ToolchainLocator {
    cached: Option<String>,
}

impl View for ToolchainLocator {
    type V = Option<Seq<char>>;

    closed spec fn view(&self) -> Option<Seq<char>> {
        match self.cached {
            Some(path) => Some(path@),
            None => None,
        }
    }
}

impl ToolchainLocator {
    /// A locator that knows no root yet.
    pub fn new() -> (locator: ToolchainLocator)
        ensures
            locator@ is None,
    {
        ToolchainLocator { cached: None }
    }

    /// What the locator needs next: nothing once a root is cached, a probe
    /// of the compiler before.
    pub fn plan(&self, windows: bool) -> (step: LocatorStep)
        ensures
            step@ == spec_plan(self@, windows),
    {
        match &self.cached {
            Some(path) => LocatorStep::Resolved(path.clone()),
            None => LocatorStep::Probe {
                program: compiler_binary(windows),
                arguments: probe_arguments(),
            },
        }
    }

    /// Answers with the cached root if there is one, whatever `outcome`
    /// holds; else reads `outcome`, and caches the root if it names one.
    pub fn resolve(&mut self, outcome: ProbeOutcome) -> (result: Result<String, ToolchainError>)
        ensures
            located_view(result) == spec_resolve(old(self)@, outcome@),
            final(self)@ == spec_resolved_cache(old(self)@, outcome@),
    {
        match &self.cached {
            Some(path) => Ok(path.clone()),
            None => {
                match read_probe(outcome) {
                    Ok(path) => {
                        self.cached = Some(path.clone());
                        Ok(path)
                    },
                    Err(error) => Err(error),
                }
            },
        }
    }
}

} // verus!
