//! The execution engine: the argument lists it hands to the compiler, and the
//! evaluation cycle that extends the artifact chain.

use vstd::prelude::*;
use crate::chain::{
    artifact_path, crate_name, generations_in_order, lemma_artifact_paths_distinct, spec_append,
    spec_artifact_path, spec_crate_name, spec_prelude, ArtifactChain, ArtifactRecordView,
};
use crate::compile::{
    spec_file_text, spec_unit, spec_virtual_text, CompilationUnit, CompilationUnitView,
    VirtualSource,
};
use crate::text::{push_string, push_text};
use crate::monitor::{
    diagnose, diagnostics_view, spec_begin, spec_diagnostics, spec_resting_state,
    synthesized_count, Diagnostic, DiagnosticView, FaultKind, FaultMonitor, MonitorState,
    WorkerExit, WorkerExitView,
};

verus! {

/// The mathematical content of an [`ExecutionEngine`].
pub ghost struct EngineView {
    /// The directories in which libraries are looked up, in their order.
    pub search_paths: Seq<Seq<char>>,
    /// The root of the toolchain's installation.
    pub sysroot: Seq<char>,
    /// The accepted generations.
    pub chain: Seq<ArtifactRecordView>,
    /// Where the fault monitor stands.
    pub state: MonitorState,
    /// The entry point of the evaluation in flight, while one is.
    pub pending: Option<Seq<char>>,
}

/// Every artifact lies at the path that its generation number names.
pub open spec fn artifacts_named(chain: Seq<ArtifactRecordView>) -> bool {
    forall|i: int|
        0 <= i < chain.len() ==> (#[trigger] chain[i]).artifact_path == spec_artifact_path(
            i as nat,
        )
}

/// The engine's invariant.
pub open spec fn engine_wf(engine: EngineView) -> bool {
    &&& generations_in_order(engine.chain)
    &&& artifacts_named(engine.chain)
    &&& engine.state is Running <==> engine.pending is Some
}

/// A `-L` option for each search path.
pub open spec fn spec_search_path_args(paths: Seq<Seq<char>>) -> Seq<Seq<char>> {
    Seq::new(
        2 * paths.len(),
        |k: int|
            if k % 2 == 0 {
                "-L"@
            } else {
                paths[k / 2]
            },
    )
}

/// The declaration that makes one accepted generation linkable by name.
pub open spec fn spec_extern_declaration(record: ArtifactRecordView) -> Seq<char> {
    spec_crate_name(record.generation) + "="@ + record.artifact_path
}

/// An `--extern` option for each accepted generation, the most recent first.
pub open spec fn spec_extern_args(chain: Seq<ArtifactRecordView>) -> Seq<Seq<char>> {
    Seq::new(
        2 * chain.len(),
        |k: int|
            if k % 2 == 0 {
                "--extern"@
            } else {
                spec_extern_declaration(chain[chain.len() - 1 - k / 2])
            },
    )
}

/// The options that do not depend on the chain or on the search paths.
pub open spec fn spec_fixed_args(sysroot: Seq<char>) -> Seq<Seq<char>> {
    seq!["--sysroot"@, sysroot, "-Cprefer-dynamic"@, "-L"@, "."@]
}

/// The options that name the crate to build.
pub open spec fn spec_crate_args(generation: nat) -> Seq<Seq<char>> {
    seq!["--crate-type"@, "dylib"@, "--crate-name"@, spec_crate_name(generation)]
}

/// The argument list that both compilation strategies share: the program's
/// name if asked for, the sysroot, the preference for dynamic linking, the
/// working directory and the configured search paths, the crate type and
/// name of the next generation, and the accepted generations.
pub open spec fn spec_rustc_args(engine: EngineView, start_with_rustc: bool) -> Seq<Seq<char>> {
    (if start_with_rustc {
        seq!["rustc"@]
    } else {
        Seq::empty()
    }) + spec_fixed_args(engine.sysroot) + spec_search_path_args(engine.search_paths)
        + spec_crate_args(engine.chain.len()) + spec_extern_args(engine.chain)
}

/// What the external-process strategy is to do for one evaluation.
#[derive(Debug, PartialEq, Eq)]
pub struct CompileRequest {
    /// The unit to compile.
    pub unit: CompilationUnit,
    /// The file into which the unit's text is written.
    pub source_file: String,
    /// Where the library is to be written; anything that lies there is stale
    /// and is removed first.
    pub artifact_path: String,
    /// The compiler binary.
    pub program: String,
    /// The compiler's arguments.
    pub arguments: Vec<String>,
    /// The symbol to call in the library.
    pub entry_symbol: String,
}

/// The mathematical content of a [`CompileRequest`].
pub ghost struct CompileRequestView {
    pub unit: CompilationUnitView,
    pub source_file: Seq<char>,
    pub artifact_path: Seq<char>,
    pub program: Seq<char>,
    pub arguments: Seq<Seq<char>>,
    pub entry_symbol: Seq<char>,
}

impl View for CompileRequest {
    type V = CompileRequestView;

    open spec fn view(&self) -> CompileRequestView {
        CompileRequestView {
            unit: self.unit@,
            source_file: self.source_file@,
            artifact_path: self.artifact_path@,
            program: self.program@,
            arguments: self.arguments.deep_view(),
            entry_symbol: self.entry_symbol@,
        }
    }
}

/// The name of the file that holds the unit under compilation.
pub open spec fn spec_source_file() -> Seq<char> {
    "rusti_tmp_source.rs"@
}

/// The request that submits `source` with entry point `name` to `engine`.
pub open spec fn spec_compile_request(
    engine: EngineView,
    source: Seq<char>,
    name: Seq<char>,
) -> CompileRequestView {
    CompileRequestView {
        unit: spec_unit(engine.chain, source),
        source_file: spec_source_file(),
        artifact_path: spec_artifact_path(engine.chain.len()),
        program: "rustc"@,
        arguments: spec_rustc_args(engine, false) + seq![
            spec_source_file(),
            "-o"@,
            spec_artifact_path(engine.chain.len()),
        ],
        entry_symbol: name,
    }
}

/// What the in-process strategy is to do for one analysis.
#[derive(Debug, PartialEq, Eq)]
pub struct DriverRequest {
    /// The text of the unit to analyse, which the driver reads from memory.
    pub source: VirtualSource,
    /// The driver's arguments, starting with the program's name.
    pub arguments: Vec<String>,
    /// Whether the driver is to stop once analysis is done and its callback
    /// has run, before it generates any code.
    pub stop_after_analysis: bool,
}

/// The mathematical content of a [`DriverRequest`].
pub ghost struct DriverRequestView {
    pub source: Seq<char>,
    pub arguments: Seq<Seq<char>>,
    pub stop_after_analysis: bool,
}

impl View for DriverRequest {
    type V = DriverRequestView;

    open spec fn view(&self) -> DriverRequestView {
        DriverRequestView {
            source: self.source@,
            arguments: self.arguments.deep_view(),
            stop_after_analysis: self.stop_after_analysis,
        }
    }
}

/// The request that hands `program` to the in-process driver: the text of
/// its unit, the shared arguments followed by a placeholder for the input's
/// name and the library crate type, and the order to stop after analysis.
pub open spec fn spec_driver_request(engine: EngineView, program: Seq<char>) -> DriverRequestView {
    DriverRequestView {
        source: spec_virtual_text(spec_unit(engine.chain, program)),
        arguments: spec_rustc_args(engine, true) + seq!["dummy_name"@, "--crate-type"@, "lib"@],
        stop_after_analysis: true,
    }
}

/// The engine after an evaluation with entry point `name` has been started.
pub open spec fn spec_started(engine: EngineView, name: Seq<char>) -> EngineView {
    EngineView { state: MonitorState::Running, pending: Some(name), ..engine }
}

/// The chain after an evaluation with entry point `symbol` ended with
/// `exit`: one record longer after a success, unchanged otherwise.
pub open spec fn spec_settled_chain(
    chain: Seq<ArtifactRecordView>,
    symbol: Seq<char>,
    exit: WorkerExitView,
) -> Seq<ArtifactRecordView> {
    if exit is Succeeded {
        spec_append(chain, spec_artifact_path(chain.len()), symbol)
    } else {
        chain
    }
}

/// The engine after the evaluation in flight ended with `exit`.
pub open spec fn spec_finished(engine: EngineView, exit: WorkerExitView) -> EngineView
    recommends
        engine.pending is Some,
{
    EngineView {
        chain: spec_settled_chain(engine.chain, engine.pending->0, exit),
        state: spec_resting_state(exit),
        pending: None,
        ..engine
    }
}

/// What an ended evaluation tells the user.
#[derive(Debug, PartialEq, Eq)]
pub struct Report {
    /// The monitor's state after the evaluation.
    pub state: MonitorState,
    /// The generation that the evaluation was accepted as, if it was.
    pub generation: Option<u64>,
    /// The messages to show, in order.
    pub diagnostics: Vec<Diagnostic>,
}

/// The mathematical content of a [`Report`].
pub ghost struct ReportView {
    pub state: MonitorState,
    pub generation: Option<nat>,
    pub diagnostics: Seq<DiagnosticView>,
}

impl View for Report {
    type V = ReportView;

    open spec fn view(&self) -> ReportView {
        ReportView {
            state: self.state,
            generation: match self.generation {
                Some(generation) => Some(generation as nat),
                None => None,
            },
            diagnostics: diagnostics_view(self.diagnostics@),
        }
    }
}

/// The report on an evaluation that ended with `exit` on `engine`, with
/// `captured` in the worker's output sink.
pub open spec fn spec_report(
    engine: EngineView,
    exit: WorkerExitView,
    captured: Seq<char>,
) -> ReportView {
    ReportView {
        state: spec_resting_state(exit),
        generation: if exit is Succeeded {
            Some(engine.chain.len())
        } else {
            None
        },
        diagnostics: spec_diagnostics(exit, captured),
    }
}

/// One evaluation, from its start to its end.
pub ghost struct Evaluation {
    /// The entry point that was submitted.
    pub name: Seq<char>,
    /// How the worker ended.
    pub exit: WorkerExitView,
}

/// The engine after one evaluation has been started and has ended. It
/// describes an engine on which no evaluation is in flight: only there does
/// an evaluation start.
pub open spec fn spec_evaluated(engine: EngineView, evaluation: Evaluation) -> EngineView {
    spec_finished(spec_started(engine, evaluation.name), evaluation.exit)
}

/// The engine after a series of evaluations, one after the other.
pub open spec fn spec_evaluated_all(engine: EngineView, evaluations: Seq<Evaluation>) -> EngineView
    decreases evaluations.len(),
{
    if evaluations.len() == 0 {
        engine
    } else {
        spec_evaluated(spec_evaluated_all(engine, evaluations.drop_last()), evaluations.last())
    }
}

/// The option and the declaration that stand for generation `generation` in
/// the arguments that `chain` gives rise to.
pub open spec fn spec_dependency_argument(chain: Seq<ArtifactRecordView>, generation: int) -> (
    Seq<char>,
    Seq<char>,
) {
    (
        spec_extern_args(chain)[2 * (chain.len() - 1 - generation)],
        spec_extern_args(chain)[2 * (chain.len() - 1 - generation) + 1],
    )
}

/// An evaluation keeps the engine's invariant, and leaves the engine ready
/// for the next one.
pub proof fn lemma_evaluation_keeps_invariant(engine: EngineView, evaluation: Evaluation)
    requires
        engine_wf(engine),
        !(engine.state is Running),
    ensures
        engine_wf(spec_evaluated(engine, evaluation)),
        !(spec_evaluated(engine, evaluation).state is Running),
        spec_begin(spec_evaluated(engine, evaluation).state) is Some,
{
}

/// After `k` successful evaluations the chain is `k` records longer, and
/// every record stands at the position that its generation number names. On
/// an engine that starts empty, the chain's length is `k`.
pub proof fn lemma_successes_fill_chain(engine: EngineView, evaluations: Seq<Evaluation>)
    requires
        engine_wf(engine),
        !(engine.state is Running),
        forall|i: int| 0 <= i < evaluations.len() ==> (#[trigger] evaluations[i]).exit is Succeeded,
    ensures
        engine_wf(spec_evaluated_all(engine, evaluations)),
        spec_evaluated_all(engine, evaluations).chain.len() == engine.chain.len()
            + evaluations.len(),
        forall|i: int|
            0 <= i < spec_evaluated_all(engine, evaluations).chain.len() ==> (
            #[trigger] spec_evaluated_all(engine, evaluations).chain[i]).generation == i,
    decreases evaluations.len(),
{
    if evaluations.len() > 0 {
        let earlier = evaluations.drop_last();
        lemma_successes_fill_chain(engine, earlier);
        lemma_evaluation_keeps_invariant(spec_evaluated_all(engine, earlier), evaluations.last());
    }
}

/// The chain only grows at its end: whatever way an evaluation ends, the
/// records that stood in the chain before stand in it unchanged after, and
/// at most one record follows them.
pub proof fn lemma_chain_is_append_only(engine: EngineView, evaluation: Evaluation)
    ensures
        engine.chain.len() <= spec_evaluated(engine, evaluation).chain.len() <= engine.chain.len()
            + 1,
        spec_evaluated(engine, evaluation).chain.take(engine.chain.len() as int) == engine.chain,
        spec_evaluated(engine, evaluation).chain.len() == engine.chain.len() + 1
            <==> evaluation.exit is Succeeded,
{
}

/// A failed evaluation leaves the chain as it was, and the successful
/// evaluation that follows it gets the generation number that the failed one
/// would have got.
pub proof fn lemma_failure_keeps_slot(engine: EngineView, failed: Evaluation, retried: Evaluation)
    requires
        engine_wf(engine),
        !(engine.state is Running),
        !(failed.exit is Succeeded),
        retried.exit is Succeeded,
    ensures
        spec_evaluated(engine, failed).chain == engine.chain,
        spec_evaluated(spec_evaluated(engine, failed), retried).chain.len() == engine.chain.len()
            + 1,
        spec_evaluated(spec_evaluated(engine, failed), retried).chain.last().generation
            == engine.chain.len(),
{
}

/// The arguments for generation `i` end in exactly `i` dependency
/// declarations, one for each earlier generation, and each names that
/// generation's crate and the path that the chain records for it, which is
/// the path derived from its number. The unit's own dependency list holds
/// the same generations with the same paths.
pub proof fn lemma_dependency_arguments(
    engine: EngineView,
    start_with_rustc: bool,
    body: Seq<char>,
)
    requires
        engine_wf(engine),
    ensures
        spec_extern_args(engine.chain).len() == 2 * engine.chain.len(),
        spec_rustc_args(engine, start_with_rustc).len() >= 2 * engine.chain.len(),
        spec_rustc_args(engine, start_with_rustc).skip(
            spec_rustc_args(engine, start_with_rustc).len() - 2 * engine.chain.len(),
        ) == spec_extern_args(engine.chain),
        forall|generation: int|
            0 <= generation < engine.chain.len() ==> #[trigger] spec_dependency_argument(
                engine.chain,
                generation,
            ) == (
                "--extern"@,
                spec_crate_name(generation as nat) + "="@ + engine.chain[generation].artifact_path,
            ),
        forall|generation: int|
            0 <= generation < engine.chain.len() ==> (
            #[trigger] engine.chain[generation]).artifact_path == spec_artifact_path(
                generation as nat,
            ),
        spec_unit(engine.chain, body).dependencies.len() == engine.chain.len(),
        forall|generation: int|
            0 <= generation < engine.chain.len() ==> #[trigger] spec_unit(
                engine.chain,
                body,
            ).dependencies[generation] == (
                generation as nat,
                spec_artifact_path(generation as nat),
            ),
        forall|i: int|
            0 <= i < spec_unit(engine.chain, body).dependencies.len() ==> (#[trigger] spec_unit(
                engine.chain,
                body,
            ).dependencies[i]).0 < engine.chain.len(),
{
    assert forall|generation: int| 0 <= generation < engine.chain.len() implies (
    #[trigger] spec_dependency_argument(engine.chain, generation)) == (
        "--extern"@,
        spec_crate_name(generation as nat) + "="@ + engine.chain[generation].artifact_path,
    ) by {
        // The declaration of `generation` stands at an odd position, behind
        // its option; the most recent generation comes first.
        let k = 2 * (engine.chain.len() - 1 - generation);
        assert((k + 1) / 2 == engine.chain.len() - 1 - generation);
        assert(engine.chain[generation].generation == generation);
    }
}

/// The option and the path that stand for search path `index` in the
/// arguments that `paths` give rise to.
pub open spec fn spec_search_path_argument(paths: Seq<Seq<char>>, index: int) -> (
    Seq<char>,
    Seq<char>,
) {
    (spec_search_path_args(paths)[2 * index], spec_search_path_args(paths)[2 * index + 1])
}

/// The arguments name every search path behind an option of its own, in
/// the order in which the engine was given them.
pub proof fn lemma_search_path_arguments(paths: Seq<Seq<char>>)
    ensures
        spec_search_path_args(paths).len() == 2 * paths.len(),
        forall|index: int|
            0 <= index < paths.len() ==> #[trigger] spec_search_path_argument(paths, index) == (
                "-L"@,
                paths[index],
            ),
{
    assert forall|index: int| 0 <= index < paths.len() implies #[trigger] spec_search_path_argument(
        paths,
        index,
    ) == ("-L"@, paths[index]) by {
        assert((2 * index + 1) / 2 == index);
    }
}

/// No two accepted generations share a number or an artifact: whatever
/// symbol an evaluation named, it is found in a library of its own.
pub proof fn lemma_artifacts_are_unique(engine: EngineView, first: int, second: int)
    requires
        engine_wf(engine),
        0 <= first < engine.chain.len(),
        0 <= second < engine.chain.len(),
        first != second,
    ensures
        engine.chain[first].generation != engine.chain[second].generation,
        engine.chain[first].artifact_path != engine.chain[second].artifact_path,
{
    lemma_artifact_paths_distinct(first as nat, second as nat);
}

/// Both strategies compile the same unit with the same shared arguments:
/// the texts they hand over differ in the final line feed of the file only,
/// the driver's list is the compiler's with the program's name in front, and
/// the two lists differ only in what follows the shared part.
pub proof fn lemma_strategies_share_arguments(
    engine: EngineView,
    source: Seq<char>,
    name: Seq<char>,
)
    ensures
        spec_driver_request(engine, source).source == spec_virtual_text(
            spec_compile_request(engine, source, name).unit,
        ),
        spec_file_text(spec_compile_request(engine, source, name).unit) == spec_driver_request(
            engine,
            source,
        ).source + "\n"@,
        spec_rustc_args(engine, true) == seq!["rustc"@] + spec_rustc_args(engine, false),
        spec_driver_request(engine, source).arguments == seq!["rustc"@] + spec_rustc_args(
            engine,
            false,
        ) + seq!["dummy_name"@, "--crate-type"@, "lib"@],
        spec_compile_request(engine, source, name).arguments == spec_rustc_args(engine, false)
            + seq![spec_source_file(), "-o"@, spec_artifact_path(engine.chain.len())],
{
}

/// A fault that was reported before it was raised is contained without a
/// second diagnostic: the report holds none that the monitor synthesized,
/// only the captured output; the chain is as it was; and the next evaluation
/// may start.
pub proof fn lemma_reported_fault_is_contained(
    engine: EngineView,
    kind: FaultKind,
    captured: Seq<char>,
)
    requires
        engine_wf(engine),
        engine.state is Running,
        kind.spec_already_reported(),
    ensures
        synthesized_count(spec_report(engine, WorkerExitView::Faulted(kind), captured).diagnostics)
            == 0,
        spec_report(engine, WorkerExitView::Faulted(kind), captured).diagnostics
            == seq![DiagnosticView::Captured(captured)],
        spec_finished(engine, WorkerExitView::Faulted(kind)).state is Recovered,
        spec_finished(engine, WorkerExitView::Faulted(kind)).chain == engine.chain,
        engine_wf(spec_finished(engine, WorkerExitView::Faulted(kind))),
        spec_begin(spec_finished(engine, WorkerExitView::Faulted(kind)).state) is Some,
{
    reveal_with_fuel(synthesized_count, 2);
}

/// A fault that nobody reported is contained with exactly one synthesized
/// diagnostic, which precedes the captured output; the chain is as it was;
/// and the next evaluation may start.
pub proof fn lemma_unreported_fault_is_contained(
    engine: EngineView,
    kind: FaultKind,
    captured: Seq<char>,
)
    requires
        engine_wf(engine),
        engine.state is Running,
        !kind.spec_already_reported(),
    ensures
        synthesized_count(spec_report(engine, WorkerExitView::Faulted(kind), captured).diagnostics)
            == 1,
        spec_report(engine, WorkerExitView::Faulted(kind), captured).diagnostics == seq![
            DiagnosticView::UnexpectedFault,
            DiagnosticView::Captured(captured),
        ],
        spec_finished(engine, WorkerExitView::Faulted(kind)).state is Recovered,
        spec_finished(engine, WorkerExitView::Faulted(kind)).chain == engine.chain,
        engine_wf(spec_finished(engine, WorkerExitView::Faulted(kind))),
        spec_begin(spec_finished(engine, WorkerExitView::Faulted(kind)).state) is Some,
{
    reveal_with_fuel(synthesized_count, 3);
}

/// Compiles input code into an execution environment.
#[derive(Debug)]
pub struct ExecutionEngine {
    /// Additional search paths for libraries.
    lib_paths: Vec<String>,
    sysroot: String,
    chain: ArtifactChain,
    monitor: FaultMonitor,
    /// The entry point that was submitted last.
    entry: String,
}

impl View for ExecutionEngine {
    type V = EngineView;

    closed spec fn view(&self) -> EngineView {
        EngineView {
            search_paths: self.lib_paths.deep_view(),
            sysroot: self.sysroot@,
            chain: self.chain@,
            state: self.monitor@,
            pending: if self.monitor@ is Running {
                Some(self.entry@)
            } else {
                None
            },
        }
    }
}

impl ExecutionEngine {
    /// Every engine keeps each artifact at the path that its generation
    /// number names.
    #[verifier::type_invariant]
    spec fn inv(self) -> bool {
        artifacts_named(self.chain@)
    }

    /// Constructs a new `ExecutionEngine` with the given library search paths
    /// and toolchain root.
    pub fn new(libs: Vec<String>, sysroot: String) -> (engine: ExecutionEngine)
        ensures
            engine@ == (EngineView {
                search_paths: libs.deep_view(),
                sysroot: sysroot@,
                chain: Seq::empty(),
                state: MonitorState::Idle,
                pending: None,
            }),
            engine_wf(engine@),
    {
        ExecutionEngine {
            lib_paths: libs,
            sysroot,
            chain: ArtifactChain::new(),
            monitor: FaultMonitor::new(),
            entry: String::new(),
        }
    }

    /// The accepted generations. The engine's invariant holds of them.
    pub fn chain(&self) -> (chain: &ArtifactChain)
        ensures
            chain@ == self@.chain,
            engine_wf(self@),
    {
        proof {
            use_type_invariant(self);
            use_type_invariant(&self.chain);
        }
        &self.chain
    }

    /// Where the fault monitor stands.
    pub fn state(&self) -> (state: MonitorState)
        ensures
            state == self@.state,
    {
        self.monitor.state()
    }

    /// The root of the toolchain's installation.
    pub fn sysroot(&self) -> (sysroot: &String)
        ensures
            sysroot@ == self@.sysroot,
    {
        &self.sysroot
    }

    /// The directories in which libraries are looked up.
    pub fn search_paths(&self) -> (paths: &Vec<String>)
        ensures
            paths.deep_view() == self@.search_paths,
    {
        &self.lib_paths
    }

    /// The prelude of the generation that would be accepted next.
    pub fn prelude(&self) -> (prelude: String)
        ensures
            prelude@ == spec_prelude(self@.chain.len()),
    {
        self.chain.prelude_for_next()
    }

    /// The argument list that both compilation strategies share.
    pub fn rustc_args(&self, start_with_rustc: bool) -> (args: Vec<String>)
        ensures
            args.deep_view() == spec_rustc_args(self@, start_with_rustc),
    {
        let mut args: Vec<String> = Vec::new();
        if start_with_rustc {
            push_text(&mut args, "rustc");
        }
        push_text(&mut args, "--sysroot");
        push_text(&mut args, self.sysroot.as_str());
        push_text(&mut args, "-Cprefer-dynamic");
        push_text(&mut args, "-L");
        push_text(&mut args, ".");
        let ghost head = args.deep_view();

        let ghost paths = self@.search_paths;
        let ghost path_args = spec_search_path_args(paths);
        let mut i: usize = 0;
        while i < self.lib_paths.len()
            invariant
                i <= self.lib_paths@.len(),
                paths == self.lib_paths.deep_view(),
                path_args == spec_search_path_args(paths),
                args.deep_view() == head + path_args.take(2 * i),
            decreases self.lib_paths@.len() - i,
        {
            push_text(&mut args, "-L");
            push_text(&mut args, self.lib_paths[i].as_str());
            i += 1;
        }

        let generation = self.chain.next_generation();
        push_text(&mut args, "--crate-type");
        push_text(&mut args, "dylib");
        push_text(&mut args, "--crate-name");
        push_string(&mut args, crate_name(generation));
        let ghost middle = args.deep_view();

        let ghost chain = self@.chain;
        let ghost extern_args = spec_extern_args(chain);
        let count = self.chain.len();
        let mut done: usize = 0;
        while done < count
            invariant
                done <= count,
                count == chain.len(),
                chain == self.chain@,
                extern_args == spec_extern_args(chain),
                args.deep_view() == middle + extern_args.take(2 * done),
            decreases count - done,
        {
            match self.chain.record(count - 1 - done) {
                Some(record) => {
                    let mut declaration = crate_name(record.generation);
                    declaration.append("=");
                    declaration.append(record.artifact_path.as_str());
                    push_text(&mut args, "--extern");
                    push_string(&mut args, declaration);
                },
                None => {},
            }
            done += 1;
        }
        args
    }

    /// The work of one analysis by the in-process driver.
    pub fn driver_request(&self, program: &str) -> (request: DriverRequest)
        ensures
            request@ == spec_driver_request(self@, program@),
    {
        let mut arguments = self.rustc_args(true);
        push_text(&mut arguments, "dummy_name");
        push_text(&mut arguments, "--crate-type");
        push_text(&mut arguments, "lib");
        assert(arguments.deep_view() =~= spec_rustc_args(self@, true) + seq![
            "dummy_name"@,
            "--crate-type"@,
            "lib"@,
        ]);
        let unit = CompilationUnit::new(&self.chain, program);
        DriverRequest {
            source: VirtualSource::new(unit.virtual_text()),
            arguments,
            stop_after_analysis: true,
        }
    }

    /// Starts the evaluation of `source` with entry point `name`, unless an
    /// evaluation is in flight, and returns the work of the external-process
    /// strategy.
    pub fn begin(&mut self, source: &str, name: &str) -> (request: Option<CompileRequest>)
        ensures
            engine_wf(old(self)@),
            engine_wf(final(self)@),
            match request {
                Some(request) => {
                    &&& !(old(self)@.state is Running)
                    &&& request@ == spec_compile_request(old(self)@, source@, name@)
                    &&& final(self)@ == spec_started(old(self)@, name@)
                },
                None => old(self)@.state is Running && final(self)@ == old(self)@,
            },
    {
        proof {
            use_type_invariant(&*self);
            use_type_invariant(&self.chain);
        }
        match self.monitor.state() {
            MonitorState::Running => {
                return None;
            },
            _ => {},
        }
        let target = artifact_path(self.chain.next_generation());
        let mut arguments = self.rustc_args(false);
        push_text(&mut arguments, "rusti_tmp_source.rs");
        push_text(&mut arguments, "-o");
        push_text(&mut arguments, target.as_str());
        assert(arguments.deep_view() =~= spec_rustc_args(old(self)@, false) + seq![
            spec_source_file(),
            "-o"@,
            spec_artifact_path(old(self)@.chain.len()),
        ]);
        let request = CompileRequest {
            unit: CompilationUnit::new(&self.chain, source),
            source_file: String::from_str("rusti_tmp_source.rs"),
            artifact_path: target,
            program: String::from_str("rustc"),
            arguments,
            entry_symbol: String::from_str(name),
        };
        self.entry = String::from_str(name);
        self.monitor.begin();
        Some(request)
    }

    /// Ends the evaluation in flight, if there is one: appends its artifact
    /// to the chain after a success, leaves the chain alone otherwise, and
    /// reports what the user is to see.
    pub fn finish(&mut self, exit: WorkerExit, captured: String) -> (report: Option<Report>)
        ensures
            engine_wf(old(self)@),
            engine_wf(final(self)@),
            match report {
                Some(report) => {
                    &&& old(self)@.state is Running
                    &&& report@ == spec_report(old(self)@, exit@, captured@)
                    &&& final(self)@ == spec_finished(old(self)@, exit@)
                },
                None => !(old(self)@.state is Running) && final(self)@ == old(self)@,
            },
    {
        proof {
            use_type_invariant(&*self);
            use_type_invariant(&self.chain);
        }
        if !self.monitor.settle(&exit) {
            return None;
        }
        let state = self.monitor.state();
        let generation = match &exit {
            WorkerExit::Finished(Ok(_)) => {
                let target = artifact_path(self.chain.next_generation());
                let mut chain = ArtifactChain::new();
                core::mem::swap(&mut chain, &mut self.chain);
                let generation = chain.append(target, self.entry.clone());
                self.chain = chain;
                Some(generation)
            },
            _ => None,
        };
        let diagnostics = diagnose(exit, captured);
        Some(Report { state, generation, diagnostics })
    }
}

} // verus!
