//! Bookkeeping for the modules of a translated crate: what kind each module
//! is, where it came from, which files it is compiled to, and what is left to
//! do once translation has been joined.

use vstd::prelude::*;
use crate::text::{push_string, push_text};

verus! {

/// What a module holds.
#[derive(Copy, Clone, Debug, PartialEq, Eq, Structural)]
pub enum ModuleKind {
    /// Ordinary code.
    Regular,
    /// The crate's metadata.
    Metadata,
    /// The allocator shim.
    Allocator,
}

/// One native resource to give back.
#[derive(Copy, Clone, Debug, PartialEq, Eq, Structural)]
pub enum NativeRelease {
    /// Dispose of the native module with this handle.
    Module(usize),
    /// Dispose of the code-generation context with this handle.
    Context(usize),
    /// Dispose of the target machine with this handle.
    TargetMachine(usize),
}

/// The native handles that a freshly translated module owns.
#[derive(Debug, PartialEq, Eq, Structural)]
pub struct ModuleLlvm {
    /// The code-generation context.
    pub llcx: usize,
    /// The native module.
    pub llmod: usize,
    /// The target machine.
    pub tm: usize,
}

/// The releases that dispose of `llvm`: its module first, then its context,
/// then its target machine.
pub open spec fn spec_release(llvm: ModuleLlvm) -> Seq<NativeRelease> {
    seq![
        NativeRelease::Module(llvm.llmod),
        NativeRelease::Context(llvm.llcx),
        NativeRelease::TargetMachine(llvm.tm),
    ]
}

impl ModuleLlvm {
    /// Gives the handles up. All three are released together, each once, in
    /// the order of the result; the value is consumed, so that no handle is
    /// kept.
    pub fn release(self) -> (steps: Vec<NativeRelease>)
        ensures
            steps@ == spec_release(self),
    {
        let mut steps: Vec<NativeRelease> = Vec::new();
        steps.push(NativeRelease::Module(self.llmod));
        steps.push(NativeRelease::Context(self.llcx));
        steps.push(NativeRelease::TargetMachine(self.tm));
        steps
    }
}

/// A reference to the output that an earlier build left for a module.
#[derive(Debug, PartialEq, Eq)]
pub struct WorkProduct {
    /// The name under which the output is kept.
    pub name: String,
}

/// Where a module's code comes from.
#[derive(Debug, PartialEq, Eq)]
pub enum ModuleSource {
    /// Copy the files that an earlier build left.
    Preexisting(WorkProduct),
    /// Rebuild from this native module.
    Translated(ModuleLlvm),
}

/// The mathematical content of a [`ModuleSource`].
pub ghost enum ModuleSourceView {
    Preexisting(Seq<char>),
    Translated(ModuleLlvm),
}

impl View for ModuleSource {
    type V = ModuleSourceView;

    open spec fn view(&self) -> ModuleSourceView {
        match self {
            ModuleSource::Preexisting(product) => ModuleSourceView::Preexisting(product.name@),
            ModuleSource::Translated(llvm) => ModuleSourceView::Translated(*llvm),
        }
    }
}

/// The releases that discarding a module source owes.
pub open spec fn spec_source_release(source: ModuleSourceView) -> Seq<NativeRelease> {
    match source {
        ModuleSourceView::Preexisting(_) => Seq::empty(),
        ModuleSourceView::Translated(llvm) => spec_release(llvm),
    }
}

/// The view of an optional text.
pub open spec fn optional_text(text: Option<String>) -> Option<Seq<char>> {
    match text {
        Some(text) => Some(text@),
        None => None,
    }
}

/// The files that a module may be compiled to.
#[derive(Debug, PartialEq, Eq)]
pub struct ModulePaths {
    /// The object file.
    pub object: String,
    /// The bitcode file.
    pub bytecode: String,
    /// The compressed bitcode file.
    pub bytecode_compressed: String,
}

/// The mathematical content of [`ModulePaths`].
pub ghost struct ModulePathsView {
    pub object: Seq<char>,
    pub bytecode: Seq<char>,
    pub bytecode_compressed: Seq<char>,
}

impl View for ModulePaths {
    type V = ModulePathsView;

    open spec fn view(&self) -> ModulePathsView {
        ModulePathsView {
            object: self.object@,
            bytecode: self.bytecode@,
            bytecode_compressed: self.bytecode_compressed@,
        }
    }
}

/// A module whose compilation has been decided.
#[derive(Debug, PartialEq, Eq)]
pub struct CompiledModule {
    /// The module's name.
    pub name: String,
    /// The identifier of its native module.
    pub llmod_id: String,
    /// What it holds.
    pub kind: ModuleKind,
    /// Whether it was reused from an earlier build.
    pub pre_existing: bool,
    /// Its object file, if one is emitted.
    pub object: Option<String>,
    /// Its bitcode file, if one is emitted.
    pub bytecode: Option<String>,
    /// Its compressed bitcode file, if one is emitted.
    pub bytecode_compressed: Option<String>,
}

/// The mathematical content of a [`CompiledModule`].
pub ghost struct CompiledModuleView {
    pub name: Seq<char>,
    pub llmod_id: Seq<char>,
    pub kind: ModuleKind,
    pub pre_existing: bool,
    pub object: Option<Seq<char>>,
    pub bytecode: Option<Seq<char>>,
    pub bytecode_compressed: Option<Seq<char>>,
}

impl View for CompiledModule {
    type V = CompiledModuleView;

    open spec fn view(&self) -> CompiledModuleView {
        CompiledModuleView {
            name: self.name@,
            llmod_id: self.llmod_id@,
            kind: self.kind,
            pre_existing: self.pre_existing,
            object: optional_text(self.object),
            bytecode: optional_text(self.bytecode),
            bytecode_compressed: optional_text(self.bytecode_compressed),
        }
    }
}

/// A module as translation left it.
#[derive(Debug, PartialEq, Eq)]
pub struct ModuleTranslation {
    /// The name of the module. When the crate may be saved between
    /// compilations, incremental compilation requires that name be
    /// unique amongst **all** crates. Therefore, it should contain
    /// something unique to this crate (e.g., a module path) as well
    /// as the crate name and disambiguator.
    pub name: String,
    /// The identifier of its native module.
    pub llmod_id: String,
    /// Where its code comes from.
    pub source: ModuleSource,
    /// What it holds.
    pub kind: ModuleKind,
}

/// The mathematical content of a [`ModuleTranslation`].
pub ghost struct ModuleTranslationView {
    pub name: Seq<char>,
    pub llmod_id: Seq<char>,
    pub source: ModuleSourceView,
    pub kind: ModuleKind,
}

impl View for ModuleTranslation {
    type V = ModuleTranslationView;

    open spec fn view(&self) -> ModuleTranslationView {
        ModuleTranslationView {
            name: self.name@,
            llmod_id: self.llmod_id@,
            source: self.source@,
            kind: self.kind,
        }
    }
}

/// `path` if `emit` asks for it.
pub open spec fn spec_emitted(emit: bool, path: Seq<char>) -> Option<Seq<char>> {
    if emit {
        Some(path)
    } else {
        None
    }
}

/// The compiled module that `module` becomes when the three kinds of file
/// are asked for as the flags say and would lie at `paths`.
pub open spec fn spec_compiled_module(
    module: ModuleTranslationView,
    emit_obj: bool,
    emit_bc: bool,
    emit_bc_compressed: bool,
    paths: ModulePathsView,
) -> CompiledModuleView {
    CompiledModuleView {
        name: module.name,
        llmod_id: module.llmod_id,
        kind: module.kind,
        pre_existing: module.source is Preexisting,
        object: spec_emitted(emit_obj, paths.object),
        bytecode: spec_emitted(emit_bc, paths.bytecode),
        bytecode_compressed: spec_emitted(emit_bc_compressed, paths.bytecode_compressed),
    }
}

impl ModuleTranslation {
    /// The native handles of the module, if it was freshly translated.
    pub fn llvm(&self) -> (llvm: Option<&ModuleLlvm>)
        ensures
            match self@.source {
                ModuleSourceView::Translated(handles) => llvm == Some(&handles),
                ModuleSourceView::Preexisting(_) => llvm is None,
            },
    {
        match self.source {
            ModuleSource::Translated(ref llvm) => Some(llvm),
            ModuleSource::Preexisting(_) => None,
        }
    }

    /// Turns the module into its compiled form, and says which native
    /// resources its source has to give back now that it is discarded.
    pub fn into_compiled_module(
        self,
        emit_obj: bool,
        emit_bc: bool,
        emit_bc_compressed: bool,
        paths: ModulePaths,
    ) -> (result: (CompiledModule, Vec<NativeRelease>))
        ensures
            result.0@ == spec_compiled_module(
                self@,
                emit_obj,
                emit_bc,
                emit_bc_compressed,
                paths@,
            ),
            result.1@ == spec_source_release(self@.source),
    {
        let (pre_existing, releases) = match self.source {
            ModuleSource::Preexisting(_) => (true, Vec::new()),
            ModuleSource::Translated(llvm) => (false, llvm.release()),
        };
        let object = if emit_obj {
            Some(paths.object)
        } else {
            None
        };
        let bytecode = if emit_bc {
            Some(paths.bytecode)
        } else {
            None
        };
        let bytecode_compressed = if emit_bc_compressed {
            Some(paths.bytecode_compressed)
        } else {
            None
        };
        let module = CompiledModule {
            llmod_id: self.llmod_id,
            name: self.name,
            kind: self.kind,
            pre_existing,
            object,
            bytecode,
            bytecode_compressed,
        };
        (module, releases)
    }
}

/// The compiled output of one crate, as it is handed to the linker.
#[derive(Debug)]
pub struct CrateTranslation {
    crate_name: String,
    modules: Vec<CompiledModule>,
    allocator_module: Option<CompiledModule>,
    metadata_module: CompiledModule,
    windows_subsystem: Option<String>,
}

/// The mathematical content of a [`CrateTranslation`].
pub ghost struct CrateTranslationView {
    pub crate_name: Seq<char>,
    /// The modules of ordinary code, in their order.
    pub modules: Seq<CompiledModuleView>,
    pub allocator_module: Option<CompiledModuleView>,
    pub metadata_module: CompiledModuleView,
    pub windows_subsystem: Option<Seq<char>>,
}

/// The views of a list of compiled modules.
pub open spec fn modules_view(modules: Seq<CompiledModule>) -> Seq<CompiledModuleView> {
    Seq::new(modules.len(), |i: int| modules[i]@)
}

/// The view of an optional compiled module.
pub open spec fn optional_module(module: Option<CompiledModule>) -> Option<CompiledModuleView> {
    match module {
        Some(module) => Some(module@),
        None => None,
    }
}

/// Every module of the list holds ordinary code.
pub open spec fn all_regular(modules: Seq<CompiledModuleView>) -> bool {
    forall|i: int| 0 <= i < modules.len() ==> (#[trigger] modules[i]).kind is Regular
}

/// A manifest's invariant: each module stands where its kind belongs.
pub open spec fn manifest_wf(manifest: CrateTranslationView) -> bool {
    &&& all_regular(manifest.modules)
    &&& manifest.metadata_module.kind is Metadata
    &&& match manifest.allocator_module {
        Some(allocator) => allocator.kind is Allocator,
        None => true,
    }
}

/// All modules of a manifest: the ordinary ones, the metadata module, and
/// the allocator module if there is one.
pub open spec fn spec_all_modules(manifest: CrateTranslationView) -> Seq<CompiledModuleView> {
    manifest.modules.push(manifest.metadata_module) + match manifest.allocator_module {
        Some(allocator) => seq![allocator],
        None => Seq::empty(),
    }
}

/// How many modules of the list are of the given kind.
pub open spec fn count_of_kind(modules: Seq<CompiledModuleView>, kind: ModuleKind) -> nat
    decreases modules.len(),
{
    if modules.len() == 0 {
        0
    } else {
        count_of_kind(modules.drop_last(), kind) + if modules.last().kind == kind {
            1nat
        } else {
            0nat
        }
    }
}

impl View for CrateTranslation {
    type V = CrateTranslationView;

    closed spec fn view(&self) -> CrateTranslationView {
        CrateTranslationView {
            crate_name: self.crate_name@,
            modules: modules_view(self.modules@),
            allocator_module: optional_module(self.allocator_module),
            metadata_module: self.metadata_module@,
            windows_subsystem: optional_text(self.windows_subsystem),
        }
    }
}

impl CrateTranslation {
    /// Every manifest keeps each module where its kind belongs.
    #[verifier::type_invariant]
    spec fn inv(self) -> bool {
        manifest_wf(self@)
    }

    /// Puts a manifest together, if each module is of the kind that its
    /// place asks for.
    pub fn new(
        crate_name: String,
        modules: Vec<CompiledModule>,
        allocator_module: Option<CompiledModule>,
        metadata_module: CompiledModule,
        windows_subsystem: Option<String>,
    ) -> (manifest: Option<CrateTranslation>)
        ensures
            manifest is Some <==> manifest_wf(
                CrateTranslationView {
                    crate_name: crate_name@,
                    modules: modules_view(modules@),
                    allocator_module: optional_module(allocator_module),
                    metadata_module: metadata_module@,
                    windows_subsystem: optional_text(windows_subsystem),
                },
            ),
            match manifest {
                Some(manifest) => manifest@ == (CrateTranslationView {
                    crate_name: crate_name@,
                    modules: modules_view(modules@),
                    allocator_module: optional_module(allocator_module),
                    metadata_module: metadata_module@,
                    windows_subsystem: optional_text(windows_subsystem),
                }),
                None => true,
            },
    {
        let mut i: usize = 0;
        while i < modules.len()
            invariant
                i <= modules@.len(),
                forall|j: int| 0 <= j < i ==> (#[trigger] modules@[j]).kind is Regular,
            decreases modules@.len() - i,
        {
            if modules[i].kind != ModuleKind::Regular {
                assert(!(modules_view(modules@)[i as int].kind is Regular));
                return None;
            }
            i += 1;
        }
        if metadata_module.kind != ModuleKind::Metadata {
            return None;
        }
        match &allocator_module {
            Some(allocator) => {
                if allocator.kind != ModuleKind::Allocator {
                    return None;
                }
            },
            None => {},
        }
        Some(
            CrateTranslation {
                crate_name,
                modules,
                allocator_module,
                metadata_module,
                windows_subsystem,
            },
        )
    }

    /// The crate's name.
    pub fn crate_name(&self) -> (name: &String)
        ensures
            name@ == self@.crate_name,
    {
        &self.crate_name
    }

    /// The modules of ordinary code. The manifest's invariant holds.
    pub fn modules(&self) -> (modules: &Vec<CompiledModule>)
        ensures
            modules_view(modules@) == self@.modules,
            manifest_wf(self@),
    {
        proof {
            use_type_invariant(self);
        }
        &self.modules
    }

    /// The allocator module, if the crate has one.
    pub fn allocator_module(&self) -> (module: Option<&CompiledModule>)
        ensures
            match module {
                Some(module) => self@.allocator_module == Some(module@),
                None => self@.allocator_module is None,
            },
    {
        self.allocator_module.as_ref()
    }

    /// The metadata module.
    pub fn metadata_module(&self) -> (module: &CompiledModule)
        ensures
            module@ == self@.metadata_module,
    {
        &self.metadata_module
    }

    /// The Windows subsystem that the crate asks for, if it names one.
    pub fn windows_subsystem(&self) -> (subsystem: Option<&String>)
        ensures
            match subsystem {
                Some(subsystem) => self@.windows_subsystem == Some(subsystem@),
                None => self@.windows_subsystem is None,
            },
    {
        self.windows_subsystem.as_ref()
    }
}

/// In a well-formed manifest exactly one module holds metadata and at most
/// one is the allocator shim.
pub proof fn lemma_manifest_kinds(manifest: CrateTranslationView)
    requires
        manifest_wf(manifest),
    ensures
        count_of_kind(spec_all_modules(manifest), ModuleKind::Metadata) == 1,
        count_of_kind(spec_all_modules(manifest), ModuleKind::Allocator) <= 1,
        count_of_kind(spec_all_modules(manifest), ModuleKind::Allocator) == 1
            <==> manifest.allocator_module is Some,
        count_of_kind(spec_all_modules(manifest), ModuleKind::Regular) == manifest.modules.len(),
{
    lemma_count_regular(manifest.modules);
    let with_metadata = manifest.modules.push(manifest.metadata_module);
    lemma_count_push(manifest.modules, manifest.metadata_module, ModuleKind::Metadata);
    lemma_count_push(manifest.modules, manifest.metadata_module, ModuleKind::Allocator);
    lemma_count_push(manifest.modules, manifest.metadata_module, ModuleKind::Regular);
    if let Some(allocator) = manifest.allocator_module {
        assert(spec_all_modules(manifest) =~= with_metadata.push(allocator));
        lemma_count_push(with_metadata, allocator, ModuleKind::Metadata);
        lemma_count_push(with_metadata, allocator, ModuleKind::Allocator);
        lemma_count_push(with_metadata, allocator, ModuleKind::Regular);
    }
}

/// One more module raises the count of its own kind by one, and no other.
proof fn lemma_count_push(
    modules: Seq<CompiledModuleView>,
    module: CompiledModuleView,
    kind: ModuleKind,
)
    ensures
        count_of_kind(modules.push(module), kind) == count_of_kind(modules, kind) + if module.kind
            == kind {
            1nat
        } else {
            0nat
        },
{
    assert(modules.push(module).drop_last() =~= modules);
}

/// A list of ordinary modules holds no module of another kind.
proof fn lemma_count_regular(modules: Seq<CompiledModuleView>)
    requires
        all_regular(modules),
    ensures
        count_of_kind(modules, ModuleKind::Regular) == modules.len(),
        count_of_kind(modules, ModuleKind::Metadata) == 0,
        count_of_kind(modules, ModuleKind::Allocator) == 0,
    decreases modules.len(),
{
    if modules.len() > 0 {
        lemma_count_regular(modules.drop_last());
    }
}

/// What the backend may be asked to print.
#[derive(Copy, Clone, Debug, PartialEq, Eq, Structural)]
pub enum PrintRequest {
    /// The relocation models.
    RelocationModels,
    /// The code models.
    CodeModels,
    /// The models of thread-local storage.
    TlsModels,
    /// Anything else; the backend's utilities answer it.
    Other,
}

/// The names of the models that the backend offers.
#[derive(Debug, PartialEq, Eq)]
pub struct ModelTables {
    /// The relocation models.
    pub relocation_models: Vec<String>,
    /// The code models.
    pub code_models: Vec<String>,
    /// The models of thread-local storage.
    pub tls_models: Vec<String>,
}

/// The mathematical content of [`ModelTables`].
pub ghost struct ModelTablesView {
    pub relocation_models: Seq<Seq<char>>,
    pub code_models: Seq<Seq<char>>,
    pub tls_models: Seq<Seq<char>>,
}

impl View for ModelTables {
    type V = ModelTablesView;

    open spec fn view(&self) -> ModelTablesView {
        ModelTablesView {
            relocation_models: self.relocation_models.deep_view(),
            code_models: self.code_models.deep_view(),
            tls_models: self.tls_models.deep_view(),
        }
    }
}

/// The lines of a listing: its title, each name indented by four spaces,
/// and an empty line.
pub open spec fn spec_listing(title: Seq<char>, names: Seq<Seq<char>>) -> Seq<Seq<char>> {
    seq![title] + Seq::new(names.len(), |i: int| "    "@ + names[i]) + seq![Seq::<char>::empty()]
}

/// The lines that answer a request, if the request is for a listing.
pub open spec fn spec_print(request: PrintRequest, tables: ModelTablesView) -> Option<
    Seq<Seq<char>>,
> {
    match request {
        PrintRequest::RelocationModels => Some(
            spec_listing("Available relocation models:"@, tables.relocation_models),
        ),
        PrintRequest::CodeModels => Some(
            spec_listing("Available code models:"@, tables.code_models),
        ),
        PrintRequest::TlsModels => Some(spec_listing("Available TLS models:"@, tables.tls_models)),
        PrintRequest::Other => None,
    }
}

/// The view of optional lines.
pub open spec fn optional_lines(lines: Option<Vec<String>>) -> Option<Seq<Seq<char>>> {
    match lines {
        Some(lines) => Some(lines.deep_view()),
        None => None,
    }
}

/// Writes a listing.
fn listing(title: &str, names: &Vec<String>) -> (lines: Vec<String>)
    ensures
        lines.deep_view() == spec_listing(title@, names.deep_view()),
{
    let ghost expected = spec_listing(title@, names.deep_view());
    let mut lines: Vec<String> = Vec::new();
    push_text(&mut lines, title);
    let mut i: usize = 0;
    while i < names.len()
        invariant
            i <= names@.len(),
            expected == spec_listing(title@, names.deep_view()),
            lines.deep_view() == expected.take(i + 1),
        decreases names@.len() - i,
    {
        let mut line = String::from_str("    ");
        line.append(names[i].as_str());
        push_string(&mut lines, line);
        i += 1;
    }
    push_string(&mut lines, String::new());
    lines
}

/// A kind of file that a compilation may be asked for.
#[derive(Copy, Clone, Debug, PartialEq, Eq, Structural)]
pub enum OutputType {
    /// Bitcode of the code generator.
    Bitcode,
    /// Assembly.
    Assembly,
    /// The code generator's intermediate representation as text.
    LlvmAssembly,
    /// The compiler's mid-level intermediate representation.
    Mir,
    /// The crate's metadata.
    Metadata,
    /// An object file.
    Object,
    /// An executable or a library.
    Exe,
    /// The dependencies of the build.
    DepInfo,
}

/// Why a compilation did not run to its end.
#[derive(Copy, Clone, Debug, PartialEq, Eq, Structural)]
pub enum CompileIncomplete {
    /// It was told to stop.
    Stopped,
    /// It reported errors.
    Errored,
}

/// One thing to do once translation has been joined.
#[derive(Copy, Clone, Debug, PartialEq, Eq, Structural)]
pub enum LinkStep {
    /// Print what incremental compilation reused.
    DumpIncrementalData,
    /// Save the work products for the next build.
    SaveWorkProducts,
    /// Run the linker on the compiled modules.
    LinkBinary,
    /// Finalize the directory of the incremental session.
    FinalizeSessionDirectory,
}

/// Whether the asked-for outputs include one that the linker makes: an
/// executable or a metadata file.
pub open spec fn spec_needs_linking(output_types: Seq<OutputType>) -> bool {
    output_types.contains(OutputType::Exe) || output_types.contains(OutputType::Metadata)
}

/// What is done right after translation has been joined, before the
/// session's status is read.
pub open spec fn spec_join_steps(incremental_info: bool) -> Seq<LinkStep> {
    if incremental_info {
        seq![LinkStep::DumpIncrementalData, LinkStep::SaveWorkProducts]
    } else {
        seq![LinkStep::SaveWorkProducts]
    }
}

/// What is done once the session's status has been read: nothing but to
/// pass on a failure; nothing where no output needs the linker; else linking
/// and finalizing.
pub open spec fn spec_link_steps(
    status: Result<(), CompileIncomplete>,
    output_types: Seq<OutputType>,
) -> Result<Seq<LinkStep>, CompileIncomplete> {
    match status {
        Err(incomplete) => Err(incomplete),
        Ok(_) => if spec_needs_linking(output_types) {
            Ok(seq![LinkStep::LinkBinary, LinkStep::FinalizeSessionDirectory])
        } else {
            Ok(Seq::empty())
        },
    }
}

/// The view of planned steps.
pub open spec fn steps_view(steps: Result<Vec<LinkStep>, CompileIncomplete>) -> Result<
    Seq<LinkStep>,
    CompileIncomplete,
> {
    match steps {
        Ok(steps) => Ok(steps@),
        Err(incomplete) => Err(incomplete),
    }
}

/// Says whether the asked-for outputs include one that the linker makes.
pub fn needs_linking(output_types: &Vec<OutputType>) -> (needed: bool)
    ensures
        needed == spec_needs_linking(output_types@),
{
    let mut i: usize = 0;
    while i < output_types.len()
        invariant
            i <= output_types@.len(),
            forall|j: int|
                0 <= j < i ==> !(output_types@[j] is Exe) && !(output_types@[j] is Metadata),
        decreases output_types@.len() - i,
    {
        if output_types[i] == OutputType::Exe || output_types[i] == OutputType::Metadata {
            return true;
        }
        i += 1;
    }
    false
}

/// The code-generation backend.
#[derive(Debug)]
pub struct LlvmTransCrate(());

impl LlvmTransCrate {
    /// The one value of the type.
    pub closed spec fn unit() -> LlvmTransCrate {
        LlvmTransCrate(())
    }

    /// The backend.
    pub fn new() -> (backend: Box<LlvmTransCrate>)
        ensures
            *backend == LlvmTransCrate::unit(),
    {
        Box::new(LlvmTransCrate(()))
    }

    /// The diagnostics that the backend registers: none.
    pub fn diagnostics(&self) -> (diagnostics: Vec<(String, String)>)
        ensures
            diagnostics@.len() == 0,
    {
        Vec::new()
    }

    /// The lines to print for a request, or `None` where the request is not
    /// for one of the backend's listings.
    pub fn print(&self, request: PrintRequest, tables: &ModelTables) -> (lines: Option<
        Vec<String>,
    >)
        ensures
            optional_lines(lines) == spec_print(request, tables@),
    {
        match request {
            PrintRequest::RelocationModels => Some(
                listing("Available relocation models:", &tables.relocation_models),
            ),
            PrintRequest::CodeModels => Some(
                listing("Available code models:", &tables.code_models),
            ),
            PrintRequest::TlsModels => Some(listing("Available TLS models:", &tables.tls_models)),
            PrintRequest::Other => None,
        }
    }

    /// What to do right after translation has been joined: dump what
    /// incremental compilation reused if that was asked for, then save the
    /// work products. The session's status is read after these.
    pub fn join_steps(&self, incremental_info: bool) -> (steps: Vec<LinkStep>)
        ensures
            steps@ == spec_join_steps(incremental_info),
    {
        let mut steps: Vec<LinkStep> = Vec::new();
        if incremental_info {
            steps.push(LinkStep::DumpIncrementalData);
        }
        steps.push(LinkStep::SaveWorkProducts);
        steps
    }

    /// What to do once the session's status has been read.
    pub fn link_steps(
        &self,
        status: Result<(), CompileIncomplete>,
        output_types: &Vec<OutputType>,
    ) -> (steps: Result<Vec<LinkStep>, CompileIncomplete>)
        ensures
            steps_view(steps) == spec_link_steps(status, output_types@),
    {
        match status {
            Err(incomplete) => Err(incomplete),
            Ok(_) => {
                let mut steps: Vec<LinkStep> = Vec::new();
                if needs_linking(output_types) {
                    steps.push(LinkStep::LinkBinary);
                    steps.push(LinkStep::FinalizeSessionDirectory);
                    assert(steps@ =~= seq![
                        LinkStep::LinkBinary,
                        LinkStep::FinalizeSessionDirectory,
                    ]);
                }
                Ok(steps)
            },
        }
    }
}

} // verus!
