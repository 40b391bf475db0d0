use rusti::trans::{
    needs_linking, CompileIncomplete, CompiledModule, CrateTranslation, LinkStep, LlvmTransCrate,
    ModelTables, ModuleKind, ModuleLlvm, ModulePaths, ModuleSource, ModuleTranslation,
    NativeRelease, OutputType, PrintRequest, WorkProduct,
};

fn paths() -> ModulePaths {
    ModulePaths {
        object: String::from("out/krate.cgu0.rcgu.o"),
        bytecode: String::from("out/krate.cgu0.rcgu.bc"),
        bytecode_compressed: String::from("out/krate.cgu0.rcgu.bc.z"),
    }
}

fn translated(kind: ModuleKind) -> ModuleTranslation {
    ModuleTranslation {
        name: String::from("krate.cgu0"),
        llmod_id: String::from("krate.cgu0.rs"),
        source: ModuleSource::Translated(ModuleLlvm { llcx: 11, llmod: 22, tm: 33 }),
        kind,
    }
}

fn reused(kind: ModuleKind) -> ModuleTranslation {
    ModuleTranslation {
        name: String::from("krate.cgu1"),
        llmod_id: String::from("krate.cgu1.rs"),
        source: ModuleSource::Preexisting(WorkProduct { name: String::from("krate.cgu1") }),
        kind,
    }
}

fn compiled(name: &str, kind: ModuleKind) -> CompiledModule {
    CompiledModule {
        name: String::from(name),
        llmod_id: format!("{}.rs", name),
        kind,
        pre_existing: false,
        object: Some(format!("{}.o", name)),
        bytecode: None,
        bytecode_compressed: None,
    }
}

fn tables() -> ModelTables {
    ModelTables {
        relocation_models: vec![String::from("pic"), String::from("static")],
        code_models: vec![String::from("small")],
        tls_models: Vec::new(),
    }
}

#[test]
fn release_gives_up_module_then_context_then_target_machine() {
    let handles = ModuleLlvm { llcx: 1, llmod: 2, tm: 3 };
    assert_eq!(
        handles.release(),
        vec![
            NativeRelease::Module(2),
            NativeRelease::Context(1),
            NativeRelease::TargetMachine(3),
        ]
    );
}

#[test]
fn llvm_of_a_translated_module() {
    let module = translated(ModuleKind::Regular);
    assert_eq!(module.llvm(), Some(&ModuleLlvm { llcx: 11, llmod: 22, tm: 33 }));
}

#[test]
fn llvm_of_a_reused_module() {
    assert_eq!(reused(ModuleKind::Regular).llvm(), None);
}

#[test]
fn compiled_module_with_every_file() {
    let (module, releases) =
        translated(ModuleKind::Regular).into_compiled_module(true, true, true, paths());
    assert_eq!(
        module,
        CompiledModule {
            name: String::from("krate.cgu0"),
            llmod_id: String::from("krate.cgu0.rs"),
            kind: ModuleKind::Regular,
            pre_existing: false,
            object: Some(String::from("out/krate.cgu0.rcgu.o")),
            bytecode: Some(String::from("out/krate.cgu0.rcgu.bc")),
            bytecode_compressed: Some(String::from("out/krate.cgu0.rcgu.bc.z")),
        }
    );
    assert_eq!(
        releases,
        vec![
            NativeRelease::Module(22),
            NativeRelease::Context(11),
            NativeRelease::TargetMachine(33),
        ]
    );
}

#[test]
fn compiled_module_with_no_file() {
    let (module, _) =
        translated(ModuleKind::Metadata).into_compiled_module(false, false, false, paths());
    assert_eq!(module.kind, ModuleKind::Metadata);
    assert_eq!(module.object, None);
    assert_eq!(module.bytecode, None);
    assert_eq!(module.bytecode_compressed, None);
}

#[test]
fn compiled_module_with_each_file_alone() {
    let (module, _) =
        translated(ModuleKind::Regular).into_compiled_module(true, false, false, paths());
    assert_eq!(
        (module.object, module.bytecode, module.bytecode_compressed),
        (Some(String::from("out/krate.cgu0.rcgu.o")), None, None)
    );
    let (module, _) =
        translated(ModuleKind::Regular).into_compiled_module(false, true, false, paths());
    assert_eq!(
        (module.object, module.bytecode, module.bytecode_compressed),
        (None, Some(String::from("out/krate.cgu0.rcgu.bc")), None)
    );
    let (module, _) =
        translated(ModuleKind::Regular).into_compiled_module(false, false, true, paths());
    assert_eq!(
        (module.object, module.bytecode, module.bytecode_compressed),
        (None, None, Some(String::from("out/krate.cgu0.rcgu.bc.z")))
    );
}

#[test]
fn compiled_module_of_a_reused_module() {
    let (module, releases) =
        reused(ModuleKind::Allocator).into_compiled_module(true, false, true, paths());
    assert_eq!(
        module,
        CompiledModule {
            name: String::from("krate.cgu1"),
            llmod_id: String::from("krate.cgu1.rs"),
            kind: ModuleKind::Allocator,
            pre_existing: true,
            object: Some(String::from("out/krate.cgu0.rcgu.o")),
            bytecode: None,
            bytecode_compressed: Some(String::from("out/krate.cgu0.rcgu.bc.z")),
        }
    );
    assert!(releases.is_empty());
}

#[test]
fn manifest_of_modules_in_their_places() {
    let manifest = CrateTranslation::new(
        String::from("krate"),
        vec![compiled("a", ModuleKind::Regular), compiled("b", ModuleKind::Regular)],
        Some(compiled("alloc", ModuleKind::Allocator)),
        compiled("meta", ModuleKind::Metadata),
        Some(String::from("console")),
    )
    .unwrap();
    assert_eq!(manifest.crate_name(), "krate");
    assert_eq!(
        manifest.modules(),
        &vec![compiled("a", ModuleKind::Regular), compiled("b", ModuleKind::Regular)]
    );
    assert_eq!(manifest.allocator_module(), Some(&compiled("alloc", ModuleKind::Allocator)));
    assert_eq!(manifest.metadata_module(), &compiled("meta", ModuleKind::Metadata));
    assert_eq!(manifest.windows_subsystem(), Some(&String::from("console")));
}

#[test]
fn manifest_without_allocator_or_ordinary_modules() {
    let manifest = CrateTranslation::new(
        String::from("krate"),
        Vec::new(),
        None,
        compiled("meta", ModuleKind::Metadata),
        None,
    )
    .unwrap();
    assert!(manifest.modules().is_empty());
    assert_eq!(manifest.allocator_module(), None);
    assert_eq!(manifest.windows_subsystem(), None);
}

#[test]
fn manifest_refuses_a_misplaced_module() {
    for kind in [ModuleKind::Metadata, ModuleKind::Allocator] {
        assert!(CrateTranslation::new(
            String::from("krate"),
            vec![compiled("a", ModuleKind::Regular), compiled("b", kind)],
            None,
            compiled("meta", ModuleKind::Metadata),
            None,
        )
        .is_none());
    }
    for kind in [ModuleKind::Regular, ModuleKind::Allocator] {
        assert!(CrateTranslation::new(
            String::from("krate"),
            Vec::new(),
            None,
            compiled("meta", kind),
            None,
        )
        .is_none());
    }
    for kind in [ModuleKind::Regular, ModuleKind::Metadata] {
        assert!(CrateTranslation::new(
            String::from("krate"),
            Vec::new(),
            Some(compiled("alloc", kind)),
            compiled("meta", ModuleKind::Metadata),
            None,
        )
        .is_none());
    }
}

#[test]
fn print_lists_the_relocation_models() {
    let backend = LlvmTransCrate::new();
    assert_eq!(
        backend.print(PrintRequest::RelocationModels, &tables()),
        Some(vec![
            String::from("Available relocation models:"),
            String::from("    pic"),
            String::from("    static"),
            String::new(),
        ])
    );
}

#[test]
fn print_lists_the_code_models() {
    let backend = LlvmTransCrate::new();
    assert_eq!(
        backend.print(PrintRequest::CodeModels, &tables()),
        Some(vec![
            String::from("Available code models:"),
            String::from("    small"),
            String::new(),
        ])
    );
}

#[test]
fn print_lists_the_tls_models_even_if_there_are_none() {
    let backend = LlvmTransCrate::new();
    assert_eq!(
        backend.print(PrintRequest::TlsModels, &tables()),
        Some(vec![String::from("Available TLS models:"), String::new()])
    );
}

#[test]
fn print_leaves_other_requests_to_the_utilities() {
    let backend = LlvmTransCrate::new();
    assert_eq!(backend.print(PrintRequest::Other, &tables()), None);
}

#[test]
fn outputs_that_need_the_linker() {
    assert!(needs_linking(&vec![OutputType::Exe]));
    assert!(needs_linking(&vec![OutputType::Metadata]));
    assert!(needs_linking(&vec![OutputType::Object, OutputType::Assembly, OutputType::Exe]));
    assert!(needs_linking(&vec![OutputType::Metadata, OutputType::Bitcode]));
    assert!(!needs_linking(&Vec::new()));
    assert!(!needs_linking(&vec![
        OutputType::Bitcode,
        OutputType::Assembly,
        OutputType::LlvmAssembly,
        OutputType::Mir,
        OutputType::Object,
        OutputType::DepInfo,
    ]));
}

#[test]
fn join_steps_save_the_work_products() {
    let backend = LlvmTransCrate::new();
    assert_eq!(backend.join_steps(false), vec![LinkStep::SaveWorkProducts]);
    assert_eq!(
        backend.join_steps(true),
        vec![LinkStep::DumpIncrementalData, LinkStep::SaveWorkProducts]
    );
}

#[test]
fn link_steps_pass_on_a_failure() {
    let backend = LlvmTransCrate::new();
    assert_eq!(
        backend.link_steps(Err(CompileIncomplete::Errored), &vec![OutputType::Exe]),
        Err(CompileIncomplete::Errored)
    );
    assert_eq!(
        backend.link_steps(Err(CompileIncomplete::Stopped), &Vec::new()),
        Err(CompileIncomplete::Stopped)
    );
}

#[test]
fn link_steps_skip_the_linker_where_nothing_needs_it() {
    let backend = LlvmTransCrate::new();
    assert_eq!(backend.link_steps(Ok(()), &vec![OutputType::Object]), Ok(Vec::new()));
    assert_eq!(backend.link_steps(Ok(()), &Vec::new()), Ok(Vec::new()));
}

#[test]
fn link_steps_link_and_finalize() {
    let backend = LlvmTransCrate::new();
    assert_eq!(
        backend.link_steps(Ok(()), &vec![OutputType::Object, OutputType::Exe]),
        Ok(vec![LinkStep::LinkBinary, LinkStep::FinalizeSessionDirectory])
    );
    assert_eq!(
        backend.link_steps(Ok(()), &vec![OutputType::Metadata]),
        Ok(vec![LinkStep::LinkBinary, LinkStep::FinalizeSessionDirectory])
    );
}

#[test]
fn backend_registers_no_diagnostics() {
    assert!(LlvmTransCrate::new().diagnostics().is_empty());
}
