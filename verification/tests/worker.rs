use rusti::compile::CompileFailure;
use rusti::engine::{CompileRequest, ExecutionEngine};
use rusti::monitor::{EvalFailure, InvocationFailure, WorkerExit};
use rusti::worker::{worker_step, WorkerAction, WorkerEvent};

fn request() -> CompileRequest {
    let mut engine = ExecutionEngine::new(vec![String::from("deps")], String::from("/opt/rust"));
    engine.begin("fn a() {}", "a").unwrap();
    engine.finish(WorkerExit::Finished(Ok(())), String::new()).unwrap();
    engine.begin("fn b() { a() }", "b").unwrap()
}

#[test]
fn worker_first_removes_the_stale_artifact() {
    assert_eq!(
        worker_step(&request(), WorkerEvent::Started),
        WorkerAction::RemoveStale { path: String::from("./librusti_tmp_source_1.dylib") }
    );
}

#[test]
fn worker_then_writes_the_source() {
    assert_eq!(
        worker_step(&request(), WorkerEvent::StaleRemoved),
        WorkerAction::WriteSource {
            file: String::from("rusti_tmp_source.rs"),
            text: String::from(
                "#![allow(dead_code, unused_imports, unused_features)]\
                 extern crate rusti_tmp_source_0;\n\
                 pub use rusti_tmp_source_0::*;\n\
                 \nfn b() { a() }\n"
            ),
        }
    );
}

#[test]
fn worker_then_compiles() {
    let request = request();
    let arguments: Vec<String> = [
        "--sysroot",
        "/opt/rust",
        "-Cprefer-dynamic",
        "-L",
        ".",
        "-L",
        "deps",
        "--crate-type",
        "dylib",
        "--crate-name",
        "rusti_tmp_source_1",
        "--extern",
        "rusti_tmp_source_0=./librusti_tmp_source_0.dylib",
        "rusti_tmp_source.rs",
        "-o",
        "./librusti_tmp_source_1.dylib",
    ]
    .iter()
    .map(|s| s.to_string())
    .collect();
    assert_eq!(
        worker_step(&request, WorkerEvent::SourceWritten),
        WorkerAction::Compile { program: String::from("rustc"), arguments }
    );
}

#[test]
fn worker_enters_the_library_after_a_successful_compilation() {
    assert_eq!(
        worker_step(
            &request(),
            WorkerEvent::Compiled { exit_code: Some(0), output: String::from("warning: x") }
        ),
        WorkerAction::LoadAndCall {
            artifact_path: String::from("./librusti_tmp_source_1.dylib"),
            symbol: vec![b'b'],
        }
    );
}

#[test]
fn worker_looks_the_symbol_up_by_its_bytes() {
    let mut engine = ExecutionEngine::new(Vec::new(), String::from("/opt/rust"));
    let request = engine.begin("fn zoé() {}", "zoé").unwrap();
    assert_eq!(
        worker_step(&request, WorkerEvent::Compiled { exit_code: Some(0), output: String::new() }),
        WorkerAction::LoadAndCall {
            artifact_path: String::from("./librusti_tmp_source_0.dylib"),
            symbol: vec![b'z', b'o', 0xc3, 0xa9],
        }
    );
}

#[test]
fn worker_reports_a_rejection_without_loading() {
    for exit_code in [Some(1), Some(101), Some(-1), None] {
        assert_eq!(
            worker_step(
                &request(),
                WorkerEvent::Compiled { exit_code, output: String::from("error: no") }
            ),
            WorkerAction::Finish(Err(EvalFailure::Compile(CompileFailure::ToolchainRejected {
                output: String::from("error: no")
            })))
        );
    }
}

#[test]
fn worker_reports_how_the_call_went() {
    assert_eq!(
        worker_step(&request(), WorkerEvent::Invoked(Ok(()))),
        WorkerAction::Finish(Ok(()))
    );
    assert_eq!(
        worker_step(&request(), WorkerEvent::Invoked(Err(InvocationFailure::LoadFailure))),
        WorkerAction::Finish(Err(EvalFailure::Invocation(InvocationFailure::LoadFailure)))
    );
    assert_eq!(
        worker_step(&request(), WorkerEvent::Invoked(Err(InvocationFailure::SymbolNotFound))),
        WorkerAction::Finish(Err(EvalFailure::Invocation(InvocationFailure::SymbolNotFound)))
    );
}

#[test]
fn worker_script_runs_from_start_to_finish() {
    let request = request();
    let mut event = WorkerEvent::Started;
    let mut actions = 0;
    let result = loop {
        event = match worker_step(&request, event) {
            WorkerAction::RemoveStale { .. } => WorkerEvent::StaleRemoved,
            WorkerAction::WriteSource { .. } => WorkerEvent::SourceWritten,
            WorkerAction::Compile { .. } => {
                WorkerEvent::Compiled { exit_code: Some(0), output: String::new() }
            }
            WorkerAction::LoadAndCall { .. } => WorkerEvent::Invoked(Ok(())),
            WorkerAction::Finish(result) => break result,
        };
        actions += 1;
    };
    assert_eq!(result, Ok(()));
    assert_eq!(actions, 4);
}
