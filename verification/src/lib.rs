//! Bookkeeping for an incremental, crash-isolated evaluation engine.
//!
//! Each accepted fragment of source becomes a *generation*: a dynamic library
//! that is compiled against the generations before it, loaded, and entered at
//! a named symbol. This crate holds every decision of that cycle as verified
//! functions on plain values; launching the compiler, loading the library and
//! isolating the worker are left to the host program, which performs the
//! actions that this crate asks for and reports back what happened.
//!
//! * [`text`]: decimal numerals and the trimming of line endings.
//! * [`chain`]: the names derived from a generation's number, and the
//!   append-only chain of accepted generations.
//! * [`toolchain`]: finding the toolchain's root once.
//! * [`compile`]: the unit handed to the compiler and the reading of the
//!   compiler's answer.
//! * [`monitor`]: the ways in which a worker ends, the monitor's states, and
//!   the diagnostics owed to the user.
//! * [`engine`]: the engine itself: argument lists, and the cycle of
//!   starting and ending an evaluation.
//! * [`worker`]: the order of the outside actions within one evaluation.
//! * [`trans`]: the modules of a translated crate and what follows
//!   translation.
//!
//! Each type has a mathematical view, each function says in its contract
//! what it returns in terms of these views, and the laws that relate several
//! functions are stated as proof functions next to them.

pub mod chain;
pub mod compile;
pub mod engine;
pub mod monitor;
pub mod text;
pub mod toolchain;
pub mod trans;
pub mod worker;

pub use crate::chain::{ArtifactChain, ArtifactRecord};
pub use crate::compile::{ArtifactOutcome, CompilationUnit, CompileFailure, VirtualSource};
pub use crate::engine::{CompileRequest, DriverRequest, ExecutionEngine, Report};
pub use crate::monitor::{
    Diagnostic, EvalFailure, FaultKind, FaultMonitor, InvocationFailure, MonitorState, WorkerExit,
};
pub use crate::toolchain::{LocatorStep, ProbeOutcome, ToolchainError, ToolchainLocator};
pub use crate::trans::{
    CompiledModule, CrateTranslation, LlvmTransCrate, ModuleKind, ModuleLlvm, ModuleSource,
    ModuleTranslation,
};
pub use crate::worker::{worker_step, WorkerAction, WorkerEvent};
