//! The runner: owns one engine instance at a time, drives the evaluation of
//! an entry module through its fixed sequence of steps, and bridges the
//! resulting namespace value to the caller's requested shape.
//!
//! The engine itself is an outside capability the host drives; what lives
//! here is the auditable part: the instance lifecycle (Uninitialized →
//! Ready → Consumed, with a fresh instance created transparently whenever
//! an evaluation finds none ready), the step ordering with fail-fast error
//! propagation, and the bootstrap parameters computed from host facts.

use vstd::prelude::*;
use vstd::string::StringSliceAdditionalSpecFns;

use crate::error::ErrorKind;
use crate::error::TsError;
use crate::error::text_bytes;
use crate::media_type::ModuleKind;
use crate::text::bytes_eq;
use crate::value::Shape;
use crate::value::Value;
use crate::value::bridge_entry;
use crate::value::conforms;
use crate::value::convert;
use crate::value::lookup_field;

verus! {

/// Lifecycle of the runner's engine instance.
#[derive(Clone, Copy, PartialEq, Eq, Structural, Debug)]
pub enum InstanceState {
    /// No instance has been created yet.
    Uninitialized,
    /// A live instance is waiting for the next evaluation.
    Ready,
    /// The last instance was taken by an evaluation and will not be reused.
    Consumed,
}

/// What claiming the instance for an evaluation does: the claim is always
/// granted, the runner is left `Consumed`, and a fresh instance is created
/// exactly when none was `Ready`.
pub open spec fn spec_acquire(s: InstanceState) -> (InstanceState, bool) {
    (InstanceState::Consumed, !(s is Ready))
}

/// The runner: holds the entry-module specifier and the state of its one
/// engine instance.
pub struct TsRunner {
    main_module: Vec<u8>,
    state: InstanceState,
}

impl TsRunner {
    /// The entry-module specifier this runner evaluates.
    pub closed spec fn main_module(&self) -> Seq<u8> {
        self.main_module@
    }

    /// The lifecycle state of the runner's engine instance.
    pub closed spec fn state(&self) -> InstanceState {
        self.state
    }

    /// A runner for the given entry module. The engine instance is created
    /// eagerly from the startup snapshot, so the runner starts `Ready`.
    pub fn new(main_module: Vec<u8>) -> (r: TsRunner)
        ensures
            r.main_module() == main_module@,
            r.state() is Ready,
    {
        TsRunner { main_module, state: InstanceState::Ready }
    }

    /// The entry-module specifier, for the host driving the engine.
    pub fn main_module_bytes(&self) -> (r: &Vec<u8>)
        ensures
            r@ == self.main_module(),
    {
        &self.main_module
    }

    /// The current lifecycle state.
    pub fn instance_state(&self) -> (r: InstanceState)
        ensures
            r == self.state(),
    {
        self.state
    }

    /// Claim the engine instance for one evaluation. Every call is granted
    /// a live instance: when none is `Ready` (the first call after a prior
    /// evaluation consumed it), a fresh one is created transparently, and
    /// `fresh` reports that. The claimed instance belongs to this one
    /// evaluation and is not reused.
    pub fn acquire_instance(&mut self) -> (fresh: bool)
        ensures
            final(self).state() == spec_acquire(old(self).state()).0,
            fresh == spec_acquire(old(self).state()).1,
            final(self).state() is Consumed,
            final(self).main_module() == old(self).main_module(),
    {
        let fresh = !matches!(self.state, InstanceState::Ready);
        self.state = InstanceState::Consumed;
        fresh
    }
}

/// Law: repeated evaluation calls on one runner each succeed independently.
/// A claim is granted from every state — in particular from `Consumed`,
/// where the prior evaluation's instance is gone — and it leaves the runner
/// `Consumed`, so the claim of the following evaluation creates a fresh
/// instance rather than sharing the old one.
pub proof fn lemma_repeated_evaluations(s: InstanceState)
    ensures
        spec_acquire(s).0 is Consumed,
        spec_acquire(spec_acquire(s).0).1,
{
}

/// The steps of one evaluation, in their fixed order.
#[derive(Clone, Copy, PartialEq, Eq, Structural, Debug)]
pub enum EvalPhase {
    /// Preload the entry module, resolving and loading the module graph.
    Preload,
    /// Execute the entry module's top-level code.
    Execute,
    /// Drain the event loop until no queued work remains.
    Drain,
    /// Read the entry module's exported namespace.
    ReadNamespace,
    /// The namespace value is in hand; only bridging remains.
    Done,
}

/// The fixed step order: preload, execute, drain, read the namespace.
pub open spec fn spec_next_phase(p: EvalPhase) -> EvalPhase {
    match p {
        EvalPhase::Preload => EvalPhase::Execute,
        EvalPhase::Execute => EvalPhase::Drain,
        EvalPhase::Drain => EvalPhase::ReadNamespace,
        EvalPhase::ReadNamespace => EvalPhase::Done,
        EvalPhase::Done => EvalPhase::Done,
    }
}

/// The context message wrapped around an engine failure in each phase.
pub open spec fn spec_phase_context(p: EvalPhase) -> Seq<u8> {
    match p {
        EvalPhase::Preload => ("failed to preload main module").spec_bytes(),
        EvalPhase::Execute => ("failed to execute main module").spec_bytes(),
        EvalPhase::Drain => ("failed to drain the event loop").spec_bytes(),
        EvalPhase::ReadNamespace => ("failed to read the module namespace").spec_bytes(),
        EvalPhase::Done => ("evaluation already complete").spec_bytes(),
    }
}

/// Advance the evaluation after the engine finished one step.
///
/// A failed step aborts the evaluation at once with an `Execution` error
/// wrapping the engine's own message — no step is retried and no later step
/// runs; a successful step moves to the next phase in the fixed order.
pub fn eval_step(phase: EvalPhase, outcome: Result<(), Vec<u8>>) -> (r: Result<EvalPhase, TsError>)
    ensures
        outcome matches Err(m) ==> (r matches Err(e) && e.kind() == ErrorKind::Execution
            && e.chain() == seq![spec_phase_context(phase), m@]),
        outcome is Ok ==> (r matches Ok(p) && p == spec_next_phase(phase)),
{
    match outcome {
        Ok(_) => Ok(
            match phase {
                EvalPhase::Preload => EvalPhase::Execute,
                EvalPhase::Execute => EvalPhase::Drain,
                EvalPhase::Drain => EvalPhase::ReadNamespace,
                EvalPhase::ReadNamespace => EvalPhase::Done,
                EvalPhase::Done => EvalPhase::Done,
            },
        ),
        Err(message) => {
            let context = match phase {
                EvalPhase::Preload => text_bytes("failed to preload main module"),
                EvalPhase::Execute => text_bytes("failed to execute main module"),
                EvalPhase::Drain => text_bytes("failed to drain the event loop"),
                EvalPhase::ReadNamespace => text_bytes("failed to read the module namespace"),
                EvalPhase::Done => text_bytes("evaluation already complete"),
            };
            Err(TsError::new(ErrorKind::Execution, message).wrap(context))
        },
    }
}

/// Bridge a completed module's namespace to the caller's requested shape:
/// pick the value the bridge consumes for this module kind (the top-level
/// value for structured data, the `default` binding for code), then check
/// it against the shape. This is a pure re-projection, not a second engine
/// round trip.
pub fn eval_module_value<'a>(kind: ModuleKind, namespace: &'a Value, shape: &Shape) -> (r: Result<
    &'a Value,
    TsError,
>)
    ensures
        kind == ModuleKind::StructuredData ==> match r {
            Ok(v) => v == namespace && conforms(*namespace, *shape),
            Err(e) => e.kind() == ErrorKind::Shape && !conforms(*namespace, *shape),
        },
        kind == ModuleKind::Code ==> match r {
            Ok(v) => namespace matches Value::Obj(entries) && lookup_field(
                entries@,
                ("default").spec_bytes(),
            ) matches Some(fv) && *v == fv && conforms(fv, *shape),
            Err(e) => match namespace {
                Value::Obj(entries) => match lookup_field(entries@, ("default").spec_bytes()) {
                    Some(fv) => e.kind() == ErrorKind::Shape && !conforms(fv, *shape),
                    None => e.kind() == ErrorKind::Execution,
                },
                _ => e.kind() == ErrorKind::Execution,
            },
        },
{
    let entry = match bridge_entry(kind, namespace) {
        Ok(v) => v,
        Err(e) => {
            return Err(e);
        },
    };
    convert(entry, shape)
}

/// Heap limits handed to a fresh engine instance.
#[derive(Clone, Copy, PartialEq, Eq, Structural, Debug)]
pub struct HeapLimits {
    /// Initial heap size in bytes.
    pub initial: u64,
    /// Maximum heap size in bytes.
    pub max: u64,
}

/// Isolate creation parameters from the machine's total memory as the host
/// read it: the heap may grow from zero up to that total; when no memory
/// information is available the engine's defaults apply.
pub fn create_isolate_create_params(total_memory: Option<u64>) -> (r: Option<HeapLimits>)
    ensures
        total_memory matches Some(m) ==> (r matches Some(h) && h.initial == 0 && h.max == m),
        total_memory is None ==> r is None,
{
    match total_memory {
        Some(m) => Some(HeapLimits { initial: 0, max: m }),
        None => None,
    }
}

/// The concurrency hint handed to the engine at bootstrap: the host's
/// available parallelism, or 1 when that information is unavailable.
pub fn bootstrap_cpu_count(parallelism: Option<usize>) -> (r: usize)
    ensures
        r == match parallelism {
            Some(p) => p,
            None => 1usize,
        },
{
    match parallelism {
        Some(p) => p,
        None => 1,
    }
}

/// Version metadata baked into the startup snapshot when it was built.
#[derive(Debug)]
pub struct SnapshotMeta {
    /// The engine version the snapshot was built against.
    pub engine_version: Vec<u8>,
    /// The host tool version the snapshot was built with.
    pub tool_version: Vec<u8>,
}

/// Check the snapshot's baked-in versions against the running engine and
/// tools. A mismatch is fatal at startup: a `Setup` error, with no fallback
/// to a cold bootstrap.
pub fn check_snapshot(meta: &SnapshotMeta, engine_version: &[u8], tool_version: &[u8]) -> (r:
    Result<(), TsError>)
    ensures
        r is Ok <==> (meta.engine_version@ == engine_version@ && meta.tool_version@
            == tool_version@),
        r matches Err(e) ==> e.kind() == ErrorKind::Setup && e.chain() == seq![
            ("startup snapshot does not match the running engine").spec_bytes(),
        ],
{
    if bytes_eq(meta.engine_version.as_slice(), engine_version) && bytes_eq(
        meta.tool_version.as_slice(),
        tool_version,
    ) {
        Ok(())
    } else {
        Err(
            TsError::new(
                ErrorKind::Setup,
                text_bytes("startup snapshot does not match the running engine"),
            ),
        )
    }
}

} // verus!
