//! The runtime lifecycle: building a runtime, starting the engine module
//! once, and stepping one script execution through the engine's
//! per-request protocol.
//!
//! The native engine holds process-wide state and is driven through raw
//! entry points; everything it decides here — which callbacks are
//! registered, the placeholder request fields, the order of the
//! per-request steps, and what each outcome means — is kept in this module
//! so it can be verified. The embedding shell around the engine performs
//! one native call per [`EngineOp`] and reports what happened; the
//! [`Execution`] state machine accepts each report only in the right phase
//! and fixes the final outcome.

use core::marker::PhantomData;
use vstd::prelude::*;

use crate::callbacks::{Callbacks, Registered, Unregistered};

verus! {

/// Why a runtime could not be constructed. Both cases are fatal: the
/// engine's global state is unusable and must not be started again.
#[derive(Clone, Copy, Debug, PartialEq, Eq, Structural)]
pub enum InitializationError {
    /// The engine's thread-resource storage could not be set up.
    ThreadResources,
    /// The engine reported failure from its module startup.
    ModuleStartup,
}

/// Why one execution failed. The runtime stays usable afterwards.
#[derive(Clone, Copy, Debug, PartialEq, Eq, Structural)]
pub enum ExecutionError {
    /// The script file could not be opened.
    ScriptOpenError,
}

/// Coerces a requested thread count to at least one slot, as the engine's
/// thread-resource pool requires.
pub open spec fn coerced_thread_count(threads: usize) -> usize {
    if threads > 0 {
        threads
    } else {
        1
    }
}

/// The record the engine keeps for the lifetime of the process: the
/// module's names, and the size of the thread-resource pool to set up.
/// The embedding shell translates it into the engine's module table, whose
/// entry points dispatch into the callback table.
pub struct ModuleDescriptor {
    /// Short name of the runtime module.
    pub name: String,
    /// Long, descriptive name of the runtime module.
    pub pretty_name: String,
    /// Number of thread-resource slots to set up, at least one.
    pub threads: usize,
}

/// The synthetic per-request fields this layer presents to the engine. It
/// has no transport of its own, so the values are fixed placeholders that
/// satisfy the engine's request-info preconditions.
pub struct RequestInfo {
    pub request_method: String,
    pub content_length: i64,
    pub path_translated: String,
    pub content_type: String,
}

/// The placeholder request fields installed once at module startup.
pub fn placeholder_request_info() -> (r: RequestInfo)
    ensures
        r.request_method@ == "POST"@,
        r.content_length == 0i64,
        r.path_translated@ == "/some/file"@,
        r.content_type@ == "text/html"@,
{
    RequestInfo {
        request_method: "POST".to_owned(),
        content_length: 0,
        path_translated: "/some/file".to_owned(),
        content_type: "text/html".to_owned(),
    }
}

/// The outcome of the engine's thread-resource setup: `started` reports
/// whether the engine set the pool up. Failure is fatal — the engine is
/// unusable and nothing may be built on it.
pub fn thread_resources_started(started: bool) -> (r: Result<(), InitializationError>)
    ensures
        started ==> r == Ok::<(), InitializationError>(()),
        !started ==> r == Err::<(), InitializationError>(InitializationError::ThreadResources),
{
    if started {
        Ok(())
    } else {
        Err(InitializationError::ThreadResources)
    }
}

/// The response status each execution starts from: plain success.
pub fn initial_response_status() -> (r: u16)
    ensures
        r == 200u16,
{
    200
}

/// Accumulates callback registrations for a runtime, then starts it.
///
/// Each registration fills one slot of the callback table; registering the
/// same slot again replaces the earlier callback. Callbacks take the
/// context by value and return the updated context beside their result.
pub struct RuntimeBuilder<T, FS, FD, FW, FR> {
    pub callbacks: Callbacks<FS, FD, FW, FR>,
    pub module: ModuleDescriptor,
    pub marker: PhantomData<T>,
}

/// A started runtime: the callback table its executions dispatch into,
/// and the module record the engine was started with. One runtime maps to
/// the engine's single set of process-wide globals, so only one should be
/// live at a time.
pub struct Runtime<T, FS, FD, FW, FR> {
    pub callbacks: Callbacks<FS, FD, FW, FR>,
    pub module: ModuleDescriptor,
    pub marker: PhantomData<T>,
}

impl<T> Runtime<T, Unregistered, Unregistered, Unregistered, Unregistered> {
    /// Creates a builder for a runtime named `name` (with the descriptive
    /// name `long_name`), whose thread-resource pool holds `threads` slots,
    /// coerced to at least one. No callbacks are registered yet.
    pub fn new(name: &str, long_name: &str, threads: usize) -> (b: RuntimeBuilder<
        T,
        Unregistered,
        Unregistered,
        Unregistered,
        Unregistered,
    >)
        ensures
            b.callbacks.startup == Unregistered,
            b.callbacks.shutdown == Unregistered,
            b.callbacks.write == Unregistered,
            b.callbacks.read == Unregistered,
            b.module.name@ == name@,
            b.module.pretty_name@ == long_name@,
            b.module.threads == coerced_thread_count(threads),
    {
        let threads = if threads > 0 {
            threads
        } else {
            1
        };
        RuntimeBuilder {
            callbacks: Callbacks {
                startup: Unregistered,
                shutdown: Unregistered,
                write: Unregistered,
                read: Unregistered,
            },
            module: ModuleDescriptor {
                name: name.to_owned(),
                pretty_name: long_name.to_owned(),
                threads,
            },
            marker: PhantomData,
        }
    }
}

impl<T, FS, FD, FW, FR> RuntimeBuilder<T, FS, FD, FW, FR> {
    /// Registers the startup callback, run when the engine starts a
    /// request. Replaces any earlier startup registration.
    pub fn startup<F: FnMut(T) -> (T, Result<(), ()>) + Copy>(self, callback: F) -> (b:
        RuntimeBuilder<T, Registered<F>, FD, FW, FR>)
        ensures
            b.callbacks.startup == Registered(callback),
            b.callbacks.shutdown == self.callbacks.shutdown,
            b.callbacks.write == self.callbacks.write,
            b.callbacks.read == self.callbacks.read,
            b.module == self.module,
    {
        let RuntimeBuilder { callbacks, module, marker } = self;
        let Callbacks { startup: _, shutdown, write, read } = callbacks;
        RuntimeBuilder {
            callbacks: Callbacks { startup: Registered(callback), shutdown, write, read },
            module,
            marker,
        }
    }

    /// Registers the shutdown callback, reserved for module-level teardown:
    /// the engine does not run it per request. Replaces any earlier
    /// shutdown registration.
    pub fn shutdown<F: FnMut(T) -> (T, Result<(), ()>) + Copy>(self, callback: F) -> (b:
        RuntimeBuilder<T, FS, Registered<F>, FW, FR>)
        ensures
            b.callbacks.shutdown == Registered(callback),
            b.callbacks.startup == self.callbacks.startup,
            b.callbacks.write == self.callbacks.write,
            b.callbacks.read == self.callbacks.read,
            b.module == self.module,
    {
        let RuntimeBuilder { callbacks, module, marker } = self;
        let Callbacks { startup, shutdown: _, write, read } = callbacks;
        RuntimeBuilder {
            callbacks: Callbacks { startup, shutdown: Registered(callback), write, read },
            module,
            marker,
        }
    }

    /// Registers the write callback, handed every chunk the script writes.
    /// It may run many times per execution. Replaces any earlier write
    /// registration.
    pub fn write<F: FnMut(T, &[u8]) -> (T, Result<usize, ()>) + Copy>(self, callback: F) -> (b:
        RuntimeBuilder<T, FS, FD, Registered<F>, FR>)
        ensures
            b.callbacks.write == Registered(callback),
            b.callbacks.startup == self.callbacks.startup,
            b.callbacks.shutdown == self.callbacks.shutdown,
            b.callbacks.read == self.callbacks.read,
            b.module == self.module,
    {
        let RuntimeBuilder { callbacks, module, marker } = self;
        let Callbacks { startup, shutdown, write: _, read } = callbacks;
        RuntimeBuilder {
            callbacks: Callbacks { startup, shutdown, write: Registered(callback), read },
            module,
            marker,
        }
    }

    /// Registers the read callback, asked for input whenever the script
    /// reads the request body. It may run many times per execution and
    /// should consume the body progressively. Replaces any earlier read
    /// registration.
    pub fn read<F: FnMut(T, usize) -> (T, Result<Vec<u8>, ()>) + Copy>(self, callback: F) -> (b:
        RuntimeBuilder<T, FS, FD, FW, Registered<F>>)
        ensures
            b.callbacks.read == Registered(callback),
            b.callbacks.startup == self.callbacks.startup,
            b.callbacks.shutdown == self.callbacks.shutdown,
            b.callbacks.write == self.callbacks.write,
            b.module == self.module,
    {
        let RuntimeBuilder { callbacks, module, marker } = self;
        let Callbacks { startup, shutdown, write, read: _ } = callbacks;
        RuntimeBuilder {
            callbacks: Callbacks { startup, shutdown, write, read: Registered(callback) },
            module,
            marker,
        }
    }

    /// Finalizes the builder once the engine's module startup has run:
    /// `module_started` reports whether the engine accepted the module.
    /// Failure is fatal — no runtime is constructed, and the builder is
    /// consumed so it cannot be retried.
    pub fn start(self, module_started: bool) -> (r: Result<
        Runtime<T, FS, FD, FW, FR>,
        InitializationError,
    >)
        ensures
            module_started ==> (r matches Ok(rt) && rt.callbacks == self.callbacks && rt.module
                == self.module),
            !module_started ==> r == Err::<Runtime<T, FS, FD, FW, FR>, InitializationError>(
                InitializationError::ModuleStartup,
            ),
    {
        if module_started {
            let RuntimeBuilder { callbacks, module, marker } = self;
            Ok(Runtime { callbacks, module, marker })
        } else {
            Err(InitializationError::ModuleStartup)
        }
    }
}

/// Where one execution stands in the engine's per-request protocol.
#[derive(Clone, Copy, Debug, PartialEq, Eq, Structural)]
pub enum ExecPhase {
    /// The calling thread's resource slot must be re-registered.
    RegisteringThread,
    /// The script file must be opened in binary mode.
    OpeningScript,
    /// The response status must be reset, the context cell installed as the
    /// engine's server context, and the engine's request startup run.
    BeginningRequest,
    /// The engine must execute the script; it dispatches into the callback
    /// table while it runs. The script handle is released afterwards.
    RunningScript,
    /// The context must be recovered from the cell, the engine's cookie
    /// buffer reclaimed, the server-context pointer cleared, and the
    /// engine's request shutdown run.
    EndingRequest,
    /// The run completed; the recovered context is the result.
    Succeeded,
    /// The script could not be opened; nothing was run.
    Failed,
}

/// The native call the embedding shell must perform next.
#[derive(Clone, Copy, Debug, PartialEq, Eq, Structural)]
pub enum EngineOp {
    RegisterThread,
    OpenScript,
    BeginRequest,
    RunScript,
    EndRequest,
    Deliver,
}

/// The op each phase calls for.
pub open spec fn op_for_phase(phase: ExecPhase) -> EngineOp {
    match phase {
        ExecPhase::RegisteringThread => EngineOp::RegisterThread,
        ExecPhase::OpeningScript => EngineOp::OpenScript,
        ExecPhase::BeginningRequest => EngineOp::BeginRequest,
        ExecPhase::RunningScript => EngineOp::RunScript,
        ExecPhase::EndingRequest => EngineOp::EndRequest,
        ExecPhase::Succeeded => EngineOp::Deliver,
        ExecPhase::Failed => EngineOp::Deliver,
    }
}

/// One execution's walk through the engine's per-request protocol. Each
/// step may be reported only in its phase, so the native calls happen in
/// the order the protocol requires; the only decision point is whether the
/// script file could be opened.
pub struct Execution {
    pub phase: ExecPhase,
}

impl Execution {
    /// Begins an execution: the calling thread's resource slot comes first.
    pub fn begin() -> (e: Execution)
        ensures
            e.phase == ExecPhase::RegisteringThread,
    {
        Execution { phase: ExecPhase::RegisteringThread }
    }

    /// The native call the shell must perform next.
    pub fn next_op(&self) -> (op: EngineOp)
        ensures
            op == op_for_phase(self.phase),
    {
        match self.phase {
            ExecPhase::RegisteringThread => EngineOp::RegisterThread,
            ExecPhase::OpeningScript => EngineOp::OpenScript,
            ExecPhase::BeginningRequest => EngineOp::BeginRequest,
            ExecPhase::RunningScript => EngineOp::RunScript,
            ExecPhase::EndingRequest => EngineOp::EndRequest,
            ExecPhase::Succeeded => EngineOp::Deliver,
            ExecPhase::Failed => EngineOp::Deliver,
        }
    }

    /// The calling thread's resource slot is registered.
    pub fn thread_registered(&mut self)
        requires
            old(self).phase == ExecPhase::RegisteringThread,
        ensures
            final(self).phase == ExecPhase::OpeningScript,
    {
        self.phase = ExecPhase::OpeningScript;
    }

    /// The engine reported whether the script file opened. A failed open
    /// fails the execution before any request state is touched, so the
    /// runtime stays reusable.
    pub fn script_opened(&mut self, opened: bool)
        requires
            old(self).phase == ExecPhase::OpeningScript,
        ensures
            opened ==> final(self).phase == ExecPhase::BeginningRequest,
            !opened ==> final(self).phase == ExecPhase::Failed,
    {
        if opened {
            self.phase = ExecPhase::BeginningRequest;
        } else {
            self.phase = ExecPhase::Failed;
        }
    }

    /// The context cell is installed and the engine's request startup ran.
    pub fn request_begun(&mut self)
        requires
            old(self).phase == ExecPhase::BeginningRequest,
        ensures
            final(self).phase == ExecPhase::RunningScript,
    {
        self.phase = ExecPhase::RunningScript;
    }

    /// The script ran to completion and its handle was released.
    pub fn script_ran(&mut self)
        requires
            old(self).phase == ExecPhase::RunningScript,
        ensures
            final(self).phase == ExecPhase::EndingRequest,
    {
        self.phase = ExecPhase::EndingRequest;
    }

    /// The context was recovered, the cell destroyed, and the engine's
    /// request shutdown ran.
    pub fn request_ended(&mut self)
        requires
            old(self).phase == ExecPhase::EndingRequest,
        ensures
            final(self).phase == ExecPhase::Succeeded,
    {
        self.phase = ExecPhase::Succeeded;
    }

    /// Fixes the outcome of a finished execution: the recovered context on
    /// success, `ScriptOpenError` when the script could not be opened.
    pub fn outcome<T>(self, recovered: Option<T>) -> (r: Result<T, ExecutionError>)
        requires
            self.phase == ExecPhase::Succeeded || self.phase == ExecPhase::Failed,
            self.phase == ExecPhase::Succeeded <==> recovered is Some,
        ensures
            self.phase == ExecPhase::Failed ==> r == Err::<T, ExecutionError>(
                ExecutionError::ScriptOpenError,
            ),
            self.phase == ExecPhase::Succeeded ==> (recovered matches Some(c) && r == Ok::<
                T,
                ExecutionError,
            >(c)),
    {
        match recovered {
            Some(c) => Ok(c),
            None => Err(ExecutionError::ScriptOpenError),
        }
    }
}

impl<T, FS, FD, FW, FR> Runtime<T, FS, FD, FW, FR> {
    /// Begins one execution against this runtime. The execution borrows
    /// nothing from the runtime: a failed or finished execution leaves the
    /// runtime as it was, ready for the next call.
    pub fn begin_execution(&self) -> (e: Execution)
        ensures
            e.phase == ExecPhase::RegisteringThread,
    {
        Execution::begin()
    }
}

} // verus!
