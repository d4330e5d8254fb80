//! The per-execution context cell and the dispatch logic behind the
//! engine's callback entry points.
//!
//! One cell is live per execution: it pairs the runtime's callback table
//! with the caller-supplied context value for this run. The engine's raw
//! entry points hand each event to the matching `dispatch_*` function here,
//! which invokes the registered hook (if any) and maps its result onto the
//! return convention the engine expects: a success or failure status for
//! the lifecycle events, a byte count for the transfer events, with the
//! neutral value (success, or zero bytes) when no hook is registered or the
//! hook reports an error.

use vstd::prelude::*;

use crate::callbacks::{Callbacks, LifecycleSlot, ReadSlot, WriteSlot};

verus! {

/// The status an engine entry point reports for a lifecycle event.
#[derive(Clone, Copy, Debug, PartialEq, Eq, Structural)]
pub enum EngineStatus {
    Success,
    Failure,
}

/// The status a lifecycle hook's outcome maps to: success for `Ok` and for
/// an unregistered slot, failure for `Err`.
pub open spec fn status_of(out: Result<(), ()>) -> EngineStatus {
    match out {
        Ok(_) => EngineStatus::Success,
        Err(_) => EngineStatus::Failure,
    }
}

/// The byte count a write hook's outcome maps to: the accepted count for
/// `Ok`, zero for `Err`.
pub open spec fn write_count_of(out: Result<usize, ()>) -> int {
    match out {
        Ok(n) => n as int,
        Err(_) => 0int,
    }
}

/// The bytes a read hook's outcome delivers: what it handed back for `Ok`,
/// capped at the requested maximum; nothing for `Err`.
pub open spec fn read_delivery_of(out: Result<Vec<u8>, ()>, max: usize) -> Seq<u8> {
    match out {
        Ok(v) => if v@.len() <= max {
            v@
        } else {
            v@.take(max as int)
        },
        Err(_) => Seq::<u8>::empty(),
    }
}

/// One execution's context cell: the runtime's callback table beside the
/// caller's context value for this run. Created immediately before the
/// engine's request startup and consumed after the script has run, so that
/// the (possibly updated) context can be handed back to the caller.
pub struct ContextCell<T, FS, FD, FW, FR> {
    pub callbacks: Callbacks<FS, FD, FW, FR>,
    pub context: T,
}

impl<T, FS, FD, FW, FR> ContextCell<T, FS, FD, FW, FR> where
    FS: LifecycleSlot<T>,
    FD: LifecycleSlot<T>,
    FW: WriteSlot<T>,
    FR: ReadSlot<T>,
 {
    /// Pairs a copy of the runtime's callback table with the context value
    /// supplied for this execution.
    pub fn new(callbacks: Callbacks<FS, FD, FW, FR>, context: T) -> (c: Self)
        ensures
            c.callbacks == callbacks,
            c.context == context,
    {
        ContextCell { callbacks, context }
    }

    /// Consumes the cell and recovers the context value, as it stands after
    /// the hooks that ran during the execution.
    pub fn into_context(self) -> (t: T)
        ensures
            t == self.context,
    {
        self.context
    }

    /// The engine's startup event: runs the startup hook and reports its
    /// status; success when no hook is registered.
    pub fn dispatch_startup(self) -> (r: (Self, EngineStatus))
        requires
            self.callbacks.startup.callable(),
        ensures
            r.0.callbacks == self.callbacks,
            exists|out: Result<(), ()>|
                {
                    &&& #[trigger] self.callbacks.startup.allows(self.context, r.0.context, out)
                    &&& r.1 == status_of(out)
                },
    {
        let ContextCell { mut callbacks, context } = self;
        let (context2, out) = callbacks.startup.invoke(context);
        let status = match out {
            Ok(_) => EngineStatus::Success,
            Err(_) => EngineStatus::Failure,
        };
        let result = (ContextCell { callbacks, context: context2 }, status);
        proof {
            assert(self.callbacks.startup.allows(self.context, result.0.context, out));
            assert(result.1 == status_of(out));
        }
        result
    }

    /// The engine's shutdown event: runs the shutdown hook and reports its
    /// status; success when no hook is registered.
    pub fn dispatch_shutdown(self) -> (r: (Self, EngineStatus))
        requires
            self.callbacks.shutdown.callable(),
        ensures
            r.0.callbacks == self.callbacks,
            exists|out: Result<(), ()>|
                {
                    &&& #[trigger] self.callbacks.shutdown.allows(self.context, r.0.context, out)
                    &&& r.1 == status_of(out)
                },
    {
        let ContextCell { mut callbacks, context } = self;
        let (context2, out) = callbacks.shutdown.invoke(context);
        let status = match out {
            Ok(_) => EngineStatus::Success,
            Err(_) => EngineStatus::Failure,
        };
        let result = (ContextCell { callbacks, context: context2 }, status);
        proof {
            assert(self.callbacks.shutdown.allows(self.context, result.0.context, out));
            assert(result.1 == status_of(out));
        }
        result
    }

    /// The engine's unbuffered-write event: hands `data` to the write hook
    /// and reports how many bytes it accepted; zero when no hook is
    /// registered or the hook reports an error.
    pub fn dispatch_write(self, data: &[u8]) -> (r: (Self, usize))
        requires
            self.callbacks.write.callable(),
        ensures
            r.0.callbacks == self.callbacks,
            exists|out: Result<usize, ()>|
                {
                    &&& #[trigger] self.callbacks.write.allows(self.context, data, r.0.context, out)
                    &&& r.1 == write_count_of(out)
                },
    {
        let ContextCell { mut callbacks, context } = self;
        let (context2, out) = callbacks.write.invoke(context, data);
        let count = match out {
            Ok(n) => n,
            Err(_) => 0,
        };
        let result = (ContextCell { callbacks, context: context2 }, count);
        proof {
            assert(self.callbacks.write.allows(self.context, data, result.0.context, out));
            assert(result.1 == write_count_of(out));
        }
        result
    }

    /// The engine's post-read event: asks the read hook for at most `max`
    /// bytes and returns what it delivered, truncated to `max`; nothing
    /// when no hook is registered or the hook reports an error. The engine
    /// copies the returned bytes into its own buffer.
    pub fn dispatch_read(self, max: usize) -> (r: (Self, Vec<u8>))
        requires
            self.callbacks.read.callable(),
        ensures
            r.0.callbacks == self.callbacks,
            r.1@.len() <= max,
            exists|out: Result<Vec<u8>, ()>|
                {
                    &&& #[trigger] self.callbacks.read.allows(self.context, max, r.0.context, out)
                    &&& r.1@ == read_delivery_of(out, max)
                },
    {
        let ContextCell { mut callbacks, context } = self;
        let (context2, out) = callbacks.read.invoke(context, max);
        let ghost out_taken = out;
        let delivered = match out {
            Ok(mut v) => {
                if v.len() > max {
                    v.truncate(max);
                }
                v
            },
            Err(_) => Vec::new(),
        };
        let result = (ContextCell { callbacks, context: context2 }, delivered);
        proof {
            assert(self.callbacks.read.allows(self.context, max, result.0.context, out_taken));
            assert(result.1@ == read_delivery_of(out_taken, max));
        }
        result
    }
}

} // verus!
