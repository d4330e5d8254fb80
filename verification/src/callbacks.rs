//! The callback table: four optional hook slots that the engine's entry
//! points dispatch into during one script execution.
//!
//! A slot is either [`Unregistered`] (the corresponding engine event is a
//! no-op that reports success, or an empty transfer) or a [`Registered`]
//! caller-supplied function. Callbacks take the execution context by value
//! and hand back the updated context beside their result, so that each
//! slot's behaviour can be stated directly over its input-output pairs.
//! The slot traits expose that behaviour as spec functions; the dispatch
//! layer builds its contracts from them.

use vstd::prelude::*;

verus! {

/// An empty hook slot: invoking it leaves the context untouched and
/// reports the neutral outcome for its event kind.
#[derive(Clone, Copy, PartialEq, Eq, Structural)]
pub struct Unregistered;

/// A hook slot holding a caller-supplied callback.
#[derive(Clone, Copy)]
pub struct Registered<F>(pub F);

/// A slot for the startup and shutdown events: the callback sees the
/// context alone and reports success or failure.
pub trait LifecycleSlot<T>: Sized {
    /// The slot may be invoked on any context value.
    spec fn callable(&self) -> bool;

    /// The invocations this slot admits: from context `pre` it may move to
    /// `post` and report `out`.
    spec fn allows(&self, pre: T, post: T, out: Result<(), ()>) -> bool;

    fn invoke(&mut self, ctx: T) -> (r: (T, Result<(), ()>))
        requires
            old(self).callable(),
        ensures
            old(self).allows(ctx, r.0, r.1),
            *final(self) == *old(self),
    ;
}

/// A slot for the output-write event: the callback sees the context and the
/// bytes the engine wants written, and reports how many it accepted.
pub trait WriteSlot<T>: Sized {
    /// The slot may be invoked on any context value and any byte sequence.
    spec fn callable(&self) -> bool;

    /// The invocations this slot admits: from context `pre`, handed `data`,
    /// it may move to `post` and report `out`.
    spec fn allows(&self, pre: T, data: &[u8], post: T, out: Result<usize, ()>) -> bool;

    fn invoke(&mut self, ctx: T, data: &[u8]) -> (r: (T, Result<usize, ()>))
        requires
            old(self).callable(),
        ensures
            old(self).allows(ctx, data, r.0, r.1),
            *final(self) == *old(self),
    ;
}

/// A slot for the input-read event: the callback delivers the bytes it can
/// provide, at most `max` of them.
pub trait ReadSlot<T>: Sized {
    /// The slot may be invoked on any context value and any bound.
    spec fn callable(&self) -> bool;

    /// The invocations this slot admits: from context `pre`, asked for at
    /// most `max` bytes, it may move to `post` and report `out`.
    spec fn allows(&self, pre: T, max: usize, post: T, out: Result<Vec<u8>, ()>) -> bool;

    fn invoke(&mut self, ctx: T, max: usize) -> (r: (T, Result<Vec<u8>, ()>))
        requires
            old(self).callable(),
        ensures
            old(self).allows(ctx, max, r.0, r.1),
            *final(self) == *old(self),
    ;
}

impl<T> LifecycleSlot<T> for Unregistered {
    open spec fn callable(&self) -> bool {
        true
    }

    open spec fn allows(&self, pre: T, post: T, out: Result<(), ()>) -> bool {
        post == pre && out == Ok::<(), ()>(())
    }

    fn invoke(&mut self, ctx: T) -> (r: (T, Result<(), ()>)) {
        (ctx, Ok(()))
    }
}

impl<T> WriteSlot<T> for Unregistered {
    open spec fn callable(&self) -> bool {
        true
    }

    open spec fn allows(&self, pre: T, data: &[u8], post: T, out: Result<usize, ()>) -> bool {
        post == pre && out == Ok::<usize, ()>(0)
    }

    fn invoke(&mut self, ctx: T, data: &[u8]) -> (r: (T, Result<usize, ()>)) {
        (ctx, Ok(0))
    }
}

impl<T> ReadSlot<T> for Unregistered {
    open spec fn callable(&self) -> bool {
        true
    }

    open spec fn allows(&self, pre: T, max: usize, post: T, out: Result<Vec<u8>, ()>) -> bool {
        post == pre && (out matches Ok(v) && v@ == Seq::<u8>::empty())
    }

    fn invoke(&mut self, ctx: T, max: usize) -> (r: (T, Result<Vec<u8>, ()>)) {
        (ctx, Ok(Vec::new()))
    }
}

impl<T, F: FnMut(T) -> (T, Result<(), ()>)> LifecycleSlot<T> for Registered<F> {
    open spec fn callable(&self) -> bool {
        forall|args: (T,)| call_requires(self.0, args)
    }

    open spec fn allows(&self, pre: T, post: T, out: Result<(), ()>) -> bool {
        call_ensures(self.0, (pre,), (post, out))
    }

    fn invoke(&mut self, ctx: T) -> (r: (T, Result<(), ()>)) {
        (self.0)(ctx)
    }
}

impl<T, F: FnMut(T, &[u8]) -> (T, Result<usize, ()>)> WriteSlot<T> for Registered<F> {
    open spec fn callable(&self) -> bool {
        forall|args: (T, &[u8])| call_requires(self.0, args)
    }

    open spec fn allows(&self, pre: T, data: &[u8], post: T, out: Result<usize, ()>) -> bool {
        call_ensures(self.0, (pre, data), (post, out))
    }

    fn invoke(&mut self, ctx: T, data: &[u8]) -> (r: (T, Result<usize, ()>)) {
        (self.0)(ctx, data)
    }
}

impl<T, F: FnMut(T, usize) -> (T, Result<Vec<u8>, ()>)> ReadSlot<T> for Registered<F> {
    open spec fn callable(&self) -> bool {
        forall|args: (T, usize)| call_requires(self.0, args)
    }

    open spec fn allows(&self, pre: T, max: usize, post: T, out: Result<Vec<u8>, ()>) -> bool {
        call_ensures(self.0, (pre, max), (post, out))
    }

    fn invoke(&mut self, ctx: T, max: usize) -> (r: (T, Result<Vec<u8>, ()>)) {
        (self.0)(ctx, max)
    }
}

/// The four hook slots of one runtime: startup, shutdown, write and read.
#[derive(Clone, Copy)]
pub struct Callbacks<FS, FD, FW, FR> {
    pub startup: FS,
    pub shutdown: FD,
    pub write: FW,
    pub read: FR,
}

} // verus!
