//! A ready-made execution context that wires the write hook to an output
//! buffer and the read hook to a consumable input buffer.
//!
//! It serves as the reference context for tests and as a worked example of
//! how a context type and its callbacks are written: the write callback
//! appends every chunk the engine emits to `buffer`, and the read callback
//! drains `body` from the front, never delivering a byte twice.

use vstd::prelude::*;

use crate::callbacks::{ReadSlot, Registered, WriteSlot};
use crate::runtime::RuntimeBuilder;

verus! {

/// The buffered state of an [`IOContext`]: everything written out so far,
/// and the input bytes not yet consumed.
#[verifier::ext_equal]
pub ghost struct IoState {
    pub buffer: Seq<u8>,
    pub body: Seq<u8>,
}

/// A context that collects the engine's output in `buffer` and feeds reads
/// from `body`.
#[derive(Debug)]
pub struct IOContext {
    /// Output buffer: everything the write callback has accepted, in order.
    pub buffer: Vec<u8>,
    /// Input buffer / body: the bytes still available to the read callback.
    pub body: Vec<u8>,
}

impl View for IOContext {
    type V = IoState;

    open spec fn view(&self) -> IoState {
        IoState { buffer: self.buffer@, body: self.body@ }
    }
}

/// What one write does to the buffered state: the chunk is appended to the
/// output buffer and the input is untouched.
pub open spec fn write_step(s: IoState, data: Seq<u8>) -> IoState {
    IoState { buffer: s.buffer + data, body: s.body }
}

/// How many bytes one read of at most `max` delivers: all that remain, but
/// no more than `max`.
pub open spec fn read_step_count(s: IoState, max: nat) -> nat {
    if max <= s.body.len() {
        max
    } else {
        s.body.len()
    }
}

/// What one read of at most `max` delivers: the front of the input.
pub open spec fn read_step_delivery(s: IoState, max: nat) -> Seq<u8> {
    s.body.take(read_step_count(s, max) as int)
}

/// What one read of at most `max` leaves behind: the rest of the input; the
/// output buffer is untouched.
pub open spec fn read_step(s: IoState, max: nat) -> IoState {
    IoState { buffer: s.buffer, body: s.body.skip(read_step_count(s, max) as int) }
}

impl IOContext {
    /// The write callback: appends the chunk to the output buffer and
    /// accepts all of it.
    pub fn write(ctx: IOContext, buf: &[u8]) -> (r: (IOContext, Result<usize, ()>))
        ensures
            r.0@ == write_step(ctx@, buf@),
            r.1 == Ok::<usize, ()>(buf@.len() as usize),
    {
        let IOContext { buffer: mut out, body } = ctx;
        let ghost pre = out@;
        out.extend_from_slice(buf);
        proof {
            assert forall|i: int| 0 <= i < buf@.len() implies out@[pre.len() + i] == buf@[i] by {
                assert(vstd::pervasive::cloned::<u8>(buf@[i], out@[pre.len() + i]));
            }
            assert(out@ =~= pre + buf@);
        }
        let r = (IOContext { buffer: out, body }, Ok(buf.len()));
        proof {
            assert(r.0@ =~= write_step(ctx@, buf@));
        }
        r
    }

    /// The read callback: delivers the front of the input, at most `max`
    /// bytes, and keeps only what it did not deliver.
    pub fn read(ctx: IOContext, max: usize) -> (r: (IOContext, Result<Vec<u8>, ()>))
        ensures
            r.0@ == read_step(ctx@, max as nat),
            r.1 matches Ok(v) && v@ == read_step_delivery(ctx@, max as nat),
    {
        let IOContext { buffer, body } = ctx;
        let count = if max <= body.len() {
            max
        } else {
            body.len()
        };
        let mut delivered: Vec<u8> = Vec::new();
        let mut i: usize = 0;
        while i < count
            invariant
                count <= body@.len(),
                i <= count,
                delivered@ == body@.take(count as int).take(i as int),
            decreases count - i,
        {
            delivered.push(body[i]);
            proof {
                assert(body@.take(count as int).take(i + 1int) =~= body@.take(count as int).take(
                    i as int,
                ).push(body@[i as int]));
            }
            i += 1;
        }
        let mut rest: Vec<u8> = Vec::new();
        let mut j: usize = count;
        while j < body.len()
            invariant
                count <= j <= body@.len(),
                rest@ == body@.skip(count as int).take(j - count),
            decreases body@.len() - j,
        {
            rest.push(body[j]);
            proof {
                assert(body@.skip(count as int).take(j + 1 - count) =~= body@.skip(
                    count as int,
                ).take(j - count).push(body@[j as int]));
            }
            j += 1;
        }
        let r = (IOContext { buffer, body: rest }, Ok(delivered));
        proof {
            assert(r.0@.body =~= ctx@.body.skip(read_step_count(ctx@, max as nat) as int));
            assert(r.0@ =~= read_step(ctx@, max as nat));
            assert(delivered@ =~= read_step_delivery(ctx@, max as nat));
        }
        r
    }

    /// Registers this type's read and write callbacks on a builder, leaving
    /// the other slots as they are. The resulting slots admit exactly the
    /// buffered transitions: every written chunk is appended to the output
    /// buffer, and every read drains the front of the input.
    pub fn add_to_builder<FS, FD, FW, FR>(builder: RuntimeBuilder<IOContext, FS, FD, FW, FR>) -> (b:
        RuntimeBuilder<
            IOContext,
            FS,
            FD,
            Registered<impl FnMut(IOContext, &[u8]) -> (IOContext, Result<usize, ()>) + Copy>,
            Registered<impl FnMut(IOContext, usize) -> (IOContext, Result<Vec<u8>, ()>) + Copy>,
        >)
        ensures
            b.callbacks.startup == builder.callbacks.startup,
            b.callbacks.shutdown == builder.callbacks.shutdown,
            b.module == builder.module,
            b.callbacks.write.callable(),
            forall|pre: IOContext, data: &[u8], post: IOContext, out: Result<usize, ()>|
                #[trigger] b.callbacks.write.allows(pre, data, post, out) ==> {
                    &&& post@ == write_step(pre@, data@)
                    &&& out == Ok::<usize, ()>(data@.len() as usize)
                },
            b.callbacks.read.callable(),
            forall|pre: IOContext, max: usize, post: IOContext, out: Result<Vec<u8>, ()>|
                #[trigger] b.callbacks.read.allows(pre, max, post, out) ==> {
                    &&& post@ == read_step(pre@, max as nat)
                    &&& (out matches Ok(v) && v@ == read_step_delivery(pre@, max as nat))
                },
    {
        builder.read(IOContext::read).write(IOContext::write)
    }
}

} // verus!
