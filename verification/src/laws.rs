//! Laws of the buffered I/O context over whole executions.
//!
//! During one script run the engine hands the callback table any number of
//! write and read events, in any order. This module models such a run as a
//! sequence of events folded over an [`IoState`] and proves the two
//! properties the buffered context promises across a whole run: everything
//! written arrives in the output buffer in order as one concatenation, and
//! the reads drain the input from the front without ever delivering a byte
//! twice.

use vstd::prelude::*;

use crate::io_context::{read_step, read_step_delivery, write_step, IoState};

verus! {

/// One callback event of a run: a chunk written by the script, or a read
/// of at most the given number of bytes.
pub ghost enum IoEvent {
    Write(Seq<u8>),
    Read(nat),
}

/// What one event does to the buffered state.
pub open spec fn io_step(s: IoState, e: IoEvent) -> IoState {
    match e {
        IoEvent::Write(data) => write_step(s, data),
        IoEvent::Read(max) => read_step(s, max),
    }
}

/// The state after a whole run of events, applied front to back.
pub open spec fn state_after(s: IoState, es: Seq<IoEvent>) -> IoState
    decreases es.len(),
{
    if es.len() == 0 {
        s
    } else {
        state_after(io_step(s, es.first()), es.drop_first())
    }
}

/// What one event delivers to the engine: a read hands out the front of
/// the input, a write hands out nothing.
pub open spec fn delivery_of(s: IoState, e: IoEvent) -> Seq<u8> {
    match e {
        IoEvent::Write(_) => Seq::<u8>::empty(),
        IoEvent::Read(max) => read_step_delivery(s, max),
    }
}

/// What each event of a run delivers, in order.
pub open spec fn deliveries(s: IoState, es: Seq<IoEvent>) -> Seq<Seq<u8>>
    decreases es.len(),
{
    if es.len() == 0 {
        Seq::<Seq<u8>>::empty()
    } else {
        seq![delivery_of(s, es.first())] + deliveries(io_step(s, es.first()), es.drop_first())
    }
}

/// The chunks written during a run, in order.
pub open spec fn written(es: Seq<IoEvent>) -> Seq<Seq<u8>>
    decreases es.len(),
{
    if es.len() == 0 {
        Seq::<Seq<u8>>::empty()
    } else {
        match es.first() {
            IoEvent::Write(data) => seq![data] + written(es.drop_first()),
            IoEvent::Read(_) => written(es.drop_first()),
        }
    }
}

/// Law: across one run, every chunk handed to the write callback is
/// visible, in order, as a single concatenated extension of the output
/// buffer, whatever reads happen in between.
pub proof fn lemma_writes_concatenate(s: IoState, es: Seq<IoEvent>)
    ensures
        state_after(s, es).buffer == s.buffer + written(es).flatten(),
    decreases es.len(),
{
    if es.len() == 0 {
        assert(s.buffer + written(es).flatten() =~= s.buffer);
    } else {
        let s1 = io_step(s, es.first());
        lemma_writes_concatenate(s1, es.drop_first());
        match es.first() {
            IoEvent::Write(data) => {
                let tail = written(es.drop_first());
                assert((seq![data] + tail).drop_first() =~= tail);
                assert(written(es).flatten() == data + tail.flatten());
                assert((s.buffer + data) + tail.flatten() =~= s.buffer + (data + tail.flatten()));
            },
            IoEvent::Read(_) => {},
        }
    }
}

/// Law: across one run, the chunks delivered by the read callback, in
/// order, are exactly the drained front of the original input — no byte is
/// delivered twice, and in all no more than the input held is delivered.
pub proof fn lemma_reads_drain(s: IoState, es: Seq<IoEvent>)
    ensures
        deliveries(s, es).flatten() + state_after(s, es).body == s.body,
        deliveries(s, es).flatten().len() <= s.body.len(),
    decreases es.len(),
{
    if es.len() == 0 {
        assert(deliveries(s, es).flatten() + s.body =~= s.body);
    } else {
        let s1 = io_step(s, es.first());
        let d = delivery_of(s, es.first());
        let tail = deliveries(s1, es.drop_first());
        lemma_reads_drain(s1, es.drop_first());
        assert((seq![d] + tail).drop_first() =~= tail);
        assert(deliveries(s, es).flatten() == d + tail.flatten());
        match es.first() {
            IoEvent::Write(_) => {
                assert(deliveries(s, es).flatten() + state_after(s, es).body =~= tail.flatten()
                    + state_after(s1, es.drop_first()).body);
            },
            IoEvent::Read(max) => {
                assert(d + s1.body =~= s.body);
                assert((d + tail.flatten()) + state_after(s, es).body =~= d + (tail.flatten()
                    + state_after(s1, es.drop_first()).body));
            },
        }
    }
}

} // verus!
