//! An embeddable adapter for driving a C-implemented script interpreter:
//! the runtime lifecycle, a per-execution callback table, and the dispatch
//! logic behind the interpreter's raw entry points.
//!
//! The native engine itself — a process-global interpreter with raw
//! function-pointer entry points — stays behind an unverified embedding
//! shell. Everything this layer decides is here and verified: which
//! callbacks are registered and what each engine event does to the
//! caller's context ([`callbacks`], [`cell`]), the header-transmission
//! decisions ([`headers`]), the order of the per-request protocol and the
//! meaning of each outcome ([`runtime`]), a buffered reference context
//! ([`io_context`]), and the laws the buffered context obeys across a
//! whole run ([`laws`]).

pub mod callbacks;
pub mod cell;
pub mod headers;
pub mod io_context;
pub mod laws;
pub mod runtime;
