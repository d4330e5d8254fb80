//! The header-transmission decisions behind the engine's flush and
//! send-headers entry points.
//!
//! This layer does no real header serialization: the send-headers event
//! only marks the headers as sent and reports success, and the flush event
//! delegates to the engine's header send unless the headers already went
//! out. The mark lives in the engine's request globals; the embedding
//! shell reads it before each decision and writes back what these
//! functions return.

use vstd::prelude::*;

verus! {

/// What the engine is told after its send-headers event.
#[derive(Clone, Copy, Debug, PartialEq, Eq, Structural)]
pub enum HeaderSendStatus {
    /// The headers are taken care of; the engine need not retry.
    SentSuccessfully,
    /// The headers could not be sent. This layer never reports it, but the
    /// engine's convention has it, and the shell must map it.
    SendFailed,
}

/// The send-headers event: marks the headers as sent and reports success.
/// The returned flag is the new value of the engine's headers-sent mark.
pub fn dispatch_send_headers() -> (r: (bool, HeaderSendStatus))
    ensures
        r.0 == true,
        r.1 == HeaderSendStatus::SentSuccessfully,
{
    (true, HeaderSendStatus::SentSuccessfully)
}

/// The flush event: whether the engine's header send must run now. It must
/// exactly when the headers have not been sent yet.
pub fn flush_sends_headers(headers_sent: bool) -> (r: bool)
    ensures
        r == !headers_sent,
{
    !headers_sent
}

} // verus!
