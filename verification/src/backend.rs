//! The backend contract: produce the next raw packet, fallibly, one call
//! at a time, preserving arrival order, and settle into an absorbing
//! terminal outcome once the source stops producing.

use crate::errors::CaptureError;
use vstd::prelude::*;

verus! {

/// The terminal outcome a backend instance settles into once its source
/// stops producing packets. The two message-carrying outcomes keep the
/// cause's text for diagnostic display.
pub enum Terminal {
    /// The source reached a normal end of stream.
    Closed,
    /// The delivery channel to the producer side was torn down
    /// unexpectedly, independent of the source's own state.
    ChannelLost,
    /// The capture source itself reported a failure.
    Failed(Seq<char>),
    /// A configured filter expression could not be applied.
    FilterBlocked(Seq<char>),
}

/// Which error a `next_packet` call must return when a backend with
/// terminal outcome `t` has no packet left to deliver. `captured` is
/// whether the instance has delivered at least one packet in its
/// lifetime; a source failure reports it as its `has_captured` flag.
pub open spec fn reports(e: CaptureError, t: Terminal, captured: bool) -> bool {
    match t {
        Terminal::Closed => e is CaptureClosed,
        Terminal::ChannelLost => e is ChannelClosed,
        Terminal::Failed(msg) => e matches CaptureError::Capture { has_captured, error }
            && has_captured == captured && error@ == msg,
        Terminal::FilterBlocked(msg) => e matches CaptureError::Filter(cause) && cause@ == msg,
    }
}

/// A concrete packet-acquisition implementation. An instance owns exactly
/// one underlying source, is consumed by a single logical caller, and
/// hands packets out one at a time through `next_packet`.
pub trait CaptureBackend: Send {
    /// The packets available for delivery, oldest first.
    spec fn pending(&self) -> Seq<Seq<u8>>;

    /// Whether the instance has settled into a terminal outcome.
    spec fn done(&self) -> bool;

    /// The terminal outcome; meaningful once `done()` holds.
    spec fn terminal(&self) -> Terminal;

    /// Whether at least one packet has been delivered in this instance's
    /// lifetime.
    spec fn captured(&self) -> bool;

    /// Produce the next packet, or report why none will come.
    ///
    /// Packets come out in exactly the order the source produced them,
    /// with no duplication or loss. Once the delivery queue is drained
    /// and the instance is done, every further call reports the same
    /// terminal outcome and leaves the instance unchanged — a backend
    /// never silently resumes delivering after reporting its end.
    fn next_packet(&mut self) -> (r: Result<Vec<u8>, CaptureError>)
        requires
            old(self).pending().len() > 0 || old(self).done(),
        ensures
            old(self).pending().len() > 0 ==> (r matches Ok(p) && {
                &&& p@ == old(self).pending().first()
                &&& final(self).pending() == old(self).pending().drop_first()
                &&& final(self).done() == old(self).done()
                &&& final(self).terminal() == old(self).terminal()
                &&& final(self).captured()
            }),
            old(self).pending().len() == 0 ==> (r matches Err(e) && {
                &&& reports(e, old(self).terminal(), old(self).captured())
                &&& final(self).pending() == old(self).pending()
                &&& final(self).done()
                &&& final(self).terminal() == old(self).terminal()
                &&& final(self).captured() == old(self).captured()
            }),
    ;
}

} // verus!
