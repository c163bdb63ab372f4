//! A deterministic in-memory backend: it yields a fixed list of packets
//! in order and then closes. It is the reference implementation of the
//! backend contract and the test double for consumers of it.

use crate::backend::{CaptureBackend, Terminal};
use crate::errors::CaptureError;
use vstd::prelude::*;

verus! {

/// A backend over a fixed packet list; its source is considered already
/// exhausted, so once the list drains every call reports `CaptureClosed`.
pub struct SyntheticBackend {
    packets: Vec<Vec<u8>>,
    captured: bool,
}

impl SyntheticBackend {
    /// A backend that will yield exactly `packets`, in order, then close.
    pub fn new(packets: Vec<Vec<u8>>) -> (b: SyntheticBackend)
        ensures
            b.pending() == packets@.map_values(|p: Vec<u8>| p@),
            b.done(),
            b.terminal() == Terminal::Closed,
            !b.captured(),
    {
        SyntheticBackend { packets, captured: false }
    }
}

impl CaptureBackend for SyntheticBackend {
    closed spec fn pending(&self) -> Seq<Seq<u8>> {
        self.packets@.map_values(|p: Vec<u8>| p@)
    }

    closed spec fn done(&self) -> bool {
        true
    }

    closed spec fn terminal(&self) -> Terminal {
        Terminal::Closed
    }

    closed spec fn captured(&self) -> bool {
        self.captured
    }

    fn next_packet(&mut self) -> (r: Result<Vec<u8>, CaptureError>) {
        if self.packets.len() > 0 {
            let p = self.packets.remove(0);
            self.captured = true;
            proof {
                assert(self.pending() =~= old(self).pending().drop_first());
            }
            Ok(p)
        } else {
            Err(CaptureError::CaptureClosed)
        }
    }
}

} // verus!
