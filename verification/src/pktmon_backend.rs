//! The native-tracing backend, bridged into the process over a local
//! connection.
//!
//! The native trace session may need elevated privilege, so it runs on
//! the far side of a loopback bridge bound to the reserved port pair. The
//! consumer side below owns the decision logic: it decodes the framed
//! byte stream into packets, keeps them in arrival order, and settles
//! into the terminal outcome the first session event dictates — a
//! severed connection becomes `ChannelClosed`, a session failure becomes
//! a `Capture` error, a normal session end becomes `CaptureClosed`. The
//! unverifiable outside work — connecting, reading bytes, noticing the
//! peer hang up — is the caller's, who hands its observations in through
//! the event methods.

use crate::backend::{CaptureBackend, Terminal};
use crate::errors::CaptureError;
use crate::frame::{parse_frames, prefix_value};
use vstd::prelude::*;

verus! {

/// First port of the loopback pair reserved for bridging a native
/// capture source into this process.
pub const PORT_RANGE_FIRST: u16 = 22101;

/// Second port of the reserved loopback pair.
pub const PORT_RANGE_SECOND: u16 = 22102;

/// The reserved ports are adjacent; both ends of the bridge assume one
/// contiguous pair, so no other local service may sit between them.
pub proof fn lemma_port_range_adjacent()
    ensures
        PORT_RANGE_SECOND == PORT_RANGE_FIRST + 1,
{
}

/// What the bridge session has reported so far: still streaming, or one
/// of the terminal outcomes.
enum SessionState {
    Open,
    Ended,
    Lost,
    Failed(String),
    FilterBlocked(String),
}

/// The packet view of a queue of decoded frames.
spec fn ready_view(ready: Seq<Vec<u8>>) -> Seq<Seq<u8>> {
    ready.map_values(|p: Vec<u8>| p@)
}

/// The consumer side of the bridged native-tracing backend.
pub struct PktmonBackend {
    buf: Vec<u8>,
    ready: Vec<Vec<u8>>,
    state: SessionState,
    captured: bool,
}

impl PktmonBackend {
    /// A fresh instance: nothing received, nothing delivered, session
    /// still open.
    pub fn new() -> (b: PktmonBackend)
        ensures
            b.pending() == Seq::<Seq<u8>>::empty(),
            b.residue() == Seq::<u8>::empty(),
            !b.done(),
            !b.captured(),
    {
        let b = PktmonBackend {
            buf: Vec::new(),
            ready: Vec::new(),
            state: SessionState::Open,
            captured: false,
        };
        proof {
            assert(b.pending() =~= Seq::<Seq<u8>>::empty());
        }
        b
    }

    /// The bytes received from the bridge that do not yet form a
    /// complete frame.
    pub closed spec fn residue(&self) -> Seq<u8> {
        self.buf@
    }

    /// Hand in bytes read from the bridge connection. Every frame they
    /// complete is queued for delivery, in stream order; the incomplete
    /// tail is kept for the next read. Once the instance is done, late
    /// bytes are ignored.
    pub fn feed_bytes(&mut self, data: &[u8])
        ensures
            old(self).done() ==> {
                &&& final(self).pending() == old(self).pending()
                &&& final(self).residue() == old(self).residue()
                &&& final(self).done()
                &&& final(self).terminal() == old(self).terminal()
                &&& final(self).captured() == old(self).captured()
            },
            !old(self).done() ==> {
                &&& final(self).pending() == old(self).pending() + parse_frames(
                    old(self).residue() + data@,
                ).0
                &&& final(self).residue() == parse_frames(old(self).residue() + data@).1
                &&& !final(self).done()
                &&& final(self).captured() == old(self).captured()
            },
    {
        match &self.state {
            SessionState::Open => {},
            _ => {
                return ;
            },
        }
        let ghost combined = self.buf@ + data@;
        let mut i: usize = 0;
        while i < data.len()
            invariant
                i <= data@.len(),
                self.buf@ == old(self).buf@ + data@.subrange(0, i as int),
                self.ready@ == old(self).ready@,
                self.state is Open,
                self.captured == old(self).captured,
            decreases data@.len() - i,
        {
            self.buf.push(data[i]);
            proof {
                assert(old(self).buf@ + data@.subrange(0, i + 1 as int) =~= (old(self).buf@
                    + data@.subrange(0, i as int)).push(data@[i as int]));
            }
            i = i + 1;
        }
        proof {
            assert(data@.subrange(0, data@.len() as int) =~= data@);
            assert(self.buf@ == combined);
        }
        loop
            invariant
                self.state is Open,
                self.captured == old(self).captured,
                ready_view(old(self).ready@) + parse_frames(combined).0 == ready_view(self.ready@)
                    + parse_frames(self.buf@).0,
                parse_frames(self.buf@).1 == parse_frames(combined).1,
            ensures
                self.state is Open,
                self.captured == old(self).captured,
                ready_view(old(self).ready@) + parse_frames(combined).0 == ready_view(self.ready@),
                self.buf@ == parse_frames(combined).1,
            decreases self.buf@.len(),
        {
            if self.buf.len() < 4 {
                proof {
                    assert(parse_frames(self.buf@).0 =~= Seq::<Seq<u8>>::empty());
                    assert(ready_view(old(self).ready@) + parse_frames(combined).0 =~= ready_view(
                        self.ready@,
                    ));
                }
                break ;
            }
            let n32: u32 = (self.buf[0] as u32) * 0x1000000 + (self.buf[1] as u32) * 0x10000 + (
            self.buf[2] as u32) * 0x100 + (self.buf[3] as u32);
            let n = n32 as usize;
            proof {
                assert(n == prefix_value(self.buf@));
            }
            if self.buf.len() - 4 < n {
                proof {
                    assert(parse_frames(self.buf@).0 =~= Seq::<Seq<u8>>::empty());
                    assert(ready_view(old(self).ready@) + parse_frames(combined).0 =~= ready_view(
                        self.ready@,
                    ));
                }
                break ;
            }
            let ghost b = self.buf@;
            let end = 4 + n;
            let mut payload: Vec<u8> = Vec::new();
            let mut j: usize = 4;
            while j < end
                invariant
                    4 <= j <= end,
                    end <= self.buf@.len(),
                    self.buf@ == b,
                    payload@ == b.subrange(4, j as int),
                decreases end - j,
            {
                payload.push(self.buf[j]);
                proof {
                    assert(b.subrange(4, j + 1 as int) =~= b.subrange(4, j as int).push(
                        b[j as int],
                    ));
                }
                j = j + 1;
            }
            let mut rest: Vec<u8> = Vec::new();
            let mut k: usize = end;
            while k < self.buf.len()
                invariant
                    end <= k <= self.buf@.len(),
                    self.buf@ == b,
                    rest@ == b.subrange(end as int, k as int),
                decreases self.buf@.len() - k,
            {
                rest.push(self.buf[k]);
                proof {
                    assert(b.subrange(end as int, k + 1 as int) =~= b.subrange(
                        end as int,
                        k as int,
                    ).push(b[k as int]));
                }
                k = k + 1;
            }
            let ghost prior_ready = self.ready@;
            self.buf = rest;
            self.ready.push(payload);
            proof {
                assert(rest@ =~= b.skip(end as int));
                assert(parse_frames(b).0 == seq![b.subrange(4, end as int)] + parse_frames(
                    b.skip(end as int),
                ).0);
                assert(parse_frames(b).1 == parse_frames(b.skip(end as int)).1);
                assert(ready_view(self.ready@) =~= ready_view(prior_ready).push(payload@));
                assert(payload@ == b.subrange(4, end as int));
                assert(ready_view(old(self).ready@) + parse_frames(combined).0 =~= ready_view(
                    self.ready@,
                ) + parse_frames(self.buf@).0);
            }
        }
    }

    /// The bridge connection was severed without the session itself
    /// signalling anything: the instance settles into `ChannelClosed`,
    /// after already-decoded packets have been delivered. An instance
    /// that is already done keeps its first terminal outcome.
    pub fn connection_lost(&mut self)
        ensures
            final(self).pending() == old(self).pending(),
            final(self).residue() == old(self).residue(),
            final(self).captured() == old(self).captured(),
            final(self).done(),
            old(self).done() ==> final(self).terminal() == old(self).terminal(),
            !old(self).done() ==> final(self).terminal() == Terminal::ChannelLost,
    {
        match &self.state {
            SessionState::Open => {
                self.state = SessionState::Lost;
            },
            _ => {},
        }
    }

    /// The native session reached its normal end of stream.
    pub fn session_ended(&mut self)
        ensures
            final(self).pending() == old(self).pending(),
            final(self).residue() == old(self).residue(),
            final(self).captured() == old(self).captured(),
            final(self).done(),
            old(self).done() ==> final(self).terminal() == old(self).terminal(),
            !old(self).done() ==> final(self).terminal() == Terminal::Closed,
    {
        match &self.state {
            SessionState::Open => {
                self.state = SessionState::Ended;
            },
            _ => {},
        }
    }

    /// The native session itself reported a failure, with its message.
    pub fn session_failed(&mut self, message: String)
        ensures
            final(self).pending() == old(self).pending(),
            final(self).residue() == old(self).residue(),
            final(self).captured() == old(self).captured(),
            final(self).done(),
            old(self).done() ==> final(self).terminal() == old(self).terminal(),
            !old(self).done() ==> final(self).terminal() == Terminal::Failed(message@),
    {
        match &self.state {
            SessionState::Open => {
                self.state = SessionState::Failed(message);
            },
            _ => {},
        }
    }

    /// The session rejected the configured filter expression before any
    /// capture began.
    pub fn filter_rejected(&mut self, message: String)
        ensures
            final(self).pending() == old(self).pending(),
            final(self).residue() == old(self).residue(),
            final(self).captured() == old(self).captured(),
            final(self).done(),
            old(self).done() ==> final(self).terminal() == old(self).terminal(),
            !old(self).done() ==> final(self).terminal() == Terminal::FilterBlocked(message@),
    {
        match &self.state {
            SessionState::Open => {
                self.state = SessionState::FilterBlocked(message);
            },
            _ => {},
        }
    }

    /// How many decoded packets await delivery.
    pub fn ready_len(&self) -> (n: usize)
        ensures
            n == self.pending().len(),
    {
        self.ready.len()
    }

    /// Whether the instance has settled into a terminal outcome.
    pub fn is_done(&self) -> (b: bool)
        ensures
            b == self.done(),
    {
        match &self.state {
            SessionState::Open => false,
            _ => true,
        }
    }

    /// Whether at least one packet has been delivered.
    pub fn has_captured(&self) -> (b: bool)
        ensures
            b == self.captured(),
    {
        self.captured
    }
}

impl CaptureBackend for PktmonBackend {
    closed spec fn pending(&self) -> Seq<Seq<u8>> {
        ready_view(self.ready@)
    }

    closed spec fn done(&self) -> bool {
        !(self.state is Open)
    }

    closed spec fn terminal(&self) -> Terminal {
        match self.state {
            SessionState::Open => Terminal::Closed,
            SessionState::Ended => Terminal::Closed,
            SessionState::Lost => Terminal::ChannelLost,
            SessionState::Failed(m) => Terminal::Failed(m@),
            SessionState::FilterBlocked(m) => Terminal::FilterBlocked(m@),
        }
    }

    closed spec fn captured(&self) -> bool {
        self.captured
    }

    fn next_packet(&mut self) -> (r: Result<Vec<u8>, CaptureError>) {
        if self.ready.len() > 0 {
            let p = self.ready.remove(0);
            self.captured = true;
            proof {
                assert(self.pending() =~= old(self).pending().drop_first());
            }
            Ok(p)
        } else {
            match &self.state {
                // An open session with nothing pending is ruled out by the
                // contract's precondition.
                SessionState::Open => unreached(),
                SessionState::Ended => Err(CaptureError::CaptureClosed),
                SessionState::Lost => Err(CaptureError::ChannelClosed),
                SessionState::Failed(m) => Err(
                    CaptureError::Capture { has_captured: self.captured, error: m.clone() },
                ),
                SessionState::FilterBlocked(m) => Err(CaptureError::Filter(m.clone())),
            }
        }
    }
}

} // verus!
