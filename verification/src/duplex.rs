//! The receive side of the persistent duplex channel.
//!
//! A long-lived bidirectional channel may deliver frames that are not the
//! text reply being waited for (binary data, keep-alive pings).  The receive
//! path therefore loops, discarding non-text frames, and gives up with a
//! timeout once a bounded budget of attempts is spent.  The budget is tested
//! before every receive and spent on every unsuccessful one, so a positive
//! budget always performs at least one receive.

use vstd::prelude::*;
use crate::error::LitRpcError;
use crate::error::ErrV;

verus! {

/// How many inbound frames a receive is willing to examine before it gives
/// up, unless the caller picks its own budget.
pub const DEFAULT_RECV_BUDGET: u32 = 32;

/// One inbound frame of the duplex channel.
#[derive(Clone, Debug)]
pub enum Frame {
    /// A text frame: the only kind that can carry a response envelope.
    Text(String),
    /// A binary frame; not part of this protocol, skipped.
    Binary(Vec<u8>),
    /// A keep-alive probe; skipped.
    Ping(Vec<u8>),
    /// A keep-alive answer; skipped.
    Pong(Vec<u8>),
}

impl Frame {
    pub open spec fn is_text(&self) -> bool {
        self matches Frame::Text(_)
    }

    pub open spec fn text(&self) -> Seq<char> {
        match self {
            Frame::Text(s) => s@,
            _ => Seq::empty(),
        }
    }
}

/// Pull the next text frame out of an inbound frame sequence, examining at
/// most `budget` frames.  Returns the first text frame's payload, or
/// `Timeout` when the budget is spent — or runs out of frames — without one.
pub fn recv_text(frames: &Vec<Frame>, budget: u32) -> (r: Result<String, LitRpcError>)
    ensures
        match r {
            Ok(s) => exists|i: int|
                0 <= i < budget && i < frames@.len() && (#[trigger] frames@[i]).is_text()
                    && s@ == frames@[i].text() && (forall|j: int|
                    0 <= j < i ==> !(#[trigger] frames@[j]).is_text()),
            Err(e) => e@ == ErrV::Timeout && forall|i: int|
                0 <= i < budget && i < frames@.len() ==> !(#[trigger] frames@[i]).is_text(),
        },
{
    let mut i: usize = 0;
    while i < budget as usize && i < frames.len()
        invariant
            forall|j: int| 0 <= j < i ==> !(#[trigger] frames@[j]).is_text(),
        decreases budget as int - i,
    {
        match &frames[i] {
            Frame::Text(s) => {
                return Ok(s.clone());
            },
            _ => {},
        }
        i = i + 1;
    }
    Err(LitRpcError::Timeout)
}

/// The countdown a caller holds while driving the receive loop itself, one
/// frame at a time.
pub struct RecvState {
    pub attempts_left: u32,
}

/// What the receive loop decides about one inbound frame.
pub enum RecvStep {
    /// The frame is text: deliver its payload to the correlation layer.
    Deliver(String),
    /// The frame is not text and attempts remain: receive again.
    Retry(RecvState),
    /// The frame is not text and the budget is spent: the call timed out.
    GiveUp,
}

/// One step of the receive loop: the decision for one received frame.
/// The caller performs the blocking receive, hands the frame in, and acts on
/// the decision; the budget is spent only on unsuccessful receives.
pub fn recv_step(st: RecvState, f: &Frame) -> (r: RecvStep)
    requires
        st.attempts_left >= 1,
    ensures
        match r {
            RecvStep::Deliver(s) => f.is_text() && s@ == f.text(),
            RecvStep::Retry(n) => !f.is_text() && st.attempts_left > 1 && n.attempts_left
                == st.attempts_left - 1,
            RecvStep::GiveUp => !f.is_text() && st.attempts_left == 1,
        },
{
    match f {
        Frame::Text(s) => RecvStep::Deliver(s.clone()),
        _ => {
            if st.attempts_left > 1 {
                RecvStep::Retry(RecvState { attempts_left: st.attempts_left - 1 })
            } else {
                RecvStep::GiveUp
            }
        },
    }
}

/// The bounded receive loop never answers out of a frame stream whose
/// examined prefix holds no text frame: with every one of the first `budget`
/// frames non-text — in particular with fewer frames than the budget — the
/// outcome is exactly `Timeout`.
pub proof fn lemma_recv_budget_exhaustion(
    frames: Seq<Frame>,
    budget: u32,
    r: Result<String, LitRpcError>,
)
    requires
        forall|i: int| 0 <= i < budget && i < frames.len() ==> !(#[trigger] frames[i]).is_text(),
        match r {
            Ok(s) => exists|i: int|
                0 <= i < budget && i < frames.len() && (#[trigger] frames[i]).is_text() && s@
                    == frames[i].text() && (forall|j: int|
                    0 <= j < i ==> !(#[trigger] frames[j]).is_text()),
            Err(e) => e@ == ErrV::Timeout,
        },
    ensures
        r matches Err(e) && e@ == ErrV::Timeout,
{
}

} // verus!
