//! What the screen shows.
use vstd::prelude::*;

use crate::peer::INITIAL_RECEIVER_ID;
use crate::seq_num::SeqNum;

verus! {

/// Snapshot of the link for the display: `Q` is the frame counter, `S` the
/// controller state that a frame carries.
#[derive(Clone, Copy, Debug, PartialEq, Eq)]
pub struct ViewModel<Q, S> {
    /// Whether any frame has been taken yet.
    pub have_data: bool,
    /// Counter of the last frame taken.
    pub last_seq: Q,
    /// Frames taken.
    pub ok_count: u32,
    /// Frames taken whose counter did not follow the one before.
    pub gap_count: u32,
    /// Frames that were meant for other receivers.
    pub filtered_count: u32,
    /// Discovery answers sent.
    pub reply_count: u32,
    /// Id of this receiver.
    pub receiver_id: u8,
    /// Whether the controller has assigned that id.
    pub assigned: bool,
    /// Controller state of the last frame taken.
    pub state: S,
}

/// A counter one up, or where it is if it is at its limit.
pub open spec fn bumped(n: u32) -> u32 {
    if n == u32::MAX {
        n
    } else {
        (n + 1) as u32
    }
}

/// Counts one up and stays at the limit.
pub fn bump(n: u32) -> (r: u32)
    ensures
        r == bumped(n),
{
    n.saturating_add(1)
}

impl<Q: SeqNum, S: Copy> ViewModel<Q, S> {
    /// The view of a receiver that waits for its first frame.
    pub open spec fn empty_spec(idle: S) -> ViewModel<Q, S> {
        ViewModel {
            have_data: false,
            last_seq: Q::zero_spec(),
            ok_count: 0,
            gap_count: 0,
            filtered_count: 0,
            reply_count: 0,
            receiver_id: INITIAL_RECEIVER_ID,
            assigned: false,
            state: idle,
        }
    }

    /// The view of a receiver that waits for its first frame; `idle` stands in for
    /// the controller state until then.
    pub fn empty(idle: S) -> (vm: ViewModel<Q, S>)
        ensures
            vm == Self::empty_spec(idle),
    {
        ViewModel {
            have_data: false,
            last_seq: Q::zero(),
            ok_count: 0,
            gap_count: 0,
            filtered_count: 0,
            reply_count: 0,
            receiver_id: INITIAL_RECEIVER_ID,
            assigned: false,
            state: idle,
        }
    }

    /// The view to draw next.
    pub open spec fn latest(self, change: Option<ViewModel<Q, S>>) -> ViewModel<Q, S> {
        match change {
            Some(new) => new,
            None => self,
        }
    }

    /// The view to draw next: the new one if there is one, else the old one again.
    pub fn refreshed(self, change: Option<ViewModel<Q, S>>) -> (vm: ViewModel<Q, S>)
        ensures
            vm == (match change {
                Some(new) => new,
                None => self,
            }),
            vm == self.latest(change),
    {
        match change {
            Some(new) => new,
            None => self,
        }
    }
}

} // verus!
