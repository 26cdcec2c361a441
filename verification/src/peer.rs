//! Identity of this receiver towards the controller.
//!
//! The controller hands out a logical id with an `AssignId` command. The id lives
//! in memory only: after a restart the receiver is back at
//! [`INITIAL_RECEIVER_ID`] and waits for the controller, which keeps the mapping,
//! to assign it again.
use vstd::prelude::*;

use crate::text::{decimal, flag_word, push_decimal, word};

verus! {

/// Broadcast address of the radio; every answer goes there.
pub const BROADCAST: [u8; 6] = [0xFF, 0xFF, 0xFF, 0xFF, 0xFF, 0xFF];

/// Id in use until the controller assigns one.
pub const INITIAL_RECEIVER_ID: u8 = 0;

/// Largest id: a destination mask has one bit per id, 32 in all.
pub const RECEIVER_ID_MAX: u8 = 31;

/// Role that this unit announces, in ASCII: `lcd`.
pub const ROLE_TAG: [u8; 3] = [0x6C, 0x63, 0x64];

/// What a [`PeerCtx`] stands for.
pub struct PeerState {
    pub receiver_id: u8,
    pub assigned: bool,
}

impl PeerState {
    /// The id names a bit of a destination mask.
    pub open spec fn wf(self) -> bool {
        self.receiver_id <= RECEIVER_ID_MAX
    }

    /// The state after power-up.
    pub open spec fn initial() -> PeerState {
        PeerState { receiver_id: INITIAL_RECEIVER_ID, assigned: false }
    }

    /// Whether `AssignId { target, id }` is accepted by the unit whose address is `own`.
    pub open spec fn accepts(own: Seq<u8>, target: Seq<u8>, id: u8) -> bool {
        target == own && id <= RECEIVER_ID_MAX
    }

    /// The state in a log line.
    pub open spec fn text(self) -> Seq<char> {
        "PeerCtx { receiver_id="@ + decimal(self.receiver_id as nat) + ", assigned="@ + flag_word(
            self.assigned,
        ) + " }"@
    }

    /// The state after `AssignId { target, id }` has reached the unit with address `own`.
    pub open spec fn after_assign(self, own: Seq<u8>, target: Seq<u8>, id: u8) -> PeerState {
        if PeerState::accepts(own, target, id) {
            PeerState { receiver_id: id, assigned: true }
        } else {
            self
        }
    }
}

/// Runtime identity of this receiver.
pub struct PeerCtx {
    receiver_id: u8,
    assigned: bool,
}

impl View for PeerCtx {
    type V = PeerState;

    closed spec fn view(&self) -> PeerState {
        PeerState { receiver_id: self.receiver_id, assigned: self.assigned }
    }
}

impl PeerCtx {
    #[verifier::type_invariant]
    spec fn id_in_mask(self) -> bool {
        self.receiver_id <= RECEIVER_ID_MAX
    }

    /// A receiver that nobody has assigned an id to yet.
    #[must_use]
    pub fn new() -> (peer: PeerCtx)
        ensures
            peer@ == PeerState::initial(),
    {
        PeerCtx { receiver_id: INITIAL_RECEIVER_ID, assigned: false }
    }

    /// The id by which frames are filtered; it always names a bit of the mask.
    #[must_use]
    pub fn receiver_id(&self) -> (id: u8)
        ensures
            id == self@.receiver_id,
            self@.wf(),
    {
        proof {
            use_type_invariant(self);
        }
        self.receiver_id
    }

    /// Whether the controller has assigned an id since power-up.
    #[must_use]
    pub fn is_assigned(&self) -> (assigned: bool)
        ensures
            assigned == self@.assigned,
    {
        self.assigned
    }

    /// Applies `AssignId { mac, receiver_id }`.
    ///
    /// The id is taken, and `true` returned, exactly when the command names this
    /// unit's own address and an id that the mask has a bit for. Otherwise nothing
    /// changes.
    pub fn assign(&mut self, own_mac: [u8; 6], target_mac: [u8; 6], receiver_id: u8) -> (taken: bool)
        ensures
            taken == PeerState::accepts(own_mac@, target_mac@, receiver_id),
            final(self)@ == old(self)@.after_assign(own_mac@, target_mac@, receiver_id),
    {
        if !same_mac(&target_mac, &own_mac) {
            return false;
        }
        if receiver_id > RECEIVER_ID_MAX {
            return false;
        }
        self.receiver_id = receiver_id;
        self.assigned = true;
        true
    }

    /// The identity in a log line, such as `PeerCtx { receiver_id=7, assigned=true }`.
    pub fn format(&self) -> (line: String)
        ensures
            line@ == self@.text(),
    {
        let mut line: String = String::new();
        line.append("PeerCtx { receiver_id=");
        push_decimal(&mut line, self.receiver_id);
        line.append(", assigned=");
        line.append(word(self.assigned));
        line.append(" }");
        assert(line@ =~= self@.text());
        line
    }
}

impl Default for PeerCtx {
    fn default() -> (peer: PeerCtx)
        ensures
            peer@ == PeerState::initial(),
    {
        PeerCtx::new()
    }
}

/// Whether two radio addresses are the same.
fn same_mac(a: &[u8; 6], b: &[u8; 6]) -> (same: bool)
    ensures
        same == (a@ == b@),
{
    let mut i: usize = 0;
    while i < 6
        invariant
            i <= 6,
            forall|j: int| 0 <= j < i ==> a@[j] == b@[j],
        decreases 6 - i,
    {
        if a[i] != b[i] {
            return false;
        }
        i += 1;
    }
    assert(a@ =~= b@);
    true
}

} // verus!
