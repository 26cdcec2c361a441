//! What a decoded frame or command does to the receiver.
use vstd::prelude::*;

use crate::peer::{PeerCtx, PeerState, RECEIVER_ID_MAX, ROLE_TAG};
use crate::seq_num::SeqNum;
use crate::view::{bump, bumped, ViewModel};

verus! {

/// Signal strength reported when none was measured.
pub const RSSI_UNKNOWN: i8 = -127;

/// Header fields of a state frame that the receiver looks at.
#[derive(Clone, Copy, Debug, PartialEq, Eq)]
pub struct FrameHeader<Q> {
    pub seq: Q,
    /// One bit for each receiver id that the frame is meant for.
    pub dest_mask: u32,
}

/// A decoded state frame.
#[derive(Clone, Copy, Debug, PartialEq, Eq)]
pub struct Frame<Q, S> {
    pub header: FrameHeader<Q>,
    pub payload: S,
}

/// Whether the bit of receiver `id` is set in a destination mask.
pub open spec fn mask_names(mask: u32, id: u8) -> bool {
    mask & (1u32 << id) != 0
}

impl<Q, S> Frame<Q, S> {
    /// Whether the frame is meant for the receiver with this id.
    pub fn is_addressed_to(&self, receiver_id: u8) -> (addressed: bool)
        requires
            receiver_id <= RECEIVER_ID_MAX,
        ensures
            addressed == mask_names(self.header.dest_mask, receiver_id),
    {
        self.header.dest_mask & (1u32 << receiver_id) != 0
    }
}

/// A break in the frame counter: frames were lost, repeated or reordered.
#[derive(Clone, Copy, Debug, PartialEq, Eq)]
pub struct SeqGap<Q> {
    pub expected: Q,
    pub got: Q,
    /// Steps from the expected counter to the one that came.
    pub missing: Q,
}

/// What became of a frame packet.
#[derive(Clone, Copy, Debug, PartialEq, Eq)]
pub enum FrameOutcome<Q> {
    /// The decoder refused it.
    Undecodable,
    /// Meant for others: counted, and nothing is shown.
    Filtered,
    /// Taken: the new view is to be shown.
    Taken { gap: Option<SeqGap<Q>> },
}

impl<Q: SeqNum, S: Copy> ViewModel<Q, S> {
    /// The break in the counter, if any, when frame `seq` is taken now. The first
    /// frame cannot break anything.
    pub open spec fn gap_at(self, seq: Q) -> Option<SeqGap<Q>> {
        let expected = self.last_seq.next_spec();
        if self.have_data && seq != expected {
            Some(SeqGap { expected, got: seq, missing: seq.steps_from_spec(expected) })
        } else {
            None
        }
    }

    /// The view once `frame` has been taken.
    pub open spec fn with_frame(self, frame: Frame<Q, S>) -> ViewModel<Q, S> {
        ViewModel {
            have_data: true,
            last_seq: frame.header.seq,
            ok_count: bumped(self.ok_count),
            gap_count: if self.gap_at(frame.header.seq) is Some {
                bumped(self.gap_count)
            } else {
                self.gap_count
            },
            state: frame.payload,
            ..self
        }
    }

    /// The view once a frame for others has gone by.
    pub open spec fn with_filtered(self) -> ViewModel<Q, S> {
        ViewModel { filtered_count: bumped(self.filtered_count), ..self }
    }

    /// The view once a discovery answer has been sent.
    pub open spec fn with_reply(self) -> ViewModel<Q, S> {
        ViewModel { reply_count: bumped(self.reply_count), ..self }
    }

    /// The view that shows `peer` as the identity of this receiver.
    pub open spec fn with_identity(self, peer: PeerState) -> ViewModel<Q, S> {
        ViewModel { receiver_id: peer.receiver_id, assigned: peer.assigned, ..self }
    }

    /// The view of receiver `id` after a frame packet; `None` if it did not decode.
    pub open spec fn after_frame(self, id: u8, decoded: Option<Frame<Q, S>>) -> ViewModel<Q, S> {
        match decoded {
            None => self,
            Some(frame) => if mask_names(frame.header.dest_mask, id) {
                self.with_frame(frame)
            } else {
                self.with_filtered()
            },
        }
    }

    /// What becomes of a frame packet at receiver `id`.
    pub open spec fn frame_outcome(self, id: u8, decoded: Option<Frame<Q, S>>) -> FrameOutcome<Q> {
        match decoded {
            None => FrameOutcome::Undecodable,
            Some(frame) => if mask_names(frame.header.dest_mask, id) {
                FrameOutcome::Taken { gap: self.gap_at(frame.header.seq) }
            } else {
                FrameOutcome::Filtered
            },
        }
    }
}

/// Takes a frame packet, after the decoder has seen it, into the view.
///
/// A frame for other receivers is only counted. That count is not shown at once;
/// it goes out with the next view that is.
pub fn handle_frame<Q: SeqNum, S: Copy>(
    decoded: Option<Frame<Q, S>>,
    peer: &PeerCtx,
    vm: &mut ViewModel<Q, S>,
) -> (outcome: FrameOutcome<Q>)
    ensures
        *final(vm) == old(vm).after_frame(peer@.receiver_id, decoded),
        outcome == old(vm).frame_outcome(peer@.receiver_id, decoded),
{
    let frame = match decoded {
        Some(frame) => frame,
        None => {
            return FrameOutcome::Undecodable;
        },
    };
    if !frame.is_addressed_to(peer.receiver_id()) {
        vm.filtered_count = bump(vm.filtered_count);
        return FrameOutcome::Filtered;
    }
    let mut gap: Option<SeqGap<Q>> = None;
    if vm.have_data {
        let expected = vm.last_seq.next();
        if !frame.header.seq.same(expected) {
            let missing = frame.header.seq.steps_from(expected);
            vm.gap_count = bump(vm.gap_count);
            gap = Some(SeqGap { expected, got: frame.header.seq, missing });
        }
    }
    vm.have_data = true;
    vm.last_seq = frame.header.seq;
    vm.ok_count = bump(vm.ok_count);
    vm.state = frame.payload;
    FrameOutcome::Taken { gap }
}

/// What a command asks for, as far as a receiver cares.
#[derive(Clone, Copy, Debug, PartialEq, Eq)]
pub enum CommandBody {
    /// Discovery: every receiver in range answers.
    Announce,
    /// The receiver with address `mac` shall go by `receiver_id`.
    AssignId { mac: [u8; 6], receiver_id: u8 },
    /// Anything else; such commands are for the controller itself.
    Other,
}

/// A decoded and authenticated command.
#[derive(Clone, Copy, Debug, PartialEq, Eq)]
pub struct Command {
    pub seq: u32,
    pub key_id: u8,
    pub kind: CommandBody,
}

impl Command {
    /// Whether the command has to pass the replay window. Discovery does not: the
    /// controller repeats it, and a receiver that answered only once would be lost.
    pub open spec fn guarded(self) -> bool {
        self.kind !is Announce
    }

    /// Whether the command has to pass the replay window before it is obeyed.
    pub fn needs_replay_check(&self) -> (guarded: bool)
        ensures
            guarded == self.guarded(),
    {
        match self.kind {
            CommandBody::Announce => false,
            _ => true,
        }
    }
}

/// Answer to a discovery command.
#[derive(Clone, Copy, Debug, PartialEq, Eq)]
pub struct AnnounceReply {
    /// Counter and key of the command that is answered.
    pub req_seq: u32,
    pub key_id: u8,
    /// Address of this unit.
    pub mac: [u8; 6],
    pub rssi_dbm: i8,
    pub role_tag: [u8; 3],
}

impl AnnounceReply {
    /// The answer that the unit with address `own_mac` gives to `cmd`.
    pub open spec fn to(cmd: Command, own_mac: [u8; 6]) -> AnnounceReply {
        AnnounceReply {
            req_seq: cmd.seq,
            key_id: cmd.key_id,
            mac: own_mac,
            rssi_dbm: RSSI_UNKNOWN,
            role_tag: ROLE_TAG,
        }
    }
}

/// What became of a command.
#[derive(Clone, Copy, Debug, PartialEq, Eq)]
pub enum CommandOutcome {
    /// This answer is to be broadcast.
    Reply(AnnounceReply),
    /// The id was taken: the new view is to be shown.
    Assigned { receiver_id: u8 },
    /// An id for another unit, or one that the mask has no bit for.
    AssignIgnored { receiver_id: u8 },
    /// Not a command for receivers.
    Ignored,
}

impl Command {
    /// What becomes of the command at the unit with address `own_mac`.
    pub open spec fn outcome(self, own_mac: [u8; 6]) -> CommandOutcome {
        match self.kind {
            CommandBody::Announce => CommandOutcome::Reply(AnnounceReply::to(self, own_mac)),
            CommandBody::AssignId { mac, receiver_id } => if PeerState::accepts(
                own_mac@,
                mac@,
                receiver_id,
            ) {
                CommandOutcome::Assigned { receiver_id }
            } else {
                CommandOutcome::AssignIgnored { receiver_id }
            },
            CommandBody::Other => CommandOutcome::Ignored,
        }
    }

    /// The identity after the unit with address `own_mac` has obeyed the command.
    pub open spec fn peer_after(self, own_mac: [u8; 6], peer: PeerState) -> PeerState {
        match self.kind {
            CommandBody::AssignId { mac, receiver_id } => peer.after_assign(
                own_mac@,
                mac@,
                receiver_id,
            ),
            _ => peer,
        }
    }

    /// The view after the unit with address `own_mac` has obeyed the command.
    pub open spec fn view_after<Q: SeqNum, S: Copy>(
        self,
        own_mac: [u8; 6],
        peer: PeerState,
        vm: ViewModel<Q, S>,
    ) -> ViewModel<Q, S> {
        if self.outcome(own_mac) is Assigned {
            vm.with_identity(self.peer_after(own_mac, peer))
        } else {
            vm
        }
    }
}

/// Obeys a command that has come through the replay window, or need not.
pub fn handle_command<Q: SeqNum, S: Copy>(
    cmd: Command,
    own_mac: [u8; 6],
    peer: &mut PeerCtx,
    vm: &mut ViewModel<Q, S>,
) -> (outcome: CommandOutcome)
    ensures
        outcome == cmd.outcome(own_mac),
        final(peer)@ == cmd.peer_after(own_mac, old(peer)@),
        *final(vm) == cmd.view_after(own_mac, old(peer)@, *old(vm)),
{
    match cmd.kind {
        CommandBody::Announce => CommandOutcome::Reply(
            AnnounceReply {
                req_seq: cmd.seq,
                key_id: cmd.key_id,
                mac: own_mac,
                rssi_dbm: RSSI_UNKNOWN,
                role_tag: ROLE_TAG,
            },
        ),
        CommandBody::AssignId { mac, receiver_id } => {
            if peer.assign(own_mac, mac, receiver_id) {
                vm.receiver_id = peer.receiver_id();
                vm.assigned = peer.is_assigned();
                CommandOutcome::Assigned { receiver_id }
            } else {
                CommandOutcome::AssignIgnored { receiver_id }
            }
        },
        CommandBody::Other => CommandOutcome::Ignored,
    }
}

/// Counts a discovery answer, if it went out, and says whether to show the view.
pub fn handle_reply_sent<Q: SeqNum, S: Copy>(sent: bool, vm: &mut ViewModel<Q, S>) -> (show: bool)
    ensures
        show == sent,
        *final(vm) == (if sent {
            old(vm).with_reply()
        } else {
            *old(vm)
        }),
{
    if sent {
        vm.reply_count = bump(vm.reply_count);
    }
    sent
}

} // verus!
