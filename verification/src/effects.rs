//! What each operation does, field by field and byte by byte.
//!
//! The statements here use numbers, bytes, bits and fields only, so that they can be
//! read, and hold, without the definitions that the contracts are written in.
use vstd::arithmetic::power2::pow2;
use vstd::bits::lemma_u32_shr_is_div;
use vstd::prelude::*;

use crate::boot::{BootStage, BootState};
use crate::packet::{is_command_packet, is_frame_packet, Route, COMMAND_MAGIC_LE, FRAME_MAGIC_LE};
use crate::peer::{PeerState, ROLE_TAG};
use crate::radio::{
    mask_names, AnnounceReply, Command, CommandBody, CommandOutcome, Frame, FrameOutcome,
};
use crate::receiver::{Action, Event, Note, Phase, ReceiverState, Step};
use crate::self_test::{all_pending, some_failed, SelfTestItem, SelfTestStatus, Standings};
use crate::seq_num::SeqNum;
use crate::text::decimal;
use crate::view::{bumped, ViewModel};

verus! {

// ---------------------------------------------------------------------------
// Packets
// ---------------------------------------------------------------------------

/// Length and the first two bytes alone make a packet a frame or a command; the
/// other bytes have no say.
pub proof fn two_bytes_and_the_length_decide(packet: Seq<u8>)
    ensures
        is_frame_packet(packet) <==> packet.len() == 25 && packet[0] == 0x1E && packet[1] == 0xC7,
        is_command_packet(packet) <==> packet.len() == 24 && packet[0] == 0x01 && packet[1]
            == 0xCB,
{
    if packet.len() >= 2 {
        let head = packet.take(2);
        assert(head[0] == packet[0] && head[1] == packet[1]);
        assert(FRAME_MAGIC_LE@[0] == 0x1E && FRAME_MAGIC_LE@[1] == 0xC7);
        assert(COMMAND_MAGIC_LE@[0] == 0x01 && COMMAND_MAGIC_LE@[1] == 0xCB);
        if packet[0] == 0x1E && packet[1] == 0xC7 {
            assert(head =~= FRAME_MAGIC_LE@);
        }
        if packet[0] == 0x01 && packet[1] == 0xCB {
            assert(head =~= COMMAND_MAGIC_LE@);
        }
    }
}

/// Where every packet goes, and with which bytes.
pub proof fn every_packet_finds_its_route(packet: Seq<u8>, r: Route)
    requires
        r.fits(packet),
    ensures
        r is Frame <==> packet.len() == 25 && packet[0] == 0x1E && packet[1] == 0xC7,
        r is Command <==> packet.len() == 24 && packet[0] == 0x01 && packet[1] == 0xCB,
        r is Short <==> packet.len() < 2,
        r matches Route::Frame(bytes) ==> forall|i: int|
            0 <= i < 25 ==> #[trigger] bytes[i] == packet[i],
        r matches Route::Command(bytes) ==> forall|i: int|
            0 <= i < 24 ==> #[trigger] bytes[i] == packet[i],
        r matches Route::Skip { magic, len } ==> magic[0] == packet[0] && magic[1] == packet[1]
            && len == packet.len(),
{
    two_bytes_and_the_length_decide(packet);
    if let Route::Skip { magic, .. } = r {
        assert(magic@[0] == packet.take(2)[0] && magic@[1] == packet.take(2)[1]);
    }
}

/// The loop hands a packet on whole, whatever it was waiting for, and changes nothing
/// but what it waits for.
pub proof fn a_packet_is_handed_on_whole<Q: SeqNum, S: Copy>(
    s: ReceiverState<Q, S>,
    packet: &[u8],
    step: Step<Q, S>,
)
    requires
        s.answers(Event::Packet(packet), step),
    ensures
        ({
            let p = packet@;
            let t = s.after(Event::Packet(packet));
            let frame = p.len() == 25 && p[0] == 0x1E && p[1] == 0xC7;
            let command = p.len() == 24 && p[0] == 0x01 && p[1] == 0xCB;
            &&& t.own_mac == s.own_mac
            &&& t.peer == s.peer
            &&& t.vm == s.vm
            &&& t.phase is Frame <==> frame
            &&& t.phase is Command <==> command
            &&& t.phase is Idle <==> !frame && !command
            &&& step.action is DecodeFrame <==> frame
            &&& step.action is DecodeCommand <==> command
            &&& step.action is Receive <==> !frame && !command
            &&& step.action matches Action::DecodeFrame(bytes) ==> bytes@ == p
            &&& step.action matches Action::DecodeCommand(bytes) ==> bytes@ == p
            &&& (frame || command || p.len() < 2) ==> step.note is Nothing
            &&& (!frame && !command && p.len() >= 2) ==> (step.note matches Note::Skipped {
                magic,
                len,
            } && magic[0] == p[0] && magic[1] == p[1] && len == p.len())
        }),
{
    let p = packet@;
    two_bytes_and_the_length_decide(p);
    if let Note::Skipped { magic, .. } = step.note {
        assert(p.take(2)[0] == p[0] && p.take(2)[1] == p[1]);
        assert(magic@ == p.take(2));
    }
}

// ---------------------------------------------------------------------------
// Destination masks
// ---------------------------------------------------------------------------

/// A mask names a receiver exactly if the binary digit of its id is one.
pub proof fn a_mask_names_by_digit(mask: u32, id: u8)
    requires
        id <= 31,
    ensures
        mask_names(mask, id) <==> (mask >> id) % 2 == 1,
        mask_names(mask, id) <==> (mask as nat / pow2(id as nat)) % 2 == 1,
{
    assert((mask & (1u32 << id) != 0) <==> (mask >> id) % 2 == 1) by (bit_vector)
        requires
            id <= 31,
    ;
    assert(mask >> id == mask >> (id as u32)) by (bit_vector)
        requires
            id <= 31,
    ;
    lemma_u32_shr_is_div(mask, id as u32);
}

/// Masks combine bit by bit: a union names whom either names, an intersection whom
/// both name, and a complement everyone else.
pub proof fn masks_combine(a: u32, b: u32, id: u8)
    requires
        id <= 31,
    ensures
        mask_names(a | b, id) <==> mask_names(a, id) || mask_names(b, id),
        mask_names(a & b, id) <==> mask_names(a, id) && mask_names(b, id),
        mask_names(!a, id) <==> !mask_names(a, id),
{
    assert((a | b) & (1u32 << id) != 0 <==> (a & (1u32 << id) != 0 || b & (1u32 << id) != 0))
        by (bit_vector);
    assert((a & b) & (1u32 << id) != 0 <==> (a & (1u32 << id) != 0 && b & (1u32 << id) != 0))
        by (bit_vector)
        requires
            id <= 31,
    ;
    assert((!a) & (1u32 << id) != 0 <==> !(a & (1u32 << id) != 0)) by (bit_vector)
        requires
            id <= 31,
    ;
}

// ---------------------------------------------------------------------------
// Counters
// ---------------------------------------------------------------------------

/// A statistic goes up by one, and stays where it is only at its limit.
pub proof fn a_statistic_goes_up_by_one(n: u32)
    ensures
        n < 0xFFFF_FFFF ==> bumped(n) == n + 1,
        n == 0xFFFF_FFFF ==> bumped(n) == 0xFFFF_FFFF,
{
}

/// The frame counters are plain numbers of their width; the step after the largest
/// is zero, and steps are counted forwards.
pub proof fn frame_counters_are_numbers(a: u8, b: u8, c: u16, d: u16, e: u32, f: u32)
    ensures
        a.value() == a && c.value() == c && e.value() == e,
        <u8 as SeqNum>::modulus() == 256,
        <u16 as SeqNum>::modulus() == 65536,
        <u32 as SeqNum>::modulus() == 4294967296,
        a.next_spec() == (a + 1) % 256,
        c.next_spec() == (c + 1) % 65536,
        e.next_spec() == (e + 1) % 4294967296,
        (b + a.steps_from_spec(b)) % 256 == a,
        (d + c.steps_from_spec(d)) % 65536 == c,
        (f + e.steps_from_spec(f)) % 4294967296 == e,
{
}

// ---------------------------------------------------------------------------
// Frames
// ---------------------------------------------------------------------------

/// A frame whose mask has the bit of `id` is taken, gap or no gap: its payload and its
/// counter are what the view then holds. Only the counts tell a gap from none.
pub proof fn a_frame_with_the_bit_is_taken<Q: SeqNum, S: Copy>(
    vm: ViewModel<Q, S>,
    id: u8,
    frame: Frame<Q, S>,
)
    requires
        id <= 31,
        (frame.header.dest_mask >> id) % 2 == 1,
    ensures
        ({
            let t = vm.after_frame(id, Some(frame));
            let next = (vm.last_seq.value() + 1) % Q::modulus();
            let broken = vm.have_data && frame.header.seq.value() != next;
            &&& t.have_data
            &&& t.state == frame.payload
            &&& t.last_seq == frame.header.seq
            &&& vm.ok_count < u32::MAX ==> t.ok_count == vm.ok_count + 1
            &&& vm.ok_count == u32::MAX ==> t.ok_count == u32::MAX
            &&& broken && vm.gap_count < u32::MAX ==> t.gap_count == vm.gap_count + 1
            &&& !broken || vm.gap_count == u32::MAX ==> t.gap_count == vm.gap_count
            &&& t.filtered_count == vm.filtered_count
            &&& t.reply_count == vm.reply_count
            &&& t.receiver_id == vm.receiver_id
            &&& t.assigned == vm.assigned
            &&& t == vm.with_frame(frame)
            &&& vm.frame_outcome(id, Some(frame)) matches FrameOutcome::Taken { gap }
            &&& gap is Some <==> broken
            &&& gap matches Some(g) ==> {
                &&& g.expected.value() == next
                &&& g.got == frame.header.seq
                &&& g.missing.value() == (frame.header.seq.value() - next) % Q::modulus() as int
            }
        }),
{
    let seq = frame.header.seq;
    let expected = vm.last_seq.next_spec();
    a_mask_names_by_digit(frame.header.dest_mask, id);
    vm.last_seq.arithmetic(seq);
    seq.arithmetic(expected);
    Q::values(seq, expected);
}

/// A frame whose mask lacks the bit of `id` is counted as somebody else's; the view
/// keeps everything else.
pub proof fn a_frame_without_the_bit_is_only_counted<Q: SeqNum, S: Copy>(
    vm: ViewModel<Q, S>,
    id: u8,
    frame: Frame<Q, S>,
)
    requires
        id <= 31,
        (frame.header.dest_mask >> id) % 2 == 0,
    ensures
        ({
            let t = vm.after_frame(id, Some(frame));
            &&& vm.filtered_count < u32::MAX ==> t.filtered_count == vm.filtered_count + 1
            &&& vm.filtered_count == u32::MAX ==> t.filtered_count == u32::MAX
            &&& t.have_data == vm.have_data
            &&& t.last_seq == vm.last_seq
            &&& t.ok_count == vm.ok_count
            &&& t.gap_count == vm.gap_count
            &&& t.reply_count == vm.reply_count
            &&& t.receiver_id == vm.receiver_id
            &&& t.assigned == vm.assigned
            &&& t.state == vm.state
            &&& t == vm.with_filtered()
            &&& vm.frame_outcome(id, Some(frame)) is Filtered
        }),
{
    a_mask_names_by_digit(frame.header.dest_mask, id);
}

/// A packet that does not decode as a frame leaves the view as it is.
pub proof fn an_undecodable_frame_leaves_the_view<Q: SeqNum, S: Copy>(vm: ViewModel<Q, S>, id: u8)
    ensures
        vm.after_frame(id, None) == vm,
        vm.frame_outcome(id, None) is Undecodable,
{
}

/// In the loop, a frame with this receiver's bit is shown at once, with its payload
/// and counter; one without the bit is not shown. Neither touches the identity.
pub proof fn the_loop_shows_what_is_addressed<Q: SeqNum, S: Copy>(
    s: ReceiverState<Q, S>,
    frame: Frame<Q, S>,
    step: Step<Q, S>,
)
    requires
        s.wf(),
        s.phase is Frame,
        s.answers(Event::Frame(Some(frame)), step),
    ensures
        ({
            let t = s.after(Event::Frame(Some(frame)));
            let bit = (frame.header.dest_mask >> s.peer.receiver_id) % 2;
            let broken = s.vm.have_data && frame.header.seq.value() != (s.vm.last_seq.value() + 1)
                % Q::modulus();
            &&& t.own_mac == s.own_mac
            &&& t.peer == s.peer
            &&& t.phase is Idle
            &&& bit == 1 ==> {
                &&& step.action matches Action::Publish(shown)
                &&& shown == t.vm
                &&& shown.state == frame.payload
                &&& shown.last_seq == frame.header.seq
                &&& shown.have_data
                &&& s.vm.ok_count < u32::MAX ==> shown.ok_count == s.vm.ok_count + 1
                &&& shown.filtered_count == s.vm.filtered_count
                &&& step.note is Gap <==> broken
                &&& step.note is Nothing <==> !broken
                &&& step.note matches Note::Gap(gap) ==> gap.got == frame.header.seq
                    && gap.missing.value() == (frame.header.seq.value() - gap.expected.value())
                    % Q::modulus() as int
            }
            &&& bit == 0 ==> {
                &&& step.action is Receive
                &&& step.note is Filtered
                &&& t.vm == (ViewModel { filtered_count: t.vm.filtered_count, ..s.vm })
                &&& s.vm.filtered_count < u32::MAX ==> t.vm.filtered_count
                    == s.vm.filtered_count + 1
            }
        }),
{
    let id = s.peer.receiver_id;
    let mask = frame.header.dest_mask;
    assert((mask >> id) % 2 == 1 || (mask >> id) % 2 == 0);
    if (mask >> id) % 2 == 1 {
        a_frame_with_the_bit_is_taken(s.vm, id, frame);
    } else {
        a_frame_without_the_bit_is_only_counted(s.vm, id, frame);
    }
}

/// In the loop, a packet that does not decode as a frame changes nothing.
pub proof fn the_loop_drops_an_undecodable_frame<Q: SeqNum, S: Copy>(
    s: ReceiverState<Q, S>,
    step: Step<Q, S>,
)
    requires
        s.phase is Frame,
        s.answers(Event::Frame(None), step),
    ensures
        ({
            let t = s.after(Event::Frame(None));
            &&& t.own_mac == s.own_mac && t.peer == s.peer && t.vm == s.vm
            &&& t.phase is Idle
            &&& step.action is Receive
            &&& step.note is Undecodable
        }),
{
}

// ---------------------------------------------------------------------------
// Identity
// ---------------------------------------------------------------------------

/// After power-up the id is zero and nobody has assigned it; the view says the same
/// and is empty.
pub proof fn power_up_is_blank<Q: SeqNum, S: Copy>(own_mac: [u8; 6], idle: S)
    ensures
        ({
            let s = ReceiverState::<Q, S>::initial(own_mac, idle);
            &&& s.own_mac == own_mac
            &&& s.peer.receiver_id == 0 && !s.peer.assigned
            &&& s.peer == PeerState::initial()
            &&& s.phase is Idle
            &&& s.vm == ViewModel::<Q, S>::empty_spec(idle)
            &&& !s.vm.have_data
            &&& s.vm.last_seq.value() == 0
            &&& s.vm.ok_count == 0
            &&& s.vm.gap_count == 0
            &&& s.vm.filtered_count == 0
            &&& s.vm.reply_count == 0
            &&& s.vm.receiver_id == 0 && !s.vm.assigned
            &&& s.vm.state == idle
        }),
{
    Q::zero_spec().arithmetic(Q::zero_spec());
}

/// An id is taken if all six bytes of the address agree and the id is at most 31, and
/// then it is the id; otherwise the identity stays.
pub proof fn an_id_is_taken_by_address(
    peer: PeerState,
    own: [u8; 6],
    target: [u8; 6],
    id: u8,
)
    ensures
        ({
            let t = peer.after_assign(own@, target@, id);
            let same = target[0] == own[0] && target[1] == own[1] && target[2] == own[2]
                && target[3] == own[3] && target[4] == own[4] && target[5] == own[5];
            &&& PeerState::accepts(own@, target@, id) <==> same && id <= 31
            &&& same && id <= 31 ==> t.receiver_id == id && t.assigned
            &&& !same || id > 31 ==> t.receiver_id == peer.receiver_id && t.assigned
                == peer.assigned
        }),
{
    if target[0] == own[0] && target[1] == own[1] && target[2] == own[2] && target[3] == own[3]
        && target[4] == own[4] && target[5] == own[5] {
        assert(target@ =~= own@);
    }
}

/// A sound state is one whose id has a bit in the mask and whose view shows the
/// identity, and in which no discovery command waits for the replay window.
pub proof fn a_sound_state_shows_its_identity<Q: SeqNum, S: Copy>(s: ReceiverState<Q, S>)
    ensures
        s.wf() <==> {
            &&& s.peer.receiver_id <= 31
            &&& s.vm.receiver_id == s.peer.receiver_id
            &&& s.vm.assigned == s.peer.assigned
            &&& s.phase matches Phase::Replay(cmd) ==> cmd.kind !is Announce
        },
{
}

// ---------------------------------------------------------------------------
// Commands
// ---------------------------------------------------------------------------

/// What a command comes to, by its kind: discovery gets an answer that carries the
/// counter and key of the command and the address and role of this unit; an id for
/// this unit is taken and shown; nothing else has any effect.
pub proof fn a_command_acts_by_its_kind<Q: SeqNum, S: Copy>(
    cmd: Command,
    own_mac: [u8; 6],
    peer: PeerState,
    vm: ViewModel<Q, S>,
)
    ensures
        cmd.guarded() <==> cmd.kind !is Announce,
        cmd.outcome(own_mac) is Reply <==> cmd.kind is Announce,
        cmd.outcome(own_mac) matches CommandOutcome::Reply(reply) ==> {
            &&& reply.req_seq == cmd.seq
            &&& reply.key_id == cmd.key_id
            &&& reply.mac == own_mac
            &&& reply.rssi_dbm == -127
            &&& reply.role_tag[0] == 0x6C && reply.role_tag[1] == 0x63 && reply.role_tag[2] == 0x64
        },
        match cmd.kind {
            CommandBody::AssignId { mac, receiver_id } => {
                let mine = mac@ == own_mac@ && receiver_id <= 31;
                let p = cmd.peer_after(own_mac, peer);
                let v = cmd.view_after(own_mac, peer, vm);
                &&& mine ==> {
                    &&& cmd.outcome(own_mac) == (CommandOutcome::Assigned { receiver_id })
                    &&& p.receiver_id == receiver_id && p.assigned
                    &&& v == (ViewModel { receiver_id, assigned: true, ..vm })
                }
                &&& !mine ==> {
                    &&& cmd.outcome(own_mac) == (CommandOutcome::AssignIgnored { receiver_id })
                    &&& p == peer
                    &&& v == vm
                }
            },
            _ => {
                &&& cmd.peer_after(own_mac, peer) == peer
                &&& cmd.view_after(own_mac, peer, vm) == vm
            },
        },
        cmd.outcome(own_mac) is Ignored <==> cmd.kind is Other,
{
    assert(ROLE_TAG@[0] == 0x6C && ROLE_TAG@[1] == 0x63 && ROLE_TAG@[2] == 0x64);
}

/// An answer carries the counter and key of the command, the address of the unit, an
/// unknown signal strength and the role `lcd`.
pub proof fn an_answer_names_request_and_unit(cmd: Command, own_mac: [u8; 6])
    ensures
        ({
            let reply = AnnounceReply::to(cmd, own_mac);
            &&& reply.req_seq == cmd.seq
            &&& reply.key_id == cmd.key_id
            &&& reply.mac == own_mac
            &&& reply.rssi_dbm == -127
            &&& reply.role_tag == ROLE_TAG
            &&& reply.role_tag@ =~= seq![0x6Cu8, 0x63u8, 0x64u8]
        }),
{
}

/// In the loop, a decoded command goes one of two ways before it has any effect: an
/// answer is broadcast for discovery, and for anything else the replay window is asked
/// about its counter. One that does not decode is dropped.
pub proof fn the_loop_answers_or_asks<Q: SeqNum, S: Copy>(
    s: ReceiverState<Q, S>,
    decoded: Option<Command>,
    step: Step<Q, S>,
)
    requires
        s.phase is Command,
        s.answers(Event::Command(decoded), step),
    ensures
        ({
            let t = s.after(Event::Command(decoded));
            &&& t.own_mac == s.own_mac && t.peer == s.peer && t.vm == s.vm
            &&& match decoded {
                None => t.phase is Idle && step.action is Receive && step.note is Undecodable,
                Some(cmd) => {
                    &&& step.note is Nothing
                    &&& cmd.kind is Announce ==> {
                        &&& t.phase == Phase::Reply(cmd.seq)
                        &&& step.action matches Action::Broadcast(reply)
                        &&& reply.req_seq == cmd.seq
                        &&& reply.key_id == cmd.key_id
                        &&& reply.mac == s.own_mac
                        &&& reply.rssi_dbm == -127
                        &&& reply.role_tag@ =~= seq![0x6Cu8, 0x63u8, 0x64u8]
                    }
                    &&& cmd.kind !is Announce ==> {
                        &&& t.phase == Phase::Replay(cmd)
                        &&& step.action == Action::<Q, S>::CheckReplay(cmd.seq)
                    }
                },
            }
        }),
{
}

/// In the loop, a command that the replay window has accepted is obeyed: an id for this
/// unit becomes the identity and is shown, and nothing else changes anything. One that
/// the window has refused is dropped.
pub proof fn the_loop_obeys_the_window<Q: SeqNum, S: Copy>(
    s: ReceiverState<Q, S>,
    cmd: Command,
    accepted: bool,
    step: Step<Q, S>,
)
    requires
        s.phase == Phase::Replay(cmd),
        cmd.kind !is Announce,
        s.answers(Event::Replay(accepted), step),
    ensures
        ({
            let t = s.after(Event::Replay(accepted));
            &&& t.own_mac == s.own_mac
            &&& t.phase is Idle
            &&& !accepted ==> {
                &&& t.peer == s.peer && t.vm == s.vm
                &&& step.action is Receive
                &&& step.note == Note::<Q>::Replayed(cmd.seq)
            }
            &&& accepted ==> match cmd.kind {
                CommandBody::AssignId { mac, receiver_id } => {
                    if mac@ == s.own_mac@ && receiver_id <= 31 {
                        &&& t.peer.receiver_id == receiver_id && t.peer.assigned
                        &&& t.vm == (ViewModel { receiver_id, assigned: true, ..s.vm })
                        &&& step.action == Action::<Q, S>::Publish(t.vm)
                        &&& step.note == (Note::<Q>::Assigned { receiver_id })
                    } else {
                        &&& t.peer == s.peer && t.vm == s.vm
                        &&& step.action is Receive
                        &&& step.note == (Note::<Q>::AssignIgnored { receiver_id })
                    }
                },
                _ => {
                    &&& t.peer == s.peer && t.vm == s.vm
                    &&& step.action is Receive
                    &&& step.note is CommandIgnored
                },
            }
        }),
{
}

/// In the loop, an answer that went out is counted once and shown; one that did not
/// changes nothing.
pub proof fn the_loop_counts_answers_sent<Q: SeqNum, S: Copy>(
    s: ReceiverState<Q, S>,
    req_seq: u32,
    sent: bool,
    step: Step<Q, S>,
)
    requires
        s.phase == Phase::Reply(req_seq),
        s.answers(Event::Sent(sent), step),
    ensures
        ({
            let t = s.after(Event::Sent(sent));
            let n = s.vm.reply_count;
            &&& t.own_mac == s.own_mac && t.peer == s.peer
            &&& t.phase is Idle
            &&& t.vm == (ViewModel { reply_count: t.vm.reply_count, ..s.vm })
            &&& sent && n < u32::MAX ==> t.vm.reply_count == n + 1
            &&& !sent || n == u32::MAX ==> t.vm.reply_count == n
            &&& sent ==> step.action == Action::<Q, S>::Publish(t.vm) && step.note
                == Note::<Q>::ReplySent(req_seq)
            &&& !sent ==> step.action is Receive && step.note is ReplyFailed
            &&& sent ==> t.vm == s.vm.with_reply()
        }),
{
}

/// In the loop, a result has an effect only if it is the one that was waited for.
pub proof fn the_loop_takes_only_what_it_waits_for<Q: SeqNum, S: Copy>(
    s: ReceiverState<Q, S>,
    event: Event<'_, Q, S>,
    step: Step<Q, S>,
)
    requires
        s.answers(event, step),
        event is Frame ==> s.phase !is Frame,
        event is Command ==> s.phase !is Command,
        event is Replay ==> s.phase !is Replay,
        event is Sent ==> s.phase !is Reply,
        event !is Packet,
    ensures
        s.after(event) == s,
        step.action is Receive,
        step.note is Stray,
{
}

/// Nothing pending means nothing else: the rest of the state is untouched.
pub proof fn idling_keeps_the_rest<Q: SeqNum, S: Copy>(s: ReceiverState<Q, S>)
    ensures
        s.idle().own_mac == s.own_mac,
        s.idle().peer == s.peer,
        s.idle().vm == s.vm,
        s.idle().phase is Idle,
{
}

/// Showing an identity changes the id and the flag of a view and nothing else.
pub proof fn showing_an_identity_keeps_the_rest<Q: SeqNum, S: Copy>(
    vm: ViewModel<Q, S>,
    peer: PeerState,
)
    ensures
        vm.with_identity(peer).receiver_id == peer.receiver_id,
        vm.with_identity(peer).assigned == peer.assigned,
        vm.with_identity(peer) == (ViewModel {
            receiver_id: peer.receiver_id,
            assigned: peer.assigned,
            ..vm
        }),
{
}

/// What is drawn next is the new view whenever there is one, and the old one again
/// when there is none.
pub proof fn news_replace_the_view<Q: SeqNum, S: Copy>(
    old_view: ViewModel<Q, S>,
    new_view: ViewModel<Q, S>,
)
    ensures
        old_view.latest(Some(new_view)) == new_view,
        old_view.latest(None) == old_view,
{
}

// ---------------------------------------------------------------------------
// The start of the unit
// ---------------------------------------------------------------------------

/// Before the first test every test is pending, and the heap comes first.
pub proof fn the_start_begins_with_the_heap(item: SelfTestItem)
    ensures
        BootState::initial().stage == BootStage::Testing(SelfTestItem::Heap),
        BootState::initial().standings.dom().contains(item),
        BootState::initial().standings[item] is Pending,
        all_pending().dom().contains(item),
        all_pending()[item] is Pending,
{
}

/// The report has failed exactly if one of the six tests has.
pub proof fn a_report_fails_by_any_of_six(standings: Standings)
    ensures
        some_failed(standings) <==> {
            ||| standings[SelfTestItem::Heap] is Fail
            ||| standings[SelfTestItem::Lcd] is Fail
            ||| standings[SelfTestItem::Codec] is Fail
            ||| standings[SelfTestItem::Wifi] is Fail
            ||| standings[SelfTestItem::EspNow] is Fail
            ||| standings[SelfTestItem::Watch] is Fail
        },
{
    if some_failed(standings) {
        let item = choose|item: SelfTestItem| #[trigger] standings[item] is Fail;
        assert(standings[item] is Fail);
    }
}

/// Finishing a test enters its result as given, whatever it is, and leaves every other
/// result as it was entered.
pub proof fn finishing_a_test_changes_its_standing_only(
    boot: BootState,
    item: SelfTestItem,
    other: SelfTestItem,
    status: SelfTestStatus,
)
    requires
        boot.stage == BootStage::Testing(item),
    ensures
        boot.after(status).standings[item] == status,
        other != item ==> boot.after(status).standings[other] == boot.standings[other],
        other != item ==> (boot.after(status).standings.dom().contains(other)
            <==> boot.standings.dom().contains(other)),
{
}

/// What follows a test: the next one in line, but for two. Without the radio the unit
/// halts; after the last test it runs unless some result on the report is a failure.
pub proof fn what_follows_a_test(boot: BootState, status: SelfTestStatus)
    ensures
        ({
            let t = boot.after(status);
            match boot.stage {
                BootStage::Testing(SelfTestItem::Heap) => t.stage == BootStage::Testing(
                    SelfTestItem::Lcd,
                ),
                BootStage::Testing(SelfTestItem::Lcd) => t.stage == BootStage::Testing(
                    SelfTestItem::Codec,
                ),
                BootStage::Testing(SelfTestItem::Codec) => t.stage == BootStage::Testing(
                    SelfTestItem::Wifi,
                ),
                BootStage::Testing(SelfTestItem::Wifi) => {
                    &&& status is Fail ==> t.stage is Halted
                    &&& status !is Fail ==> t.stage == BootStage::Testing(SelfTestItem::EspNow)
                },
                BootStage::Testing(SelfTestItem::EspNow) => t.stage == BootStage::Testing(
                    SelfTestItem::Watch,
                ),
                BootStage::Testing(SelfTestItem::Watch) => {
                    let failed = status is Fail || boot.standings[SelfTestItem::Heap] is Fail
                        || boot.standings[SelfTestItem::Lcd] is Fail
                        || boot.standings[SelfTestItem::Codec] is Fail
                        || boot.standings[SelfTestItem::Wifi] is Fail
                        || boot.standings[SelfTestItem::EspNow] is Fail;
                    &&& failed ==> t.stage is Halted
                    &&& !failed ==> t.stage is Running
                },
                _ => t == boot,
            }
        }),
{
    let t = boot.after(status);
    if boot.stage == BootStage::Testing(SelfTestItem::Watch) {
        a_report_fails_by_any_of_six(t.standings);
    }
}

// ---------------------------------------------------------------------------
// Text
// ---------------------------------------------------------------------------

/// The number that a row of decimal digits stands for.
pub open spec fn read_decimal(digits: Seq<char>) -> int
    decreases digits.len(),
{
    if digits.len() == 0 {
        0
    } else {
        10 * read_decimal(digits.drop_last()) + (digits.last() as int - '0' as int)
    }
}

/// A number in decimal reads back as that number, has digits only, and has no leading
/// zero unless it is zero.
pub proof fn decimals_read_back(n: nat)
    ensures
        read_decimal(decimal(n)) == n,
        decimal(n).len() > 0,
        forall|i: int| 0 <= i < decimal(n).len() ==> '0' <= #[trigger] decimal(n)[i] <= '9',
        n > 0 ==> decimal(n)[0] != '0',
    decreases n,
{
    if n < 10 {
        assert(decimal(n).drop_last() =~= Seq::<char>::empty());
        assert(read_decimal(Seq::<char>::empty()) == 0);
        assert(decimal(n).last() as int - '0' as int == n);
    } else {
        decimals_read_back(n / 10);
        assert(decimal(n).drop_last() =~= decimal(n / 10));
    }
}

/// The log line of an identity: a fixed head, the id in decimal, and the flag.
pub proof fn the_log_line_tells_id_and_flag(peer: PeerState)
    ensures
        ({
            let line = peer.text();
            let id = peer.receiver_id;
            let end = if id < 10 {
                23int
            } else if id < 100 {
                24int
            } else {
                25int
            };
            &&& line.len() > end
            &&& line.take(22) == "PeerCtx { receiver_id="@
            &&& forall|i: int| 22 <= i < end ==> '0' <= #[trigger] line[i] <= '9'
            &&& read_decimal(line.subrange(22, end)) == id
            &&& peer.assigned ==> line.skip(end) == ", assigned=true }"@
            &&& !peer.assigned ==> line.skip(end) == ", assigned=false }"@
        }),
{
    reveal_strlit("PeerCtx { receiver_id=");
    reveal_strlit(", assigned=");
    reveal_strlit("true");
    reveal_strlit("false");
    reveal_strlit(" }");
    reveal_strlit(", assigned=true }");
    reveal_strlit(", assigned=false }");
    let line = peer.text();
    let id = peer.receiver_id as nat;
    decimals_read_back(id);
    reveal_with_fuel(decimal, 4);
    let digits = decimal(id);
    let end = 22 + digits.len() as int;
    assert(end == if id < 10 {
        23int
    } else if id < 100 {
        24int
    } else {
        25int
    });
    assert(line.take(22) =~= "PeerCtx { receiver_id="@);
    assert(line.subrange(22, end) =~= digits);
    assert forall|i: int| 22 <= i < end implies '0' <= #[trigger] line[i] <= '9' by {
        assert(line[i] == digits[i - 22]);
    }
    if peer.assigned {
        assert(line.skip(end) =~= ", assigned=true }"@);
    } else {
        assert(line.skip(end) =~= ", assigned=false }"@);
    }
}

} // verus!
