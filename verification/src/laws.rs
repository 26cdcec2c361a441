//! What holds of the receiver as a whole.
use vstd::arithmetic::div_mod::{lemma_small_mod, lemma_sub_mod_noop};
use vstd::prelude::*;

use crate::boot::{BootStage, BootState};
use crate::packet::{is_command_packet, is_frame_packet, Route};
use crate::peer::{PeerState, INITIAL_RECEIVER_ID, RECEIVER_ID_MAX};
use crate::radio::{mask_names, AnnounceReply, Command, CommandBody, Frame};
use crate::receiver::{Action, Event, Note, Phase, ReceiverState, Step};
use crate::self_test::{some_failed, SelfTestItem, SelfTestStatus};
use crate::seq_num::SeqNum;
use crate::view::ViewModel;

verus! {

// ---------------------------------------------------------------------------
// Destination masks
// ---------------------------------------------------------------------------

/// The mask of all ones names every receiver.
pub proof fn broadcast_mask_names_everyone(id: u8)
    requires
        id <= RECEIVER_ID_MAX,
    ensures
        mask_names(0xFFFF_FFFF, id),
{
    assert(0xFFFF_FFFFu32 & (1u32 << id) != 0) by (bit_vector)
        requires
            id <= 31,
    ;
}

/// The mask with bit `n` alone names receiver `n` and no other.
pub proof fn directed_mask_names_one(n: u8, id: u8)
    requires
        n <= RECEIVER_ID_MAX,
        id <= RECEIVER_ID_MAX,
    ensures
        mask_names(1u32 << n, id) <==> id == n,
{
    assert(((1u32 << n) & (1u32 << id) != 0) <==> id == n) by (bit_vector)
        requires
            n <= 31,
            id <= 31,
    ;
}

/// The empty mask names nobody.
pub proof fn empty_mask_names_nobody(id: u8)
    ensures
        !mask_names(0, id),
{
    assert(0u32 & (1u32 << id) == 0) by (bit_vector);
}

// ---------------------------------------------------------------------------
// Runs of the machine
// ---------------------------------------------------------------------------

/// The state after a run of events.
pub open spec fn run<Q: SeqNum, S: Copy>(
    s: ReceiverState<Q, S>,
    events: Seq<Event<'_, Q, S>>,
) -> ReceiverState<Q, S>
    decreases events.len(),
{
    if events.len() == 0 {
        s
    } else {
        run(s, events.drop_last()).after(events.last())
    }
}

/// Whatever happens, the id keeps naming a bit of the mask and the view keeps
/// showing the identity as it is; the unit's address never changes.
pub proof fn every_run_keeps_the_identity_in_view<Q: SeqNum, S: Copy>(
    s: ReceiverState<Q, S>,
    events: Seq<Event<'_, Q, S>>,
)
    requires
        s.wf(),
    ensures
        run(s, events).wf(),
        run(s, events).own_mac == s.own_mac,
    decreases events.len(),
{
    if events.len() > 0 {
        every_run_keeps_the_identity_in_view(s, events.drop_last());
    }
}

/// Counters never fall, and what has once been received or assigned stays so.
pub proof fn every_run_only_counts_up<Q: SeqNum, S: Copy>(
    s: ReceiverState<Q, S>,
    events: Seq<Event<'_, Q, S>>,
)
    ensures
        run(s, events).vm.ok_count >= s.vm.ok_count,
        run(s, events).vm.gap_count >= s.vm.gap_count,
        run(s, events).vm.filtered_count >= s.vm.filtered_count,
        run(s, events).vm.reply_count >= s.vm.reply_count,
        s.vm.have_data ==> run(s, events).vm.have_data,
        s.peer.assigned ==> run(s, events).peer.assigned,
    decreases events.len(),
{
    if events.len() > 0 {
        every_run_only_counts_up(s, events.drop_last());
    }
}

/// An id other than the initial one was assigned.
pub proof fn unassigned_means_initial_id<Q: SeqNum, S: Copy>(
    own_mac: [u8; 6],
    idle: S,
    events: Seq<Event<'_, Q, S>>,
)
    ensures
        ({
            let peer = run(ReceiverState::<Q, S>::initial(own_mac, idle), events).peer;
            !peer.assigned ==> peer.receiver_id == INITIAL_RECEIVER_ID
        }),
    decreases events.len(),
{
    if events.len() > 0 {
        unassigned_means_initial_id::<Q, S>(own_mac, idle, events.drop_last());
    }
}

/// There is one answer to an event in a state.
pub proof fn the_answer_is_unique<Q: SeqNum, S: Copy>(
    s: ReceiverState<Q, S>,
    event: Event<'_, Q, S>,
    one: Step<Q, S>,
    other: Step<Q, S>,
)
    requires
        s.answers(event, one),
        s.answers(event, other),
    ensures
        one == other,
{
    match (one.action, other.action) {
        (Action::DecodeFrame(a), Action::DecodeFrame(b)) => {
            assert(a =~= b);
        },
        (Action::DecodeCommand(a), Action::DecodeCommand(b)) => {
            assert(a =~= b);
        },
        _ => {},
    }
    match (one.note, other.note) {
        (Note::Skipped { magic: a, .. }, Note::Skipped { magic: b, .. }) => {
            assert(a =~= b);
        },
        _ => {},
    }
}

/// A result that nothing is waiting for changes nothing and asks for nothing.
pub proof fn stray_results_change_nothing<Q: SeqNum, S: Copy>(
    s: ReceiverState<Q, S>,
    event: Event<'_, Q, S>,
    step: Step<Q, S>,
)
    requires
        s.answers(event, step),
        step.note is Stray,
    ensures
        s.after(event) == s,
        step.action is Receive,
{
}

/// How many more results the machine may wait for before it is idle again.
pub open spec fn pending(phase: Phase) -> nat {
    match phase {
        Phase::Idle => 0,
        Phase::Frame | Phase::Replay(_) | Phase::Reply(_) => 1,
        Phase::Command => 2,
    }
}

/// Each result that the machine waits for brings it closer to the next packet, and
/// it asks for a packet exactly when nothing is pending any more.
pub proof fn every_exchange_ends<Q: SeqNum, S: Copy>(
    s: ReceiverState<Q, S>,
    event: Event<'_, Q, S>,
    step: Step<Q, S>,
)
    requires
        s.wf(),
        s.answers(event, step),
        step.note !is Stray,
    ensures
        event !is Packet ==> pending(s.after(event).phase) < pending(s.phase),
        s.after(event).phase is Idle <==> (step.action is Receive || step.action is Publish),
{
}

// ---------------------------------------------------------------------------
// What is shown
// ---------------------------------------------------------------------------

/// A published view is the view that the receiver then has.
pub proof fn what_is_shown_is_current<Q: SeqNum, S: Copy>(
    s: ReceiverState<Q, S>,
    event: Event<'_, Q, S>,
    step: Step<Q, S>,
)
    requires
        s.answers(event, step),
    ensures
        step.action matches Action::Publish(vm) ==> vm == s.after(event).vm,
{
}

/// Every change of the view is shown at once, except that frames for others are
/// only counted.
pub proof fn every_change_is_shown<Q: SeqNum, S: Copy>(
    s: ReceiverState<Q, S>,
    event: Event<'_, Q, S>,
    step: Step<Q, S>,
)
    requires
        s.answers(event, step),
        s.after(event).vm != s.vm,
    ensures
        step.action == Action::<Q, S>::Publish(s.after(event).vm) || (step.note is Filtered
            && s.after(event).vm == s.vm.with_filtered()),
{
}

// ---------------------------------------------------------------------------
// Frames
// ---------------------------------------------------------------------------

/// The state after a frame packet has come in and been through the decoder.
pub open spec fn frame_exchange<Q: SeqNum, S: Copy>(
    s: ReceiverState<Q, S>,
    packet: &[u8],
    decoded: Option<Frame<Q, S>>,
) -> ReceiverState<Q, S> {
    s.after(Event::Packet(packet)).after(Event::Frame(decoded))
}

/// A broadcast frame is taken in every state of the receiver, also right after
/// power-up: its payload is shown.
pub proof fn broadcast_frames_are_always_taken<Q: SeqNum, S: Copy>(
    s: ReceiverState<Q, S>,
    packet: &[u8],
    frame: Frame<Q, S>,
    step: Step<Q, S>,
)
    requires
        s.wf(),
        is_frame_packet(packet@),
        frame.header.dest_mask == 0xFFFF_FFFF,
        s.after(Event::Packet(packet)).answers(Event::Frame(Some(frame)), step),
    ensures
        frame_exchange(s, packet, Some(frame)).vm == s.vm.with_frame(frame),
        step.action == Action::<Q, S>::Publish(s.vm.with_frame(frame)),
{
    broadcast_mask_names_everyone(s.peer.receiver_id);
}

/// A frame for receiver `n` alone is taken by the receiver that goes by `n`, and
/// only counted by every other.
pub proof fn directed_frames_reach_one_receiver<Q: SeqNum, S: Copy>(
    s: ReceiverState<Q, S>,
    packet: &[u8],
    frame: Frame<Q, S>,
    n: u8,
    step: Step<Q, S>,
)
    requires
        s.wf(),
        is_frame_packet(packet@),
        n <= RECEIVER_ID_MAX,
        frame.header.dest_mask == 1u32 << n,
        s.after(Event::Packet(packet)).answers(Event::Frame(Some(frame)), step),
    ensures
        s.peer.receiver_id == n ==> {
            &&& frame_exchange(s, packet, Some(frame)).vm == s.vm.with_frame(frame)
            &&& step.action == Action::<Q, S>::Publish(s.vm.with_frame(frame))
        },
        s.peer.receiver_id != n ==> {
            &&& frame_exchange(s, packet, Some(frame)).vm == s.vm.with_filtered()
            &&& step.action is Receive
        },
{
    directed_mask_names_one(n, s.peer.receiver_id);
}

/// A frame exchange touches neither the identity nor the count of answers, and
/// leaves nothing pending.
pub proof fn frames_leave_the_control_side_alone<Q: SeqNum, S: Copy>(
    s: ReceiverState<Q, S>,
    packet: &[u8],
    decoded: Option<Frame<Q, S>>,
)
    requires
        is_frame_packet(packet@),
    ensures
        ({
            let t = frame_exchange(s, packet, decoded);
            &&& t.peer == s.peer
            &&& t.vm.reply_count == s.vm.reply_count
            &&& t.vm.receiver_id == s.vm.receiver_id
            &&& t.vm.assigned == s.vm.assigned
            &&& t.phase is Idle
        }),
{
}

/// The view of receiver `id` after a run of frames.
pub open spec fn after_frames<Q: SeqNum, S: Copy>(
    vm: ViewModel<Q, S>,
    id: u8,
    frames: Seq<Frame<Q, S>>,
) -> ViewModel<Q, S>
    decreases frames.len(),
{
    if frames.len() == 0 {
        vm
    } else {
        after_frames(vm, id, frames.drop_last()).after_frame(id, Some(frames.last()))
    }
}

/// `n` counted up `k` times, or the limit.
pub open spec fn counted(n: u32, k: nat) -> u32 {
    if n + k > u32::MAX {
        u32::MAX
    } else {
        (n + k) as u32
    }
}

/// Frames for others, however many, change nothing but their count. It is shown
/// with the next frame that is taken.
pub proof fn filtered_frames_show_up_later<Q: SeqNum, S: Copy>(
    vm: ViewModel<Q, S>,
    id: u8,
    others: Seq<Frame<Q, S>>,
    own: Frame<Q, S>,
)
    requires
        forall|i: int|
            0 <= i < others.len() ==> !mask_names((#[trigger] others[i]).header.dest_mask, id),
        mask_names(own.header.dest_mask, id),
    ensures
        after_frames(vm, id, others) == (ViewModel {
            filtered_count: counted(vm.filtered_count, others.len()),
            ..vm
        }),
        after_frames(vm, id, others.push(own)) == (ViewModel {
            filtered_count: counted(vm.filtered_count, others.len()),
            ..vm.with_frame(own)
        }),
    decreases others.len(),
{
    if others.len() > 0 {
        filtered_frames_show_up_later(vm, id, others.drop_last(), own);
    }
    let before = after_frames(vm, id, others);
    let all = others.push(own);
    assert(all.drop_last() =~= others);
    assert(after_frames(vm, id, all) == before.after_frame(id, Some(own)));
    assert(before.gap_at(own.header.seq) == vm.gap_at(own.header.seq));
}

/// Frames whose counters follow one another, across the wrap too, are taken without
/// a gap, each of them.
pub proof fn consecutive_frames_make_no_gap<Q: SeqNum, S: Copy>(
    vm: ViewModel<Q, S>,
    id: u8,
    frames: Seq<Frame<Q, S>>,
)
    requires
        forall|i: int|
            0 <= i < frames.len() ==> mask_names((#[trigger] frames[i]).header.dest_mask, id),
        frames.len() > 0 && vm.have_data ==> frames[0].header.seq == vm.last_seq.next_spec(),
        forall|i: int|
            0 < i < frames.len() ==> (#[trigger] frames[i]).header.seq == frames[i
                - 1].header.seq.next_spec(),
    ensures
        after_frames(vm, id, frames).gap_count == vm.gap_count,
        after_frames(vm, id, frames).ok_count == counted(vm.ok_count, frames.len()),
        frames.len() > 0 ==> {
            &&& after_frames(vm, id, frames).have_data
            &&& after_frames(vm, id, frames).last_seq == frames.last().header.seq
            &&& after_frames(vm, id, frames).state == frames.last().payload
        },
    decreases frames.len(),
{
    if frames.len() > 0 {
        consecutive_frames_make_no_gap(vm, id, frames.drop_last());
    }
}

/// When `lost` frames are missing between the last frame taken and this one, the gap
/// says so, whether or not the counter has wrapped; with none missing there is no gap.
pub proof fn a_gap_tells_how_many_were_lost<Q: SeqNum, S: Copy>(
    vm: ViewModel<Q, S>,
    seq: Q,
    lost: nat,
)
    requires
        vm.have_data,
        lost < Q::modulus(),
        seq.value() == (vm.last_seq.value() + 1 + lost) % Q::modulus(),
    ensures
        match vm.gap_at(seq) {
            None => lost == 0,
            Some(gap) => {
                &&& lost > 0
                &&& gap.missing.value() == lost
                &&& gap.got == seq
                &&& gap.expected == vm.last_seq.next_spec()
            },
        },
{
    let m = Q::modulus() as int;
    let next = vm.last_seq.value() as int + 1;
    let expected = vm.last_seq.next_spec();
    vm.last_seq.arithmetic(seq);
    seq.arithmetic(expected);
    Q::values(seq, expected);
    lemma_sub_mod_noop(next + lost, next, m);
    lemma_small_mod(lost, Q::modulus());
    assert(seq.steps_from_spec(expected).value() == lost);
    if lost > 0 && seq == expected {
        assert((seq.value() - expected.value()) % m == 0) by {
            lemma_small_mod(0, Q::modulus());
        }
    }
}

/// The first frame taken never counts as a gap.
pub proof fn the_first_frame_makes_no_gap<Q: SeqNum, S: Copy>(
    vm: ViewModel<Q, S>,
    frame: Frame<Q, S>,
)
    requires
        !vm.have_data,
    ensures
        vm.gap_at(frame.header.seq) is None,
        vm.with_frame(frame).gap_count == vm.gap_count,
{
}

// ---------------------------------------------------------------------------
// Packets and commands
// ---------------------------------------------------------------------------

/// A packet goes to one place only.
pub proof fn one_route_fits(packet: Seq<u8>, one: Route, other: Route)
    requires
        one.fits(packet),
        other.fits(packet),
    ensures
        one == other,
{
    match (one, other) {
        (Route::Frame(a), Route::Frame(b)) => {
            assert(a =~= b);
        },
        (Route::Command(a), Route::Command(b)) => {
            assert(a =~= b);
        },
        (Route::Skip { magic: a, .. }, Route::Skip { magic: b, .. }) => {
            assert(a =~= b);
        },
        _ => {},
    }
}

/// A packet of another kind leaves nothing pending and changes nothing else.
pub proof fn other_packets_change_nothing<Q: SeqNum, S: Copy>(
    s: ReceiverState<Q, S>,
    packet: &[u8],
    step: Step<Q, S>,
)
    requires
        !is_frame_packet(packet@),
        !is_command_packet(packet@),
        s.answers(Event::Packet(packet), step),
    ensures
        s.after(Event::Packet(packet)) == s.idle(),
        step.action is Receive,
{
}

/// The state after a command packet has come in, been through the decoder and, as
/// far as it was asked for, the replay window and the radio.
pub open spec fn command_exchange<Q: SeqNum, S: Copy>(
    s: ReceiverState<Q, S>,
    packet: &[u8],
    decoded: Option<Command>,
    accepted: bool,
    sent: bool,
) -> ReceiverState<Q, S> {
    s.after(Event::Packet(packet)).after(Event::Command(decoded)).after(
        Event::Replay(accepted),
    ).after(Event::Sent(sent))
}

/// What a command exchange comes to. A command that does not decode or
/// authenticate, that the replay window refuses, that is for another unit or that
/// is not for receivers leaves everything as it was.
pub proof fn a_command_exchange_at_a_glance<Q: SeqNum, S: Copy>(
    s: ReceiverState<Q, S>,
    packet: &[u8],
    decoded: Option<Command>,
    accepted: bool,
    sent: bool,
)
    requires
        is_command_packet(packet@),
    ensures
        command_exchange(s, packet, decoded, accepted, sent) == (match decoded {
            None => s.idle(),
            Some(cmd) => match cmd.kind {
                CommandBody::Announce => if sent {
                    ReceiverState { vm: s.vm.with_reply(), ..s.idle() }
                } else {
                    s.idle()
                },
                CommandBody::AssignId { mac, receiver_id } => if accepted && PeerState::accepts(
                    s.own_mac@,
                    mac@,
                    receiver_id,
                ) {
                    let peer = PeerState { receiver_id, assigned: true };
                    ReceiverState { peer, vm: s.vm.with_identity(peer), ..s.idle() }
                } else {
                    s.idle()
                },
                CommandBody::Other => s.idle(),
            },
        }),
{
}

/// No command touches what frames have brought.
pub proof fn commands_leave_the_frame_side_alone<Q: SeqNum, S: Copy>(
    s: ReceiverState<Q, S>,
    packet: &[u8],
    decoded: Option<Command>,
    accepted: bool,
    sent: bool,
)
    requires
        is_command_packet(packet@),
    ensures
        ({
            let vm = command_exchange(s, packet, decoded, accepted, sent).vm;
            &&& vm.have_data == s.vm.have_data
            &&& vm.last_seq == s.vm.last_seq
            &&& vm.ok_count == s.vm.ok_count
            &&& vm.gap_count == s.vm.gap_count
            &&& vm.filtered_count == s.vm.filtered_count
            &&& vm.state == s.vm.state
        }),
{
}

/// A command that does not authenticate, as with mismatched keys, makes no
/// difference to the frames that come after it.
pub proof fn refused_commands_do_not_disturb_frames<Q: SeqNum, S: Copy>(
    s: ReceiverState<Q, S>,
    command_packet: &[u8],
    frame_packet: &[u8],
    decoded: Option<Frame<Q, S>>,
    step: Step<Q, S>,
)
    requires
        is_command_packet(command_packet@),
        is_frame_packet(frame_packet@),
    ensures
        ({
            let refused = s.after(Event::Packet(command_packet)).after(Event::Command(None));
            &&& frame_exchange(refused, frame_packet, decoded) == frame_exchange(
                s,
                frame_packet,
                decoded,
            )
            &&& refused.after(Event::Packet(frame_packet)).answers(Event::Frame(decoded), step)
                == s.after(Event::Packet(frame_packet)).answers(Event::Frame(decoded), step)
        }),
{
}

/// A discovery command is answered in every state, whatever its counter and however
/// often it has come before. The answer names this unit, the command and the role.
pub proof fn discovery_is_always_answered<Q: SeqNum, S: Copy>(
    s: ReceiverState<Q, S>,
    packet: &[u8],
    cmd: Command,
    step: Step<Q, S>,
)
    requires
        is_command_packet(packet@),
        cmd.kind is Announce,
        s.after(Event::Packet(packet)).answers(Event::Command(Some(cmd)), step),
    ensures
        step.action == Action::<Q, S>::Broadcast(AnnounceReply::to(cmd, s.own_mac)),
{
}

/// Nothing but a discovery command is ever answered.
pub proof fn only_discovery_is_answered<Q: SeqNum, S: Copy>(
    s: ReceiverState<Q, S>,
    event: Event<'_, Q, S>,
    step: Step<Q, S>,
)
    requires
        s.wf(),
        s.answers(event, step),
        step.action is Broadcast,
    ensures
        s.phase is Command,
        event matches Event::Command(Some(cmd)) && cmd.kind is Announce,
{
}

/// The replay window is asked for every command but discovery, about its counter,
/// and for nothing else.
pub proof fn the_window_guards_all_but_discovery<Q: SeqNum, S: Copy>(
    s: ReceiverState<Q, S>,
    event: Event<'_, Q, S>,
    step: Step<Q, S>,
    seq: u32,
)
    requires
        s.answers(event, step),
    ensures
        step.action == Action::<Q, S>::CheckReplay(seq) <==> {
            &&& s.phase is Command
            &&& event matches Event::Command(Some(cmd))
            &&& cmd.kind !is Announce
            &&& cmd.seq == seq
        },
{
}

/// Whenever a command waits for the word of the replay window, it was that command's
/// counter that the window was asked about.
pub proof fn the_window_is_asked_about_the_waiting_command<Q: SeqNum, S: Copy>(
    s: ReceiverState<Q, S>,
    event: Event<'_, Q, S>,
    step: Step<Q, S>,
    cmd: Command,
)
    requires
        s.answers(event, step),
        s.after(event).phase == Phase::Replay(cmd),
    ensures
        s.after(event) == s || (step.action == Action::<Q, S>::CheckReplay(cmd.seq) && event
            == Event::<Q, S>::Command(Some(cmd))),
{
}

/// The identity changes only when the replay window has just accepted an `AssignId`
/// for this unit's own address with an id that the mask has a bit for.
pub proof fn the_identity_changes_only_by_assignment<Q: SeqNum, S: Copy>(
    s: ReceiverState<Q, S>,
    event: Event<'_, Q, S>,
)
    requires
        s.wf(),
        s.after(event).peer != s.peer,
    ensures
        event == Event::<Q, S>::Replay(true),
        s.phase matches Phase::Replay(cmd) && cmd.kind matches CommandBody::AssignId {
            mac,
            receiver_id,
        } && mac@ == s.own_mac@ && receiver_id <= RECEIVER_ID_MAX && s.after(event).peer == (
        PeerState { receiver_id, assigned: true }),
{
}

/// A command that the replay window refuses has no effect.
pub proof fn a_replayed_command_has_no_effect<Q: SeqNum, S: Copy>(
    s: ReceiverState<Q, S>,
    step: Step<Q, S>,
)
    requires
        s.phase is Replay,
        s.answers(Event::Replay(false), step),
    ensures
        s.after(Event::Replay(false)) == s.idle(),
        step.action is Receive,
{
}

/// Of two assignments that are accepted, the later one counts.
pub proof fn the_last_assignment_counts(
    peer: PeerState,
    own: Seq<u8>,
    first: u8,
    second: u8,
)
    requires
        first <= RECEIVER_ID_MAX,
        second <= RECEIVER_ID_MAX,
    ensures
        peer.after_assign(own, own, first).after_assign(own, own, second) == peer.after_assign(
            own,
            own,
            second,
        ),
{
}

/// After a restart, frames for receiver `n` alone go by until the controller has
/// assigned `n` again; from then on they are taken.
pub proof fn directed_frames_arrive_once_assigned<Q: SeqNum, S: Copy>(
    own_mac: [u8; 6],
    idle: S,
    n: u8,
    frame_packet: &[u8],
    frame: Frame<Q, S>,
    command_packet: &[u8],
    cmd: Command,
    sent: bool,
)
    requires
        0 < n <= RECEIVER_ID_MAX,
        is_frame_packet(frame_packet@),
        frame.header.dest_mask == 1u32 << n,
        is_command_packet(command_packet@),
        cmd.kind == (CommandBody::AssignId { mac: own_mac, receiver_id: n }),
    ensures
        ({
            let fresh = ReceiverState::<Q, S>::initial(own_mac, idle);
            let missed = frame_exchange(fresh, frame_packet, Some(frame));
            let named = command_exchange(missed, command_packet, Some(cmd), true, sent);
            let taken = frame_exchange(named, frame_packet, Some(frame));
            &&& missed.vm == fresh.vm.with_filtered()
            &&& !missed.vm.have_data
            &&& named.peer == (PeerState { receiver_id: n, assigned: true })
            &&& named.vm == missed.vm.with_identity(named.peer)
            &&& taken.vm == named.vm.with_frame(frame)
            &&& taken.vm.state == frame.payload
        }),
{
    directed_mask_names_one(n, INITIAL_RECEIVER_ID);
    directed_mask_names_one(n, n);
}

// ---------------------------------------------------------------------------
// Counting over whole runs
// ---------------------------------------------------------------------------

/// What a step may count.
pub enum Counted {
    FrameTaken,
    FrameFiltered,
    Gap,
    ReplySent,
}

/// Whether `event` in state `s` is one of the counted kind.
pub open spec fn is_counted<Q: SeqNum, S: Copy>(
    s: ReceiverState<Q, S>,
    event: Event<'_, Q, S>,
    what: Counted,
) -> bool {
    match (event, s.phase) {
        (Event::Frame(Some(frame)), Phase::Frame) => {
            let mine = mask_names(frame.header.dest_mask, s.peer.receiver_id);
            match what {
                Counted::FrameTaken => mine,
                Counted::FrameFiltered => !mine,
                Counted::Gap => mine && s.vm.gap_at(frame.header.seq) is Some,
                Counted::ReplySent => false,
            }
        },
        (Event::Sent(sent), Phase::Reply(_)) => what is ReplySent && sent,
        _ => false,
    }
}

/// How many events of the counted kind a run has.
pub open spec fn tally<Q: SeqNum, S: Copy>(
    s: ReceiverState<Q, S>,
    events: Seq<Event<'_, Q, S>>,
    what: Counted,
) -> nat
    decreases events.len(),
{
    if events.len() == 0 {
        0
    } else {
        tally(s, events.drop_last(), what) + if is_counted(
            run(s, events.drop_last()),
            events.last(),
            what,
        ) {
            1nat
        } else {
            0nat
        }
    }
}

/// Over any run, each counter of the view has grown by what happened in the run, up
/// to its limit.
pub proof fn every_run_is_counted<Q: SeqNum, S: Copy>(
    s: ReceiverState<Q, S>,
    events: Seq<Event<'_, Q, S>>,
)
    ensures
        ({
            let vm = run(s, events).vm;
            &&& vm.ok_count == counted(s.vm.ok_count, tally(s, events, Counted::FrameTaken))
            &&& vm.filtered_count == counted(
                s.vm.filtered_count,
                tally(s, events, Counted::FrameFiltered),
            )
            &&& vm.gap_count == counted(s.vm.gap_count, tally(s, events, Counted::Gap))
            &&& vm.reply_count == counted(
                s.vm.reply_count,
                tally(s, events, Counted::ReplySent),
            )
        }),
    decreases events.len(),
{
    if events.len() > 0 {
        every_run_is_counted(s, events.drop_last());
    }
}

// ---------------------------------------------------------------------------
// The start of the unit
// ---------------------------------------------------------------------------

/// The start after a run of test results.
pub open spec fn boot_run(results: Seq<SelfTestStatus>) -> BootState
    decreases results.len(),
{
    if results.len() == 0 {
        BootState::initial()
    } else {
        boot_run(results.drop_last()).after(results.last())
    }
}

/// The tests, in the order in which they run.
pub open spec fn test_order() -> Seq<SelfTestItem> {
    seq![
        SelfTestItem::Heap,
        SelfTestItem::Lcd,
        SelfTestItem::Codec,
        SelfTestItem::Wifi,
        SelfTestItem::EspNow,
        SelfTestItem::Watch,
    ]
}

/// The position of a test in that order.
pub open spec fn test_index(item: SelfTestItem) -> int {
    match item {
        SelfTestItem::Heap => 0,
        SelfTestItem::Lcd => 1,
        SelfTestItem::Codec => 2,
        SelfTestItem::Wifi => 3,
        SelfTestItem::EspNow => 4,
        SelfTestItem::Watch => 5,
    }
}

/// As long as the radio has not failed, the tests run one after the other in their
/// order, each result stands under its test, and after the last one the unit runs
/// exactly if no test has failed.
pub proof fn tests_run_in_order(results: Seq<SelfTestStatus>)
    requires
        results.len() <= 6,
        results.len() > 3 ==> results[3] !is Fail,
    ensures
        results.len() < 6 ==> boot_run(results).stage == BootStage::Testing(
            test_order()[results.len() as int],
        ),
        forall|item: SelfTestItem| #[trigger]
            boot_run(results).standings[item] == (if test_index(item) < results.len() {
                results[test_index(item)]
            } else {
                SelfTestStatus::Pending
            }),
        results.len() == 6 ==> boot_run(results).stage == (if exists|i: int|
            0 <= i < 6 && #[trigger] results[i] is Fail {
            BootStage::Halted
        } else {
            BootStage::Running
        }),
    decreases results.len(),
{
    if results.len() > 0 {
        tests_run_in_order(results.drop_last());
        let before = boot_run(results.drop_last());
        let now = boot_run(results);
        assert(before.stage == BootStage::Testing(test_order()[results.len() - 1]));
        assert(now.standings == before.standings.insert(
            test_order()[results.len() - 1],
            results.last(),
        ));
        if results.len() == 6 {
            if some_failed(now.standings) {
                let item = choose|item: SelfTestItem| #[trigger] now.standings[item] is Fail;
                assert(results[test_index(item)] is Fail);
            }
            if exists|i: int| 0 <= i < 6 && #[trigger] results[i] is Fail {
                let i = choose|i: int| 0 <= i < 6 && #[trigger] results[i] is Fail;
                assert(test_index(test_order()[i]) == i);
                assert(now.standings[test_order()[i]] is Fail);
            }
        }
    }
}

/// When the radio fails, the unit halts there and then, and stays halted. The results
/// up to then stay on the report as they were entered; the other tests never run.
pub proof fn a_radio_failure_halts_at_once(results: Seq<SelfTestStatus>)
    requires
        results.len() > 3,
        results[3] is Fail,
    ensures
        boot_run(results).stage is Halted,
        boot_run(results).standings[SelfTestItem::Heap] == results[0],
        boot_run(results).standings[SelfTestItem::Lcd] == results[1],
        boot_run(results).standings[SelfTestItem::Codec] == results[2],
        boot_run(results).standings[SelfTestItem::Wifi] == results[3],
        boot_run(results).standings[SelfTestItem::EspNow] is Pending,
        boot_run(results).standings[SelfTestItem::Watch] is Pending,
    decreases results.len(),
{
    if results.len() == 4 {
        tests_run_in_order(results.drop_last());
    } else {
        a_radio_failure_halts_at_once(results.drop_last());
    }
}

/// Once all six results are in, the start is over one way or the other.
pub proof fn the_start_ends_with_the_last_test(results: Seq<SelfTestStatus>)
    requires
        results.len() >= 6,
    ensures
        boot_run(results).stage !is Testing,
    decreases results.len(),
{
    if results[3] is Fail {
        a_radio_failure_halts_at_once(results);
    } else if results.len() == 6 {
        tests_run_in_order(results);
    } else {
        the_start_ends_with_the_last_test(results.drop_last());
    }
}

/// Whatever the results, a unit that runs has had every test, and none of them
/// failed.
pub proof fn a_running_unit_has_passed(results: Seq<SelfTestStatus>)
    requires
        boot_run(results).stage is Running,
    ensures
        results.len() >= 6,
        !some_failed(boot_run(results).standings),
        forall|item: SelfTestItem| #[trigger]
            boot_run(results).standings[item] == results[test_index(item)],
    decreases results.len(),
{
    if results.len() > 3 && results[3] is Fail {
        a_radio_failure_halts_at_once(results);
    } else if results.len() <= 6 {
        tests_run_in_order(results);
        if results.len() == 6 {
            assert forall|item: SelfTestItem| boot_run(results).standings[item] !is Fail by {
                assert(results[test_index(item)] !is Fail);
            }
        }
    } else {
        let before = boot_run(results.drop_last());
        the_start_ends_with_the_last_test(results.drop_last());
        assert(before == boot_run(results));
        a_running_unit_has_passed(results.drop_last());
    }
}

} // verus!
