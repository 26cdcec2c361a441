use c6::radio::{AnnounceReply, Command, CommandBody, Frame, FrameHeader, SeqGap};
use c6::receiver::{Action, Event, Note, Receiver, Step};
use c6::view::ViewModel;

const OWN: [u8; 6] = [2, 0, 0, 0, 0, 1];
const OTHER: [u8; 6] = [2, 0, 0, 0, 0, 2];

type Unit = Receiver<u16, u8>;
type Out = Step<u16, u8>;

fn fresh() -> Unit {
    Receiver::start(OWN, 0).0
}

fn frame_packet() -> [u8; 25] {
    let mut p = [0xAA; 25];
    p[0] = 0x1E;
    p[1] = 0xC7;
    p
}

fn command_packet() -> [u8; 24] {
    let mut p = [0xBB; 24];
    p[0] = 0x01;
    p[1] = 0xCB;
    p
}

fn frame(seq: u16, dest_mask: u32, payload: u8) -> Frame<u16, u8> {
    Frame { header: FrameHeader { seq, dest_mask }, payload }
}

fn hear_frame(unit: &mut Unit, decoded: Option<Frame<u16, u8>>) -> Out {
    let step = unit.step(Event::Packet(&frame_packet()));
    assert_eq!(step, Step { action: Action::DecodeFrame(frame_packet()), note: Note::Nothing });
    unit.step(Event::Frame(decoded))
}

fn hear_command(unit: &mut Unit, decoded: Option<Command>) -> Out {
    let step = unit.step(Event::Packet(&command_packet()));
    assert_eq!(step, Step { action: Action::DecodeCommand(command_packet()), note: Note::Nothing });
    unit.step(Event::Command(decoded))
}

fn assign(unit: &mut Unit, mac: [u8; 6], receiver_id: u8, accepted: bool) -> Out {
    let cmd = Command { seq: 5, key_id: 1, kind: CommandBody::AssignId { mac, receiver_id } };
    let step = hear_command(unit, Some(cmd));
    assert_eq!(step, Step { action: Action::CheckReplay(5), note: Note::Nothing });
    unit.step(Event::Replay(accepted))
}

#[test]
fn starts_by_showing_that_it_waits() {
    let (unit, first) = Unit::start(OWN, 42);
    assert_eq!(first, Action::Publish(ViewModel::empty(42)));
    assert_eq!(unit.view_model(), ViewModel::empty(42));
    assert_eq!(unit.peer().receiver_id(), 0);
    assert!(!unit.peer().is_assigned());
}

#[test]
fn broadcast_frame_is_shown_right_after_power_up() {
    let mut unit = fresh();
    let step = hear_frame(&mut unit, Some(frame(8, 0xFFFF_FFFF, 3)));
    let vm = unit.view_model();
    assert_eq!(step, Step { action: Action::Publish(vm), note: Note::Nothing });
    assert_eq!((vm.state, vm.ok_count, vm.last_seq), (3, 1, 8));
}

#[test]
fn gap_is_noted() {
    let mut unit = fresh();
    hear_frame(&mut unit, Some(frame(8, 1, 3)));
    let step = hear_frame(&mut unit, Some(frame(11, 1, 4)));
    assert_eq!(step.note, Note::Gap(SeqGap { expected: 9, got: 11, missing: 2 }));
    assert_eq!(step.action, Action::Publish(unit.view_model()));
    assert_eq!(unit.view_model().gap_count, 1);
}

#[test]
fn filtered_frame_is_not_shown() {
    let mut unit = fresh();
    let step = hear_frame(&mut unit, Some(frame(8, 2, 3)));
    assert_eq!(step, Step { action: Action::Receive, note: Note::Filtered });
    assert_eq!(unit.view_model().filtered_count, 1);
    assert!(!unit.view_model().have_data);
}

#[test]
fn refused_frame_is_not_shown() {
    let mut unit = fresh();
    let step = hear_frame(&mut unit, None);
    assert_eq!(step, Step { action: Action::Receive, note: Note::Undecodable });
    assert_eq!(unit.view_model(), ViewModel::empty(0));
}

#[test]
fn directed_frames_arrive_after_assignment() {
    let mut unit = fresh();
    assert_eq!(hear_frame(&mut unit, Some(frame(1, 1 << 9, 1))).note, Note::Filtered);
    let step = assign(&mut unit, OWN, 9, true);
    assert_eq!(step.note, Note::Assigned { receiver_id: 9 });
    assert_eq!(step.action, Action::Publish(unit.view_model()));
    let step = hear_frame(&mut unit, Some(frame(2, 1 << 9, 6)));
    let vm = unit.view_model();
    assert_eq!(step.action, Action::Publish(vm));
    assert_eq!((vm.state, vm.ok_count, vm.filtered_count), (6, 1, 1));
    assert_eq!((vm.receiver_id, vm.assigned), (9, true));
    assert_eq!((unit.peer().receiver_id(), unit.peer().is_assigned()), (9, true));
}

#[test]
fn replayed_assignment_has_no_effect() {
    let mut unit = fresh();
    let step = assign(&mut unit, OWN, 9, false);
    assert_eq!(step, Step { action: Action::Receive, note: Note::Replayed(5) });
    assert_eq!(unit.view_model(), ViewModel::empty(0));
    assert!(!unit.peer().is_assigned());
}

#[test]
fn assignment_for_another_unit_has_no_effect() {
    let mut unit = fresh();
    let step = assign(&mut unit, OTHER, 9, true);
    assert_eq!(
        step,
        Step { action: Action::Receive, note: Note::AssignIgnored { receiver_id: 9 } }
    );
    let step = assign(&mut unit, OWN, 200, true);
    assert_eq!(
        step,
        Step { action: Action::Receive, note: Note::AssignIgnored { receiver_id: 200 } }
    );
    assert_eq!(unit.view_model(), ViewModel::empty(0));
}

#[test]
fn repeated_discovery_is_answered_every_time() {
    let mut unit = fresh();
    let cmd = Command { seq: 70, key_id: 1, kind: CommandBody::Announce };
    for n in 1..=5 {
        let step = hear_command(&mut unit, Some(cmd));
        let reply = AnnounceReply {
            req_seq: 70,
            key_id: 1,
            mac: OWN,
            rssi_dbm: -127,
            role_tag: *b"lcd",
        };
        assert_eq!(step, Step { action: Action::Broadcast(reply), note: Note::Nothing });
        let step = unit.step(Event::Sent(true));
        let vm = unit.view_model();
        assert_eq!(step, Step { action: Action::Publish(vm), note: Note::ReplySent(70) });
        assert_eq!(vm.reply_count, n);
    }
}

#[test]
fn failed_answer_is_not_counted() {
    let mut unit = fresh();
    let cmd = Command { seq: 70, key_id: 1, kind: CommandBody::Announce };
    hear_command(&mut unit, Some(cmd));
    let step = unit.step(Event::Sent(false));
    assert_eq!(step, Step { action: Action::Receive, note: Note::ReplyFailed });
    assert_eq!(unit.view_model(), ViewModel::empty(0));
}

#[test]
fn other_commands_pass_the_window_and_are_dropped() {
    let mut unit = fresh();
    let cmd = Command { seq: 71, key_id: 1, kind: CommandBody::Other };
    let step = hear_command(&mut unit, Some(cmd));
    assert_eq!(step.action, Action::CheckReplay(71));
    let step = unit.step(Event::Replay(true));
    assert_eq!(step, Step { action: Action::Receive, note: Note::CommandIgnored });
    assert_eq!(unit.view_model(), ViewModel::empty(0));
}

#[test]
fn commands_with_the_wrong_key_do_not_disturb_frames() {
    let mut with = fresh();
    let mut without = fresh();
    for seq in 0..20u16 {
        let step = hear_command(&mut with, None);
        assert_eq!(step, Step { action: Action::Receive, note: Note::Undecodable });
        let mask = if seq % 3 == 0 { 2 } else { 1 };
        let f = frame(seq, mask, seq as u8);
        assert_eq!(hear_frame(&mut with, Some(f)), hear_frame(&mut without, Some(f)));
    }
    assert_eq!(with.view_model(), without.view_model());
}

#[test]
fn foreign_packets_are_skipped() {
    let mut unit = fresh();
    let step = unit.step(Event::Packet(&[0x55, 0x66, 0x77]));
    assert_eq!(
        step,
        Step { action: Action::Receive, note: Note::Skipped { magic: [0x55, 0x66], len: 3 } }
    );
    let step = unit.step(Event::Packet(&[0x1E]));
    assert_eq!(step, Step { action: Action::Receive, note: Note::Nothing });
    assert_eq!(unit.view_model(), ViewModel::empty(0));
}

#[test]
fn stray_results_are_dropped() {
    let stray = Step { action: Action::Receive, note: Note::Stray };
    let announce = Command { seq: 1, key_id: 1, kind: CommandBody::Announce };
    let mut unit = fresh();
    assert_eq!(unit.step(Event::Frame(Some(frame(1, 1, 1)))), stray);
    assert_eq!(unit.step(Event::Command(Some(announce))), stray);
    assert_eq!(unit.step(Event::Replay(true)), stray);
    assert_eq!(unit.step(Event::Sent(true)), stray);
    unit.step(Event::Packet(&frame_packet()));
    assert_eq!(unit.step(Event::Sent(true)), stray);
    assert_eq!(unit.step(Event::Frame(Some(frame(1, 1, 1)))).note, Note::Nothing);
    assert_eq!(unit.view_model().ok_count, 1);
    assert_eq!(unit.view_model().reply_count, 0);
}

#[test]
fn a_packet_starts_afresh() {
    let mut unit = fresh();
    let assign_9 = CommandBody::AssignId { mac: OWN, receiver_id: 9 };
    hear_command(&mut unit, Some(Command { seq: 5, key_id: 1, kind: assign_9 }));
    hear_frame(&mut unit, Some(frame(1, 1, 1)));
    assert_eq!(unit.step(Event::Replay(true)).note, Note::Stray);
    assert!(!unit.peer().is_assigned());
}

#[test]
fn counters_add_up_over_a_mixed_run() {
    let mut unit = fresh();
    let announce = Command { seq: 1, key_id: 1, kind: CommandBody::Announce };
    hear_frame(&mut unit, Some(frame(1, 1, 1)));
    hear_frame(&mut unit, Some(frame(2, 2, 1)));
    hear_command(&mut unit, Some(announce));
    unit.step(Event::Sent(true));
    hear_frame(&mut unit, Some(frame(3, 1, 1)));
    hear_frame(&mut unit, None);
    assign(&mut unit, OWN, 1, true);
    hear_frame(&mut unit, Some(frame(4, 2, 1)));
    hear_command(&mut unit, Some(announce));
    unit.step(Event::Sent(false));
    let vm = unit.view_model();
    assert_eq!((vm.ok_count, vm.filtered_count, vm.gap_count, vm.reply_count), (3, 1, 1, 1));
}
