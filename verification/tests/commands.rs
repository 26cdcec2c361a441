use c6::peer::PeerCtx;
use c6::radio::{
    handle_command, handle_reply_sent, AnnounceReply, Command, CommandBody, CommandOutcome,
    RSSI_UNKNOWN,
};
use c6::view::ViewModel;

const OWN: [u8; 6] = [2, 0, 0, 0, 0, 1];
const OTHER: [u8; 6] = [2, 0, 0, 0, 0, 2];

type View = ViewModel<u16, u8>;

fn command(kind: CommandBody) -> Command {
    Command { seq: 77, key_id: 2, kind }
}

#[test]
fn discovery_is_answered_with_address_and_role() {
    let mut peer = PeerCtx::new();
    let mut vm: View = ViewModel::empty(0);
    let before = vm;
    let outcome = handle_command(command(CommandBody::Announce), OWN, &mut peer, &mut vm);
    assert_eq!(
        outcome,
        CommandOutcome::Reply(AnnounceReply {
            req_seq: 77,
            key_id: 2,
            mac: OWN,
            rssi_dbm: -127,
            role_tag: *b"lcd",
        })
    );
    assert_eq!(RSSI_UNKNOWN, -127);
    assert_eq!(vm, before);
    assert!(!peer.is_assigned());
}

#[test]
fn an_accepted_id_shows_in_the_view() {
    let mut peer = PeerCtx::new();
    let mut vm: View = ViewModel::empty(0);
    let before = vm;
    let cmd = command(CommandBody::AssignId { mac: OWN, receiver_id: 12 });
    let outcome = handle_command(cmd, OWN, &mut peer, &mut vm);
    assert_eq!(outcome, CommandOutcome::Assigned { receiver_id: 12 });
    assert_eq!((peer.receiver_id(), peer.is_assigned()), (12, true));
    assert_eq!(vm, ViewModel { receiver_id: 12, assigned: true, ..before });
}

#[test]
fn an_id_for_another_unit_is_ignored() {
    let mut peer = PeerCtx::new();
    let mut vm: View = ViewModel::empty(0);
    let before = vm;
    let cmd = command(CommandBody::AssignId { mac: OTHER, receiver_id: 12 });
    let outcome = handle_command(cmd, OWN, &mut peer, &mut vm);
    assert_eq!(outcome, CommandOutcome::AssignIgnored { receiver_id: 12 });
    assert_eq!((peer.receiver_id(), peer.is_assigned()), (0, false));
    assert_eq!(vm, before);
}

#[test]
fn an_id_out_of_range_is_ignored() {
    let mut peer = PeerCtx::new();
    let mut vm: View = ViewModel::empty(0);
    let before = vm;
    let cmd = command(CommandBody::AssignId { mac: OWN, receiver_id: 32 });
    let outcome = handle_command(cmd, OWN, &mut peer, &mut vm);
    assert_eq!(outcome, CommandOutcome::AssignIgnored { receiver_id: 32 });
    assert_eq!(vm, before);
    assert!(!peer.is_assigned());
}

#[test]
fn other_commands_are_ignored() {
    let mut peer = PeerCtx::new();
    let mut vm: View = ViewModel::empty(0);
    let before = vm;
    let outcome = handle_command(command(CommandBody::Other), OWN, &mut peer, &mut vm);
    assert_eq!(outcome, CommandOutcome::Ignored);
    assert_eq!(vm, before);
    assert!(!peer.is_assigned());
}

#[test]
fn only_discovery_bypasses_the_replay_window() {
    assert!(!command(CommandBody::Announce).needs_replay_check());
    assert!(command(CommandBody::AssignId { mac: OWN, receiver_id: 1 }).needs_replay_check());
    assert!(command(CommandBody::Other).needs_replay_check());
}

#[test]
fn only_sent_answers_are_counted() {
    let mut vm: View = ViewModel::empty(0);
    let before = vm;
    assert!(!handle_reply_sent(false, &mut vm));
    assert_eq!(vm, before);
    assert!(handle_reply_sent(true, &mut vm));
    assert_eq!(vm, ViewModel { reply_count: 1, ..before });
    vm.reply_count = u32::MAX;
    assert!(handle_reply_sent(true, &mut vm));
    assert_eq!(vm.reply_count, u32::MAX);
}
