//! The receive loop as a state machine.
//!
//! The loop around it waits for packets, runs the decoders and the replay window,
//! sends answers and publishes views. It hands each result in as an [`Event`] and
//! does what the [`Action`] that comes back asks for.
use vstd::prelude::*;

use crate::packet::{
    is_command_packet, is_frame_packet, route, Route, COMMAND_LEN, FRAME_LEN,
};
use crate::peer::{PeerCtx, PeerState};
use crate::radio::{
    handle_command, handle_frame, handle_reply_sent, AnnounceReply, Command,
    CommandOutcome, Frame, FrameOutcome, SeqGap,
};
use crate::seq_num::SeqNum;
use crate::view::ViewModel;

verus! {

/// What the machine waits for.
#[derive(Clone, Copy, Debug, PartialEq, Eq)]
pub enum Phase {
    /// A packet.
    Idle,
    /// The frame decoder.
    Frame,
    /// The command decoder.
    Command,
    /// The replay window's word on this command.
    Replay(Command),
    /// The end of the broadcast that answers the command with this counter.
    Reply(u32),
}

/// What happened outside.
#[derive(Clone, Copy, Debug, PartialEq, Eq)]
pub enum Event<'a, Q, S> {
    /// A packet came in.
    Packet(&'a [u8]),
    /// The frame decoder is done; `None` if it refused the packet.
    Frame(Option<Frame<Q, S>>),
    /// The command decoder is done; `None` if it refused the packet.
    Command(Option<Command>),
    /// The replay window has accepted the command, or not.
    Replay(bool),
    /// The broadcast went out, or failed.
    Sent(bool),
}

/// What to do next.
#[derive(Clone, Copy, Debug, PartialEq, Eq)]
pub enum Action<Q, S> {
    /// Wait for a packet.
    Receive,
    /// Show this view, then wait for a packet.
    Publish(ViewModel<Q, S>),
    /// Decode these bytes as a frame.
    DecodeFrame([u8; FRAME_LEN]),
    /// Decode and authenticate these bytes as a command.
    DecodeCommand([u8; COMMAND_LEN]),
    /// Run this counter through the replay window.
    CheckReplay(u32),
    /// Send this answer to [`crate::peer::BROADCAST`].
    Broadcast(AnnounceReply),
}

/// What there is to say about the step, for a log.
#[derive(Clone, Copy, Debug, PartialEq, Eq)]
pub enum Note<Q> {
    Nothing,
    /// A packet of another kind went by.
    Skipped { magic: [u8; 2], len: usize },
    /// The packet did not decode.
    Undecodable,
    /// The frame was for others.
    Filtered,
    /// The frame counter broke.
    Gap(SeqGap<Q>),
    /// The replay window refused the command with this counter.
    Replayed(u32),
    /// The answer to the command with this counter went out.
    ReplySent(u32),
    /// The answer did not go out.
    ReplyFailed,
    /// This id was taken.
    Assigned { receiver_id: u8 },
    /// This id was not taken.
    AssignIgnored { receiver_id: u8 },
    /// The command was not one for receivers.
    CommandIgnored,
    /// A result came that nothing was waiting for.
    Stray,
}

/// The machine's answer to an event.
#[derive(Clone, Copy, Debug, PartialEq, Eq)]
pub struct Step<Q, S> {
    pub action: Action<Q, S>,
    pub note: Note<Q>,
}

/// What a [`Receiver`] stands for.
pub struct ReceiverState<Q, S> {
    pub own_mac: [u8; 6],
    pub peer: PeerState,
    pub vm: ViewModel<Q, S>,
    pub phase: Phase,
}

impl<Q: SeqNum, S: Copy> ReceiverState<Q, S> {
    /// The id names a bit of the mask, the view shows the identity as it is, and
    /// only a command that needs it waits for the replay window.
    pub open spec fn wf(self) -> bool {
        &&& self.peer.wf()
        &&& self.vm.receiver_id == self.peer.receiver_id
        &&& self.vm.assigned == self.peer.assigned
        &&& self.phase matches Phase::Replay(cmd) ==> cmd.guarded()
    }

    /// The state after power-up.
    pub open spec fn initial(own_mac: [u8; 6], idle: S) -> ReceiverState<Q, S> {
        ReceiverState {
            own_mac,
            peer: PeerState::initial(),
            vm: ViewModel::empty_spec(idle),
            phase: Phase::Idle,
        }
    }

    /// The state with nothing pending.
    pub open spec fn idle(self) -> ReceiverState<Q, S> {
        ReceiverState { phase: Phase::Idle, ..self }
    }

    /// The state once `cmd` has been obeyed.
    pub open spec fn obeyed(self, cmd: Command) -> ReceiverState<Q, S> {
        ReceiverState {
            own_mac: self.own_mac,
            peer: cmd.peer_after(self.own_mac, self.peer),
            vm: cmd.view_after(self.own_mac, self.peer, self.vm),
            phase: if cmd.guarded() {
                Phase::Idle
            } else {
                Phase::Reply(cmd.seq)
            },
        }
    }

    /// The state after a packet. It starts afresh, whatever was pending.
    pub open spec fn after_packet(self, packet: Seq<u8>) -> ReceiverState<Q, S> {
        ReceiverState {
            phase: if is_frame_packet(packet) {
                Phase::Frame
            } else if is_command_packet(packet) {
                Phase::Command
            } else {
                Phase::Idle
            },
            ..self
        }
    }

    /// The state after an event. A result that nothing was waiting for changes nothing.
    pub open spec fn after(self, event: Event<'_, Q, S>) -> ReceiverState<Q, S> {
        match (event, self.phase) {
            (Event::Packet(packet), _) => self.after_packet(packet@),
            (Event::Frame(decoded), Phase::Frame) => ReceiverState {
                vm: self.vm.after_frame(self.peer.receiver_id, decoded),
                phase: Phase::Idle,
                ..self
            },
            (Event::Command(None), Phase::Command) => self.idle(),
            (Event::Command(Some(cmd)), Phase::Command) => if cmd.guarded() {
                ReceiverState { phase: Phase::Replay(cmd), ..self }
            } else {
                self.obeyed(cmd)
            },
            (Event::Replay(accepted), Phase::Replay(cmd)) => if accepted {
                self.obeyed(cmd)
            } else {
                self.idle()
            },
            (Event::Sent(sent), Phase::Reply(_)) => ReceiverState {
                vm: if sent {
                    self.vm.with_reply()
                } else {
                    self.vm
                },
                phase: Phase::Idle,
                ..self
            },
            _ => self,
        }
    }

    /// The step that obeying `cmd` makes.
    pub open spec fn obey_step(self, cmd: Command) -> Step<Q, S> {
        match cmd.outcome(self.own_mac) {
            CommandOutcome::Reply(reply) => Step {
                action: Action::Broadcast(reply),
                note: Note::Nothing,
            },
            CommandOutcome::Assigned { receiver_id } => Step {
                action: Action::Publish(self.obeyed(cmd).vm),
                note: Note::Assigned { receiver_id },
            },
            CommandOutcome::AssignIgnored { receiver_id } => Step {
                action: Action::Receive,
                note: Note::AssignIgnored { receiver_id },
            },
            CommandOutcome::Ignored => Step {
                action: Action::Receive,
                note: Note::CommandIgnored,
            },
        }
    }

    /// The step that a frame packet makes once the decoder is done with it.
    pub open spec fn frame_step(self, decoded: Option<Frame<Q, S>>) -> Step<Q, S> {
        let id = self.peer.receiver_id;
        match self.vm.frame_outcome(id, decoded) {
            FrameOutcome::Undecodable => Step { action: Action::Receive, note: Note::Undecodable },
            FrameOutcome::Filtered => Step { action: Action::Receive, note: Note::Filtered },
            FrameOutcome::Taken { gap } => Step {
                action: Action::Publish(self.vm.after_frame(id, decoded)),
                note: match gap {
                    Some(gap) => Note::Gap(gap),
                    None => Note::Nothing,
                },
            },
        }
    }

    /// Whether `step` is the machine's answer to `event`. There is exactly one.
    pub open spec fn answers(self, event: Event<'_, Q, S>, step: Step<Q, S>) -> bool {
        match (event, self.phase) {
            (Event::Packet(packet), _) => answers_packet(packet@, step),
            (Event::Frame(decoded), Phase::Frame) => step == self.frame_step(decoded),
            (Event::Command(None), Phase::Command) => step == (Step::<Q, S> {
                action: Action::Receive,
                note: Note::Undecodable,
            }),
            (Event::Command(Some(cmd)), Phase::Command) => if cmd.guarded() {
                step == (Step::<Q, S> { action: Action::CheckReplay(cmd.seq), note: Note::Nothing })
            } else {
                step == self.obey_step(cmd)
            },
            (Event::Replay(accepted), Phase::Replay(cmd)) => if accepted {
                step == self.obey_step(cmd)
            } else {
                step == (Step::<Q, S> { action: Action::Receive, note: Note::Replayed(cmd.seq) })
            },
            (Event::Sent(sent), Phase::Reply(req_seq)) => if sent {
                step == (Step::<Q, S> {
                    action: Action::Publish(self.vm.with_reply()),
                    note: Note::ReplySent(req_seq),
                })
            } else {
                step == (Step::<Q, S> { action: Action::Receive, note: Note::ReplyFailed })
            },
            _ => step == (Step::<Q, S> { action: Action::Receive, note: Note::Stray }),
        }
    }
}

/// Whether `step` is the machine's answer to a packet.
pub open spec fn answers_packet<Q, S>(packet: Seq<u8>, step: Step<Q, S>) -> bool {
    if is_frame_packet(packet) {
        &&& step.action matches Action::DecodeFrame(bytes)
        &&& bytes@ == packet
        &&& step.note == Note::<Q>::Nothing
    } else if is_command_packet(packet) {
        &&& step.action matches Action::DecodeCommand(bytes)
        &&& bytes@ == packet
        &&& step.note == Note::<Q>::Nothing
    } else if packet.len() < 2 {
        step == (Step::<Q, S> { action: Action::Receive, note: Note::Nothing })
    } else {
        &&& step.action == Action::<Q, S>::Receive
        &&& step.note matches Note::Skipped { magic, len }
        &&& magic@ == packet.take(2)
        &&& len == packet.len()
    }
}

/// The receiver: its address, its identity, its view and what it waits for.
pub struct Receiver<Q, S> {
    own_mac: [u8; 6],
    peer: PeerCtx,
    vm: ViewModel<Q, S>,
    phase: Phase,
}

impl<Q, S> View for Receiver<Q, S> {
    type V = ReceiverState<Q, S>;

    closed spec fn view(&self) -> ReceiverState<Q, S> {
        ReceiverState {
            own_mac: self.own_mac,
            peer: self.peer@,
            vm: self.vm,
            phase: self.phase,
        }
    }
}

impl<Q: SeqNum, S: Copy> Receiver<Q, S> {
    /// A receiver at power-up, and the first thing to do: show that it waits.
    pub fn start(own_mac: [u8; 6], idle: S) -> (r: (Receiver<Q, S>, Action<Q, S>))
        ensures
            r.0@ == ReceiverState::<Q, S>::initial(own_mac, idle),
            r.0@.wf(),
            r.1 == Action::<Q, S>::Publish(ViewModel::empty_spec(idle)),
    {
        let vm = ViewModel::empty(idle);
        let receiver = Receiver { own_mac, peer: PeerCtx::new(), vm, phase: Phase::Idle };
        (receiver, Action::Publish(vm))
    }

    /// The view as it stands.
    pub fn view_model(&self) -> (vm: ViewModel<Q, S>)
        ensures
            vm == self@.vm,
    {
        self.vm
    }

    /// The identity as it stands.
    pub fn peer(&self) -> (peer: &PeerCtx)
        ensures
            peer@ == self@.peer,
    {
        &self.peer
    }

    /// Takes in an event and says what to do next.
    pub fn step(&mut self, event: Event<'_, Q, S>) -> (step: Step<Q, S>)
        ensures
            final(self)@ == old(self)@.after(event),
            old(self)@.answers(event, step),
            old(self)@.wf() ==> final(self)@.wf(),
    {
        match (event, self.phase) {
            (Event::Packet(packet), _) => self.on_packet(packet),
            (Event::Frame(decoded), Phase::Frame) => self.on_frame(decoded),
            (Event::Command(None), Phase::Command) => {
                self.phase = Phase::Idle;
                Step { action: Action::Receive, note: Note::Undecodable }
            },
            (Event::Command(Some(cmd)), Phase::Command) => {
                if cmd.needs_replay_check() {
                    self.phase = Phase::Replay(cmd);
                    Step { action: Action::CheckReplay(cmd.seq), note: Note::Nothing }
                } else {
                    self.obey(cmd)
                }
            },
            (Event::Replay(accepted), Phase::Replay(cmd)) => {
                if accepted {
                    self.obey(cmd)
                } else {
                    self.phase = Phase::Idle;
                    Step { action: Action::Receive, note: Note::Replayed(cmd.seq) }
                }
            },
            (Event::Sent(sent), Phase::Reply(req_seq)) => {
                self.phase = Phase::Idle;
                if handle_reply_sent(sent, &mut self.vm) {
                    Step { action: Action::Publish(self.vm), note: Note::ReplySent(req_seq) }
                } else {
                    Step { action: Action::Receive, note: Note::ReplyFailed }
                }
            },
            _ => Step { action: Action::Receive, note: Note::Stray },
        }
    }

    fn on_packet(&mut self, packet: &[u8]) -> (step: Step<Q, S>)
        ensures
            final(self)@ == old(self)@.after_packet(packet@),
            answers_packet(packet@, step),
    {
        match route(packet) {
            Route::Frame(bytes) => {
                self.phase = Phase::Frame;
                Step { action: Action::DecodeFrame(bytes), note: Note::Nothing }
            },
            Route::Command(bytes) => {
                self.phase = Phase::Command;
                Step { action: Action::DecodeCommand(bytes), note: Note::Nothing }
            },
            Route::Short => {
                self.phase = Phase::Idle;
                Step { action: Action::Receive, note: Note::Nothing }
            },
            Route::Skip { magic, len } => {
                self.phase = Phase::Idle;
                Step { action: Action::Receive, note: Note::Skipped { magic, len } }
            },
        }
    }

    fn on_frame(&mut self, decoded: Option<Frame<Q, S>>) -> (step: Step<Q, S>)
        requires
            old(self)@.phase is Frame,
        ensures
            final(self)@ == old(self)@.after(Event::Frame(decoded)),
            step == old(self)@.frame_step(decoded),
    {
        self.phase = Phase::Idle;
        match handle_frame(decoded, &self.peer, &mut self.vm) {
            FrameOutcome::Undecodable => Step { action: Action::Receive, note: Note::Undecodable },
            FrameOutcome::Filtered => Step { action: Action::Receive, note: Note::Filtered },
            FrameOutcome::Taken { gap } => Step {
                action: Action::Publish(self.vm),
                note: match gap {
                    Some(gap) => Note::Gap(gap),
                    None => Note::Nothing,
                },
            },
        }
    }

    fn obey(&mut self, cmd: Command) -> (step: Step<Q, S>)
        ensures
            final(self)@ == old(self)@.obeyed(cmd),
            step == old(self)@.obey_step(cmd),
    {
        self.phase = Phase::Idle;
        match handle_command(cmd, self.own_mac, &mut self.peer, &mut self.vm) {
            CommandOutcome::Reply(reply) => {
                self.phase = Phase::Reply(cmd.seq);
                Step { action: Action::Broadcast(reply), note: Note::Nothing }
            },
            CommandOutcome::Assigned { receiver_id } => Step {
                action: Action::Publish(self.vm),
                note: Note::Assigned { receiver_id },
            },
            CommandOutcome::AssignIgnored { receiver_id } => Step {
                action: Action::Receive,
                note: Note::AssignIgnored { receiver_id },
            },
            CommandOutcome::Ignored => Step {
                action: Action::Receive,
                note: Note::CommandIgnored,
            },
        }
    }
}

} // verus!
