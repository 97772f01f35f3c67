use vstd::prelude::*;
use crate::link::{link_binding, link_binding_spec, one_step_request, request_name_spec, InterfaceLookup, LinkBinding, TimestampingRequest, TxTimestampMode, RxTimestampFilter};
use crate::packet::{build_sync_frame, ptp_peer_multicast, ptp_peer_multicast_spec, sync_frame_bytes};

verus! {

/// What the run was asked to do.
#[derive(Clone, Copy, Debug, PartialEq, Eq)]
pub enum Command {
    Tx,
    Rx,
}

/// The fatal errors of a run, each naming the step that failed.
#[derive(Clone, Copy, Debug, PartialEq, Eq)]
pub enum RunError {
    InterfaceNotFound,
    MissingHardwareAddress,
    SocketCreationFailed,
    BindFailed,
    SendFailed,
    /// Receiving is not implemented.
    NotSupported,
}

/// Where a run stands. It only moves forward.
#[derive(Clone, Copy, Debug, PartialEq, Eq)]
pub enum Stage {
    /// Waiting for the interface to be looked up by name.
    Lookup,
    /// Frame built; waiting for the interface index.
    Resolve,
    /// Waiting for the raw socket to be created.
    Create(u32),
    /// Waiting for the socket to be bound to the interface.
    Bind,
    /// Waiting for the timestamping configuration, which may fail.
    Configure,
    /// Waiting for the frame to be sent.
    Transmit,
    Done,
}

/// The outcome of the work that the previous action asked for.
#[derive(Clone, Copy, Debug, PartialEq, Eq)]
pub enum Event {
    Interface(InterfaceLookup),
    Index(Option<u32>),
    SocketCreated(bool),
    Bound(bool),
    TimestampingConfigured(bool),
    Sent(bool),
}

/// What the caller does next.
#[derive(Clone, Copy, Debug, PartialEq, Eq)]
pub enum Action {
    ResolveIndex,
    CreateSocket,
    Bind(LinkBinding),
    /// Apply the session's timestamping request to the socket.
    ConfigureTimestamping,
    /// Send the session's frame on the socket.
    Send,
    Fail(RunError),
    Finish,
}

/// The event that each stage waits for.
pub open spec fn expects(stage: Stage, e: Event) -> bool {
    match (stage, e) {
        (Stage::Lookup, Event::Interface(_)) => true,
        (Stage::Resolve, Event::Index(_)) => true,
        (Stage::Create(_), Event::SocketCreated(_)) => true,
        (Stage::Bind, Event::Bound(_)) => true,
        (Stage::Configure, Event::TimestampingConfigured(_)) => true,
        (Stage::Transmit, Event::Sent(_)) => true,
        _ => false,
    }
}

/// The next stage and action after `e`, for an event that `stage` expects.
pub open spec fn transition(stage: Stage, command: Command, e: Event) -> (Stage, Action) {
    match (stage, e) {
        (Stage::Lookup, Event::Interface(l)) => match l {
            InterfaceLookup::Missing => (Stage::Done, Action::Fail(RunError::InterfaceNotFound)),
            InterfaceLookup::NoHardwareAddress => (
                Stage::Done,
                Action::Fail(RunError::MissingHardwareAddress),
            ),
            InterfaceLookup::Found(_) => (Stage::Resolve, Action::ResolveIndex),
        },
        (Stage::Resolve, Event::Index(ix)) => match ix {
            Some(i) => (Stage::Create(i), Action::CreateSocket),
            None => (Stage::Done, Action::Fail(RunError::InterfaceNotFound)),
        },
        (Stage::Create(i), Event::SocketCreated(ok)) => if ok {
            (Stage::Bind, Action::Bind(link_binding_spec(i)))
        } else {
            (Stage::Done, Action::Fail(RunError::SocketCreationFailed))
        },
        (Stage::Bind, Event::Bound(ok)) => if ok {
            (Stage::Configure, Action::ConfigureTimestamping)
        } else {
            (Stage::Done, Action::Fail(RunError::BindFailed))
        },
        (Stage::Configure, Event::TimestampingConfigured(_)) => match command {
            Command::Tx => (Stage::Transmit, Action::Send),
            Command::Rx => (Stage::Done, Action::Fail(RunError::NotSupported)),
        },
        (Stage::Transmit, Event::Sent(ok)) => if ok {
            (Stage::Done, Action::Finish)
        } else {
            (Stage::Done, Action::Fail(RunError::SendFailed))
        },
        _ => (Stage::Done, Action::Finish),
    }
}

/// Position of a stage in the run.
pub open spec fn rank(stage: Stage) -> nat {
    match stage {
        Stage::Lookup => 0,
        Stage::Resolve => 1,
        Stage::Create(_) => 2,
        Stage::Bind => 3,
        Stage::Configure => 4,
        Stage::Transmit => 5,
        Stage::Done => 6,
    }
}

/// One transmit run: look the interface up, build the Sync frame, resolve
/// the interface index, open and bind a raw socket, try to turn on one-step
/// timestamping, send.
pub struct Session {
    pub stage: Stage,
    pub command: Command,
    pub interface_name: Vec<u8>,
    pub sequence_id: u16,
    pub log_message_interval: i8,
    pub domain_number: u8,
    /// The frame to send; empty until the interface has been found.
    pub frame: Vec<u8>,
}

impl Session {
    pub fn new(
        command: Command,
        interface_name: Vec<u8>,
        sequence_id: u16,
        log_message_interval: i8,
        domain_number: u8,
    ) -> (r: Session)
        ensures
            r.stage == Stage::Lookup,
            r.command == command,
            r.interface_name@ == interface_name@,
            r.sequence_id == sequence_id,
            r.log_message_interval == log_message_interval,
            r.domain_number == domain_number,
            r.frame@.len() == 0,
    {
        Session {
            stage: Stage::Lookup,
            command,
            interface_name,
            sequence_id,
            log_message_interval,
            domain_number,
            frame: Vec::new(),
        }
    }

    pub fn accepts(&self, e: &Event) -> (r: bool)
        ensures
            r == expects(self.stage, *e),
    {
        match (self.stage, *e) {
            (Stage::Lookup, Event::Interface(_)) => true,
            (Stage::Resolve, Event::Index(_)) => true,
            (Stage::Create(_), Event::SocketCreated(_)) => true,
            (Stage::Bind, Event::Bound(_)) => true,
            (Stage::Configure, Event::TimestampingConfigured(_)) => true,
            (Stage::Transmit, Event::Sent(_)) => true,
            _ => false,
        }
    }

    /// Takes the outcome of the last action and says what to do next. When
    /// the interface is found, the Sync frame from its address to the peer
    /// multicast address is built.
    pub fn step(&mut self, e: Event) -> (r: Action)
        requires
            expects(old(self).stage, e),
        ensures
            (final(self).stage, r) == transition(old(self).stage, old(self).command, e),
            final(self).command == old(self).command,
            final(self).interface_name@ == old(self).interface_name@,
            final(self).sequence_id == old(self).sequence_id,
            final(self).log_message_interval == old(self).log_message_interval,
            final(self).domain_number == old(self).domain_number,
            e matches Event::Interface(InterfaceLookup::Found(m)) ==> final(self).frame@
                == sync_frame_bytes(
                m.0@,
                ptp_peer_multicast_spec(),
                old(self).sequence_id,
                old(self).log_message_interval,
                old(self).domain_number,
            ),
            !(e matches Event::Interface(InterfaceLookup::Found(_))) ==> final(self).frame@
                == old(self).frame@,
    {
        match e {
            Event::Interface(l) => match l {
                InterfaceLookup::Missing => {
                    self.stage = Stage::Done;
                    Action::Fail(RunError::InterfaceNotFound)
                },
                InterfaceLookup::NoHardwareAddress => {
                    self.stage = Stage::Done;
                    Action::Fail(RunError::MissingHardwareAddress)
                },
                InterfaceLookup::Found(mac) => {
                    self.frame = build_sync_frame(
                        mac,
                        ptp_peer_multicast(),
                        self.sequence_id,
                        self.log_message_interval,
                        self.domain_number,
                    );
                    self.stage = Stage::Resolve;
                    Action::ResolveIndex
                },
            },
            Event::Index(ix) => match ix {
                Some(i) => {
                    self.stage = Stage::Create(i);
                    Action::CreateSocket
                },
                None => {
                    self.stage = Stage::Done;
                    Action::Fail(RunError::InterfaceNotFound)
                },
            },
            Event::SocketCreated(ok) => {
                let i = match self.stage {
                    Stage::Create(i) => i,
                    _ => 0,
                };
                if ok {
                    self.stage = Stage::Bind;
                    Action::Bind(link_binding(i))
                } else {
                    self.stage = Stage::Done;
                    Action::Fail(RunError::SocketCreationFailed)
                }
            },
            Event::Bound(ok) => if ok {
                self.stage = Stage::Configure;
                Action::ConfigureTimestamping
            } else {
                self.stage = Stage::Done;
                Action::Fail(RunError::BindFailed)
            },
            Event::TimestampingConfigured(_) => match self.command {
                Command::Tx => {
                    self.stage = Stage::Transmit;
                    Action::Send
                },
                Command::Rx => {
                    self.stage = Stage::Done;
                    Action::Fail(RunError::NotSupported)
                },
            },
            Event::Sent(ok) => {
                self.stage = Stage::Done;
                if ok {
                    Action::Finish
                } else {
                    Action::Fail(RunError::SendFailed)
                }
            },
        }
    }

    /// The driver request that turns on one-step timestamping on this run's
    /// interface.
    pub fn timestamping_request(&self) -> (r: TimestampingRequest)
        ensures
            r.interface_name@ == request_name_spec(self.interface_name@),
            r.tx_type == TxTimestampMode::OneStepSync,
            r.rx_filter == RxTimestampFilter::PtpV2L2Event,
            r.raw_hardware && r.rx_hardware && r.tx_hardware,
    {
        one_step_request(&self.interface_name)
    }
}

/// Each accepted event moves the run strictly forward, so every stage, and
/// the end, is reached at most once; a finished run accepts nothing more.
pub proof fn lemma_run_moves_forward(stage: Stage, command: Command, e: Event)
    ensures
        expects(stage, e) ==> rank(transition(stage, command, e).0) > rank(stage),
        !expects(Stage::Done, e),
        expects(stage, e) ==> (transition(stage, command, e).0 == Stage::Done <==> (
        transition(stage, command, e).1 is Fail || transition(stage, command, e).1 is Finish)),
{
}

/// An interface that does not resolve ends the run with `InterfaceNotFound`,
/// and a socket is only ever created after the interface index resolved.
pub proof fn lemma_missing_interface_creates_no_socket(stage: Stage, command: Command, e: Event)
    requires
        expects(stage, e),
    ensures
        transition(Stage::Resolve, command, Event::Index(None)) == (
            Stage::Done,
            Action::Fail(RunError::InterfaceNotFound),
        ),
        transition(stage, command, e).1 == Action::CreateSocket ==> (stage == Stage::Resolve
            && e matches Event::Index(Some(_))),
{
}

/// Whether the timestamping configuration succeeded or failed, the run goes
/// on to send the frame on the same socket, and a send that succeeds
/// finishes the run.
pub proof fn lemma_timestamping_failure_tolerated(command: Command)
    ensures
        transition(Stage::Configure, command, Event::TimestampingConfigured(false)) == transition(
            Stage::Configure,
            command,
            Event::TimestampingConfigured(true),
        ),
        command == Command::Tx ==> transition(
            Stage::Configure,
            command,
            Event::TimestampingConfigured(false),
        ) == (Stage::Transmit, Action::Send),
        transition(Stage::Transmit, command, Event::Sent(true)) == (Stage::Done, Action::Finish),
{
}

} // verus!
