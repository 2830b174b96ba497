//! What the control plane tells a node, what a node reports back, and the record a
//! dispatch keeps of what it did.

use vstd::prelude::*;
use crossbeam::channel::Sender;
use crate::model::{Directive, Effect, Event, Input, SendOutcome};
use crate::packet::{NodeId, Packet};

verus! {

/// A directive of the control plane. The drop rate is given as the bit pattern of a
/// single-precision number.
#[derive(Debug)]
pub enum DroneCommand {
    AddSender(NodeId, Sender<Packet>),
    RemoveSender(NodeId),
    SetPacketDropRate(u32),
    Crash,
}

/// A report to the control plane.
#[derive(Clone, Debug, PartialEq, Eq)]
pub enum DroneEvent {
    PacketSent(Packet),
    PacketDropped(Packet),
}

/// One thing a dispatch did: a delivery attempt with the port's answer, or a report.
#[derive(Clone, Debug, PartialEq, Eq)]
pub enum Action {
    Delivery { to: NodeId, packet: Packet, outcome: SendOutcome },
    Report { event: DroneEvent },
}

/// Whether the event loop goes on after a directive.
#[derive(Clone, Copy, Debug, PartialEq, Eq, Structural)]
pub enum CommandResult {
    Continue,
    Quit,
}

/// What the event loop received and hands to the node.
#[derive(Debug)]
pub enum DroneInput {
    /// A directive of the control plane.
    Command(DroneCommand),
    /// A packet from a neighbour.
    Packet(Packet),
    /// The packet input reports that no sender remains.
    Closed,
}

impl View for DroneInput {
    type V = Input;

    open spec fn view(&self) -> Input {
        match *self {
            DroneInput::Command(c) => Input::Command(c@),
            DroneInput::Packet(p) => Input::Packet(p@),
            DroneInput::Closed => Input::Closed,
        }
    }
}

impl View for DroneCommand {
    type V = Directive;

    open spec fn view(&self) -> Directive {
        match *self {
            DroneCommand::AddSender(id, _) => Directive::AddSender(id),
            DroneCommand::RemoveSender(id) => Directive::RemoveSender(id),
            DroneCommand::SetPacketDropRate(pdr) => Directive::SetPacketDropRate(pdr),
            DroneCommand::Crash => Directive::Crash,
        }
    }
}

impl View for DroneEvent {
    type V = Event;

    open spec fn view(&self) -> Event {
        match *self {
            DroneEvent::PacketSent(p) => Event::PacketSent(p@),
            DroneEvent::PacketDropped(p) => Event::PacketDropped(p@),
        }
    }
}

impl View for Action {
    type V = Effect;

    open spec fn view(&self) -> Effect {
        match *self {
            Action::Delivery { to, packet, outcome } => Effect::Delivery {
                to,
                message: packet@,
                outcome,
            },
            Action::Report { event } => Effect::Report { event: event@ },
        }
    }
}

/// The effects that a record of actions stands for.
pub open spec fn effects_of(log: Seq<Action>) -> Seq<Effect> {
    log.map_values(|a: Action| a@)
}

impl DroneEvent {
    /// A copy with the same value.
    pub fn duplicate(&self) -> (copy: DroneEvent)
        ensures
            copy@ == self@,
    {
        match self {
            DroneEvent::PacketSent(p) => DroneEvent::PacketSent(p.duplicate()),
            DroneEvent::PacketDropped(p) => DroneEvent::PacketDropped(p.duplicate()),
        }
    }
}

} // verus!
