//! The relay node: its owned state and the handlers that the event loop dispatches to.

use vstd::prelude::*;
use crossbeam::channel::Sender;
use std::collections::{HashMap, HashSet};
use crate::event::{effects_of, Action, CommandResult, DroneCommand, DroneEvent, DroneInput};
use crate::loss::passes;
use crate::model::{
    commanded, delivery, fan_out, flood_request_for, flood_response_for, flooding,
    handling, lemma_fan_out_reads_prefix, lemma_outcomes_of_concat, lemma_peers_below_ascending,
    listening, nack_for, nack_return, outcome_at, outcomes_of, peers_below, readdressed, routing,
    stepping, trace_ids, traveled, DroneState, Effect, Event, Listen, NodeState, SendOutcome, Step,
};
use crate::packet::{
    copy_trace, FloodRequest, FloodResponse, Nack, NackType, NodeId, NodeType, Packet, PacketType,
    SourceRoutingHeader,
};
use crate::port::try_send;

verus! {

/// A relay node. It owns its peer table, its record of processed floods, its drop rate
/// and its lifecycle state; nothing else reads or writes them.
pub struct RustDrone {
    id: NodeId,
    controller_send: Sender<DroneEvent>,
    pdr: u32,
    packet_send: HashMap<NodeId, Sender<Packet>>,
    seen_flood_requests: HashSet<u64>,
    state: DroneState,
}

impl View for RustDrone {
    type V = NodeState;

    closed spec fn view(&self) -> NodeState {
        NodeState {
            id: self.id,
            pdr: self.pdr,
            peers: self.packet_send@.dom(),
            seen: self.seen_flood_requests@,
            phase: self.state,
        }
    }
}

impl RustDrone {
    /// The peer table: the output port that each connected peer is reached through.
    pub closed spec fn ports(&self) -> Map<NodeId, Sender<Packet>> {
        self.packet_send@
    }

    /// The port through which reports go to the control plane.
    pub closed spec fn controller(&self) -> Sender<DroneEvent> {
        self.controller_send
    }

    /// The peers of a node are the ids that its peer table has a port for.
    pub proof fn ports_cover_peers(&self)
        ensures
            self.ports().dom() == self@.peers,
    {
    }
}

/// The peer table after a directive: `AddSender` stores the port it carries, over an
/// older one if there is one, and `RemoveSender` takes the entry away.
pub open spec fn commanded_ports(
    ports: Map<NodeId, Sender<Packet>>,
    command: DroneCommand,
) -> Map<NodeId, Sender<Packet>> {
    match command {
        DroneCommand::AddSender(id, port) => ports.insert(id, port),
        DroneCommand::RemoveSender(id) => ports.remove(id),
        _ => ports,
    }
}

/// The state and the effects of a record, taken together.
pub open spec fn step_of(state: NodeState, log: Seq<Action>) -> Step {
    Step { state, effects: effects_of(log) }
}

/// The record of a dispatch that did nothing.
fn no_action() -> (log: Vec<Action>)
    ensures
        effects_of(log@) == Seq::<Effect>::empty(),
{
    let log: Vec<Action> = Vec::new();
    assert(effects_of(log@) =~= Seq::empty());
    log
}

/// Builds the negative acknowledgment for a packet: the traveled part of its route in
/// reverse, the index on the first node of the way back, the fragment the packet carried
/// (0 where it carried none), and the packet's session.
pub fn build_nack(packet: &Packet, nack_type: NackType) -> (nack: Packet)
    ensures
        nack@ == nack_for(packet@, nack_type),
{
    let hops = &packet.routing_header.hops;
    let count: usize = if packet.routing_header.hop_index < hops.len() {
        packet.routing_header.hop_index + 1
    } else {
        hops.len()
    };
    let mut reversed: Vec<NodeId> = Vec::new();
    let mut left: usize = count;
    while left > 0
        invariant
            left <= count <= hops.len(),
            reversed.len() == count - left,
            forall|j: int| 0 <= j < reversed.len() ==> reversed@[j] == hops@[count - 1 - j],
        decreases left,
    {
        left -= 1;
        reversed.push(hops[left]);
    }
    assert(reversed@ =~= traveled(packet@.route).reverse());
    let fragment_index: u64 = match &packet.pack_type {
        PacketType::MsgFragment(fragment) => fragment.fragment_index,
        _ => 0,
    };
    Packet {
        pack_type: PacketType::Nack(Nack { fragment_index, nack_type }),
        routing_header: SourceRoutingHeader { hop_index: 1, hops: reversed },
        session_id: packet.session_id,
    }
}

impl RustDrone {
    /// The node that the packet's route names as currently responsible for it.
    pub fn get_current_hop(packet: &Packet) -> (hop: Option<NodeId>)
        ensures
            hop == packet@.route.current_hop(),
    {
        let header = &packet.routing_header;
        if header.hop_index < header.hops.len() {
            Some(header.hops[header.hop_index])
        } else {
            None
        }
    }

    /// The node after the current one on the packet's route.
    pub fn get_next_hop(packet: &Packet) -> (hop: Option<NodeId>)
        ensures
            hop == packet@.route.next_hop(),
    {
        let header = &packet.routing_header;
        if header.hop_index < header.hops.len() && header.hop_index + 1 < header.hops.len() {
            Some(header.hops[header.hop_index + 1])
        } else {
            None
        }
    }

    /// A node in its first lifecycle state, with the given peers and no flood processed.
    /// The drop rate is the bit pattern of a single-precision number.
    pub fn new(
        id: NodeId,
        controller_send: Sender<DroneEvent>,
        packet_send: HashMap<NodeId, Sender<Packet>>,
        pdr: u32,
    ) -> (drone: RustDrone)
        ensures
            drone@ == (NodeState {
                id,
                pdr,
                peers: packet_send@.dom(),
                seen: Set::<u64>::empty(),
                phase: DroneState::Created,
            }),
            drone.ports() == packet_send@,
            drone.controller() == controller_send,
    {
        RustDrone {
            id,
            controller_send,
            pdr,
            packet_send,
            seen_flood_requests: HashSet::new(),
            state: DroneState::Created,
        }
    }

    /// Hands a report to the control plane and records it. The control plane's answer
    /// is not looked at: a report that cannot be taken is lost and nothing else changes.
    fn report(&self, event: DroneEvent, log: &mut Vec<Action>)
        ensures
            final(log)@ == old(log)@.push(Action::Report { event }),
    {
        let _ = try_send(&self.controller_send, event.duplicate());
        log.push(Action::Report { event });
    }

    /// Acts on the answer that the port of `dest` gave to a delivery attempt, and records
    /// the attempt. A sent packet is reported as sent. A port whose receiving end is gone
    /// is taken out of the peer table and the packet is reported as dropped. A full port
    /// stays, and nothing is reported. Where `dest` is no peer there was no attempt, and
    /// nothing happens.
    pub fn settle_delivery(&mut self, dest: NodeId, packet: Packet, outcome: SendOutcome) -> (log:
        Vec<Action>)
        ensures
            step_of(final(self)@, log@) == delivery(old(self)@, dest, packet@, outcome),
            final(self).ports() == old(self).ports().restrict(final(self)@.peers),
            final(self).controller() == old(self).controller(),
    {
        if !self.packet_send.contains_key(&dest) {
            return no_action();
        }
        let mut log: Vec<Action> = Vec::new();
        log.push(Action::Delivery { to: dest, packet: packet.duplicate(), outcome });
        match outcome {
            SendOutcome::Sent => {
                self.report(DroneEvent::PacketSent(packet), &mut log);
            },
            SendOutcome::Disconnected => {
                self.packet_send.remove(&dest);
                self.report(DroneEvent::PacketDropped(packet), &mut log);
            },
            SendOutcome::Full => {},
        }
        assert(effects_of(log@) =~= delivery(old(self)@, dest, packet@, outcome).effects);
        log
    }

    /// Tries once, without blocking, to hand the packet to the port of `dest`, and acts
    /// on the port's answer. The first entry of the record holds that answer.
    pub fn deliver_packet(&mut self, dest: NodeId, packet: Packet) -> (log: Vec<Action>)
        ensures
            step_of(final(self)@, log@) == delivery(
                old(self)@,
                dest,
                packet@,
                outcome_at(outcomes_of(effects_of(log@)), 0),
            ),
            final(self).ports() == old(self).ports().restrict(final(self)@.peers),
            final(self).controller() == old(self).controller(),
    {
        let outcome = match self.packet_send.get(&dest) {
            Some(port) => try_send(port, packet.duplicate()),
            None => {
                return no_action();
            },
        };
        let log = self.settle_delivery(dest, packet, outcome);
        proof {
            reveal_with_fuel(outcomes_of, 3);
            assert(outcomes_of(effects_of(log@)) =~= seq![outcome]);
        }
        log
    }

    /// Sends the negative acknowledgment for a packet one hop back along the way the
    /// packet came.
    pub fn return_nack(&mut self, packet: &Packet, nack_type: NackType) -> (log: Vec<Action>)
        ensures
            step_of(final(self)@, log@) == nack_return(
                old(self)@,
                packet@,
                nack_type,
                outcomes_of(effects_of(log@)),
            ),
            final(self).ports() == old(self).ports().restrict(final(self)@.peers),
            final(self).controller() == old(self).controller(),
    {
        let nack = build_nack(packet, nack_type);
        if nack.routing_header.hops.len() > 1 {
            let dest = nack.routing_header.hops[1];
            self.deliver_packet(dest, nack)
        } else {
            no_action()
        }
    }

    /// Forwards a packet that names this node as its current hop. `sample` is the bit
    /// pattern of the uniform sample drawn for this packet; it decides only the fate of
    /// a fragment.
    pub fn route_packet(&mut self, packet: Packet, sample: u32) -> (log: Vec<Action>)
        ensures
            step_of(final(self)@, log@) == routing(
                old(self)@,
                packet@,
                sample,
                outcomes_of(effects_of(log@)),
            ),
            final(self).ports() == old(self).ports().restrict(final(self)@.peers),
            final(self).controller() == old(self).controller(),
    {
        let mut packet = packet;
        let next_hop = match Self::get_next_hop(&packet) {
            Some(next_hop) => next_hop,
            None => {
                if let PacketType::Nack(_) = &packet.pack_type {
                    return no_action();
                }
                return self.return_nack(&packet, NackType::DestinationIsDrone);
            },
        };
        if !self.packet_send.contains_key(&next_hop) {
            if let PacketType::Nack(_) = &packet.pack_type {
                return no_action();
            }
            return self.return_nack(&packet, NackType::ErrorInRouting(next_hop));
        }
        let is_fragment = match &packet.pack_type {
            PacketType::MsgFragment(_) => true,
            _ => false,
        };
        if is_fragment && !passes(sample, self.pdr) {
            let mut log: Vec<Action> = Vec::new();
            self.report(DroneEvent::PacketDropped(packet.duplicate()), &mut log);
            let mut back = self.return_nack(&packet, NackType::Dropped);
            let ghost first = effects_of(log@);
            let ghost rest = effects_of(back@);
            log.append(&mut back);
            proof {
                assert(effects_of(log@) =~= first + rest);
                assert(first =~= seq![Effect::Report { event: Event::PacketDropped(packet@) }]);
                lemma_outcomes_of_concat(first, rest);
                reveal_with_fuel(outcomes_of, 2);
                assert(outcomes_of(first) =~= Seq::empty());
                assert(outcomes_of(first) + outcomes_of(rest) =~= outcomes_of(rest));
            }
            log
        } else {
            let ghost before = packet@;
            assert(packet.routing_header.hop_index + 1 < packet.routing_header.hops.len());
            packet.routing_header.hop_index += 1;
            assert(packet@ == before.advanced());
            self.deliver_packet(next_hop, packet)
        }
    }

    /// Answers a flood to the neighbour it came from. The response carries the request's
    /// trace and is routed along that trace in reverse.
    pub fn return_flood_response(
        &mut self,
        flood_request: FloodRequest,
        neighbour: NodeId,
        session_id: u64,
    ) -> (log: Vec<Action>)
        ensures
            step_of(final(self)@, log@) == delivery(
                old(self)@,
                neighbour,
                flood_response_for(flood_request.flood_id, flood_request.path_trace@, session_id),
                outcome_at(outcomes_of(effects_of(log@)), 0),
            ),
            final(self).ports() == old(self).ports().restrict(final(self)@.peers),
            final(self).controller() == old(self).controller(),
    {
        let trace = &flood_request.path_trace;
        let mut hops: Vec<NodeId> = Vec::new();
        let mut left: usize = trace.len();
        while left > 0
            invariant
                left <= trace.len(),
                hops.len() == trace.len() - left,
                forall|j: int| 0 <= j < hops.len() ==> hops@[j] == trace@[trace.len() - 1 - j].0,
            decreases left,
        {
            left -= 1;
            hops.push(trace[left].0);
        }
        assert(hops@ =~= trace_ids(trace@).reverse());
        let flood_response = Packet {
            pack_type: PacketType::FloodResponse(
                FloodResponse {
                    flood_id: flood_request.flood_id,
                    path_trace: flood_request.path_trace,
                },
            ),
            routing_header: SourceRoutingHeader { hop_index: 1, hops },
            session_id,
        };
        self.deliver_packet(neighbour, flood_response)
    }

    /// The peers in ascending order of their ids, without `skip` where one is given.
    fn list_peers(&self, skip: Option<NodeId>) -> (listed: Vec<NodeId>)
        ensures
            listed@ == peers_below(
                match skip {
                    Some(id) => self@.peers.remove(id),
                    None => self@.peers,
                },
                256,
            ),
    {
        let ghost wanted = match skip {
            Some(id) => self@.peers.remove(id),
            None => self@.peers,
        };
        let mut listed: Vec<NodeId> = Vec::new();
        let mut id: NodeId = 0;
        loop
            invariant_except_break
                listed@ == peers_below(wanted, id as nat),
                wanted == match skip {
                    Some(id) => self@.peers.remove(id),
                    None => self@.peers,
                },
            ensures
                listed@ == peers_below(wanted, 256),
            decreases 255 - id,
        {
            let skipped = match skip {
                Some(other) => other == id,
                None => false,
            };
            if !skipped && self.packet_send.contains_key(&id) {
                listed.push(id);
            }
            assert(listed@ == peers_below(wanted, (id + 1) as nat));
            if id == 255 {
                break ;
            }
            id += 1;
        }
        listed
    }

    /// The node's identifier.
    pub fn id(&self) -> (id: NodeId)
        ensures
            id == self@.id,
    {
        self.id
    }

    /// The drop rate, as the bit pattern of a single-precision number.
    pub fn pdr(&self) -> (pdr: u32)
        ensures
            pdr == self@.pdr,
    {
        self.pdr
    }

    /// The lifecycle state.
    pub fn state(&self) -> (state: DroneState)
        ensures
            state == self@.phase,
    {
        self.state
    }

    /// Whether the node has an output port for `id`.
    pub fn is_connected(&self, id: NodeId) -> (connected: bool)
        ensures
            connected == self@.peers.contains(id),
    {
        self.packet_send.contains_key(&id)
    }

    /// Whether the node has processed the flood `flood_id`.
    pub fn has_seen(&self, flood_id: u64) -> (seen: bool)
        ensures
            seen == self@.seen.contains(flood_id),
    {
        self.seen_flood_requests.contains(&flood_id)
    }

    /// The connected peers, in ascending order of their ids.
    pub fn neighbours(&self) -> (listed: Vec<NodeId>)
        ensures
            listed@ == peers_below(self@.peers, 256),
    {
        self.list_peers(None)
    }

    /// Handles a flood request. The node adds itself to the trace; a flood it has seen
    /// before, or one it has nobody to pass on to, is answered to the node it came
    /// from, and a new one is recorded and passed on to every other peer.
    pub fn handle_flood_request(&mut self, flood_request: FloodRequest, session_id: u64) -> (log:
        Vec<Action>)
        ensures
            step_of(final(self)@, log@) == flooding(
                old(self)@,
                flood_request.flood_id,
                flood_request.initiator_id,
                flood_request.path_trace@,
                session_id,
                outcomes_of(effects_of(log@)),
            ),
            final(self).ports() == old(self).ports().restrict(final(self)@.peers),
            final(self).controller() == old(self).controller(),
    {
        let mut flood_request = flood_request;
        let ghost received = flood_request.path_trace@;
        if flood_request.path_trace.len() == 0 {
            return no_action();
        }
        let sender_id = flood_request.path_trace[flood_request.path_trace.len() - 1].0;
        flood_request.path_trace.push((self.id, NodeType::Drone));
        assert(flood_request.path_trace@ == received.push((self.id, NodeType::Drone)));

        if self.seen_flood_requests.contains(&flood_request.flood_id) {
            return self.return_flood_response(flood_request, sender_id, session_id);
        }
        self.seen_flood_requests.insert(flood_request.flood_id);
        if self.packet_send.len() <= 1 {
            return self.return_flood_response(flood_request, sender_id, session_id);
        }
        let targets = self.list_peers(Some(sender_id));
        let ghost start = self@;
        let ghost message = flood_request_for(
            flood_request.flood_id,
            flood_request.initiator_id,
            flood_request.path_trace@,
            session_id,
        );
        proof {
            lemma_peers_below_ascending(start.peers.remove(sender_id), 256);
        }
        let mut log = no_action();
        let mut k: usize = 0;
        while k < targets.len()
            invariant
                k <= targets.len(),
                outcomes_of(effects_of(log@)).len() == k,
                step_of(self@, log@) == fan_out(
                    start,
                    targets@.take(k as int),
                    message,
                    outcomes_of(effects_of(log@)),
                ),
                forall|j: int| k <= j < targets.len() ==> self@.peers.contains(targets@[j]),
                self.ports() == old(self).ports().restrict(self@.peers),
                self.controller() == old(self).controller(),
                forall|i: int, j: int| 0 <= i < j < targets.len() ==> targets@[i] < targets@[j],
                message == flood_request_for(
                    flood_request.flood_id,
                    flood_request.initiator_id,
                    flood_request.path_trace@,
                    session_id,
                ),
            decreases targets.len() - k,
        {
            let target = targets[k];
            let copy = Packet {
                pack_type: PacketType::FloodRequest(
                    FloodRequest {
                        flood_id: flood_request.flood_id,
                        initiator_id: flood_request.initiator_id,
                        path_trace: copy_trace(&flood_request.path_trace),
                    },
                ),
                routing_header: SourceRoutingHeader { hop_index: 0, hops: Vec::new() },
                session_id,
            };
            assert(copy@ == message);
            let ghost before = self@;
            let ghost done = effects_of(log@);
            let mut attempt = self.deliver_packet(target, copy);
            let ghost made = effects_of(attempt@);
            log.append(&mut attempt);
            proof {
                reveal_with_fuel(outcomes_of, 3);
                let answers = outcomes_of(done);
                let answer = outcome_at(outcomes_of(made), 0);
                assert(before.peers.contains(target));
                assert(outcomes_of(made) =~= seq![answer]);
                assert(effects_of(log@) =~= done + made);
                lemma_outcomes_of_concat(done, made);
                let extended = outcomes_of(done + made);
                assert(extended =~= answers.push(answer));
                let sent = targets@.take(k as int);
                let next = targets@.take(k + 1);
                assert(next.drop_last() =~= sent);
                assert(next.last() == target);
                lemma_fan_out_reads_prefix(start, sent, message, answers, extended);
                assert(outcome_at(extended, next.len() - 1) == answer);
                assert forall|j: int| k + 1 <= j < targets.len() implies self@.peers.contains(
                    targets@[j],
                ) by {
                    assert(targets@[k as int] < targets@[j]);
                }
            }
            k += 1;
        }
        assert(targets@.take(k as int) =~= targets@);
        log
    }

    /// Handles one packet. `sample` is the bit pattern of the uniform sample drawn for
    /// it. The record lists every delivery attempt and every report, in order.
    pub fn handle_packet(&mut self, packet: Packet, sample: u32) -> (log: Vec<Action>)
        ensures
            step_of(final(self)@, log@) == handling(
                old(self)@,
                packet@,
                sample,
                outcomes_of(effects_of(log@)),
            ),
            final(self).ports() == old(self).ports().restrict(final(self)@.peers),
            final(self).controller() == old(self).controller(),
    {
        if let DroneState::Crashing = self.state {
            match &packet.pack_type {
                PacketType::FloodRequest(_) => {
                    return no_action();
                },
                PacketType::MsgFragment(_) => {
                    return self.return_nack(&packet, NackType::ErrorInRouting(self.id));
                },
                _ => {},
            }
        }
        let ghost message = packet@;
        let Packet { pack_type, routing_header, session_id } = packet;
        match pack_type {
            PacketType::FloodRequest(flood_request) => self.handle_flood_request(
                flood_request,
                session_id,
            ),
            other => {
                let mut packet = Packet { pack_type: other, routing_header, session_id };
                assert(packet@ == message);
                match Self::get_current_hop(&packet) {
                    None => {
                        no_action()
                    },
                    Some(current_hop) => {
                        let is_nack = match &packet.pack_type {
                            PacketType::Nack(_) => true,
                            _ => false,
                        };
                        if current_hop == self.id {
                            self.route_packet(packet, sample)
                        } else if is_nack {
                            no_action()
                        } else {
                            let index = packet.routing_header.hop_index;
                            packet.routing_header.hops[index] = self.id;
                            assert(packet@ == readdressed(message, self.id));
                            self.return_nack(&packet, NackType::UnexpectedRecipient(self.id))
                        }
                    },
                }
            },
        }
    }

    /// Obeys one directive of the control plane, and says whether the event loop is to
    /// leave its first phase.
    pub fn handle_command(&mut self, command: DroneCommand) -> (result: CommandResult)
        ensures
            final(self)@ == commanded(old(self)@, command@),
            final(self).ports() == commanded_ports(old(self).ports(), command),
            final(self).controller() == old(self).controller(),
            result is Quit <==> command is Crash,
    {
        match command {
            DroneCommand::AddSender(node_id, sender) => {
                self.packet_send.insert(node_id, sender);
                assert(self@.peers =~= old(self)@.peers.insert(node_id));
                CommandResult::Continue
            },
            DroneCommand::RemoveSender(node_id) => {
                self.packet_send.remove(&node_id);
                assert(self@.peers =~= old(self)@.peers.remove(node_id));
                CommandResult::Continue
            },
            DroneCommand::SetPacketDropRate(pdr) => {
                self.pdr = pdr;
                CommandResult::Continue
            },
            DroneCommand::Crash => {
                match self.state {
                    DroneState::Terminated => {},
                    _ => {
                        self.state = DroneState::Crashing;
                    },
                }
                CommandResult::Quit
            },
        }
    }

    /// One turn of the event loop: takes what the loop received, acts on it, and says
    /// what the loop is to wait for next.
    pub fn step(&mut self, input: DroneInput, sample: u32) -> (turn: (Listen, Vec<Action>))
        ensures
            step_of(final(self)@, turn.1@) == stepping(
                old(self)@,
                input@,
                sample,
                outcomes_of(effects_of(turn.1@)),
            ),
            turn.0 == listening(final(self)@.phase),
            final(self).ports() == match input {
                DroneInput::Command(command) if old(self)@.phase is Created || old(
                    self,
                )@.phase is Running => commanded_ports(old(self).ports(), command),
                _ => old(self).ports().restrict(final(self)@.peers),
            },
            final(self).controller() == old(self).controller(),
    {
        if let DroneState::Created = self.state {
            self.state = DroneState::Running;
        }
        let mut log = no_action();
        match self.state {
            DroneState::Terminated => {},
            DroneState::Crashing => match input {
                DroneInput::Command(_) => {},
                DroneInput::Packet(packet) => {
                    log = self.handle_packet(packet, sample);
                },
                DroneInput::Closed => {
                    self.state = DroneState::Terminated;
                },
            },
            _ => match input {
                DroneInput::Command(command) => {
                    let _ = self.handle_command(command);
                },
                DroneInput::Packet(packet) => {
                    log = self.handle_packet(packet, sample);
                },
                DroneInput::Closed => {
                    self.state = DroneState::Terminated;
                },
            },
        }
        let listen = match self.state {
            DroneState::Created => Listen::CommandsAndPackets,
            DroneState::Running => Listen::CommandsAndPackets,
            DroneState::Crashing => Listen::PacketsOnly,
            DroneState::Terminated => Listen::Nothing,
        };
        (listen, log)
    }
}

} // verus!
