//! The node as a mathematical state machine: what each dispatch does to the node's state
//! and which deliveries and reports it makes, for every answer the output ports may give.

use vstd::prelude::*;
use crate::loss::sample_passes;
use crate::packet::{Message, Nack, NackType, NodeId, NodeType, Payload, Route};

verus! {

/// Answer of an output port to one non-blocking delivery attempt.
#[derive(Clone, Copy, Debug, PartialEq, Eq, Structural)]
pub enum SendOutcome {
    /// The message is in the port's queue.
    Sent,
    /// The queue had no room.
    Full,
    /// The receiving end is gone.
    Disconnected,
}

/// Lifecycle of a node. A node only ever moves to a later state.
#[derive(Clone, Copy, Debug, PartialEq, Eq, Structural)]
pub enum DroneState {
    Created,
    Running,
    Crashing,
    Terminated,
}

/// What the node owns: its identity, drop rate, connected peers, the floods it has
/// processed, and its lifecycle state.
pub struct NodeState {
    pub id: NodeId,
    pub pdr: u32,
    pub peers: Set<NodeId>,
    pub seen: Set<u64>,
    pub phase: DroneState,
}

/// A report to the control plane.
pub enum Event {
    PacketSent(Message),
    PacketDropped(Message),
}

/// One thing a dispatch did that is visible outside the node.
pub enum Effect {
    /// A delivery attempt to the port of `to`, and the port's answer.
    Delivery { to: NodeId, message: Message, outcome: SendOutcome },
    /// A report handed to the control plane.
    Report { event: Event },
}

/// Result of a dispatch: the node's new state and what it did, in order.
pub struct Step {
    pub state: NodeState,
    pub effects: Seq<Effect>,
}

/// A dispatch that changes nothing and does nothing.
pub open spec fn idle(s: NodeState) -> Step {
    Step { state: s, effects: Seq::empty() }
}

/// The answers of the ports within a run of effects, in order.
pub open spec fn outcomes_of(effects: Seq<Effect>) -> Seq<SendOutcome>
    decreases effects.len(),
{
    if effects.len() == 0 {
        Seq::empty()
    } else {
        match effects.last() {
            Effect::Delivery { outcome, .. } => outcomes_of(effects.drop_last()).push(outcome),
            Effect::Report { .. } => outcomes_of(effects.drop_last()),
        }
    }
}

/// The `k`-th answer, where there is one.
pub open spec fn outcome_at(outcomes: Seq<SendOutcome>, k: int) -> SendOutcome {
    if 0 <= k < outcomes.len() {
        outcomes[k]
    } else {
        SendOutcome::Sent
    }
}

/// One delivery attempt to a connected peer. A sent message is reported as sent. A port
/// whose receiving end is gone loses its place among the peers, and the message is
/// reported as dropped. Any other failure changes and reports nothing. To a node that is
/// not a peer nothing is attempted.
pub open spec fn delivery(s: NodeState, to: NodeId, m: Message, outcome: SendOutcome) -> Step {
    if !s.peers.contains(to) {
        idle(s)
    } else {
        let attempt = Effect::Delivery { to, message: m, outcome };
        match outcome {
            SendOutcome::Sent => Step {
                state: s,
                effects: seq![attempt, Effect::Report { event: Event::PacketSent(m) }],
            },
            SendOutcome::Disconnected => Step {
                state: NodeState { peers: s.peers.remove(to), ..s },
                effects: seq![attempt, Effect::Report { event: Event::PacketDropped(m) }],
            },
            SendOutcome::Full => Step { state: s, effects: seq![attempt] },
        }
    }
}

/// The part of a route that has been traveled, the current node included.
pub open spec fn traveled(route: Route) -> Seq<NodeId> {
    if route.hop_index < route.hops.len() {
        route.hops.take(route.hop_index as int + 1)
    } else {
        route.hops
    }
}

/// The negative acknowledgment for a message: it goes back along the traveled path, with
/// the sending node at index 0 and the index on the first node of the way back.
pub open spec fn nack_for(m: Message, reason: NackType) -> Message {
    Message {
        payload: Payload::Nack(
            Nack { fragment_index: m.payload.fragment_index(), nack_type: reason },
        ),
        route: Route { hops: traveled(m.route).reverse(), hop_index: 1 },
        session_id: m.session_id,
    }
}

/// Sends the negative acknowledgment one hop back. Where the way back has no second node
/// nothing is sent.
pub open spec fn nack_return(
    s: NodeState,
    m: Message,
    reason: NackType,
    outcomes: Seq<SendOutcome>,
) -> Step {
    let nack = nack_for(m, reason);
    if nack.route.hops.len() > 1 {
        delivery(s, nack.route.hops[1], nack, outcome_at(outcomes, 0))
    } else {
        idle(s)
    }
}

/// Forwarding of a message that is addressed to this node. A message that cannot go on is
/// answered with a negative acknowledgment, unless it is one itself: that one is absorbed.
pub open spec fn routing(s: NodeState, m: Message, sample: u32, outcomes: Seq<SendOutcome>) -> Step {
    match m.route.next_hop() {
        None => if m.payload is Nack {
            idle(s)
        } else {
            nack_return(s, m, NackType::DestinationIsDrone, outcomes)
        },
        Some(next) => if !s.peers.contains(next) {
            if m.payload is Nack {
                idle(s)
            } else {
                nack_return(s, m, NackType::ErrorInRouting(next), outcomes)
            }
        } else if m.payload is Fragment && !sample_passes(sample, s.pdr) {
            let back = nack_return(s, m, NackType::Dropped, outcomes);
            Step {
                state: back.state,
                effects: seq![Effect::Report { event: Event::PacketDropped(m) }] + back.effects,
            }
        } else {
            delivery(s, next, m.advanced(), outcome_at(outcomes, 0))
        },
    }
}

/// The node ids of a path trace, in order.
pub open spec fn trace_ids(trace: Seq<(NodeId, NodeType)>) -> Seq<NodeId> {
    trace.map_values(|entry: (NodeId, NodeType)| entry.0)
}

/// The response to a flood: it carries the trace and travels it backwards.
pub open spec fn flood_response_for(
    flood_id: u64,
    trace: Seq<(NodeId, NodeType)>,
    session_id: u64,
) -> Message {
    Message {
        payload: Payload::FloodResponse { flood_id, path_trace: trace },
        route: Route { hops: trace_ids(trace).reverse(), hop_index: 1 },
        session_id,
    }
}

/// The copy of a flood request that is handed to a neighbour. It carries no source route.
pub open spec fn flood_request_for(
    flood_id: u64,
    initiator_id: NodeId,
    trace: Seq<(NodeId, NodeType)>,
    session_id: u64,
) -> Message {
    Message {
        payload: Payload::FloodRequest { flood_id, initiator_id, path_trace: trace },
        route: Route { hops: Seq::empty(), hop_index: 0 },
        session_id,
    }
}

/// The peers with an id below `bound`, in ascending order.
pub open spec fn peers_below(peers: Set<NodeId>, bound: nat) -> Seq<NodeId>
    decreases bound,
{
    if bound == 0 {
        Seq::empty()
    } else {
        let id = (bound - 1) as NodeId;
        if peers.contains(id) {
            peers_below(peers, (bound - 1) as nat).push(id)
        } else {
            peers_below(peers, (bound - 1) as nat)
        }
    }
}

/// The neighbours a flood request is handed to: every peer but the one it came from.
pub open spec fn flood_targets(peers: Set<NodeId>, predecessor: NodeId) -> Seq<NodeId> {
    peers_below(peers.remove(predecessor), 256)
}

/// Delivery of one message to each target in turn; the `k`-th target gets the `k`-th answer.
pub open spec fn fan_out(
    s: NodeState,
    targets: Seq<NodeId>,
    m: Message,
    outcomes: Seq<SendOutcome>,
) -> Step
    decreases targets.len(),
{
    if targets.len() == 0 {
        idle(s)
    } else {
        let before = fan_out(s, targets.drop_last(), m, outcomes);
        let last = delivery(
            before.state,
            targets.last(),
            m,
            outcome_at(outcomes, targets.len() - 1),
        );
        Step { state: last.state, effects: before.effects + last.effects }
    }
}

/// Handling of a flood request. The node adds itself to the trace. A flood it has seen,
/// or one it cannot pass on, is answered to the node it came from; a new one is recorded
/// and handed to every other peer.
pub open spec fn flooding(
    s: NodeState,
    flood_id: u64,
    initiator_id: NodeId,
    trace: Seq<(NodeId, NodeType)>,
    session_id: u64,
    outcomes: Seq<SendOutcome>,
) -> Step {
    if trace.len() == 0 {
        idle(s)
    } else {
        let predecessor = trace.last().0;
        let extended = trace.push((s.id, NodeType::Drone));
        let response = flood_response_for(flood_id, extended, session_id);
        if s.seen.contains(flood_id) {
            delivery(s, predecessor, response, outcome_at(outcomes, 0))
        } else {
            let recorded = NodeState { seen: s.seen.insert(flood_id), ..s };
            if s.peers.len() > 1 {
                fan_out(
                    recorded,
                    flood_targets(s.peers, predecessor),
                    flood_request_for(flood_id, initiator_id, extended, session_id),
                    outcomes,
                )
            } else {
                delivery(recorded, predecessor, response, outcome_at(outcomes, 0))
            }
        }
    }
}

/// The message with this node written over the current entry of its route.
pub open spec fn readdressed(m: Message, id: NodeId) -> Message {
    Message {
        payload: m.payload,
        route: Route { hops: m.route.hops.update(m.route.hop_index as int, id), ..m.route },
        session_id: m.session_id,
    }
}

/// Handling of any packet.
///
/// A crashing node drops flood requests and refuses fragments. Otherwise flood requests
/// go to the flood engine. Any other packet must name this node as its current hop: one
/// that names nobody is dropped, one that names another node is refused, and one that
/// names this node is routed. A negative acknowledgment is never answered with another:
/// where it would be refused it is absorbed.
pub open spec fn handling(s: NodeState, m: Message, sample: u32, outcomes: Seq<SendOutcome>) -> Step {
    if s.phase is Crashing && m.payload is FloodRequest {
        idle(s)
    } else if s.phase is Crashing && m.payload is Fragment {
        nack_return(s, m, NackType::ErrorInRouting(s.id), outcomes)
    } else {
        match m.payload {
            Payload::FloodRequest { flood_id, initiator_id, path_trace } => flooding(
                s,
                flood_id,
                initiator_id,
                path_trace,
                m.session_id,
                outcomes,
            ),
            _ => match m.route.current_hop() {
                None => idle(s),
                Some(hop) => if hop == s.id {
                    routing(s, m, sample, outcomes)
                } else if m.payload is Nack {
                    idle(s)
                } else {
                    nack_return(
                        s,
                        readdressed(m, s.id),
                        NackType::UnexpectedRecipient(s.id),
                        outcomes,
                    )
                },
            },
        }
    }
}

/// A directive of the control plane, without the port that `AddSender` carries.
pub enum Directive {
    AddSender(NodeId),
    RemoveSender(NodeId),
    SetPacketDropRate(u32),
    Crash,
}

/// The state after a directive. A terminated node stays terminated.
pub open spec fn commanded(s: NodeState, d: Directive) -> NodeState {
    match d {
        Directive::AddSender(id) => NodeState { peers: s.peers.insert(id), ..s },
        Directive::RemoveSender(id) => NodeState { peers: s.peers.remove(id), ..s },
        Directive::SetPacketDropRate(pdr) => NodeState { pdr, ..s },
        Directive::Crash => if s.phase is Terminated {
            s
        } else {
            NodeState { phase: DroneState::Crashing, ..s }
        },
    }
}

/// Position of a lifecycle state in the order in which states are passed through.
pub open spec fn rank(phase: DroneState) -> nat {
    match phase {
        DroneState::Created => 0,
        DroneState::Running => 1,
        DroneState::Crashing => 2,
        DroneState::Terminated => 3,
    }
}

/// What the event loop received: a directive, a packet, or the news that no sender of
/// packets remains.
pub enum Input {
    Command(Directive),
    Packet(Message),
    Closed,
}

/// What the event loop waits for.
#[derive(Clone, Copy, Debug, PartialEq, Eq, Structural)]
pub enum Listen {
    /// Directives and packets, directives first.
    CommandsAndPackets,
    /// Packets only.
    PacketsOnly,
    /// Nothing: the loop returns.
    Nothing,
}

/// What a node in the given lifecycle state waits for.
pub open spec fn listening(phase: DroneState) -> Listen {
    match phase {
        DroneState::Created => Listen::CommandsAndPackets,
        DroneState::Running => Listen::CommandsAndPackets,
        DroneState::Crashing => Listen::PacketsOnly,
        DroneState::Terminated => Listen::Nothing,
    }
}

/// The node once its event loop has been entered.
pub open spec fn started(s: NodeState) -> NodeState {
    if s.phase is Created {
        NodeState { phase: DroneState::Running, ..s }
    } else {
        s
    }
}

/// The node once its event loop has returned.
pub open spec fn terminated(s: NodeState) -> NodeState {
    NodeState { phase: DroneState::Terminated, ..s }
}

/// One turn of the event loop. A running node obeys directives and handles packets. A
/// crashing node handles packets and no longer hears directives. Either ends when no
/// sender of packets remains. A terminated node does nothing.
pub open spec fn stepping(s: NodeState, input: Input, sample: u32, outcomes: Seq<SendOutcome>) -> Step {
    let s = started(s);
    match s.phase {
        DroneState::Terminated => idle(s),
        DroneState::Crashing => match input {
            Input::Command(_) => idle(s),
            Input::Packet(m) => handling(s, m, sample, outcomes),
            Input::Closed => idle(terminated(s)),
        },
        _ => match input {
            Input::Command(d) => idle(commanded(s, d)),
            Input::Packet(m) => handling(s, m, sample, outcomes),
            Input::Closed => idle(terminated(s)),
        },
    }
}

/// The answers within two runs of effects put together are the answers of the first
/// followed by those of the second.
pub proof fn lemma_outcomes_of_concat(a: Seq<Effect>, b: Seq<Effect>)
    ensures
        outcomes_of(a + b) == outcomes_of(a) + outcomes_of(b),
    decreases b.len(),
{
    if b.len() == 0 {
        assert(a + b =~= a);
        assert(outcomes_of(a) + outcomes_of(b) =~= outcomes_of(a));
    } else {
        assert((a + b).drop_last() =~= a + b.drop_last());
        assert((a + b).last() == b.last());
        lemma_outcomes_of_concat(a, b.drop_last());
        match b.last() {
            Effect::Delivery { outcome, .. } => {
                assert((outcomes_of(a) + outcomes_of(b.drop_last())).push(outcome) =~= outcomes_of(
                    a,
                ) + outcomes_of(b.drop_last()).push(outcome));
            },
            Effect::Report { .. } => {},
        }
    }
}

/// The peers below a bound are peers, lie below the bound, and come in ascending order.
pub proof fn lemma_peers_below_ascending(peers: Set<NodeId>, bound: nat)
    requires
        bound <= 256,
    ensures
        forall|i: int|
            0 <= i < peers_below(peers, bound).len() ==> {
                &&& peers.contains(#[trigger] peers_below(peers, bound)[i])
                &&& peers_below(peers, bound)[i] < bound
            },
        forall|i: int, j: int|
            0 <= i < j < peers_below(peers, bound).len() ==> peers_below(peers, bound)[i]
                < peers_below(peers, bound)[j],
    decreases bound,
{
    if bound > 0 {
        let lower = peers_below(peers, (bound - 1) as nat);
        let all = peers_below(peers, bound);
        let id = (bound - 1) as NodeId;
        lemma_peers_below_ascending(peers, (bound - 1) as nat);
        assert(all == if peers.contains(id) {
            lower.push(id)
        } else {
            lower
        });
        assert forall|i: int| 0 <= i < all.len() implies peers.contains(#[trigger] all[i])
            && all[i] < bound by {
            if i < lower.len() {
                assert(all[i] == lower[i]);
            }
        }
        assert forall|i: int, j: int| 0 <= i < j < all.len() implies all[i] < all[j] by {
            assert(all[i] == lower[i]);
            if j < lower.len() {
                assert(all[j] == lower[j]);
            }
        }
    }
}

/// A fan-out reads only the answers given to its own targets.
pub proof fn lemma_fan_out_reads_prefix(
    s: NodeState,
    targets: Seq<NodeId>,
    m: Message,
    a: Seq<SendOutcome>,
    b: Seq<SendOutcome>,
)
    requires
        forall|k: int| 0 <= k < targets.len() ==> outcome_at(a, k) == outcome_at(b, k),
    ensures
        fan_out(s, targets, m, a) == fan_out(s, targets, m, b),
    decreases targets.len(),
{
    if targets.len() > 0 {
        lemma_fan_out_reads_prefix(s, targets.drop_last(), m, a, b);
    }
}

} // verus!
