//! Laws of the node, proved of the state machine that the handlers are proved to follow.

use vstd::prelude::*;
use crate::loss::{is_unit_sample, ONE_BITS, ZERO_BITS};
use crate::model::{
    commanded, delivery, fan_out, flood_request_for, flood_response_for, flood_targets, flooding,
    handling, idle, listening, nack_for, nack_return, outcome_at, rank, readdressed, started,
    stepping, Directive, DroneState, Effect, Event, Input, Listen, NodeState, SendOutcome, Step,
};
use crate::packet::{Message, NackType, NodeId, NodeType, Payload};

verus! {

/// True when the node routes the message: the message is no flood request, it names this
/// node as its current hop, and the node is not refusing it because it is crashing.
pub open spec fn is_routed(s: NodeState, m: Message) -> bool {
    &&& !(m.payload is FloodRequest)
    &&& m.route.current_hop() == Some(s.id)
    &&& !(s.phase is Crashing && m.payload is Fragment)
}

/// With a drop rate of 0.0 a fragment whose next hop is a peer is always handed to that
/// peer, with its index moved on by one and otherwise unchanged. Where the port takes it,
/// it is reported as sent and nothing else happens.
pub proof fn law_zero_rate_forwards(
    s: NodeState,
    m: Message,
    sample: u32,
    outcomes: Seq<SendOutcome>,
)
    requires
        is_routed(s, m),
        m.payload is Fragment,
        s.pdr == ZERO_BITS,
        is_unit_sample(sample),
        m.route.next_hop() is Some,
        s.peers.contains(m.route.next_hop()->0),
    ensures
        handling(s, m, sample, outcomes) == delivery(
            s,
            m.route.next_hop()->0,
            m.advanced(),
            outcome_at(outcomes, 0),
        ),
        handling(s, m, sample, outcomes).effects[0] == (Effect::Delivery {
            to: m.route.next_hop()->0,
            message: m.advanced(),
            outcome: outcome_at(outcomes, 0),
        }),
        outcome_at(outcomes, 0) is Sent ==> handling(s, m, sample, outcomes) == (Step {
            state: s,
            effects: seq![
                Effect::Delivery {
                    to: m.route.next_hop()->0,
                    message: m.advanced(),
                    outcome: SendOutcome::Sent,
                },
                Effect::Report { event: Event::PacketSent(m.advanced()) },
            ],
        }),
{
}

/// With a drop rate of 1.0 a fragment whose next hop is a peer is never handed on: it is
/// reported as dropped, as it arrived, and a `Dropped` negative acknowledgment goes to
/// the hop before this node.
pub proof fn law_full_rate_drops(
    s: NodeState,
    m: Message,
    sample: u32,
    outcomes: Seq<SendOutcome>,
)
    requires
        is_routed(s, m),
        m.payload is Fragment,
        s.pdr == ONE_BITS,
        is_unit_sample(sample),
        m.route.next_hop() is Some,
        s.peers.contains(m.route.next_hop()->0),
    ensures
        handling(s, m, sample, outcomes).effects == seq![
            Effect::Report { event: Event::PacketDropped(m) },
        ] + nack_return(s, m, NackType::Dropped, outcomes).effects,
        handling(s, m, sample, outcomes).state == nack_return(
            s,
            m,
            NackType::Dropped,
            outcomes,
        ).state,
        m.route.hop_index >= 1 ==> nack_return(s, m, NackType::Dropped, outcomes) == delivery(
            s,
            m.route.hops[m.route.hop_index - 1],
            nack_for(m, NackType::Dropped),
            outcome_at(outcomes, 0),
        ),
        forall|i: int|
            0 <= i < handling(s, m, sample, outcomes).effects.len() ==> !(
            #[trigger] handling(s, m, sample, outcomes).effects[i] matches Effect::Delivery {
                message,
                ..
            } && message.payload is Fragment),
{
    let back = nack_return(s, m, NackType::Dropped, outcomes);
    let nack = nack_for(m, NackType::Dropped);
    assert(handling(s, m, sample, outcomes).effects == seq![
        Effect::Report { event: Event::PacketDropped(m) },
    ] + back.effects);
    assert(nack.payload is Nack);
}

/// Acknowledgments, negative acknowledgments and flood responses are never lost on
/// purpose: what the node does with one depends neither on the sample nor on the drop
/// rate.
pub proof fn law_loss_spares_control_packets(
    s: NodeState,
    m: Message,
    sample: u32,
    other_sample: u32,
    other_pdr: u32,
    outcomes: Seq<SendOutcome>,
)
    requires
        m.payload is Ack || m.payload is Nack || m.payload is FloodResponse,
    ensures
        ({
            let here = handling(s, m, sample, outcomes);
            let there = handling(NodeState { pdr: other_pdr, ..s }, m, other_sample, outcomes);
            &&& there.effects == here.effects
            &&& there.state == NodeState { pdr: other_pdr, ..here.state }
        }),
        is_routed(s, m) && m.route.next_hop() is Some && s.peers.contains(m.route.next_hop()->0)
            ==> handling(s, m, sample, outcomes) == delivery(
            s,
            m.route.next_hop()->0,
            m.advanced(),
            outcome_at(outcomes, 0),
        ),
{
}

/// A routed packet whose next hop is not a peer is answered with `ErrorInRouting` naming
/// that hop, unless it is itself a negative acknowledgment: that one is absorbed. The
/// peers stay as they were unless the port that the answer goes to is found disconnected.
pub proof fn law_unknown_next_hop(s: NodeState, m: Message, sample: u32, outcomes: Seq<SendOutcome>)
    requires
        is_routed(s, m),
        m.route.next_hop() is Some,
        !s.peers.contains(m.route.next_hop()->0),
    ensures
        m.payload is Nack ==> handling(s, m, sample, outcomes) == idle(s),
        !(m.payload is Nack) ==> handling(s, m, sample, outcomes) == nack_return(
            s,
            m,
            NackType::ErrorInRouting(m.route.next_hop()->0),
            outcomes,
        ),
        !(outcome_at(outcomes, 0) is Disconnected) ==> handling(s, m, sample, outcomes).state == s,
{
}

/// A routed packet with no next hop is answered with `DestinationIsDrone`, unless it is
/// itself a negative acknowledgment: that one is absorbed, and nothing is sent.
pub proof fn law_route_ends_here(s: NodeState, m: Message, sample: u32, outcomes: Seq<SendOutcome>)
    requires
        is_routed(s, m),
        m.route.next_hop() is None,
    ensures
        m.payload is Nack ==> handling(s, m, sample, outcomes) == idle(s),
        !(m.payload is Nack) ==> handling(s, m, sample, outcomes) == nack_return(
            s,
            m,
            NackType::DestinationIsDrone,
            outcomes,
        ),
{
}

/// A packet that names another node as its current hop is not routed. It is answered
/// with `UnexpectedRecipient` naming this node, along the way it came, and the answer
/// starts at this node. A negative acknowledgment gets no answer: it is absorbed.
pub proof fn law_wrong_recipient(s: NodeState, m: Message, sample: u32, outcomes: Seq<SendOutcome>)
    requires
        !(m.payload is FloodRequest),
        !(s.phase is Crashing && m.payload is Fragment),
        m.route.current_hop() is Some,
        m.route.current_hop()->0 != s.id,
    ensures
        m.payload is Nack ==> handling(s, m, sample, outcomes) == idle(s),
        !(m.payload is Nack) ==> handling(s, m, sample, outcomes) == nack_return(
            s,
            readdressed(m, s.id),
            NackType::UnexpectedRecipient(s.id),
            outcomes,
        ),
        nack_for(readdressed(m, s.id), NackType::UnexpectedRecipient(s.id)).route.hops[0] == s.id,
        m.route.hop_index >= 1 ==> nack_for(
            readdressed(m, s.id),
            NackType::UnexpectedRecipient(s.id),
        ).route.hops[1] == m.route.hops[m.route.hop_index - 1],
{
}

/// A negative acknowledgment is never answered with another. The node either hands it,
/// as it is, to the next hop of its route, or absorbs it and does nothing.
pub proof fn law_nack_never_answered(
    s: NodeState,
    m: Message,
    sample: u32,
    outcomes: Seq<SendOutcome>,
)
    requires
        m.payload is Nack,
    ensures
        handling(s, m, sample, outcomes) == if is_routed(s, m) && m.route.next_hop() is Some {
            delivery(s, m.route.next_hop()->0, m.advanced(), outcome_at(outcomes, 0))
        } else {
            idle(s)
        },
        forall|i: int|
            0 <= i < handling(s, m, sample, outcomes).effects.len() ==> (
            #[trigger] handling(s, m, sample, outcomes).effects[i] matches Effect::Delivery {
                message,
                ..
            } ==> message == m.advanced()),
{
}

/// The `Crash` directive moves a running node to `Crashing`, from where it listens to
/// packets only; a crashing node terminates in the turn in which it learns that no sender
/// of packets remains.
pub proof fn law_crash_then_terminate(s: NodeState, sample: u32, outcomes: Seq<SendOutcome>)
    requires
        s.phase is Created || s.phase is Running,
    ensures
        ({
            let crashing = stepping(s, Input::Command(Directive::Crash), sample, outcomes).state;
            let ended = stepping(crashing, Input::Closed, sample, outcomes);
            &&& crashing == NodeState { phase: DroneState::Crashing, ..s }
            &&& listening(crashing.phase) == Listen::PacketsOnly
            &&& ended == idle(NodeState { phase: DroneState::Terminated, ..s })
            &&& listening(ended.state.phase) == Listen::Nothing
        }),
{
}

/// A crashing node refuses every fragment with `ErrorInRouting` naming the node itself,
/// and hands no fragment on. It drops flood requests and routes the other kinds as
/// before.
pub proof fn law_crashing_refuses_fragments(
    s: NodeState,
    m: Message,
    sample: u32,
    outcomes: Seq<SendOutcome>,
)
    requires
        s.phase is Crashing,
    ensures
        m.payload is Fragment ==> handling(s, m, sample, outcomes) == nack_return(
            s,
            m,
            NackType::ErrorInRouting(s.id),
            outcomes,
        ),
        m.payload is Fragment ==> forall|i: int|
            0 <= i < handling(s, m, sample, outcomes).effects.len() ==> !(
            #[trigger] handling(s, m, sample, outcomes).effects[i] matches Effect::Delivery {
                message,
                ..
            } && message.payload is Fragment),
        m.payload is FloodRequest ==> handling(s, m, sample, outcomes) == idle(s),
        !(m.payload is Fragment) && !(m.payload is FloodRequest) ==> ({
            let running = NodeState { phase: DroneState::Running, ..s };
            let there = handling(running, m, sample, outcomes);
            &&& handling(s, m, sample, outcomes).effects == there.effects
            &&& handling(s, m, sample, outcomes).state == NodeState {
                phase: DroneState::Crashing,
                ..there.state
            }
        }),
{
    assert(nack_for(m, NackType::ErrorInRouting(s.id)).payload is Nack);
}

/// Removing a sender that is not in the peer table changes nothing.
pub proof fn law_remove_absent_sender(s: NodeState, id: NodeId)
    requires
        !s.peers.contains(id),
    ensures
        commanded(s, Directive::RemoveSender(id)) == s,
{
    assert(s.peers.remove(id) =~= s.peers);
}

/// Adding a sender twice is the same as adding it once.
pub proof fn law_add_sender_idempotent(s: NodeState, id: NodeId)
    ensures
        commanded(commanded(s, Directive::AddSender(id)), Directive::AddSender(id)) == commanded(
            s,
            Directive::AddSender(id),
        ),
{
    assert(s.peers.insert(id).insert(id) =~= s.peers.insert(id));
}

/// A fan-out leaves the node's identity, drop rate, flood record and lifecycle state
/// alone, and takes peers away only.
pub proof fn lemma_fan_out_keeps(
    s: NodeState,
    targets: Seq<NodeId>,
    m: Message,
    outcomes: Seq<SendOutcome>,
)
    ensures
        fan_out(s, targets, m, outcomes).state == (NodeState {
            peers: fan_out(s, targets, m, outcomes).state.peers,
            ..s
        }),
        fan_out(s, targets, m, outcomes).state.peers.subset_of(s.peers),
    decreases targets.len(),
{
    if targets.len() > 0 {
        lemma_fan_out_keeps(s, targets.drop_last(), m, outcomes);
    }
}

/// Handling a packet never changes the node's identity, drop rate or lifecycle state; it
/// never adds a peer, and it never forgets a flood.
pub proof fn law_handling_keeps(s: NodeState, m: Message, sample: u32, outcomes: Seq<SendOutcome>)
    ensures
        ({
            let after = handling(s, m, sample, outcomes).state;
            &&& after.id == s.id
            &&& after.pdr == s.pdr
            &&& after.phase == s.phase
            &&& after.peers.subset_of(s.peers)
            &&& s.seen.subset_of(after.seen)
        }),
{
    if let Payload::FloodRequest { flood_id, initiator_id, path_trace } = m.payload {
        if path_trace.len() > 0 {
            let recorded = NodeState { seen: s.seen.insert(flood_id), ..s };
            let extended = path_trace.push((s.id, NodeType::Drone));
            lemma_fan_out_keeps(
                recorded,
                flood_targets(s.peers, path_trace.last().0),
                flood_request_for(flood_id, initiator_id, extended, m.session_id),
                outcomes,
            );
        }
    }
}

/// A flood is processed at most once: a request for a flood that the node has seen is
/// answered to the neighbour it came from and handed to nobody else, and a request for a
/// new flood is recorded.
pub proof fn law_flood_once(
    s: NodeState,
    flood_id: u64,
    initiator_id: NodeId,
    trace: Seq<(NodeId, NodeType)>,
    session_id: u64,
    outcomes: Seq<SendOutcome>,
)
    requires
        trace.len() > 0,
    ensures
        s.seen.contains(flood_id) ==> flooding(
            s,
            flood_id,
            initiator_id,
            trace,
            session_id,
            outcomes,
        ) == delivery(
            s,
            trace.last().0,
            flood_response_for(
                flood_id,
                trace.push((s.id, NodeType::Drone)),
                session_id,
            ),
            outcome_at(outcomes, 0),
        ),
        flooding(s, flood_id, initiator_id, trace, session_id, outcomes).state.seen.contains(
            flood_id,
        ),
{
    let recorded = NodeState { seen: s.seen.insert(flood_id), ..s };
    lemma_fan_out_keeps(
        recorded,
        flood_targets(s.peers, trace.last().0),
        flood_request_for(
            flood_id,
            initiator_id,
            trace.push((s.id, NodeType::Drone)),
            session_id,
        ),
        outcomes,
    );
}

/// The lifecycle only moves forward: no turn of the event loop takes a node to an
/// earlier state.
pub proof fn law_lifecycle_forward(
    s: NodeState,
    input: Input,
    sample: u32,
    outcomes: Seq<SendOutcome>,
)
    ensures
        rank(stepping(s, input, sample, outcomes).state.phase) >= rank(s.phase),
{
    if let Input::Packet(m) = input {
        law_handling_keeps(started(s), m, sample, outcomes);
    }
}

} // verus!
