//! The messages that travel between nodes, and their mathematical views.

use vstd::prelude::*;

verus! {

/// Identifier of a node, unique within a running network.
pub type NodeId = u8;

/// Role of a node. It is carried in path traces and never read by routing.
#[derive(Clone, Copy, Debug, PartialEq, Eq, Hash, Structural)]
pub enum NodeType {
    Client,
    Drone,
    Server,
}

/// Why a packet could not be forwarded.
#[derive(Clone, Copy, Debug, PartialEq, Eq, Hash, Structural)]
pub enum NackType {
    ErrorInRouting(NodeId),
    DestinationIsDrone,
    Dropped,
    UnexpectedRecipient(NodeId),
}

/// One piece of an application message. Only fragments are subject to simulated loss.
#[derive(Clone, Copy, Debug, PartialEq, Eq)]
pub struct Fragment {
    pub fragment_index: u64,
    pub total_n_fragments: u64,
    pub length: u8,
    pub data: [u8; 128],
}

/// Acknowledgment of one fragment.
#[derive(Clone, Copy, Debug, PartialEq, Eq, Structural)]
pub struct Ack {
    pub fragment_index: u64,
}

/// Negative acknowledgment: the fragment it refers to (0 when there is none) and the reason.
#[derive(Clone, Copy, Debug, PartialEq, Eq, Structural)]
pub struct Nack {
    pub fragment_index: u64,
    pub nack_type: NackType,
}

/// Topology discovery request. `path_trace` lists the nodes visited so far.
#[derive(Clone, Debug, PartialEq, Eq)]
pub struct FloodRequest {
    pub flood_id: u64,
    pub initiator_id: NodeId,
    pub path_trace: Vec<(NodeId, NodeType)>,
}

/// Answer to a flood request, carrying the trace captured where the flood turned back.
#[derive(Clone, Debug, PartialEq, Eq)]
pub struct FloodResponse {
    pub flood_id: u64,
    pub path_trace: Vec<(NodeId, NodeType)>,
}

/// The five kinds of payload.
#[derive(Clone, Debug, PartialEq, Eq)]
pub enum PacketType {
    MsgFragment(Fragment),
    Ack(Ack),
    Nack(Nack),
    FloodRequest(FloodRequest),
    FloodResponse(FloodResponse),
}

/// Source route: the complete list of nodes to traverse, and the position of the node
/// that is currently responsible for the packet.
#[derive(Clone, Debug, PartialEq, Eq)]
pub struct SourceRoutingHeader {
    pub hop_index: usize,
    pub hops: Vec<NodeId>,
}

/// A message in flight.
#[derive(Clone, Debug, PartialEq, Eq)]
pub struct Packet {
    pub pack_type: PacketType,
    pub routing_header: SourceRoutingHeader,
    pub session_id: u64,
}

/// Mathematical value of a source route.
pub struct Route {
    pub hops: Seq<NodeId>,
    pub hop_index: nat,
}

/// Mathematical value of a payload.
pub enum Payload {
    Fragment(Fragment),
    Ack(Ack),
    Nack(Nack),
    FloodRequest { flood_id: u64, initiator_id: NodeId, path_trace: Seq<(NodeId, NodeType)> },
    FloodResponse { flood_id: u64, path_trace: Seq<(NodeId, NodeType)> },
}

/// Mathematical value of a packet.
pub struct Message {
    pub payload: Payload,
    pub route: Route,
    pub session_id: u64,
}

impl View for SourceRoutingHeader {
    type V = Route;

    open spec fn view(&self) -> Route {
        Route { hops: self.hops@, hop_index: self.hop_index as nat }
    }
}

impl View for PacketType {
    type V = Payload;

    open spec fn view(&self) -> Payload {
        match *self {
            PacketType::MsgFragment(f) => Payload::Fragment(f),
            PacketType::Ack(a) => Payload::Ack(a),
            PacketType::Nack(n) => Payload::Nack(n),
            PacketType::FloodRequest(r) => Payload::FloodRequest {
                flood_id: r.flood_id,
                initiator_id: r.initiator_id,
                path_trace: r.path_trace@,
            },
            PacketType::FloodResponse(r) => Payload::FloodResponse {
                flood_id: r.flood_id,
                path_trace: r.path_trace@,
            },
        }
    }
}

impl View for Packet {
    type V = Message;

    open spec fn view(&self) -> Message {
        Message {
            payload: self.pack_type@,
            route: self.routing_header@,
            session_id: self.session_id,
        }
    }
}

impl Route {
    /// The node the route names as currently responsible, if the index is within the route.
    pub open spec fn current_hop(self) -> Option<NodeId> {
        if self.hop_index < self.hops.len() {
            Some(self.hops[self.hop_index as int])
        } else {
            None
        }
    }

    /// The node after the current one, if the route goes on.
    pub open spec fn next_hop(self) -> Option<NodeId> {
        if self.hop_index + 1 < self.hops.len() {
            Some(self.hops[self.hop_index as int + 1])
        } else {
            None
        }
    }

    /// The same route with the index moved to the next node.
    pub open spec fn advanced(self) -> Route {
        Route { hops: self.hops, hop_index: self.hop_index + 1 }
    }
}

impl Payload {
    /// The fragment a negative acknowledgment for this payload refers to.
    pub open spec fn fragment_index(self) -> u64 {
        match self {
            Payload::Fragment(f) => f.fragment_index,
            _ => 0,
        }
    }
}

impl Message {
    /// The same message, handed on to the next node of its route.
    pub open spec fn advanced(self) -> Message {
        Message { payload: self.payload, route: self.route.advanced(), session_id: self.session_id }
    }
}

/// A fresh vector holding the same node ids.
pub fn copy_hops(hops: &Vec<NodeId>) -> (copy: Vec<NodeId>)
    ensures
        copy@ == hops@,
{
    let mut copy: Vec<NodeId> = Vec::new();
    let mut i: usize = 0;
    while i < hops.len()
        invariant
            i <= hops.len(),
            copy@ == hops@.take(i as int),
        decreases hops.len() - i,
    {
        copy.push(hops[i]);
        i += 1;
    }
    copy
}

/// A fresh vector holding the same path trace.
pub fn copy_trace(trace: &Vec<(NodeId, NodeType)>) -> (copy: Vec<(NodeId, NodeType)>)
    ensures
        copy@ == trace@,
{
    let mut copy: Vec<(NodeId, NodeType)> = Vec::new();
    let mut i: usize = 0;
    while i < trace.len()
        invariant
            i <= trace.len(),
            copy@ == trace@.take(i as int),
        decreases trace.len() - i,
    {
        copy.push(trace[i]);
        i += 1;
    }
    copy
}

impl SourceRoutingHeader {
    /// A copy with the same value.
    pub fn duplicate(&self) -> (copy: SourceRoutingHeader)
        ensures
            copy@ == self@,
    {
        SourceRoutingHeader { hop_index: self.hop_index, hops: copy_hops(&self.hops) }
    }
}

impl PacketType {
    /// A copy with the same value.
    pub fn duplicate(&self) -> (copy: PacketType)
        ensures
            copy@ == self@,
    {
        match self {
            PacketType::MsgFragment(f) => PacketType::MsgFragment(*f),
            PacketType::Ack(a) => PacketType::Ack(*a),
            PacketType::Nack(n) => PacketType::Nack(*n),
            PacketType::FloodRequest(r) => PacketType::FloodRequest(
                FloodRequest {
                    flood_id: r.flood_id,
                    initiator_id: r.initiator_id,
                    path_trace: copy_trace(&r.path_trace),
                },
            ),
            PacketType::FloodResponse(r) => PacketType::FloodResponse(
                FloodResponse { flood_id: r.flood_id, path_trace: copy_trace(&r.path_trace) },
            ),
        }
    }
}

impl Packet {
    /// A copy with the same value.
    pub fn duplicate(&self) -> (copy: Packet)
        ensures
            copy@ == self@,
    {
        Packet {
            pack_type: self.pack_type.duplicate(),
            routing_header: self.routing_header.duplicate(),
            session_id: self.session_id,
        }
    }
}

} // verus!
