//! Single nodes driven by hand: every decision of the router, the flood engine, the
//! command handler and the lifecycle, checked on the record each dispatch returns and on
//! what arrives in the channels.

use crossbeam::channel::{bounded, unbounded, Receiver, Sender};
use rand::Rng;
use std::collections::HashMap;

use rust_drone::drone::{build_nack, RustDrone};
use rust_drone::event::{Action, CommandResult, DroneCommand, DroneEvent, DroneInput};
use rust_drone::loss::passes;
use rust_drone::model::{DroneState, Listen, SendOutcome};
use rust_drone::packet::{
    copy_hops, copy_trace, Ack, FloodRequest, FloodResponse, Fragment, Nack, NackType, NodeId,
    NodeType, Packet, PacketType, SourceRoutingHeader,
};

const ZERO: u32 = 0;
const ONE: u32 = 0x3f80_0000;

fn bits(x: f32) -> u32 {
    x.to_bits()
}

fn fragment(fragment_index: u64) -> PacketType {
    let mut data = [0u8; 128];
    data[0] = 42;
    data[127] = 7;
    PacketType::MsgFragment(Fragment { fragment_index, total_n_fragments: 9, length: 128, data })
}

fn packet(pack_type: PacketType, hops: Vec<NodeId>, hop_index: usize, session_id: u64) -> Packet {
    Packet { pack_type, routing_header: SourceRoutingHeader { hop_index, hops }, session_id }
}

fn nack(fragment_index: u64, nack_type: NackType) -> PacketType {
    PacketType::Nack(Nack { fragment_index, nack_type })
}

struct Bench {
    drone: RustDrone,
    events: Receiver<DroneEvent>,
    inboxes: HashMap<NodeId, Receiver<Packet>>,
}

/// A drone with an unbounded channel to each of the given peers.
fn bench(id: NodeId, pdr: f32, peers: &[NodeId]) -> Bench {
    let (controller_send, events) = unbounded();
    let mut packet_send: HashMap<NodeId, Sender<Packet>> = HashMap::new();
    let mut inboxes = HashMap::new();
    for peer in peers {
        let (send, recv) = unbounded();
        packet_send.insert(*peer, send);
        inboxes.insert(*peer, recv);
    }
    Bench { drone: RustDrone::new(id, controller_send, packet_send, bits(pdr)), events, inboxes }
}

fn delivered(to: NodeId, packet: &Packet, outcome: SendOutcome) -> Action {
    Action::Delivery { to, packet: packet.clone(), outcome }
}

fn reported_sent(packet: &Packet) -> Action {
    Action::Report { event: DroneEvent::PacketSent(packet.clone()) }
}

fn reported_dropped(packet: &Packet) -> Action {
    Action::Report { event: DroneEvent::PacketDropped(packet.clone()) }
}

#[test]
fn loss_comparison_agrees_with_floats() {
    let mut values: Vec<f32> = vec![
        0.0,
        -0.0,
        1.0,
        -1.0,
        0.5,
        0.25,
        0.999_999_94,
        1.000_000_1,
        2.0,
        -2.0,
        f32::MIN_POSITIVE,
        -f32::MIN_POSITIVE,
        f32::from_bits(1),
        f32::from_bits(0x8000_0001),
        f32::MAX,
        f32::MIN,
        f32::INFINITY,
        f32::NEG_INFINITY,
        f32::NAN,
        f32::from_bits(0xffc0_0000),
        f32::from_bits(0x7f80_0001),
    ];
    let mut rng = rand::thread_rng();
    for _ in 0..200 {
        values.push(f32::from_bits(rng.gen::<u32>()));
        values.push(rng.gen_range(0.0f32..1.0f32));
    }
    for a in values.iter() {
        for b in values.iter() {
            assert_eq!(passes(a.to_bits(), b.to_bits()), a >= b, "{} >= {}", a, b);
        }
    }
}

#[test]
fn loss_comparison_exact_values() {
    assert!(passes(bits(0.5), bits(0.5)));
    assert!(passes(bits(0.75), bits(0.5)));
    assert!(!passes(bits(0.499_999_97), bits(0.5)));
    assert!(passes(ZERO, ZERO));
    assert!(!passes(bits(0.999_999_94), ONE));
    assert!(passes(ZERO, bits(-0.0)));
    assert!(passes(bits(-0.0), ZERO));
    assert!(passes(ZERO, bits(-3.0)));
    assert!(!passes(ZERO, bits(f32::NAN)));
    assert!(!passes(bits(0.9), bits(1.5)));
}

#[test]
fn zero_rate_forwards_every_sample() {
    let mut b = bench(11, 0.0, &[1, 12]);
    let mut rng = rand::thread_rng();
    for round in 0..100u64 {
        let sample = rng.gen_range(0.0f32..1.0f32);
        let sent = packet(fragment(round), vec![1, 11, 12, 21], 1, round);
        let mut expected = sent.clone();
        expected.routing_header.hop_index = 2;

        let log = b.drone.handle_packet(sent, bits(sample));

        assert_eq!(
            log,
            vec![delivered(12, &expected, SendOutcome::Sent), reported_sent(&expected)]
        );
        assert_eq!(b.inboxes[&12].try_recv().unwrap(), expected);
        assert_eq!(b.events.try_recv().unwrap(), DroneEvent::PacketSent(expected));
        assert!(b.inboxes[&1].try_recv().is_err());
    }
}

#[test]
fn full_rate_drops_every_sample() {
    let mut b = bench(11, 1.0, &[1, 12]);
    let mut rng = rand::thread_rng();
    for round in 0..100u64 {
        let sample = rng.gen_range(0.0f32..1.0f32);
        let sent = packet(fragment(round), vec![1, 11, 12, 21], 1, round);
        let answer = packet(nack(round, NackType::Dropped), vec![11, 1], 1, round);

        let log = b.drone.handle_packet(sent.clone(), bits(sample));

        assert_eq!(
            log,
            vec![
                reported_dropped(&sent),
                delivered(1, &answer, SendOutcome::Sent),
                reported_sent(&answer),
            ]
        );
        assert_eq!(b.inboxes[&1].try_recv().unwrap(), answer);
        assert!(b.inboxes[&12].try_recv().is_err());
        assert_eq!(b.events.try_recv().unwrap(), DroneEvent::PacketDropped(sent));
        assert_eq!(b.events.try_recv().unwrap(), DroneEvent::PacketSent(answer));
    }
}

#[test]
fn sample_at_the_rate_passes_and_below_it_drops() {
    let mut b = bench(11, 0.5, &[1, 12]);
    let sent = packet(fragment(3), vec![1, 11, 12], 1, 5);

    let log = b.drone.route_packet(sent.clone(), bits(0.5));
    let mut forwarded = sent.clone();
    forwarded.routing_header.hop_index = 2;
    assert_eq!(log[0], delivered(12, &forwarded, SendOutcome::Sent));

    let log = b.drone.route_packet(sent.clone(), bits(0.499));
    assert_eq!(log[0], reported_dropped(&sent));
    assert_eq!(log.len(), 3);
}

#[test]
fn control_packets_ignore_the_drop_rate() {
    let kinds = vec![
        PacketType::Ack(Ack { fragment_index: 4 }),
        nack(4, NackType::DestinationIsDrone),
        PacketType::FloodResponse(FloodResponse {
            flood_id: 8,
            path_trace: vec![(1, NodeType::Client), (11, NodeType::Drone)],
        }),
    ];
    for pdr in [0.0f32, 0.3, 1.0, 7.0, f32::NAN] {
        for sample in [0.0f32, 0.2, 0.999] {
            for kind in kinds.iter() {
                let mut b = bench(11, pdr, &[1, 12]);
                let sent = packet(kind.clone(), vec![1, 11, 12], 1, 77);
                let mut expected = sent.clone();
                expected.routing_header.hop_index = 2;

                let log = b.drone.handle_packet(sent, bits(sample));

                assert_eq!(
                    log,
                    vec![delivered(12, &expected, SendOutcome::Sent), reported_sent(&expected)]
                );
                assert_eq!(b.inboxes[&12].try_recv().unwrap(), expected);
            }
        }
    }
}

#[test]
fn unknown_next_hop_yields_error_in_routing() {
    let mut b = bench(11, 0.0, &[1, 13]);
    let sent = packet(fragment(6), vec![1, 11, 12, 21], 1, 9);
    let answer = packet(nack(6, NackType::ErrorInRouting(12)), vec![11, 1], 1, 9);

    let log = b.drone.handle_packet(sent, bits(0.3));

    assert_eq!(log, vec![delivered(1, &answer, SendOutcome::Sent), reported_sent(&answer)]);
    assert_eq!(b.inboxes[&1].try_recv().unwrap(), answer);
    assert_eq!(b.drone.neighbours(), vec![1, 13]);
}

#[test]
fn nack_with_unknown_next_hop_is_absorbed() {
    let mut b = bench(11, 0.0, &[1]);
    let sent = packet(nack(2, NackType::Dropped), vec![1, 11, 12], 1, 9);

    let log = b.drone.handle_packet(sent.clone(), bits(0.3));

    assert!(log.is_empty());
    assert!(b.inboxes[&1].try_recv().is_err());
    assert!(b.events.try_recv().is_err());
    assert_eq!(b.drone.neighbours(), vec![1]);

    assert!(b.drone.route_packet(sent, bits(0.3)).is_empty());
    assert!(b.inboxes[&1].try_recv().is_err());
}

#[test]
fn misaddressed_nack_is_absorbed() {
    let mut b = bench(11, 0.0, &[1, 12, 21]);
    let sent = packet(nack(2, NackType::ErrorInRouting(30)), vec![1, 12, 21], 1, 4);

    let log = b.drone.handle_packet(sent, bits(0.3));

    assert!(log.is_empty());
    for inbox in b.inboxes.values() {
        assert!(inbox.try_recv().is_err());
    }
    assert!(b.events.try_recv().is_err());
    assert_eq!(b.drone.neighbours(), vec![1, 12, 21]);
}

#[test]
fn misaddressed_packets_of_other_kinds_are_refused() {
    for kind in [
        PacketType::Ack(Ack { fragment_index: 5 }),
        PacketType::FloodResponse(FloodResponse { flood_id: 1, path_trace: vec![] }),
    ] {
        let mut b = bench(11, 0.0, &[1, 12]);
        let sent = packet(kind, vec![1, 12, 21], 1, 4);
        let answer = packet(nack(0, NackType::UnexpectedRecipient(11)), vec![11, 1], 1, 4);

        let log = b.drone.handle_packet(sent, bits(0.3));

        assert_eq!(log, vec![delivered(1, &answer, SendOutcome::Sent), reported_sent(&answer)]);
    }
}

#[test]
fn route_that_ends_here_yields_destination_is_drone() {
    for kind in [
        fragment(5),
        PacketType::Ack(Ack { fragment_index: 5 }),
        PacketType::FloodResponse(FloodResponse { flood_id: 1, path_trace: vec![] }),
    ] {
        let mut b = bench(11, 0.0, &[1, 12]);
        let index = match &kind {
            PacketType::MsgFragment(_) => 5,
            _ => 0,
        };
        let sent = packet(kind, vec![1, 12, 11], 2, 3);
        let answer = packet(nack(index, NackType::DestinationIsDrone), vec![11, 12, 1], 1, 3);

        let log = b.drone.handle_packet(sent, bits(0.3));

        assert_eq!(log, vec![delivered(12, &answer, SendOutcome::Sent), reported_sent(&answer)]);
        assert_eq!(b.inboxes[&12].try_recv().unwrap(), answer);
        assert!(b.inboxes[&1].try_recv().is_err());
    }
}

#[test]
fn nack_that_ends_here_is_absorbed() {
    let mut b = bench(11, 0.0, &[1, 12]);
    let sent = packet(nack(5, NackType::Dropped), vec![1, 12, 11], 2, 3);

    let log = b.drone.handle_packet(sent, bits(0.3));

    assert!(log.is_empty());
    assert!(b.inboxes[&1].try_recv().is_err());
    assert!(b.inboxes[&12].try_recv().is_err());
    assert!(b.events.try_recv().is_err());
}

#[test]
fn wrong_recipient_is_refused() {
    let mut b = bench(11, 0.0, &[1, 12, 21]);
    let sent = packet(fragment(2), vec![1, 12, 21], 1, 4);
    let answer = packet(nack(2, NackType::UnexpectedRecipient(11)), vec![11, 1], 1, 4);

    let log = b.drone.handle_packet(sent, bits(0.3));

    assert_eq!(log, vec![delivered(1, &answer, SendOutcome::Sent), reported_sent(&answer)]);
    assert!(b.inboxes[&21].try_recv().is_err());
    assert!(b.inboxes[&12].try_recv().is_err());
}

#[test]
fn packet_without_current_hop_is_dropped() {
    let mut b = bench(11, 0.0, &[1, 12]);
    for hop_index in [3usize, 4, usize::MAX] {
        let sent = packet(PacketType::Ack(Ack { fragment_index: 0 }), vec![1, 11, 12], hop_index, 4);
        assert!(b.drone.handle_packet(sent, bits(0.3)).is_empty());
    }
    let sent = packet(fragment(1), vec![], 0, 4);
    assert!(b.drone.handle_packet(sent, bits(0.3)).is_empty());
    assert!(b.events.try_recv().is_err());
}

#[test]
fn nack_takes_the_traveled_path_in_reverse() {
    let offending = packet(fragment(31), vec![1, 11, 12, 13, 21], 3, 99);
    assert_eq!(
        build_nack(&offending, NackType::Dropped),
        packet(nack(31, NackType::Dropped), vec![13, 12, 11, 1], 1, 99)
    );

    let first_hop = packet(PacketType::Ack(Ack { fragment_index: 31 }), vec![1, 11, 12], 0, 5);
    assert_eq!(
        build_nack(&first_hop, NackType::DestinationIsDrone),
        packet(nack(0, NackType::DestinationIsDrone), vec![1], 1, 5)
    );

    let beyond = packet(fragment(2), vec![1, 11], 7, 5);
    assert_eq!(
        build_nack(&beyond, NackType::ErrorInRouting(4)),
        packet(nack(2, NackType::ErrorInRouting(4)), vec![11, 1], 1, 5)
    );

    let empty = packet(fragment(2), vec![], 0, 5);
    assert_eq!(
        build_nack(&empty, NackType::UnexpectedRecipient(3)),
        packet(nack(2, NackType::UnexpectedRecipient(3)), vec![], 1, 5)
    );
}

#[test]
fn nack_with_nowhere_to_go_is_not_sent() {
    let mut b = bench(11, 0.0, &[1, 12]);
    let sent = packet(fragment(1), vec![11], 0, 4);

    let log = b.drone.handle_packet(sent.clone(), bits(0.3));
    assert!(log.is_empty());

    let log = b.drone.return_nack(&sent, NackType::Dropped);
    assert!(log.is_empty());
    assert!(b.events.try_recv().is_err());
}

#[test]
fn nack_to_a_stranger_is_not_sent() {
    let mut b = bench(11, 0.0, &[12]);
    let sent = packet(fragment(1), vec![1, 11], 1, 4);

    let log = b.drone.handle_packet(sent, bits(0.3));

    assert!(log.is_empty());
    assert!(b.inboxes[&12].try_recv().is_err());
}

#[test]
fn disconnected_port_is_evicted() {
    let mut b = bench(11, 0.0, &[1, 12]);
    b.inboxes.remove(&12);
    let sent = packet(fragment(1), vec![1, 11, 12], 1, 4);
    let mut forwarded = sent.clone();
    forwarded.routing_header.hop_index = 2;

    let log = b.drone.handle_packet(sent, bits(0.3));

    assert_eq!(
        log,
        vec![delivered(12, &forwarded, SendOutcome::Disconnected), reported_dropped(&forwarded)]
    );
    assert!(!b.drone.is_connected(12));
    assert!(b.drone.is_connected(1));
    assert_eq!(b.events.try_recv().unwrap(), DroneEvent::PacketDropped(forwarded));
    assert!(b.inboxes[&1].try_recv().is_err());
}

#[test]
fn full_port_is_kept_and_nothing_is_reported() {
    let (controller_send, events) = unbounded();
    let (send, inbox) = bounded(1);
    let mut packet_send = HashMap::new();
    packet_send.insert(12, send);
    let mut drone = RustDrone::new(11, controller_send, packet_send, ZERO);
    let first = packet(PacketType::Ack(Ack { fragment_index: 1 }), vec![11, 12], 1, 4);
    let second = packet(PacketType::Ack(Ack { fragment_index: 2 }), vec![11, 12], 1, 4);

    let log = drone.deliver_packet(12, first.clone());
    assert_eq!(log, vec![delivered(12, &first, SendOutcome::Sent), reported_sent(&first)]);

    let log = drone.deliver_packet(12, second.clone());
    assert_eq!(log, vec![delivered(12, &second, SendOutcome::Full)]);
    assert!(drone.is_connected(12));

    assert_eq!(events.try_recv().unwrap(), DroneEvent::PacketSent(first.clone()));
    assert!(events.try_recv().is_err());
    assert_eq!(inbox.try_recv().unwrap(), first);
    assert!(inbox.try_recv().is_err());
}

#[test]
fn each_answer_of_a_port_is_settled() {
    let sent = packet(PacketType::Ack(Ack { fragment_index: 1 }), vec![11, 12], 1, 4);

    let mut b = bench(11, 0.0, &[1, 12]);
    let log = b.drone.settle_delivery(12, sent.clone(), SendOutcome::Sent);
    assert_eq!(log, vec![delivered(12, &sent, SendOutcome::Sent), reported_sent(&sent)]);
    assert_eq!(b.drone.neighbours(), vec![1, 12]);
    assert_eq!(b.events.try_recv().unwrap(), DroneEvent::PacketSent(sent.clone()));
    assert!(b.events.try_recv().is_err());

    let mut b = bench(11, 0.0, &[1, 12]);
    let log = b.drone.settle_delivery(12, sent.clone(), SendOutcome::Full);
    assert_eq!(log, vec![delivered(12, &sent, SendOutcome::Full)]);
    assert_eq!(b.drone.neighbours(), vec![1, 12]);
    assert!(b.events.try_recv().is_err());

    let mut b = bench(11, 0.0, &[1, 12]);
    let log = b.drone.settle_delivery(12, sent.clone(), SendOutcome::Disconnected);
    assert_eq!(
        log,
        vec![delivered(12, &sent, SendOutcome::Disconnected), reported_dropped(&sent)]
    );
    assert_eq!(b.drone.neighbours(), vec![1]);
    assert_eq!(b.events.try_recv().unwrap(), DroneEvent::PacketDropped(sent.clone()));
    assert!(b.events.try_recv().is_err());

    for outcome in [SendOutcome::Sent, SendOutcome::Full, SendOutcome::Disconnected] {
        let mut b = bench(11, 0.0, &[1, 12]);
        assert!(b.drone.settle_delivery(13, sent.clone(), outcome).is_empty());
        assert_eq!(b.drone.neighbours(), vec![1, 12]);
        assert!(b.events.try_recv().is_err());
        assert!(b.inboxes[&12].try_recv().is_err());
    }
}

#[test]
fn delivery_to_a_stranger_attempts_nothing() {
    let mut b = bench(11, 0.0, &[12]);
    let sent = packet(PacketType::Ack(Ack { fragment_index: 1 }), vec![11, 13], 1, 4);

    assert!(b.drone.deliver_packet(13, sent).is_empty());
    assert_eq!(b.drone.neighbours(), vec![12]);
    assert!(b.events.try_recv().is_err());
}

#[test]
fn lost_reports_do_not_disturb_delivery() {
    let mut b = bench(11, 1.0, &[1, 12]);
    let (_, closed) = unbounded::<DroneEvent>();
    drop(std::mem::replace(&mut b.events, closed));

    let sent = packet(fragment(1), vec![1, 11, 12], 1, 4);
    let answer = packet(nack(1, NackType::Dropped), vec![11, 1], 1, 4);

    let log = b.drone.handle_packet(sent.clone(), bits(0.3));

    assert_eq!(
        log,
        vec![
            reported_dropped(&sent),
            delivered(1, &answer, SendOutcome::Sent),
            reported_sent(&answer),
        ]
    );
    assert_eq!(b.inboxes[&1].try_recv().unwrap(), answer);
    assert_eq!(b.drone.neighbours(), vec![1, 12]);
}

#[test]
fn new_flood_fans_out_in_ascending_order() {
    let mut b = bench(11, 0.0, &[1, 40, 12, 200, 13]);
    let request = FloodRequest {
        flood_id: 500,
        initiator_id: 1,
        path_trace: vec![(1, NodeType::Client), (12, NodeType::Drone)],
    };
    let copy = packet(
        PacketType::FloodRequest(FloodRequest {
            flood_id: 500,
            initiator_id: 1,
            path_trace: vec![(1, NodeType::Client), (12, NodeType::Drone), (11, NodeType::Drone)],
        }),
        vec![],
        0,
        66,
    );

    let log = b.drone.handle_flood_request(request, 66);

    let mut expected = Vec::new();
    for target in [1u8, 13, 40, 200] {
        expected.push(delivered(target, &copy, SendOutcome::Sent));
        expected.push(reported_sent(&copy));
    }
    assert_eq!(log, expected);
    assert!(b.drone.has_seen(500));
    assert!(!b.drone.has_seen(501));
    for target in [1u8, 13, 40, 200] {
        assert_eq!(b.inboxes[&target].try_recv().unwrap(), copy);
        assert!(b.inboxes[&target].try_recv().is_err());
    }
    assert!(b.inboxes[&12].try_recv().is_err());
}

#[test]
fn seen_flood_is_answered_and_not_passed_on() {
    let mut b = bench(11, 0.0, &[1, 12, 13]);
    let request = FloodRequest {
        flood_id: 500,
        initiator_id: 1,
        path_trace: vec![(1, NodeType::Client)],
    };
    let first = b.drone.handle_flood_request(request.clone(), 66);
    assert_eq!(first.len(), 4);
    for inbox in b.inboxes.values() {
        while inbox.try_recv().is_ok() {}
    }

    let again = FloodRequest {
        flood_id: 500,
        initiator_id: 1,
        path_trace: vec![(1, NodeType::Client), (11, NodeType::Drone), (12, NodeType::Drone)],
    };
    let response = packet(
        PacketType::FloodResponse(FloodResponse {
            flood_id: 500,
            path_trace: vec![
                (1, NodeType::Client),
                (11, NodeType::Drone),
                (12, NodeType::Drone),
                (11, NodeType::Drone),
            ],
        }),
        vec![11, 12, 11, 1],
        1,
        67,
    );

    let log = b.drone.handle_flood_request(again, 67);

    assert_eq!(log, vec![delivered(12, &response, SendOutcome::Sent), reported_sent(&response)]);
    assert_eq!(b.inboxes[&12].try_recv().unwrap(), response);
    assert!(b.inboxes[&1].try_recv().is_err());
    assert!(b.inboxes[&13].try_recv().is_err());
}

#[test]
fn dead_end_answers_the_flood() {
    let mut b = bench(12, 0.0, &[11]);
    let request = FloodRequest {
        flood_id: 9,
        initiator_id: 1,
        path_trace: vec![(1, NodeType::Client), (11, NodeType::Drone)],
    };
    let response = packet(
        PacketType::FloodResponse(FloodResponse {
            flood_id: 9,
            path_trace: vec![(1, NodeType::Client), (11, NodeType::Drone), (12, NodeType::Drone)],
        }),
        vec![12, 11, 1],
        1,
        3,
    );

    let log = b.drone.handle_flood_request(request, 3);

    assert_eq!(log, vec![delivered(11, &response, SendOutcome::Sent), reported_sent(&response)]);
    assert!(b.drone.has_seen(9));
}

#[test]
fn flood_without_a_trace_is_dropped() {
    let mut b = bench(12, 0.0, &[11, 13]);
    let request = FloodRequest { flood_id: 9, initiator_id: 1, path_trace: vec![] };

    assert!(b.drone.handle_flood_request(request, 3).is_empty());
    assert!(!b.drone.has_seen(9));
}

#[test]
fn flood_from_a_stranger_with_no_peer_is_recorded_and_unanswered() {
    let mut b = bench(12, 0.0, &[]);
    let request =
        FloodRequest { flood_id: 9, initiator_id: 1, path_trace: vec![(1, NodeType::Client)] };

    assert!(b.drone.handle_flood_request(request, 3).is_empty());
    assert!(b.drone.has_seen(9));
}

#[test]
fn fan_out_goes_on_past_a_disconnected_peer() {
    let mut b = bench(11, 0.0, &[1, 12, 13, 14]);
    b.inboxes.remove(&13);
    let request =
        FloodRequest { flood_id: 9, initiator_id: 1, path_trace: vec![(1, NodeType::Client)] };
    let copy = packet(
        PacketType::FloodRequest(FloodRequest {
            flood_id: 9,
            initiator_id: 1,
            path_trace: vec![(1, NodeType::Client), (11, NodeType::Drone)],
        }),
        vec![],
        0,
        3,
    );

    let log = b.drone.handle_flood_request(request, 3);

    assert_eq!(
        log,
        vec![
            delivered(12, &copy, SendOutcome::Sent),
            reported_sent(&copy),
            delivered(13, &copy, SendOutcome::Disconnected),
            reported_dropped(&copy),
            delivered(14, &copy, SendOutcome::Sent),
            reported_sent(&copy),
        ]
    );
    assert_eq!(b.drone.neighbours(), vec![1, 12, 14]);
}

#[test]
fn add_sender_overwrites() {
    let mut b = bench(11, 0.0, &[12]);
    let (send, fresh) = unbounded();

    assert_eq!(b.drone.handle_command(DroneCommand::AddSender(12, send)), CommandResult::Continue);
    assert_eq!(b.drone.neighbours(), vec![12]);

    let sent = packet(PacketType::Ack(Ack { fragment_index: 1 }), vec![11, 12], 0, 4);
    b.drone.handle_packet(sent, ZERO);
    assert!(fresh.try_recv().is_ok());
    assert!(b.inboxes[&12].try_recv().is_err());
}

#[test]
fn remove_absent_sender_changes_nothing() {
    let mut b = bench(11, 0.25, &[12, 13]);

    assert_eq!(b.drone.handle_command(DroneCommand::RemoveSender(99)), CommandResult::Continue);

    assert_eq!(b.drone.neighbours(), vec![12, 13]);
    assert_eq!(b.drone.pdr(), bits(0.25));
    assert_eq!(b.drone.state(), DroneState::Created);
    assert_eq!(b.drone.id(), 11);

    assert_eq!(b.drone.handle_command(DroneCommand::RemoveSender(12)), CommandResult::Continue);
    assert_eq!(b.drone.neighbours(), vec![13]);
}

#[test]
fn drop_rate_is_overwritten_as_given() {
    let mut b = bench(11, 0.0, &[]);
    for pdr in [0.5f32, 1.0, 3.5, -1.0] {
        assert_eq!(
            b.drone.handle_command(DroneCommand::SetPacketDropRate(bits(pdr))),
            CommandResult::Continue
        );
        assert_eq!(b.drone.pdr(), bits(pdr));
    }
}

#[test]
fn lifecycle_runs_forward() {
    let mut b = bench(11, 0.0, &[1, 12]);
    assert_eq!(b.drone.state(), DroneState::Created);

    let (listen, log) = b.drone.step(DroneInput::Command(DroneCommand::RemoveSender(50)), ZERO);
    assert_eq!((listen, log.len()), (Listen::CommandsAndPackets, 0));
    assert_eq!(b.drone.state(), DroneState::Running);

    let (listen, _) = b.drone.step(DroneInput::Command(DroneCommand::Crash), ZERO);
    assert_eq!(listen, Listen::PacketsOnly);
    assert_eq!(b.drone.state(), DroneState::Crashing);

    let (listen, _) = b.drone.step(DroneInput::Command(DroneCommand::RemoveSender(12)), ZERO);
    assert_eq!(listen, Listen::PacketsOnly);
    assert!(b.drone.is_connected(12));

    let (listen, log) = b.drone.step(DroneInput::Closed, ZERO);
    assert_eq!((listen, log.len()), (Listen::Nothing, 0));
    assert_eq!(b.drone.state(), DroneState::Terminated);

    let ack = packet(PacketType::Ack(Ack { fragment_index: 1 }), vec![1, 11, 12], 1, 4);
    let (listen, log) = b.drone.step(DroneInput::Packet(ack), ZERO);
    assert_eq!((listen, log.len()), (Listen::Nothing, 0));
    let (listen, _) = b.drone.step(DroneInput::Command(DroneCommand::Crash), ZERO);
    assert_eq!(listen, Listen::Nothing);
    assert_eq!(b.drone.state(), DroneState::Terminated);
    assert_eq!(b.drone.handle_command(DroneCommand::Crash), CommandResult::Quit);
    assert_eq!(b.drone.state(), DroneState::Terminated);
}

#[test]
fn running_node_ends_when_no_sender_remains() {
    let mut b = bench(11, 0.0, &[1]);
    let (listen, log) = b.drone.step(DroneInput::Closed, ZERO);
    assert_eq!((listen, log.len()), (Listen::Nothing, 0));
    assert_eq!(b.drone.state(), DroneState::Terminated);
}

#[test]
fn crashing_node_refuses_fragments_and_floods() {
    let mut b = bench(11, 0.0, &[1, 12]);
    assert_eq!(b.drone.handle_command(DroneCommand::Crash), CommandResult::Quit);
    assert_eq!(b.drone.state(), DroneState::Crashing);

    let sent = packet(fragment(8), vec![1, 11, 12], 1, 4);
    let answer = packet(nack(8, NackType::ErrorInRouting(11)), vec![11, 1], 1, 4);
    let (listen, log) = b.drone.step(DroneInput::Packet(sent), ZERO);
    assert_eq!(listen, Listen::PacketsOnly);
    assert_eq!(log, vec![delivered(1, &answer, SendOutcome::Sent), reported_sent(&answer)]);
    assert!(b.inboxes[&12].try_recv().is_err());
    assert_eq!(b.inboxes[&1].try_recv().unwrap(), answer);

    let flood = packet(
        PacketType::FloodRequest(FloodRequest {
            flood_id: 3,
            initiator_id: 1,
            path_trace: vec![(1, NodeType::Client)],
        }),
        vec![],
        0,
        4,
    );
    let (_, log) = b.drone.step(DroneInput::Packet(flood), ZERO);
    assert!(log.is_empty());
    assert!(!b.drone.has_seen(3));

    let ack = packet(PacketType::Ack(Ack { fragment_index: 1 }), vec![1, 11, 12], 1, 4);
    let mut forwarded = ack.clone();
    forwarded.routing_header.hop_index = 2;
    let (_, log) = b.drone.step(DroneInput::Packet(ack), ZERO);
    assert_eq!(log, vec![delivered(12, &forwarded, SendOutcome::Sent), reported_sent(&forwarded)]);
}

#[test]
fn hops_are_read_from_the_route() {
    let p = packet(PacketType::Ack(Ack { fragment_index: 1 }), vec![1, 11, 12], 1, 4);
    assert_eq!(RustDrone::get_current_hop(&p), Some(11));
    assert_eq!(RustDrone::get_next_hop(&p), Some(12));

    let last = packet(PacketType::Ack(Ack { fragment_index: 1 }), vec![1, 11, 12], 2, 4);
    assert_eq!(RustDrone::get_current_hop(&last), Some(12));
    assert_eq!(RustDrone::get_next_hop(&last), None);

    let beyond = packet(PacketType::Ack(Ack { fragment_index: 1 }), vec![1, 11, 12], usize::MAX, 4);
    assert_eq!(RustDrone::get_current_hop(&beyond), None);
    assert_eq!(RustDrone::get_next_hop(&beyond), None);
}

#[test]
fn copies_are_equal() {
    let trace = vec![(1, NodeType::Client), (11, NodeType::Drone), (30, NodeType::Server)];
    assert_eq!(copy_trace(&trace), trace);
    assert_eq!(copy_hops(&vec![3, 2, 1]), vec![3, 2, 1]);
    for kind in [
        fragment(3),
        PacketType::Ack(Ack { fragment_index: 3 }),
        nack(3, NackType::Dropped),
        PacketType::FloodRequest(FloodRequest {
            flood_id: 1,
            initiator_id: 2,
            path_trace: trace.clone(),
        }),
        PacketType::FloodResponse(FloodResponse { flood_id: 1, path_trace: trace.clone() }),
    ] {
        let p = packet(kind, vec![1, 2, 3], 1, 8);
        assert_eq!(p.duplicate(), p);
        assert_eq!(DroneEvent::PacketSent(p.clone()).duplicate(), DroneEvent::PacketSent(p.clone()));
        assert_eq!(
            DroneEvent::PacketDropped(p.clone()).duplicate(),
            DroneEvent::PacketDropped(p)
        );
    }
}
