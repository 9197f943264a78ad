use network_node::backoff::{
    serve_delay, serve_delay_of, Backoff, DELAY_INIT_MAX, DELAY_MAX, SERVE_DELAY_MAX,
    SERVE_DELAY_MIN,
};
use network_node::bootstrap::{
    coordinate_and_global_location_from_neighbor_confirmed, find_distance_1_neighbor,
    find_distance_1_pair, get_coordinate_from_confirmed_localnet_node,
    get_global_coordinate_and_global_location_from_local_location, is_ready, place_from_reports,
    process_reply_for_request_confirmed_coordinate,
};
use network_node::efuse::Efuse;
use network_node::error::NetworkError;
use network_node::global_network::DefaultProtocol;
use network_node::header::Header;
use network_node::localnet::LocalNetworkLocation;
use network_node::node::{Dispatched, NetworkNode, Routed};
use network_node::packet::{Packet, ToId};
use network_node::request_cycle::{
    Bootstrap, BootstrapAction, BootstrapEvent, LISTEN_DELAY_MILLIS, MAX_LISTEN_POLLS,
};

fn efuse_of(id: u16) -> Efuse {
    Efuse::new([0, 0, 0, 0, 0, 0, 0, id as u32])
}

// Local net 1: up left 8, up right 10, down left 12, down right 14.
// Local net 2: up left 16, up right 18, down left 20, down right 22.
// Local net 3: up left 24, up right 26, down left 28, down right 30.

fn reports_of_the_own_localnet() -> Vec<(u16, u16, (i16, i16))> {
    vec![
        (8, 8, (0, 1)),
        (8, 10, (1, 1)),
        (8, 12, (0, 0)),
        (8, 14, (1, 0)),
    ]
}

#[test]
fn test_find_distance_1_neighbor() {}

#[test]
fn test_get_global_coordinate_and_global_location() {
    let locallocation = LocalNetworkLocation::DownRight;
    let coordinate = (1, 0);
    let other_locallocation = LocalNetworkLocation::UpRight;
    let other_coordinate = (1, 1);

    let get_global_coordinate = get_global_coordinate_and_global_location_from_local_location(
        locallocation,
        coordinate,
        other_locallocation,
        other_coordinate,
    )
    .unwrap();
    assert_eq!(
        get_global_coordinate,
        ((2, 0), LocalNetworkLocation::DownLeft)
    );

    let get_global_coordinate = get_global_coordinate_and_global_location_from_local_location(
        other_locallocation,
        other_coordinate,
        locallocation,
        coordinate,
    )
    .unwrap();
    assert_eq!(
        get_global_coordinate,
        ((2, 1), LocalNetworkLocation::UpLeft)
    );

    // second
    let locallocation = LocalNetworkLocation::UpRight;
    let coordinate = (1, 1);
    let other_locallocation = LocalNetworkLocation::UpLeft;
    let other_coordinate = (0, 1);

    let get_global_coordinate = get_global_coordinate_and_global_location_from_local_location(
        locallocation,
        coordinate,
        other_locallocation,
        other_coordinate,
    )
    .unwrap();
    assert_eq!(
        get_global_coordinate,
        ((1, 2), LocalNetworkLocation::DownRight)
    );
    let get_global_coordinate = get_global_coordinate_and_global_location_from_local_location(
        other_locallocation,
        other_coordinate,
        locallocation,
        coordinate,
    )
    .unwrap();
    assert_eq!(
        get_global_coordinate,
        ((0, 2), LocalNetworkLocation::DownLeft)
    );

    // third
    let locallocation = LocalNetworkLocation::DownLeft;
    let coordinate = (0, 0);
    let other_locallocation = LocalNetworkLocation::UpLeft;
    let other_coordinate = (0, 1);

    let get_global_coordinate = get_global_coordinate_and_global_location_from_local_location(
        locallocation,
        coordinate,
        other_locallocation,
        other_coordinate,
    )
    .unwrap();
    assert_eq!(
        get_global_coordinate,
        ((-1, 0), LocalNetworkLocation::DownRight)
    );
    let get_global_coordinate = get_global_coordinate_and_global_location_from_local_location(
        other_locallocation,
        other_coordinate,
        locallocation,
        coordinate,
    )
    .unwrap();
    assert_eq!(
        get_global_coordinate,
        ((-1, 1), LocalNetworkLocation::UpRight)
    );

    // fourth
    let locallocation = LocalNetworkLocation::DownLeft;
    let coordinate = (0, 0);
    let other_locallocation = LocalNetworkLocation::DownRight;
    let other_coordinate = (1, 0);

    let get_global_coordinate = get_global_coordinate_and_global_location_from_local_location(
        locallocation,
        coordinate,
        other_locallocation,
        other_coordinate,
    )
    .unwrap();
    assert_eq!(
        get_global_coordinate,
        ((0, -1), LocalNetworkLocation::UpLeft)
    );
    let get_global_coordinate = get_global_coordinate_and_global_location_from_local_location(
        other_locallocation,
        other_coordinate,
        locallocation,
        coordinate,
    )
    .unwrap();
    assert_eq!(
        get_global_coordinate,
        ((1, -1), LocalNetworkLocation::UpRight)
    );
}

#[test]
fn the_eight_cases_of_the_table() {
    use_table(true, true, true, (0, 1), LocalNetworkLocation::DownLeft);
    use_table(true, true, false, (0, -1), LocalNetworkLocation::UpRight);
    use_table(true, false, true, (-1, 0), LocalNetworkLocation::DownRight);
    use_table(true, false, false, (1, 0), LocalNetworkLocation::UpLeft);
    use_table(false, true, true, (0, -1), LocalNetworkLocation::UpLeft);
    use_table(false, true, false, (0, 1), LocalNetworkLocation::DownRight);
    use_table(false, false, true, (1, 0), LocalNetworkLocation::DownLeft);
    use_table(false, false, false, (-1, 0), LocalNetworkLocation::UpRight);
}

fn use_table(
    clockwise: bool,
    along_x: bool,
    small: bool,
    step: (i16, i16),
    corner: LocalNetworkLocation,
) {
    for proximal_location in [
        LocalNetworkLocation::UpLeft,
        LocalNetworkLocation::UpRight,
        LocalNetworkLocation::DownLeft,
        LocalNetworkLocation::DownRight,
    ] {
        let distal_location = if clockwise {
            proximal_location.rotate_clockwise()
        } else {
            proximal_location.rotate_counterclockwise()
        };
        let proximal = (10, -20);
        let sign = if small { 1 } else { -1 };
        let distal = if along_x {
            (10 + sign, -20)
        } else {
            (10, -20 + sign)
        };
        assert_eq!(
            get_global_coordinate_and_global_location_from_local_location(
                proximal_location,
                proximal,
                distal_location,
                distal,
            ),
            Ok(((10 + step.0, -20 + step.1), corner))
        );
    }
}

#[test]
fn quadrants_that_are_no_neighbours_contradict_each_other() {
    for q in [
        LocalNetworkLocation::UpLeft,
        LocalNetworkLocation::UpRight,
        LocalNetworkLocation::DownLeft,
        LocalNetworkLocation::DownRight,
    ] {
        assert_eq!(
            get_global_coordinate_and_global_location_from_local_location(q, (0, 0), q, (0, 1)),
            Err(NetworkError::BootstrapInconsistent)
        );
        assert_eq!(
            get_global_coordinate_and_global_location_from_local_location(
                q,
                (0, 0),
                q.diagonal_location(),
                (0, 1)
            ),
            Err(NetworkError::BootstrapInconsistent)
        );
    }
}

#[test]
fn places_that_are_not_one_step_apart_contradict_each_other() {
    let near = LocalNetworkLocation::UpRight;
    let far = LocalNetworkLocation::UpLeft;
    for other in [(1, 1), (3, 1), (2, 2), (0, 0), (1, 3), (-1, 1)] {
        assert_eq!(
            get_global_coordinate_and_global_location_from_local_location(near, (1, 1), far, other),
            Err(NetworkError::BootstrapInconsistent),
            "{:?}",
            other
        );
    }
}

#[test]
fn a_place_beyond_sixteen_bits_is_out_of_bounds() {
    // counter-clockwise, along x, not small: one step up
    assert_eq!(
        get_global_coordinate_and_global_location_from_local_location(
            LocalNetworkLocation::UpRight,
            (1, i16::MAX),
            LocalNetworkLocation::UpLeft,
            (0, i16::MAX),
        ),
        Err(NetworkError::GridOutOfBounds)
    );
    // clockwise, along y, small: one step left
    assert_eq!(
        get_global_coordinate_and_global_location_from_local_location(
            LocalNetworkLocation::UpLeft,
            (i16::MIN, 0),
            LocalNetworkLocation::UpRight,
            (i16::MIN, 1),
        ),
        Err(NetworkError::GridOutOfBounds)
    );
}

#[test]
fn a_unit_takes_its_place_from_a_confirmed_unit_of_its_local_net() {
    let table = reports_of_the_own_localnet();
    assert!(is_ready(&table, 10));
    assert_eq!(
        coordinate_and_global_location_from_neighbor_confirmed(&table, 10),
        Ok(((1, 1), LocalNetworkLocation::UpRight))
    );
    assert_eq!(
        coordinate_and_global_location_from_neighbor_confirmed(&table, 8),
        Ok(((0, 1), LocalNetworkLocation::UpLeft))
    );
    assert_eq!(
        coordinate_and_global_location_from_neighbor_confirmed(&table, 12),
        Ok(((0, 0), LocalNetworkLocation::DownLeft))
    );
    assert_eq!(
        coordinate_and_global_location_from_neighbor_confirmed(&table, 14),
        Ok(((1, 0), LocalNetworkLocation::DownRight))
    );
    assert_eq!(
        get_coordinate_from_confirmed_localnet_node(&table, 10),
        Ok(((1, 1), LocalNetworkLocation::UpRight))
    );
    // A local net that lies the other way round.
    let turned = vec![
        (8, 8, (5, 2)),
        (8, 10, (4, 2)),
        (8, 12, (5, 3)),
        (8, 14, (4, 3)),
    ];
    assert_eq!(
        coordinate_and_global_location_from_neighbor_confirmed(&turned, 10),
        Ok(((4, 2), LocalNetworkLocation::DownLeft))
    );
    assert_eq!(
        coordinate_and_global_location_from_neighbor_confirmed(&turned, 12),
        Ok(((5, 3), LocalNetworkLocation::UpRight))
    );
}

#[test]
fn reports_of_the_own_local_net_must_be_four_and_agree() {
    let mut table = reports_of_the_own_localnet();
    table.pop();
    assert_eq!(
        coordinate_and_global_location_from_neighbor_confirmed(&table, 10),
        Err(NetworkError::BootstrapInconsistent)
    );
    // Four reports without the unit itself.
    let table = vec![
        (8, 8, (0, 1)),
        (12, 8, (0, 1)),
        (8, 12, (0, 0)),
        (8, 14, (1, 0)),
    ];
    assert_eq!(
        coordinate_and_global_location_from_neighbor_confirmed(&table, 10),
        Err(NetworkError::BootstrapInconsistent)
    );
    // One unit in two places.
    let table = vec![
        (8, 8, (0, 1)),
        (8, 10, (1, 1)),
        (12, 10, (1, 2)),
        (8, 14, (1, 0)),
    ];
    assert_eq!(
        coordinate_and_global_location_from_neighbor_confirmed(&table, 10),
        Err(NetworkError::BootstrapInconsistent)
    );
    assert_eq!(
        get_coordinate_from_confirmed_localnet_node(&table, 8),
        Err(NetworkError::BootstrapInconsistent)
    );
}

#[test]
fn a_unit_takes_its_place_from_two_units_of_another_local_net() {
    // This unit is 10, up right in local net 1. It heard 26 itself,
    // which is up right in local net 3 and lies at (1, 1). Its
    // neighbour 8 passed on that 24, up left in local net 3, lies at
    // (0, 1).
    let table = vec![(26, 26, (1, 1)), (8, 24, (0, 1))];
    assert!(is_ready(&table, 10));
    assert_eq!(find_distance_1_pair(&table), Some((0, 1)));
    assert_eq!(
        find_distance_1_neighbor(&table),
        Some((26, 26, (1, 1), 8, 24, (0, 1)))
    );
    assert_eq!(
        coordinate_and_global_location_from_neighbor_confirmed(&table, 10),
        Ok(((1, 2), LocalNetworkLocation::DownRight))
    );
    // The order in the table does not matter.
    let table = vec![(8, 24, (0, 1)), (26, 26, (1, 1))];
    assert_eq!(
        coordinate_and_global_location_from_neighbor_confirmed(&table, 10),
        Ok(((1, 2), LocalNetworkLocation::DownRight))
    );
    assert_eq!(
        place_from_reports((8, 24, (0, 1)), (26, 26, (1, 1)), 10),
        Ok(((1, 2), LocalNetworkLocation::DownRight))
    );
}

#[test]
fn exactly_one_of_the_two_reports_must_be_passed_on() {
    // Both heard directly.
    let table = vec![(26, 26, (1, 1)), (24, 24, (0, 1))];
    assert_eq!(
        coordinate_and_global_location_from_neighbor_confirmed(&table, 10),
        Err(NetworkError::BootstrapInconsistent)
    );
    // Both passed on by neighbours inside the local net.
    let table = vec![(8, 26, (1, 1)), (14, 24, (0, 1))];
    assert_eq!(
        coordinate_and_global_location_from_neighbor_confirmed(&table, 10),
        Err(NetworkError::BootstrapInconsistent)
    );
    // The unit across the centre is no neighbour.
    let table = vec![(26, 26, (1, 1)), (12, 24, (0, 1))];
    assert_eq!(
        coordinate_and_global_location_from_neighbor_confirmed(&table, 10),
        Err(NetworkError::BootstrapInconsistent)
    );
}

#[test]
fn a_table_without_two_places_one_step_apart_tells_nothing() {
    let table: Vec<(u16, u16, (i16, i16))> = vec![];
    assert!(!is_ready(&table, 10));
    assert_eq!(find_distance_1_neighbor(&table), None);
    assert_eq!(
        coordinate_and_global_location_from_neighbor_confirmed(&table, 10),
        Err(NetworkError::BootstrapInconsistent)
    );
    let table = vec![(26, 26, (1, 1)), (8, 24, (3, 1)), (8, 16, (2, 2))];
    assert!(!is_ready(&table, 10));
    assert_eq!(find_distance_1_pair(&table), None);
    assert_eq!(
        coordinate_and_global_location_from_neighbor_confirmed(&table, 10),
        Err(NetworkError::BootstrapInconsistent)
    );
}

#[test]
fn the_first_pair_one_step_apart_is_taken() {
    let table = vec![
        (26, 26, (5, 5)),
        (8, 24, (0, 1)),
        (8, 16, (1, 1)),
        (8, 18, (5, 6)),
        (8, 20, (0, 0)),
    ];
    // (0, 3) comes before (1, 2) and (1, 4).
    assert_eq!(find_distance_1_pair(&table), Some((0, 3)));
    assert_eq!(
        find_distance_1_neighbor(&table),
        Some((26, 26, (5, 5), 8, 18, (5, 6)))
    );
    let table = vec![
        (26, 26, (9, 9)),
        (8, 24, (0, 1)),
        (8, 16, (1, 1)),
        (8, 20, (0, 0)),
    ];
    assert_eq!(find_distance_1_pair(&table), Some((1, 2)));
}

#[test]
fn a_report_about_the_unit_itself_makes_it_ready() {
    let table = vec![(8, 10, (7, 7))];
    assert!(is_ready(&table, 10));
    assert!(!is_ready(&table, 8));
    assert!(!is_ready(&table, 12));
}

#[test]
fn reports_are_added_to_the_table_once() {
    let mut table: Vec<(u16, u16, (i16, i16))> = Vec::new();
    // 8 is a neighbour of 10 and passes on two records.
    let packet = Packet::make_confirm_coordinate_packet(
        8,
        10,
        &vec![(24, 24, (0, 1)), (26, 26, (1, 1)), (30, 24, (0, 1))],
    )
    .unwrap();
    let processed =
        process_reply_for_request_confirmed_coordinate(10, &packet, &mut table).unwrap();
    assert!(processed.valid);
    assert!(processed.reply.is_none());
    assert_eq!(table, vec![(8, 24, (0, 1)), (8, 26, (1, 1))]);
    // The same report again changes nothing.
    let processed =
        process_reply_for_request_confirmed_coordinate(10, &packet, &mut table).unwrap();
    assert!(processed.valid);
    assert_eq!(table, vec![(8, 24, (0, 1)), (8, 26, (1, 1))]);
    // The same record from another unit is another report.
    let packet = Packet::make_confirm_coordinate_packet_by_confirmed_node(
        24,
        10,
        (0, 1),
        LocalNetworkLocation::UpLeft,
    )
    .unwrap();
    let processed =
        process_reply_for_request_confirmed_coordinate(10, &packet, &mut table).unwrap();
    assert!(processed.valid);
    assert_eq!(
        table,
        vec![(8, 24, (0, 1)), (8, 26, (1, 1)), (24, 24, (0, 1))]
    );
}

#[test]
fn a_report_that_is_passed_on_by_a_stranger_is_not_listened_to() {
    let mut table: Vec<(u16, u16, (i16, i16))> = Vec::new();
    // 16 belongs to another local net, 12 lies across the centre.
    for reporter in [16, 12] {
        let packet =
            Packet::make_confirm_coordinate_packet(reporter, reporter ^ 2, &vec![(1, 24, (0, 1))])
                .unwrap();
        let processed =
            process_reply_for_request_confirmed_coordinate(10, &packet, &mut table).unwrap();
        assert!(processed.valid);
        assert!(table.is_empty());
    }
    // A report that cannot be read is of no use.
    let packet = Packet::new(
        0,
        Header::ConfirmCoordinate,
        8,
        ToId::Broadcast,
        8,
        ToId::Broadcast,
        vec![0, 1, 2],
    );
    let processed =
        process_reply_for_request_confirmed_coordinate(10, &packet, &mut table).unwrap();
    assert!(!processed.valid);
    assert!(table.is_empty());
    // Neither is any other packet.
    let packet = Packet::make_check_connection_packet(8);
    let processed =
        process_reply_for_request_confirmed_coordinate(10, &packet, &mut table).unwrap();
    assert!(!processed.valid);
    assert!(processed.reply.is_none());
}

#[test]
fn a_request_is_answered_from_the_table() {
    let mut table: Vec<(u16, u16, (i16, i16))> = Vec::new();
    let request = Packet::make_request_confirmed_coordinate_packet(8);
    // With an empty table there is nothing to say.
    let processed =
        process_reply_for_request_confirmed_coordinate(10, &request, &mut table).unwrap();
    assert!(processed.valid);
    assert!(processed.reply.is_none());

    table.push((26, 26, (1, 1)));
    let processed =
        process_reply_for_request_confirmed_coordinate(10, &request, &mut table).unwrap();
    assert!(processed.valid);
    let reply = processed.reply.unwrap();
    assert_eq!(reply.get_header(), Header::ConfirmCoordinate);
    assert_eq!(reply.get_global_from(), 10);
    assert_eq!(reply.get_global_to(), ToId::Broadcast);
    assert_eq!(
        reply.load_confirmed_coordinate_packet(8).unwrap(),
        vec![(26, (1, 1))]
    );
    assert_eq!(table, vec![(26, 26, (1, 1))]);

    // A unit of another local net cannot be answered yet.
    let request = Packet::make_request_confirmed_coordinate_packet(16);
    assert_eq!(
        process_reply_for_request_confirmed_coordinate(10, &request, &mut table).map(|_| ()),
        Err(NetworkError::BootstrapInconsistent)
    );
    assert_eq!(table, vec![(26, 26, (1, 1))]);
}

#[test]
fn a_root_node_lies_where_its_quadrant_says() {
    let cases = [
        (0b001, (0, 1), LocalNetworkLocation::UpLeft),
        (0b011, (1, 1), LocalNetworkLocation::UpRight),
        (0b101, (0, 0), LocalNetworkLocation::DownLeft),
        (0b111, (1, 0), LocalNetworkLocation::DownRight),
    ];
    for (id, coordinate, location) in cases {
        let node = NetworkNode::new(DefaultProtocol::new(), &efuse_of(id), &Vec::new()).unwrap();
        assert!(node.is_root());
        assert_eq!(node.get_coordinate(), coordinate);
        assert_eq!(node.get_global_location(), location);
        assert_eq!(node.get_local_location(), location);
        assert_eq!(node.get_mac_address(), id);
        assert_eq!(node.get_ip_address(), id);
    }
}

#[test]
fn a_node_joins_the_global_network_at_its_place() {
    let node = NetworkNode::new(
        DefaultProtocol::new(),
        &efuse_of(10),
        &reports_of_the_own_localnet(),
    )
    .unwrap();
    assert!(!node.is_root());
    assert_eq!(node.get_coordinate(), (1, 1));
    assert_eq!(node.get_global_location(), LocalNetworkLocation::UpRight);
    assert_eq!(node.get_local_location(), LocalNetworkLocation::UpRight);
    assert_eq!(node.get_mac_address(), 10);
    assert_eq!(node.get_ip_address(), 5);

    // Without reports there is no place.
    assert!(matches!(
        NetworkNode::new(DefaultProtocol::new(), &efuse_of(10), &Vec::new()),
        Err(NetworkError::BootstrapInconsistent)
    ));
    // A place outside the grid cannot join.
    let table = vec![(26, 26, (1, 3)), (8, 24, (0, 3))];
    assert_eq!(
        coordinate_and_global_location_from_neighbor_confirmed(&table, 10),
        Ok(((1, 4), LocalNetworkLocation::DownRight))
    );
    assert!(matches!(
        NetworkNode::new(DefaultProtocol::new(), &efuse_of(10), &table),
        Err(NetworkError::GridOutOfBounds)
    ));
}

fn node_at_1_1() -> NetworkNode<DefaultProtocol> {
    NetworkNode::new(
        DefaultProtocol::new(),
        &efuse_of(10),
        &reports_of_the_own_localnet(),
    )
    .unwrap()
}

#[test]
fn a_packet_that_passes_through_goes_on_to_the_next_node() {
    let node = node_at_1_1();
    // From (0, 1), which is 4, to (3, 2), which is 11.
    let packet = Packet::new(
        9,
        Header::Data,
        4,
        ToId::Unicast(11),
        4,
        ToId::Unicast(5),
        vec![1, 2, 3],
    );
    match node.get_packet(packet) {
        Routed::Forward(packet) => {
            // On: from (1, 1), which is 5, to (2, 1), which is 6.
            assert_eq!(packet.get_from(), 5);
            assert_eq!(packet.get_to(), ToId::Unicast(6));
            assert_eq!(packet.get_global_from(), 4);
            assert_eq!(packet.get_global_to(), ToId::Unicast(11));
            assert_eq!(packet.get_packet_id(), 9);
            assert_eq!(&packet.get_ref_messages()[..3], &[1, 2, 3]);
        }
        other => panic!("{:?}", other),
    }
}

#[test]
fn a_packet_for_the_node_or_for_all_is_its_own() {
    let node = node_at_1_1();
    let packet = Packet::new(9, Header::Data, 4, ToId::Unicast(5), 4, ToId::Unicast(5), vec![1]);
    match node.get_packet(packet) {
        Routed::Mine(packet) => {
            assert_eq!(packet.get_from(), 4);
            assert_eq!(packet.get_to(), ToId::Unicast(5));
        }
        other => panic!("{:?}", other),
    }
    let packet = Packet::new(9, Header::Data, 4, ToId::Broadcast, 4, ToId::Broadcast, vec![1]);
    match node.get_packet(packet) {
        Routed::Mine(packet) => {
            assert_eq!(packet.get_from(), 4);
            assert_eq!(packet.get_to(), ToId::Broadcast);
        }
        other => panic!("{:?}", other),
    }
}

#[test]
fn a_packet_that_does_not_pass_through_is_dropped() {
    let node = node_at_1_1();
    // From (0, 2) to (3, 2): along the row above.
    let packet = Packet::new(9, Header::Data, 8, ToId::Unicast(11), 8, ToId::Broadcast, vec![1]);
    assert!(matches!(node.get_packet(packet), Routed::Dropped));
    // To an address outside the grid.
    let packet = Packet::new(9, Header::Data, 4, ToId::Unicast(77), 4, ToId::Broadcast, vec![1]);
    assert!(matches!(node.get_packet(packet), Routed::Dropped));
}

#[test]
fn a_node_numbers_its_packets() {
    let mut node = node_at_1_1();
    let packet = node
        .make_packet(Header::Data, 5, ToId::Unicast(11), vec![1, 2])
        .unwrap();
    assert_eq!(packet.get_packet_id(), 1);
    assert_eq!(packet.get_from(), 5);
    assert_eq!(packet.get_to(), ToId::Unicast(6));
    assert_eq!(packet.get_global_from(), 5);
    assert_eq!(packet.get_global_to(), ToId::Unicast(11));
    assert_eq!(&packet.get_ref_messages()[..2], &[1, 2]);
    let packet = node
        .make_packet(Header::Data, 5, ToId::Unicast(0), vec![])
        .unwrap();
    assert_eq!(packet.get_packet_id(), 2);
    assert_eq!(packet.get_to(), ToId::Unicast(4));
    // No way leads out of the grid, and no packet id is used up.
    assert_eq!(
        node.make_packet(Header::Data, 5, ToId::Broadcast, vec![]),
        Err(NetworkError::GridOutOfBounds)
    );
    let packet = node
        .make_packet(Header::Data, 5, ToId::Unicast(0), vec![])
        .unwrap();
    assert_eq!(packet.get_packet_id(), 3);
    // After 255 comes 0.
    for _ in 4..=255 {
        node.make_packet(Header::Data, 5, ToId::Unicast(0), vec![])
            .unwrap();
    }
    let packet = node
        .make_packet(Header::Data, 5, ToId::Unicast(0), vec![])
        .unwrap();
    assert_eq!(packet.get_packet_id(), 0);
}

#[test]
fn a_node_answers_probes_and_requests_itself() {
    let node = node_at_1_1();
    match node.dispatch(Packet::make_check_connection_packet(16)) {
        Dispatched::Reply(reply) => assert_eq!(reply, Packet::make_check_connection_packet(10)),
        other => panic!("{:?}", other),
    }
    match node.dispatch(Packet::make_request_confirmed_coordinate_packet(16)) {
        Dispatched::Reply(reply) => {
            assert_eq!(reply.get_header(), Header::ConfirmCoordinate);
            assert_eq!(reply.get_global_from(), 10);
            assert_eq!(
                &reply.get_ref_messages()[..7],
                &[0xFF, 0, 10, 0, 1, 0, 1]
            );
            assert_eq!(
                reply.load_confirmed_coordinate_packet(16).unwrap(),
                vec![(10, (1, 1))]
            );
        }
        other => panic!("{:?}", other),
    }
    let packet = Packet::new(3, Header::Data, 4, ToId::Unicast(5), 4, ToId::Unicast(5), vec![7]);
    match node.dispatch(packet) {
        Dispatched::HandOff(packet) => {
            assert_eq!(packet.get_header(), Header::Data);
            assert_eq!(packet.get_packet_id(), 3);
        }
        other => panic!("{:?}", other),
    }
}

#[test]
fn a_probe_of_another_local_net_shows_a_connection() {
    type Node = NetworkNode<DefaultProtocol>;
    assert!(!Node::check_connection(10, &None));
    assert!(Node::check_connection(
        10,
        &Some(Packet::make_check_connection_packet(16))
    ));
    // A probe of the own local net, and one that came back.
    assert!(!Node::check_connection(
        10,
        &Some(Packet::make_check_connection_packet(8))
    ));
    assert!(!Node::check_connection(
        10,
        &Some(Packet::make_check_connection_packet(10))
    ));
    // Another packet.
    assert!(!Node::check_connection(
        10,
        &Some(Packet::make_request_confirmed_coordinate_packet(16))
    ));
}

#[test]
fn waiting_times_double_up_to_the_longest() {
    assert_eq!(DELAY_INIT_MAX, 100);
    assert_eq!(DELAY_MAX, 10000);
    let mut backoff = Backoff::begin_at(3);
    assert_eq!(backoff.get_delay(), 3);
    let mut expected = 3;
    for _ in 0..20 {
        assert_eq!(backoff.wait(), expected);
        expected = std::cmp::min(expected * 2, 10000);
    }
    assert_eq!(backoff.get_delay(), 10000);
    assert_eq!(Backoff::begin_at(0).get_delay(), 1);
    assert_eq!(Backoff::begin_at(99).get_delay(), 99);
    assert_eq!(Backoff::begin_at(100).get_delay(), 99);
    assert_eq!(Backoff::begin_at(u64::MAX).get_delay(), 99);
}

#[test]
fn first_waiting_times_are_drawn_by_chance() {
    let mut seen = [false; 100];
    let mut backoff = Backoff::new();
    for _ in 0..2000 {
        let delay = backoff.get_delay();
        assert!(1 <= delay && delay < 100);
        seen[delay as usize] = true;
        backoff.wait();
        backoff.reset();
    }
    // Two thousand draws do not all give the same number.
    assert!(seen.iter().filter(|s| **s).count() > 1);
}

#[test]
fn the_serving_loop_waits_ten_to_a_hundred_milliseconds() {
    assert_eq!(SERVE_DELAY_MIN, 10);
    assert_eq!(SERVE_DELAY_MAX, 100);
    assert_eq!(serve_delay_of(0), 10);
    assert_eq!(serve_delay_of(89), 99);
    assert_eq!(serve_delay_of(90), 10);
    assert_eq!(serve_delay_of(u32::MAX), u32::MAX % 90 + 10);
    let mut first = None;
    let mut differ = false;
    for _ in 0..2000 {
        let delay = serve_delay();
        assert!(10 <= delay && delay < 100);
        if let Some(first) = first {
            differ = differ || first != delay;
        } else {
            first = Some(delay);
        }
    }
    assert!(differ);
}

#[test]
fn the_search_begins_with_a_request() {
    let (bootstrap, step) = Bootstrap::new(10);
    assert_eq!(bootstrap.get_mac_address(), 10);
    assert!(bootstrap.get_neighbor_confirmed().is_empty());
    assert!(step.notice.is_none());
    match step.action {
        BootstrapAction::Request {
            flush,
            wait_millis,
            packet,
        } => {
            assert!(!flush);
            assert_eq!(wait_millis, 0);
            assert_eq!(packet, Packet::make_request_confirmed_coordinate_packet(10));
        }
        other => panic!("{:?}", other),
    }
}

#[test]
fn after_the_request_the_unit_listens() {
    let (mut bootstrap, _) = Bootstrap::new(10);
    let step = bootstrap.step(BootstrapEvent::RequestSent);
    assert!(step.notice.is_none());
    match step.action {
        BootstrapAction::Listen { flush, wait_millis } => {
            assert!(!flush);
            assert_eq!(wait_millis, LISTEN_DELAY_MILLIS);
        }
        other => panic!("{:?}", other),
    }
    // Nothing on the link: wait and listen again.
    let step = bootstrap.step(BootstrapEvent::Nothing);
    match step.action {
        BootstrapAction::Listen { flush, wait_millis } => {
            assert!(!flush);
            assert!(1 <= wait_millis && wait_millis < 100);
        }
        other => panic!("{:?}", other),
    }
}

#[test]
fn failures_make_the_unit_wait_longer_and_longer() {
    let (mut bootstrap, _) = Bootstrap::new(10);
    let mut last = 0;
    for round in 0..16 {
        let step = bootstrap.step(BootstrapEvent::RequestFailed(NetworkError::HardwareFault));
        assert_eq!(step.notice, Some(NetworkError::HardwareFault));
        match step.action {
            BootstrapAction::Request {
                flush,
                wait_millis,
                packet,
            } => {
                assert!(flush);
                if round == 0 {
                    assert!(1 <= wait_millis && wait_millis < 100);
                } else {
                    assert_eq!(wait_millis, std::cmp::min(2 * last, 10000));
                }
                last = wait_millis;
                assert_eq!(packet, Packet::make_request_confirmed_coordinate_packet(10));
            }
            other => panic!("{:?}", other),
        }
    }
    assert_eq!(last, 10000);
    // A request that went out lets the waiting times begin anew.
    bootstrap.step(BootstrapEvent::RequestSent);
    let step = bootstrap.step(BootstrapEvent::ReceiveFailed(NetworkError::ChecksumMismatch));
    assert_eq!(step.notice, Some(NetworkError::ChecksumMismatch));
    match step.action {
        BootstrapAction::Listen { flush, wait_millis } => {
            assert!(flush);
            assert!(1 <= wait_millis && wait_millis < 100);
            last = wait_millis;
        }
        other => panic!("{:?}", other),
    }
    let step = bootstrap.step(BootstrapEvent::ReceiveFailed(NetworkError::HardwareFault));
    match step.action {
        BootstrapAction::Listen { flush, wait_millis } => {
            assert!(flush);
            assert_eq!(wait_millis, 2 * last);
        }
        other => panic!("{:?}", other),
    }
}

#[test]
fn listening_in_vain_ends_in_a_new_request() {
    assert_eq!(MAX_LISTEN_POLLS, 100);
    let (mut bootstrap, _) = Bootstrap::new(10);
    bootstrap.step(BootstrapEvent::RequestSent);
    for _ in 0..100 {
        let step = bootstrap.step(BootstrapEvent::Nothing);
        assert!(step.notice.is_none());
        assert!(matches!(step.action, BootstrapAction::Listen { .. }));
    }
    let step = bootstrap.step(BootstrapEvent::Nothing);
    assert_eq!(step.notice, Some(NetworkError::BootstrapTimeout));
    match step.action {
        BootstrapAction::Request { flush, packet, .. } => {
            assert!(!flush);
            assert_eq!(packet, Packet::make_request_confirmed_coordinate_packet(10));
        }
        other => panic!("{:?}", other),
    }
    // The count begins anew.
    bootstrap.step(BootstrapEvent::RequestSent);
    let step = bootstrap.step(BootstrapEvent::Received(
        Packet::make_check_connection_packet(16),
    ));
    assert!(step.notice.is_none());
    match step.action {
        BootstrapAction::Listen { flush, wait_millis } => {
            assert!(!flush);
            assert_eq!(wait_millis, 0);
        }
        other => panic!("{:?}", other),
    }
}

#[test]
fn the_search_ends_when_the_table_tells_the_place() {
    let (mut bootstrap, _) = Bootstrap::new(10);
    bootstrap.step(BootstrapEvent::RequestSent);
    // 26 says where it is.
    let report = Packet::make_confirm_coordinate_packet_by_confirmed_node(
        26,
        10,
        (1, 1),
        LocalNetworkLocation::UpRight,
    )
    .unwrap();
    let step = bootstrap.step(BootstrapEvent::Received(report));
    // One place is not enough: the unit asks again.
    assert!(step.notice.is_none());
    assert!(matches!(
        step.action,
        BootstrapAction::Request {
            flush: false,
            wait_millis: 0,
            ..
        }
    ));
    assert_eq!(bootstrap.get_neighbor_confirmed(), &vec![(26, 26, (1, 1))]);
    bootstrap.step(BootstrapEvent::RequestSent);

    // The neighbour 8 asks, and is told what the table holds.
    let step = bootstrap.step(BootstrapEvent::Received(
        Packet::make_request_confirmed_coordinate_packet(8),
    ));
    match step.action {
        BootstrapAction::Reply(reply) => {
            assert_eq!(
                reply.load_confirmed_coordinate_packet(8).unwrap(),
                vec![(26, (1, 1))]
            );
        }
        other => panic!("{:?}", other),
    }
    let step = bootstrap.step(BootstrapEvent::ReplySent);
    assert!(matches!(step.action, BootstrapAction::Request { .. }));
    bootstrap.step(BootstrapEvent::RequestSent);

    // A unit of another local net asks: there is no answer for it.
    let step = bootstrap.step(BootstrapEvent::Received(
        Packet::make_request_confirmed_coordinate_packet(16),
    ));
    assert_eq!(step.notice, Some(NetworkError::BootstrapInconsistent));
    assert!(matches!(
        step.action,
        BootstrapAction::Listen {
            flush: true,
            wait_millis: 0
        }
    ));

    // The neighbour 8 passes on where 24 is.
    let report = Packet::make_confirm_coordinate_packet(8, 10, &vec![(24, 24, (0, 1))]).unwrap();
    let step = bootstrap.step(BootstrapEvent::Received(report));
    assert!(step.notice.is_none());
    assert!(matches!(step.action, BootstrapAction::Confirmed));
    let table = bootstrap.into_neighbor_confirmed();
    assert_eq!(table, vec![(26, 26, (1, 1)), (8, 24, (0, 1))]);
    let node = NetworkNode::new(DefaultProtocol::new(), &efuse_of(10), &table).unwrap();
    assert_eq!(node.get_coordinate(), (1, 2));
    assert_eq!(node.get_global_location(), LocalNetworkLocation::DownRight);
    assert_eq!(node.get_ip_address(), 9);
}

#[test]
fn an_answer_that_cannot_be_sent_is_one_more_reading_in_vain() {
    let (mut bootstrap, _) = Bootstrap::new(10);
    let step = bootstrap.step(BootstrapEvent::ReplyFailed(NetworkError::AckTimeout));
    assert_eq!(step.notice, Some(NetworkError::AckTimeout));
    assert!(matches!(
        step.action,
        BootstrapAction::Listen {
            flush: true,
            wait_millis: 0
        }
    ));
}

#[test]
fn errors_describe_themselves() {
    assert_eq!(NetworkError::AckTimeout.message(), "ack timeout");
    assert_eq!(NetworkError::GridOutOfBounds.message(), "not 4 * 4 network");
    assert_eq!(
        NetworkError::ChecksumMismatch.message(),
        "checksum is not correct"
    );
}

#[test]
fn a_node_tries_once_more_after_a_failure() {
    use_recover();
}

fn use_recover() {
    type Node = NetworkNode<DefaultProtocol>;
    assert_eq!(network_node::node::MAX_RECEIVE_RETRIES, 1);
    assert_eq!(Node::recover(1), network_node::node::Recovery::FlushAndRetry);
    assert_eq!(Node::recover(2), network_node::node::Recovery::FlushAndGiveUp);
    assert_eq!(Node::recover(u32::MAX), network_node::node::Recovery::FlushAndGiveUp);
}
