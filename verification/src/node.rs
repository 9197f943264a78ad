//! The node: a unit that knows its place and takes part in the global
//! network.

use vstd::prelude::*;
use crate::bootstrap::{
    coordinate_and_global_location_from_neighbor_confirmed, spec_estimate, ConfirmedNeighbor,
};
use crate::confirm_coordinate::{spec_announcement, spec_report, spec_report_payload};
use crate::error::NetworkError;
use crate::header::Header;
use crate::localnet::{LocalNetwork, LocalNetworkLocation};
use crate::packet::{Packet, PacketId, PacketView, ToId};
use crate::protocol::Protocol;
use crate::system::SystemInfo;
use crate::utils::type_alias::{Coordinate, Id};
use crate::utils::util::{is_same_localnet, spec_is_root, spec_same_localnet};

verus! {

/// A unit in the global network, with the routing protocol that it
/// follows.
pub struct NetworkNode<T: Protocol> {
    ip_address: Id,
    mac_address: Id,
    localnet: LocalNetwork,
    global_location: LocalNetworkLocation,
    coordinate: Coordinate,
    protocol: T,
    /// The id that the next packet of this node gets.
    packet_id: PacketId,
}

/// What a node does with a packet that arrived.
#[derive(Debug)]
pub enum Routed {
    /// The packet is for this node, or for every node.
    Mine(Packet),
    /// The packet is for another node and passes through this one: it
    /// goes out again, on the link to the next node.
    Forward(Packet),
    /// The packet is for another node and does not pass through this
    /// one.
    Dropped,
}

/// What a node does after it failed to receive a packet.
#[derive(Debug, PartialEq, Eq, Clone, Copy, Structural)]
pub enum Recovery {
    /// Empty the read buffer of the link and try again.
    FlushAndRetry,
    /// Empty the read buffer of the link and report that no packet
    /// came in.
    FlushAndGiveUp,
}

/// How often a node tries again after it failed to receive a packet.
pub const MAX_RECEIVE_RETRIES: u32 = 1;

/// What a node does with a packet of its own once it knows its place.
#[derive(Debug)]
pub enum Dispatched {
    /// The packet is answered by the node itself, with this packet.
    Reply(Packet),
    /// The packet goes to the application.
    HandOff(Packet),
}

/// What `Routed` says, apart from how the packet is stored.
pub ghost enum RoutedView {
    Mine(PacketView),
    Forward(PacketView),
    Dropped,
}

impl View for Routed {
    type V = RoutedView;

    open spec fn view(&self) -> RoutedView {
        match self {
            Routed::Mine(packet) => RoutedView::Mine(packet@),
            Routed::Forward(packet) => RoutedView::Forward(packet@),
            Routed::Dropped => RoutedView::Dropped,
        }
    }
}

/// What `Dispatched` says, apart from how the packet is stored.
pub ghost enum DispatchedView {
    Reply(PacketView),
    HandOff(PacketView),
}

impl View for Dispatched {
    type V = DispatchedView;

    open spec fn view(&self) -> DispatchedView {
        match self {
            Dispatched::Reply(packet) => DispatchedView::Reply(packet@),
            Dispatched::HandOff(packet) => DispatchedView::HandOff(packet@),
        }
    }
}

/// What a node with the address `ip_address` does with a packet.
///
/// A packet for every node and a packet for this node are its own. A
/// packet for another node goes on to the next node if this node lies
/// on its way, the protocol names a next node, and the packet can be
/// sent. Every other packet is dropped.
pub open spec fn spec_route<T: Protocol>(protocol: T, ip_address: Id, packet: PacketView) -> RoutedView {
    match packet.global_to {
        ToId::Broadcast => RoutedView::Mine(packet),
        ToId::Unicast(destination) => if destination == ip_address {
            RoutedView::Mine(packet)
        } else if protocol.spec_is_in_route(ip_address, packet.global_from, destination)
            && packet.sendable() {
            match protocol.spec_next_node(ip_address, destination) {
                Ok(next) => RoutedView::Forward(
                    packet.relinked(ip_address, ToId::spec_from_id(next)),
                ),
                Err(_) => RoutedView::Dropped,
            }
        } else {
            RoutedView::Dropped
        },
    }
}

/// What a node that knows its place does with a packet of its own.
///
/// A probe is answered with a probe. A request for coordinates is
/// answered with the node's own place. Everything else is for the
/// application.
pub open spec fn spec_dispatch(mac_address: Id, coordinate: Coordinate, packet: PacketView) -> DispatchedView {
    if packet.header == Header::HCheckConnection {
        DispatchedView::Reply(spec_announcement(Header::HCheckConnection, mac_address))
    } else if packet.header == Header::HRequestConfirmedCoordinate {
        DispatchedView::Reply(
            spec_report(mac_address, spec_report_payload(true, seq![(mac_address, coordinate)])),
        )
    } else {
        DispatchedView::HandOff(packet)
    }
}

/// What a node answers to a probe: it is connected to another local
/// net if the probe of a unit of another local net came back.
pub open spec fn spec_check_connection(node_id: Id, received: Option<PacketView>) -> bool {
    match received {
        Some(packet) => packet.from != node_id && packet.header == Header::HCheckConnection
            && !spec_same_localnet(node_id, packet.from),
        None => false,
    }
}

impl<T: Protocol> NetworkNode<T> {
    #[verifier::type_invariant]
    spec fn inv(&self) -> bool {
        self.localnet@ == self.mac_address
    }

    pub closed spec fn spec_ip_address(&self) -> Id {
        self.ip_address
    }

    pub closed spec fn spec_mac_address(&self) -> Id {
        self.mac_address
    }

    pub closed spec fn spec_coordinate(&self) -> Coordinate {
        self.coordinate
    }

    pub closed spec fn spec_global_location(&self) -> LocalNetworkLocation {
        self.global_location
    }

    pub closed spec fn spec_packet_id(&self) -> PacketId {
        self.packet_id
    }

    pub closed spec fn spec_protocol(&self) -> T {
        self.protocol
    }

    /// A node from what it found out about its neighbours.
    ///
    /// A unit of the local net at the origin needs no reports: its
    /// place follows from its quadrant. Every other unit takes its
    /// place from the reports and joins the global network there.
    pub fn new<S: SystemInfo>(
        protocol: T,
        system_info: &S,
        neighbor_confirmed: &Vec<ConfirmedNeighbor>,
    ) -> (r: Result<Self, NetworkError>)
        ensures
            spec_is_root(system_info.spec_system_info()) ==> (r matches Ok(node) && {
                &&& node.spec_mac_address() == system_info.spec_system_info()
                &&& node.spec_ip_address() == system_info.spec_system_info()
                &&& node.spec_global_location() == LocalNetworkLocation::of_code(
                    crate::utils::util::spec_quadrant(system_info.spec_system_info()),
                )
                &&& node.spec_coordinate() == node.spec_global_location().spec_root_coordinate()
                &&& node.spec_packet_id() == 0
                &&& node.spec_protocol() == protocol
            }),
            !spec_is_root(system_info.spec_system_info()) ==> match spec_estimate(
                neighbor_confirmed@,
                system_info.spec_system_info(),
            ) {
                Err(e) => r matches Err(got) && got == e,
                Ok((coordinate, global_location)) => match protocol.spec_join(
                    system_info.spec_system_info(),
                    coordinate,
                ) {
                    Err(e) => r matches Err(got) && got == e,
                    Ok(ip_address) => r matches Ok(node) && {
                        &&& node.spec_mac_address() == system_info.spec_system_info()
                        &&& node.spec_ip_address() == ip_address
                        &&& node.spec_global_location() == global_location
                        &&& node.spec_coordinate() == coordinate
                        &&& node.spec_packet_id() == 1
                    },
                },
            },
    {
        let localnet = LocalNetwork::new(system_info);
        if localnet.is_root() {
            return Ok(Self::new_root(localnet, protocol));
        }
        let mac_address = localnet.get_mac_address();
        let (coordinate, global_location) =
            match coordinate_and_global_location_from_neighbor_confirmed(
            neighbor_confirmed,
            mac_address,
        ) {
            Ok(place) => place,
            Err(e) => {
                return Err(e);
            },
        };
        let mut protocol = protocol;
        let ip_address = match protocol.join_global_network(mac_address, coordinate) {
            Ok(ip_address) => ip_address,
            Err(e) => {
                return Err(e);
            },
        };
        Ok(
            NetworkNode {
                mac_address,
                ip_address,
                localnet,
                global_location,
                coordinate,
                protocol,
                packet_id: 1,
            },
        )
    }

    /// The node of a unit of the local net at the origin: it lies where
    /// its quadrant says, and its address is its identity word.
    pub fn new_root(localnet: LocalNetwork, protocol: T) -> (node: Self)
        ensures
            node.spec_mac_address() == localnet@,
            node.spec_ip_address() == localnet@,
            node.spec_global_location() == localnet.spec_location(),
            node.spec_coordinate() == localnet.spec_location().spec_root_coordinate(),
            node.spec_packet_id() == 0,
            node.spec_protocol() == protocol,
    {
        let global_location = localnet.get_location();
        NetworkNode {
            ip_address: localnet.get_mac_address(),
            mac_address: localnet.get_mac_address(),
            coordinate: localnet.root_coordinate(),
            localnet,
            global_location,
            protocol,
            packet_id: 0,
        }
    }

    /// Whether a probe showed a unit of another local net on the link.
    /// `received` is what came in after the probe went out.
    pub fn check_connection(node_id: Id, received: &Option<Packet>) -> (r: bool)
        ensures
            r == spec_check_connection(
                node_id,
                match *received {
                    Some(packet) => Some(packet@),
                    None => None,
                },
            ),
    {
        match received {
            Some(packet) => {
                if packet.get_from() == node_id {
                    return false;
                }
                match packet.get_header() {
                    Header::HCheckConnection => !is_same_localnet(node_id, packet.get_from()),
                    _ => false,
                }
            },
            None => false,
        }
    }

    pub fn is_root(&self) -> (r: bool)
        ensures
            r == spec_is_root(self.spec_mac_address()),
    {
        proof {
            use_type_invariant(self);
        }
        self.localnet.is_root()
    }

    pub fn get_coordinate(&self) -> (r: Coordinate)
        ensures
            r == self.spec_coordinate(),
    {
        self.coordinate
    }

    /// The unit's quadrant in its local net.
    pub fn get_local_location(&self) -> (r: LocalNetworkLocation)
        ensures
            r == LocalNetworkLocation::of_code(
                crate::utils::util::spec_quadrant(self.spec_mac_address()),
            ),
    {
        proof {
            use_type_invariant(self);
        }
        self.localnet.get_location()
    }

    /// The corner of its local net in which the unit lies, seen from
    /// the grid.
    pub fn get_global_location(&self) -> (r: LocalNetworkLocation)
        ensures
            r == self.spec_global_location(),
    {
        self.global_location
    }

    pub fn get_ip_address(&self) -> (r: Id)
        ensures
            r == self.spec_ip_address(),
    {
        self.ip_address
    }

    pub fn get_mac_address(&self) -> (r: Id)
        ensures
            r == self.spec_mac_address(),
    {
        self.mac_address
    }

    /// A packet from this node. It goes out on the link to the next
    /// node on the way to `globalto`, and takes the node's next packet
    /// id; the id after 255 is 0. A node sends no packet to itself.
    pub fn make_packet(
        &mut self,
        header: Header,
        globalfrom: Id,
        globalto: ToId,
        messages: Vec<u8>,
    ) -> (r: Result<Packet, NetworkError>)
        requires
            globalto.spec_to_id() != old(self).spec_ip_address(),
            messages.len() + 7 <= usize::MAX,
        ensures
            final(self).spec_ip_address() == old(self).spec_ip_address(),
            final(self).spec_mac_address() == old(self).spec_mac_address(),
            final(self).spec_coordinate() == old(self).spec_coordinate(),
            final(self).spec_global_location() == old(self).spec_global_location(),
            final(self).spec_protocol() == old(self).spec_protocol(),
            match old(self).spec_protocol().spec_next_node(
                old(self).spec_ip_address(),
                globalto.spec_to_id(),
            ) {
                Ok(next) => r matches Ok(packet) && packet@ == (PacketView {
                    packet_id: old(self).spec_packet_id(),
                    header,
                    from: old(self).spec_ip_address(),
                    to: ToId::spec_from_id(next),
                    global_from: globalfrom,
                    global_to: globalto,
                    payload: messages@,
                }) && final(self).spec_packet_id() == (old(self).spec_packet_id() + 1) % 256,
                Err(e) => r matches Err(got) && got == e && final(self).spec_packet_id() == old(self).spec_packet_id(),
            },
    {
        proof {
            use_type_invariant(&*self);
        }
        let from = self.ip_address;
        let to = match self.protocol.get_next_node(self.ip_address, globalto.to_id()) {
            Ok(to) => to,
            Err(e) => {
                return Err(e);
            },
        };
        let packet = Packet::new(
            self.packet_id,
            header,
            globalfrom,
            globalto,
            from,
            ToId::from_id(to),
            messages,
        );
        self.packet_id = self.packet_id.wrapping_add(1);
        Ok(packet)
    }

    /// Decides what becomes of a packet that arrived.
    pub fn get_packet(&self, packet: Packet) -> (r: Routed)
        ensures
            r@ == spec_route(self.spec_protocol(), self.spec_ip_address(), packet@),
    {
        // Is it a packet that was sent to this node? If it is not,
        // look at the routing table and send it to the next node, or
        // do not.
        match packet.get_global_to() {
            ToId::Broadcast => Routed::Mine(packet),
            ToId::Unicast(global_destination_id) => {
                if global_destination_id == self.ip_address {
                    return Routed::Mine(packet);
                }
                if !self.protocol.is_in_route(
                    self.ip_address,
                    packet.get_global_from(),
                    global_destination_id,
                ) {
                    return Routed::Dropped;
                }
                if !packet.is_sendable() {
                    return Routed::Dropped;
                }
                match self.protocol.get_next_node(self.ip_address, global_destination_id) {
                    Ok(next) => {
                        let mut packet = packet;
                        packet.change_from_and_to(self.ip_address, ToId::from_id(next));
                        Routed::Forward(packet)
                    },
                    Err(_) => Routed::Dropped,
                }
            },
        }
    }

    /// Decides how a node goes on after it failed to receive a packet
    /// for the `failures`th time in a row: it tries again once.
    pub fn recover(failures: u32) -> (r: Recovery)
        ensures
            r == if failures <= MAX_RECEIVE_RETRIES {
                Recovery::FlushAndRetry
            } else {
                Recovery::FlushAndGiveUp
            },
    {
        if failures <= MAX_RECEIVE_RETRIES {
            Recovery::FlushAndRetry
        } else {
            Recovery::FlushAndGiveUp
        }
    }

    /// Decides what becomes of a packet of this node's own once the
    /// node knows its place.
    pub fn dispatch(&self, packet: Packet) -> (r: Dispatched)
        ensures
            r@ == spec_dispatch(self.spec_mac_address(), self.spec_coordinate(), packet@),
            r matches Dispatched::Reply(reply) ==> reply@.sendable(),
    {
        match packet.get_header() {
            Header::HCheckConnection => Dispatched::Reply(
                Packet::make_check_connection_packet(self.mac_address),
            ),
            Header::HRequestConfirmedCoordinate => {
                match Packet::make_confirm_coordinate_packet_by_confirmed_node(
                    self.mac_address,
                    packet.get_global_from(),
                    self.coordinate,
                    self.global_location,
                ) {
                    Ok(reply) => Dispatched::Reply(reply),
                    Err(_) => Dispatched::HandOff(packet),
                }
            },
            _ => Dispatched::HandOff(packet),
        }
    }
}

} // verus!
