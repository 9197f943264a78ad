//! What a node asks of a routing protocol.

use vstd::prelude::*;
use crate::error::NetworkError;
use crate::utils::type_alias::{Coordinate, Id};

verus! {

pub type ChannelId = u8;

/// A routing protocol over the addresses that `join_global_network`
/// hands out.
///
/// The two questions that a node asks on every packet are answered
/// from the state of the protocol and the addresses alone: the spec
/// functions name that answer.
pub trait Protocol {
    /// Whether a packet from `global_source` to `global_destination`
    /// passes through `this`.
    spec fn spec_is_in_route(&self, this: Id, global_source: Id, global_destination: Id) -> bool;

    /// Where `this` hands on a packet for `global_destination`.
    spec fn spec_next_node(&self, this: Id, global_destination: Id) -> Result<Id, NetworkError>;

    /// The address that a unit at `coordinate` is given when it joins.
    spec fn spec_join(&self, mac_address: Id, coordinate: Coordinate) -> Result<Id, NetworkError>;

    /// Check whether this node is in route.
    fn is_in_route(&self, this: Id, global_source: Id, global_destination: Id) -> (r: bool)
        ensures
            r == self.spec_is_in_route(this, global_source, global_destination),
    ;

    /// The next node on the way to `global_destination`. A packet that
    /// has arrived has no next node.
    fn get_next_node(&self, this: Id, global_destination: Id) -> (r: Result<Id, NetworkError>)
        requires
            this != global_destination,
        ensures
            r == self.spec_next_node(this, global_destination),
    ;

    /// Add nodes' connection to routing table: the nodes `id` and `id2`
    /// are connected.
    fn add_connection(&mut self, id: Id, id2: Id) -> (r: Result<(), NetworkError>);

    /// Remove nodes' connection in routing table: the nodes `id` and
    /// `id2` are disconnected.
    fn remove_connection(&mut self, id: Id, id2: Id) -> (r: Result<(), NetworkError>);

    /// The channel from `this` to `destination`. Unless a protocol says
    /// otherwise there is one channel, the channel 0.
    fn get_channel(&self, this: Id, destination: Id) -> (r: ChannelId)
        default_ensures
            r == 0,
    {
        0
    }

    /// Puts the way from `this` to `destination` on another channel.
    /// Unless a protocol says otherwise there is one channel and
    /// nothing to change: the call succeeds and leaves the protocol as
    /// it is.
    fn change_channel(&mut self, this: Id, destination: Id, channel: ChannelId) -> (r: Result<
        (),
        NetworkError,
    >)
        default_ensures
            r == Ok::<(), NetworkError>(()),
            forall|at: Id, source: Id, to: Id| #[trigger]
                final(self).spec_is_in_route(at, source, to) == old(self).spec_is_in_route(
                    at,
                    source,
                    to,
                ),
            forall|at: Id, to: Id| #[trigger]
                final(self).spec_next_node(at, to) == old(self).spec_next_node(at, to),
            forall|mac_address: Id, coordinate: Coordinate| #[trigger]
                final(self).spec_join(mac_address, coordinate) == old(self).spec_join(
                    mac_address,
                    coordinate,
                ),
    {
        Ok(())
    }

    /// Enters the node into the global network and returns its address
    /// there.
    fn join_global_network(&mut self, mac_address: Id, coordinate: Coordinate) -> (r: Result<
        Id,
        NetworkError,
    >)
        ensures
            r == old(self).spec_join(mac_address, coordinate),
    ;
}

} // verus!
