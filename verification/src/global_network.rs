//! Routing on the 4x4 grid: a packet first moves along x, then along y.

use vstd::prelude::*;
use crate::error::NetworkError;
use crate::protocol::{ChannelId, Protocol};
use crate::utils::type_alias::{Coordinate, Id};
use crate::utils::util::spec_distance;

verus! {

/// The width and the height of the grid.
pub const GRID_SIZE: i16 = 4;

/// The next position on the way from `this` to `destination`: one step
/// along x as long as x differs, then one step along y.
pub open spec fn spec_next_coordinate(this: Coordinate, destination: Coordinate) -> Coordinate {
    if this.0 < destination.0 {
        ((this.0 + 1) as i16, this.1)
    } else if this.0 > destination.0 {
        ((this.0 - 1) as i16, this.1)
    } else if this.1 < destination.1 {
        (this.0, (this.1 + 1) as i16)
    } else if this.1 > destination.1 {
        (this.0, (this.1 - 1) as i16)
    } else {
        this
    }
}

pub open spec fn spec_min(a: int, b: int) -> int {
    if a <= b {
        a
    } else {
        b
    }
}

pub open spec fn spec_max(a: int, b: int) -> int {
    if a <= b {
        b
    } else {
        a
    }
}

/// Whether `this` lies on the way from `source` to `destination`: on
/// the row of the source between the two columns, or on the column of
/// the destination between the two rows.
pub open spec fn spec_in_route(this: Coordinate, source: Coordinate, destination: Coordinate) -> bool {
    ||| (this.1 == source.1 && spec_min(source.0 as int, destination.0 as int) <= this.0
        <= spec_max(source.0 as int, destination.0 as int))
    ||| (this.0 == destination.0 && spec_min(source.1 as int, destination.1 as int) <= this.1
        <= spec_max(source.1 as int, destination.1 as int))
}

/// Where a packet from `source` to `destination` is after `steps`
/// steps. Once it has arrived it stays.
pub open spec fn spec_position_after(source: Coordinate, destination: Coordinate, steps: nat) -> Coordinate
    decreases steps,
{
    if steps == 0 {
        source
    } else {
        spec_next_coordinate(
            spec_position_after(source, destination, (steps - 1) as nat),
            destination,
        )
    }
}

/// The position in the grid of the unit with the address `ip_address`.
pub open spec fn spec_coordinate_of(ip_address: Id) -> Result<Coordinate, NetworkError> {
    if ip_address <= 15 {
        Ok(((ip_address % 4) as i16, (ip_address / 4) as i16))
    } else {
        Err(NetworkError::GridOutOfBounds)
    }
}

/// The address of the unit at a position of the grid: `x + 4 * y`.
pub open spec fn spec_ip_address_of(coordinate: Coordinate) -> Result<Id, NetworkError> {
    if 0 <= coordinate.0 < 4 && 0 <= coordinate.1 < 4 {
        Ok((coordinate.0 + 4 * coordinate.1) as u16)
    } else {
        Err(NetworkError::GridOutOfBounds)
    }
}

/// Every step brings a packet one step closer.
pub proof fn lemma_next_coordinate_is_closer(this: Coordinate, destination: Coordinate)
    requires
        this != destination,
    ensures
        spec_distance(spec_next_coordinate(this, destination), destination) == spec_distance(
            this,
            destination,
        ) - 1,
        spec_distance(this, spec_next_coordinate(this, destination)) == 1,
{
}

/// After `steps` steps, for no more steps than the way is long, a
/// packet has that many steps behind it, the rest of the way before
/// it, and stands on the way.
pub proof fn lemma_position_after(source: Coordinate, destination: Coordinate, steps: nat)
    requires
        steps <= spec_distance(source, destination),
    ensures
        spec_distance(spec_position_after(source, destination, steps), destination)
            == spec_distance(source, destination) - steps,
        spec_distance(source, spec_position_after(source, destination, steps)) == steps,
        spec_in_route(spec_position_after(source, destination, steps), source, destination),
    decreases steps,
{
    if steps > 0 {
        lemma_position_after(source, destination, (steps - 1) as nat);
        let before = spec_position_after(source, destination, (steps - 1) as nat);
        lemma_next_coordinate_is_closer(before, destination);
    }
}

/// A packet reaches its destination after as many steps as the source
/// and the destination lie apart along the axes, and not before.
pub proof fn lemma_route_reaches_destination(source: Coordinate, destination: Coordinate)
    ensures
        spec_position_after(
            source,
            destination,
            spec_distance(source, destination) as nat,
        ) == destination,
        forall|steps: nat|
            steps < spec_distance(source, destination) ==> #[trigger] spec_position_after(
                source,
                destination,
                steps,
            ) != destination,
{
    lemma_position_after(source, destination, spec_distance(source, destination) as nat);
    assert forall|steps: nat| steps < spec_distance(source, destination) implies #[trigger] spec_position_after(
        source,
        destination,
        steps,
    ) != destination by {
        lemma_position_after(source, destination, steps);
    }
}

/// A position lies on the way from `source` to `destination` exactly
/// when the packet stands there after some number of steps.
pub proof fn lemma_in_route_is_on_the_path(
    this: Coordinate,
    source: Coordinate,
    destination: Coordinate,
)
    ensures
        spec_in_route(this, source, destination) <==> exists|steps: nat|
            steps <= spec_distance(source, destination) && #[trigger] spec_position_after(
                source,
                destination,
                steps,
            ) == this,
{
    if spec_in_route(this, source, destination) {
        let steps = spec_distance(source, this) as nat;
        lemma_reaches_position_on_route(this, source, destination);
        assert(steps <= spec_distance(source, destination) && spec_position_after(
            source,
            destination,
            steps,
        ) == this);
    }
    if exists|steps: nat|
        steps <= spec_distance(source, destination) && #[trigger] spec_position_after(
            source,
            destination,
            steps,
        ) == this {
        let steps = choose|steps: nat|
            steps <= spec_distance(source, destination) && #[trigger] spec_position_after(
                source,
                destination,
                steps,
            ) == this;
        lemma_position_after(source, destination, steps);
    }
}

/// A packet stands at a position on its way after as many steps as
/// that position lies from the source.
proof fn lemma_reaches_position_on_route(
    this: Coordinate,
    source: Coordinate,
    destination: Coordinate,
)
    requires
        spec_in_route(this, source, destination),
    ensures
        spec_distance(source, this) <= spec_distance(source, destination),
        spec_position_after(source, destination, spec_distance(source, this) as nat) == this,
    decreases spec_distance(source, this),
{
    let steps = spec_distance(source, this) as nat;
    if steps > 0 {
        // The position one step before `this` on the way.
        let before: Coordinate = if this.1 == source.1 && this.0 != source.0 {
            if source.0 < this.0 {
                ((this.0 - 1) as i16, this.1)
            } else {
                ((this.0 + 1) as i16, this.1)
            }
        } else {
            if source.1 < this.1 {
                (this.0, (this.1 - 1) as i16)
            } else {
                (this.0, (this.1 + 1) as i16)
            }
        };
        assert(spec_in_route(before, source, destination));
        assert(spec_distance(source, before) == steps - 1);
        lemma_reaches_position_on_route(before, source, destination);
        assert(spec_next_coordinate(before, destination) == this);
    }
}

/// The routing table of the 4x4 grid. It holds nothing: the way of a
/// packet follows from the two positions.
#[derive(Debug)]
pub struct DefaultRoutingTable {}

impl DefaultRoutingTable {
    /// The next position on the way to `destination_coordinate`. A
    /// packet that has arrived has no next position.
    pub fn get_next_coordinate(
        &self,
        this_coordinate: Coordinate,
        destination_coordinate: Coordinate,
    ) -> (r: Coordinate)
        requires
            this_coordinate != destination_coordinate,
        ensures
            r == spec_next_coordinate(this_coordinate, destination_coordinate),
    {
        let (this_x, this_y) = this_coordinate;
        let (destination_x, destination_y) = destination_coordinate;

        // Firstly, move x coordinate. Secondly, move y coordinate.
        if this_x < destination_x {
            (this_x + 1, this_y)
        } else if this_x > destination_x {
            (this_x - 1, this_y)
        } else if this_y < destination_y {
            (this_x, this_y + 1)
        } else {
            (this_x, this_y - 1)
        }
    }

    pub fn is_in_route(
        &self,
        this_coordinate: Coordinate,
        source_coordinate: Coordinate,
        destination_coordinate: Coordinate,
    ) -> (r: bool)
        ensures
            r == spec_in_route(this_coordinate, source_coordinate, destination_coordinate),
    {
        let (this_x, this_y) = this_coordinate;
        let (source_x, source_y) = source_coordinate;
        let (destination_x, destination_y) = destination_coordinate;

        let (low_x, high_x) = if source_x <= destination_x {
            (source_x, destination_x)
        } else {
            (destination_x, source_x)
        };
        let (low_y, high_y) = if source_y <= destination_y {
            (source_y, destination_y)
        } else {
            (destination_y, source_y)
        };
        if source_y == this_y && (low_x <= this_x && this_x <= high_x) {
            true
        } else if destination_x == this_x && (low_y <= this_y && this_y <= high_y) {
            true
        } else {
            false
        }
    }
}

/// The routing protocol of the 4x4 grid. A unit's address is
/// `x + 4 * y`.
#[derive(Debug)]
pub struct DefaultProtocol {
    routing_table: DefaultRoutingTable,
}

impl DefaultProtocol {
    pub fn new() -> (r: Self) {
        Self { routing_table: DefaultRoutingTable {  } }
    }

    /// The address of the unit at `coordinate`, which must lie in the
    /// grid.
    pub fn make_ip_address(coordinate: Coordinate) -> (r: Result<Id, NetworkError>)
        ensures
            r == spec_ip_address_of(coordinate),
    {
        let (x, y) = coordinate;
        if x >= 0 && y >= 0 && x < GRID_SIZE && y < GRID_SIZE {
            Ok(x as u16 + 4 * y as u16)
        } else {
            Err(NetworkError::GridOutOfBounds)
        }
    }

    /// The position of the unit with the address `ip_address`, which
    /// must be one of the 16 addresses of the grid.
    pub fn get_coordinate(ip_address: Id) -> (r: Result<Coordinate, NetworkError>)
        ensures
            r == spec_coordinate_of(ip_address),
    {
        if ip_address <= 15 {
            Ok(((ip_address % 4) as i16, (ip_address / 4) as i16))
        } else {
            Err(NetworkError::GridOutOfBounds)
        }
    }
}

/// An address and its position stand for each other.
pub proof fn lemma_address_round_trip(ip_address: Id, coordinate: Coordinate)
    ensures
        spec_coordinate_of(ip_address) is Ok ==> spec_ip_address_of(
            spec_coordinate_of(ip_address).unwrap(),
        ) == Ok::<Id, NetworkError>(ip_address),
        spec_ip_address_of(coordinate) is Ok ==> spec_coordinate_of(
            spec_ip_address_of(coordinate).unwrap(),
        ) == Ok::<Coordinate, NetworkError>(coordinate),
{
}

/// Inside the grid every unit knows the next unit on the way to every
/// other unit, and that unit lies inside the grid, one step from this
/// one and one step closer to the destination.
pub proof fn lemma_next_node_stays_in_the_grid(this: Id, destination: Id)
    requires
        this <= 15,
        destination <= 15,
        this != destination,
    ensures
        spec_ip_address_of(
            spec_next_coordinate(
                spec_coordinate_of(this).unwrap(),
                spec_coordinate_of(destination).unwrap(),
            ),
        ) is Ok,
        spec_ip_address_of(
            spec_next_coordinate(
                spec_coordinate_of(this).unwrap(),
                spec_coordinate_of(destination).unwrap(),
            ),
        ).unwrap() <= 15,
        spec_distance(
            spec_next_coordinate(
                spec_coordinate_of(this).unwrap(),
                spec_coordinate_of(destination).unwrap(),
            ),
            spec_coordinate_of(destination).unwrap(),
        ) == spec_distance(
            spec_coordinate_of(this).unwrap(),
            spec_coordinate_of(destination).unwrap(),
        ) - 1,
{
}

impl Protocol for DefaultProtocol {
    /// A unit is on the way of a packet when all three addresses belong
    /// to the grid and its position lies on the way.
    open spec fn spec_is_in_route(&self, this: Id, global_source: Id, global_destination: Id) -> bool {
        &&& spec_coordinate_of(this) is Ok
        &&& spec_coordinate_of(global_source) is Ok
        &&& spec_coordinate_of(global_destination) is Ok
        &&& spec_in_route(
            spec_coordinate_of(this).unwrap(),
            spec_coordinate_of(global_source).unwrap(),
            spec_coordinate_of(global_destination).unwrap(),
        )
    }

    /// The address of the next position, for two addresses of the grid.
    open spec fn spec_next_node(&self, this: Id, global_destination: Id) -> Result<
        Id,
        NetworkError,
    > {
        if spec_coordinate_of(this) is Ok && spec_coordinate_of(global_destination) is Ok {
            spec_ip_address_of(
                spec_next_coordinate(
                    spec_coordinate_of(this).unwrap(),
                    spec_coordinate_of(global_destination).unwrap(),
                ),
            )
        } else {
            Err(NetworkError::GridOutOfBounds)
        }
    }

    /// The address of a unit at a position of the grid is `x + 4 * y`.
    /// A position outside the grid has no address.
    open spec fn spec_join(&self, mac_address: Id, coordinate: Coordinate) -> Result<
        Id,
        NetworkError,
    > {
        spec_ip_address_of(coordinate)
    }

    fn is_in_route(&self, this_id: Id, source_id: Id, destination_id: Id) -> (r: bool) {
        let this = match Self::get_coordinate(this_id) {
            Ok(coordinate) => coordinate,
            Err(_) => {
                return false;
            },
        };
        let source = match Self::get_coordinate(source_id) {
            Ok(coordinate) => coordinate,
            Err(_) => {
                return false;
            },
        };
        let destination = match Self::get_coordinate(destination_id) {
            Ok(coordinate) => coordinate,
            Err(_) => {
                return false;
            },
        };
        self.routing_table.is_in_route(this, source, destination)
    }

    fn get_next_node(&self, this_id: Id, destination_id: Id) -> (r: Result<Id, NetworkError>) {
        let this = match Self::get_coordinate(this_id) {
            Ok(coordinate) => coordinate,
            Err(e) => {
                return Err(e);
            },
        };
        let destination = match Self::get_coordinate(destination_id) {
            Ok(coordinate) => coordinate,
            Err(e) => {
                return Err(e);
            },
        };
        Self::make_ip_address(self.routing_table.get_next_coordinate(this, destination))
    }

    fn add_connection(&mut self, _id: Id, _id2: Id) -> (r: Result<(), NetworkError>)
        ensures
            r is Ok,
    {
        Ok(())
    }

    fn remove_connection(&mut self, _id: Id, _id2: Id) -> (r: Result<(), NetworkError>)
        ensures
            r is Ok,
    {
        Ok(())
    }

    fn get_channel(&self, _this: Id, _destination: Id) -> (r: ChannelId)
        ensures
            r == 0,
    {
        0
    }

    fn change_channel(&mut self, _this: Id, _destination: Id, _channel: ChannelId) -> (r: Result<
        (),
        NetworkError,
    >)
        ensures
            r is Ok,
    {
        Ok(())
    }

    fn join_global_network(&mut self, _mac_address: Id, coordinate: Coordinate) -> (r: Result<
        Id,
        NetworkError,
    >)
        ensures
            r == spec_ip_address_of(coordinate),
    {
        Self::make_ip_address(coordinate)
    }
}

} // verus!
