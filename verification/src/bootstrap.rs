//! How a unit finds its own place from what its neighbours report.
//!
//! A unit keeps a table of reports: who said it, about which unit, and
//! where that unit is. The table tells the place of the unit in one of
//! two ways.
//!
//! A unit of the same local net may already know where all four units
//! of the local net are. Then the table holds the unit's own place.
//!
//! Or the table holds two units of other local nets that lie one step
//! apart. One of them was heard directly: it is the proximal unit, and
//! this unit lies next to it. The other, the distal unit, was reported
//! by a neighbour inside the local net. The quadrants of the two tell
//! which way round the other local net lies, and with that on which
//! side of the proximal unit this unit is.

use vstd::prelude::*;
use crate::confirm_coordinate::{spec_confirm_coordinate, spec_load_report};
use crate::error::NetworkError;
use crate::header::Header;
use crate::localnet::LocalNetworkLocation;
use crate::packet::{Packet, PacketView};
use crate::utils::type_alias::{Coordinate, Id};
use crate::utils::util::{
    distance, is_neighbor_node_in_localnet, is_same_localnet, spec_distance,
    spec_neighbor_in_localnet, spec_quadrant, spec_same_localnet,
};

verus! {

/// One report: (the unit that said it, the unit it is about, the place
/// of that unit).
pub type ConfirmedNeighbor = (Id, Id, Coordinate);

/// Whether the reports `a` and `b` of the table are about places one
/// step apart.
pub open spec fn spec_adjacent_at(table: Seq<ConfirmedNeighbor>, a: int, b: int) -> bool {
    spec_distance(table[a].2, table[b].2) == 1
}

/// Whether the table holds two reports about places one step apart.
pub open spec fn spec_has_adjacent(table: Seq<ConfirmedNeighbor>) -> bool {
    exists|a: int, b: int| 0 <= a < b < table.len() && #[trigger] spec_adjacent_at(table, a, b)
}

/// Whether `(i, j)` is the first pair of reports about places one step
/// apart: no pair with a lower first report is one, and no pair of
/// the report `i` with a report before `j`.
pub open spec fn spec_first_adjacent(table: Seq<ConfirmedNeighbor>, i: int, j: int) -> bool {
    &&& 0 <= i < j < table.len()
    &&& spec_adjacent_at(table, i, j)
    &&& forall|a: int, b: int|
        0 <= a < b < table.len() && (a < i || (a == i && b < j)) ==> !#[trigger] spec_adjacent_at(
            table,
            a,
            b,
        )
}

/// The first pair of reports about places one step apart.
pub open spec fn spec_first_adjacent_pair(table: Seq<ConfirmedNeighbor>) -> (int, int) {
    choose|pair: (int, int)| spec_first_adjacent(table, pair.0, pair.1)
}

/// Whether the table holds a report about the unit `this_id`.
pub open spec fn spec_knows(table: Seq<ConfirmedNeighbor>, this_id: Id) -> bool {
    exists|k: int| 0 <= k < table.len() && (#[trigger] table[k]).1 == this_id
}

/// The position in the table of a report about the unit `this_id`.
pub open spec fn spec_report_about(table: Seq<ConfirmedNeighbor>, this_id: Id) -> int {
    choose|k: int| 0 <= k < table.len() && (#[trigger] table[k]).1 == this_id
}

/// Whether the table tells the unit `this_id` its place: it holds a
/// report about the unit itself, or two reports about places one step
/// apart.
pub open spec fn spec_ready(table: Seq<ConfirmedNeighbor>, this_id: Id) -> bool {
    spec_knows(table, this_id) || spec_has_adjacent(table)
}

/// The reports about units of the local net of `this_id`.
pub open spec fn spec_about_localnet(this_id: Id) -> spec_fn(ConfirmedNeighbor) -> bool {
    |report: ConfirmedNeighbor| spec_same_localnet(this_id, report.1)
}

/// Whether two reports of the table give one unit two places.
pub open spec fn spec_contradicts(table: Seq<ConfirmedNeighbor>) -> bool {
    exists|a: int, b: int|
        0 <= a < table.len() && 0 <= b < table.len() && #[trigger] spec_contradict_at(table, a, b)
}

pub open spec fn spec_contradict_at(table: Seq<ConfirmedNeighbor>, a: int, b: int) -> bool {
    table[a].1 == table[b].1 && table[a].2 != table[b].2
}

/// Whether a report gives a place further right than `place`.
pub open spec fn spec_any_right_of(table: Seq<ConfirmedNeighbor>, place: Coordinate) -> bool {
    exists|k: int| 0 <= k < table.len() && (#[trigger] table[k]).2.0 > place.0
}

/// Whether a report gives a place further up than `place`.
pub open spec fn spec_any_above(table: Seq<ConfirmedNeighbor>, place: Coordinate) -> bool {
    exists|k: int| 0 <= k < table.len() && (#[trigger] table[k]).2.1 > place.1
}

/// The corner of a local net in which a unit lies, from whether there
/// are units to its right and units above it.
pub open spec fn spec_corner(any_right: bool, any_above: bool) -> LocalNetworkLocation {
    if any_right && any_above {
        LocalNetworkLocation::DownLeft
    } else if any_right {
        LocalNetworkLocation::UpLeft
    } else if any_above {
        LocalNetworkLocation::DownRight
    } else {
        LocalNetworkLocation::UpRight
    }
}

/// The place and the corner of the unit `this_id`, from reports about
/// its own local net. The reports must hold the unit itself and must
/// not give any unit two places.
pub open spec fn spec_place_in_localnet(localnet: Seq<ConfirmedNeighbor>, this_id: Id) -> Result<
    (Coordinate, LocalNetworkLocation),
    NetworkError,
> {
    if !spec_knows(localnet, this_id) || spec_contradicts(localnet) {
        Err(NetworkError::BootstrapInconsistent)
    } else {
        let place = localnet[spec_report_about(localnet, this_id)].2;
        Ok((place, spec_corner(spec_any_right_of(localnet, place), spec_any_above(localnet, place))))
    }
}

/// The step from the proximal unit to this unit, and the corner of
/// this unit.
///
/// `clockwise`: the distal unit's quadrant is one step clockwise from
/// the proximal unit's. `along_x`: the two units differ in x.
/// `small`: the proximal unit has the smaller value on that axis.
pub open spec fn spec_step_and_corner(clockwise: bool, along_x: bool, small: bool) -> (
    (int, int),
    LocalNetworkLocation,
) {
    if clockwise {
        if along_x {
            if small {
                ((0, 1), LocalNetworkLocation::DownLeft)
            } else {
                ((0, -1), LocalNetworkLocation::UpRight)
            }
        } else {
            if small {
                ((-1, 0), LocalNetworkLocation::DownRight)
            } else {
                ((1, 0), LocalNetworkLocation::UpLeft)
            }
        }
    } else {
        if along_x {
            if small {
                ((0, -1), LocalNetworkLocation::UpLeft)
            } else {
                ((0, 1), LocalNetworkLocation::DownRight)
            }
        } else {
            if small {
                ((1, 0), LocalNetworkLocation::DownLeft)
            } else {
                ((-1, 0), LocalNetworkLocation::UpRight)
            }
        }
    }
}

/// The place and the corner of a unit that lies next to the proximal
/// unit.
///
/// The quadrants of the two units must be neighbours on the circle,
/// and their places one step apart: else the reports contradict each
/// other. The place that comes out must be a pair of 16-bit numbers.
pub open spec fn spec_place_from_pair(
    proximal_location: LocalNetworkLocation,
    proximal: Coordinate,
    distal_location: LocalNetworkLocation,
    distal: Coordinate,
) -> Result<(Coordinate, LocalNetworkLocation), NetworkError> {
    let clockwise = proximal_location.spec_clockwise() == distal_location;
    let counterclockwise = proximal_location.spec_counterclockwise() == distal_location;
    if !(clockwise || counterclockwise) || spec_distance(proximal, distal) != 1 {
        Err(NetworkError::BootstrapInconsistent)
    } else {
        let along_x = proximal.0 != distal.0;
        let small = if along_x {
            proximal.0 < distal.0
        } else {
            proximal.1 < distal.1
        };
        let (step, corner) = spec_step_and_corner(clockwise, along_x, small);
        let x = proximal.0 + step.0;
        let y = proximal.1 + step.1;
        if i16::MIN <= x <= i16::MAX && i16::MIN <= y <= i16::MAX {
            Ok(((x as i16, y as i16), corner))
        } else {
            Err(NetworkError::GridOutOfBounds)
        }
    }
}

/// The place and the corner of the unit `this_id`, from two reports
/// about other local nets. The report that a neighbour inside the
/// local net passed on is about the distal unit; exactly one of the
/// two must be such a report.
pub open spec fn spec_place_from_reports(
    first: ConfirmedNeighbor,
    second: ConfirmedNeighbor,
    this_id: Id,
) -> Result<(Coordinate, LocalNetworkLocation), NetworkError> {
    let first_passed_on = spec_neighbor_in_localnet(this_id, first.0);
    let second_passed_on = spec_neighbor_in_localnet(this_id, second.0);
    if first_passed_on == second_passed_on {
        Err(NetworkError::BootstrapInconsistent)
    } else {
        let (proximal, distal) = if first_passed_on {
            (second, first)
        } else {
            (first, second)
        };
        spec_place_from_pair(
            LocalNetworkLocation::of_code(spec_quadrant(proximal.1)),
            proximal.2,
            LocalNetworkLocation::of_code(spec_quadrant(distal.1)),
            distal.2,
        )
    }
}

/// The place and the corner of the unit `this_id`, from its table.
///
/// If the table holds reports about the unit's own local net, there
/// must be four of them, and they tell the place. Otherwise the first
/// two reports about places one step apart tell it.
pub open spec fn spec_estimate(table: Seq<ConfirmedNeighbor>, this_id: Id) -> Result<
    (Coordinate, LocalNetworkLocation),
    NetworkError,
> {
    let localnet = table.filter(spec_about_localnet(this_id));
    if localnet.len() > 0 {
        if localnet.len() != 4 {
            Err(NetworkError::BootstrapInconsistent)
        } else {
            spec_place_in_localnet(localnet, this_id)
        }
    } else if !spec_has_adjacent(table) {
        Err(NetworkError::BootstrapInconsistent)
    } else {
        let (i, j) = spec_first_adjacent_pair(table);
        spec_place_from_reports(table[i], table[j], this_id)
    }
}

/// The place that two units of another local net give lies one step
/// from the proximal unit and two steps from the distal unit: this
/// unit and the two form a corner.
pub proof fn lemma_place_lies_next_to_the_proximal_unit(
    proximal_location: LocalNetworkLocation,
    proximal: Coordinate,
    distal_location: LocalNetworkLocation,
    distal: Coordinate,
)
    ensures
        spec_place_from_pair(proximal_location, proximal, distal_location, distal) matches Ok(
            (place, _),
        ) ==> spec_distance(place, proximal) == 1 && spec_distance(place, distal) == 2,
{
}

/// There is one first pair.
pub proof fn lemma_first_adjacent_is_unique(
    table: Seq<ConfirmedNeighbor>,
    i: int,
    j: int,
    k: int,
    l: int,
)
    requires
        spec_first_adjacent(table, i, j),
        spec_first_adjacent(table, k, l),
    ensures
        i == k,
        j == l,
{
}

/// A table that was added to, report by report, without repeating one
/// that it held.
pub open spec fn spec_no_duplicates(table: Seq<ConfirmedNeighbor>) -> bool {
    forall|a: int, b: int| 0 <= a < b < table.len() ==> table[a] != table[b]
}

/// The table after the reports `rows` of the unit `reporter` have been
/// added: each one that the table does not hold yet is appended.
pub open spec fn spec_accumulate(
    table: Seq<ConfirmedNeighbor>,
    reporter: Id,
    rows: Seq<(Id, Coordinate)>,
) -> Seq<ConfirmedNeighbor>
    decreases rows.len(),
{
    if rows.len() == 0 {
        table
    } else {
        let before = spec_accumulate(table, reporter, rows.drop_last());
        let report = (reporter, rows.last().0, rows.last().1);
        if before.contains(report) {
            before
        } else {
            before.push(report)
        }
    }
}

/// Adding reports keeps what the table held, in its place, and brings
/// in no report twice.
pub proof fn lemma_accumulate_grows(
    table: Seq<ConfirmedNeighbor>,
    reporter: Id,
    rows: Seq<(Id, Coordinate)>,
)
    ensures
        table.len() <= spec_accumulate(table, reporter, rows).len() <= table.len() + rows.len(),
        spec_accumulate(table, reporter, rows).subrange(0, table.len() as int) == table,
        spec_no_duplicates(table) ==> spec_no_duplicates(spec_accumulate(table, reporter, rows)),
        forall|n: int|
            0 <= n < rows.len() ==> spec_accumulate(table, reporter, rows).contains(
                (reporter, (#[trigger] rows[n]).0, rows[n].1),
            ),
    decreases rows.len(),
{
    let after = spec_accumulate(table, reporter, rows);
    if rows.len() == 0 {
        assert(after.subrange(0, table.len() as int) =~= table);
    } else {
        lemma_accumulate_grows(table, reporter, rows.drop_last());
        let before = spec_accumulate(table, reporter, rows.drop_last());
        let report = (reporter, rows.last().0, rows.last().1);
        assert(after.subrange(0, table.len() as int) =~= before.subrange(0, table.len() as int));
        assert forall|n: int| 0 <= n < rows.len() implies after.contains(
            (reporter, (#[trigger] rows[n]).0, rows[n].1),
        ) by {
            if n < rows.len() - 1 {
                let earlier = (reporter, rows.drop_last()[n].0, rows.drop_last()[n].1);
                assert(before.contains(earlier));
                let at = choose|at: int| 0 <= at < before.len() && before[at] == earlier;
                assert(after[at] == earlier);
            } else {
                if before.contains(report) {
                } else {
                    assert(after[before.len() as int] == report);
                }
            }
        }
        if spec_no_duplicates(table) && !before.contains(report) {
            assert forall|a: int, b: int| 0 <= a < b < after.len() implies after[a] != after[b] by {
                if b == before.len() {
                    if after[a] == report {
                        assert(before[a] == report);
                        assert(before.contains(report));
                    }
                }
            }
        }
    }
}

/// The six values of a pair of reports.
pub open spec fn spec_pair_of(table: Seq<ConfirmedNeighbor>, i: int, j: int) -> (
    Id,
    Id,
    Coordinate,
    Id,
    Id,
    Coordinate,
) {
    (table[i].0, table[i].1, table[i].2, table[j].0, table[j].1, table[j].2)
}

/// What a node does with a packet that it was asked about while it
/// still looks for its place.
#[derive(Debug)]
pub struct Processed {
    /// The packet was a report that could be read, or a request.
    pub valid: bool,
    /// The answer to send, if the packet was a request and there is
    /// something to answer.
    pub reply: Option<Packet>,
}

/// What `Processed` says, apart from how the packet is stored.
pub ghost struct ProcessedView {
    pub valid: bool,
    pub reply: Option<PacketView>,
}

impl View for Processed {
    type V = ProcessedView;

    open spec fn view(&self) -> ProcessedView {
        ProcessedView {
            valid: self.valid,
            reply: match self.reply {
                Some(packet) => Some(packet@),
                None => None,
            },
        }
    }
}

/// What a unit that still looks for its place does with a packet, and
/// what its table holds afterwards.
///
/// A report that can be read is added to the table. A report that
/// cannot be read is passed over. A request is answered from the
/// table, if the table holds anything; a request from a unit that
/// cannot be answered is an error. No other packet is of use.
pub open spec fn spec_process_reply(
    node_id: Id,
    packet: PacketView,
    table: Seq<ConfirmedNeighbor>,
) -> Result<(ProcessedView, Seq<ConfirmedNeighbor>), NetworkError> {
    if packet.header == Header::ConfirmCoordinate {
        match spec_load_report(packet, node_id) {
            Ok(rows) => Ok(
                (
                    ProcessedView { valid: true, reply: None },
                    spec_accumulate(table, packet.global_from, rows),
                ),
            ),
            Err(_) => Ok((ProcessedView { valid: false, reply: None }, table)),
        }
    } else if packet.header == Header::HRequestConfirmedCoordinate {
        if table.len() == 0 {
            Ok((ProcessedView { valid: true, reply: None }, table))
        } else {
            match spec_confirm_coordinate(node_id, packet.global_from, table) {
                Some(reply) => Ok((ProcessedView { valid: true, reply: Some(reply) }, table)),
                None => Err(NetworkError::BootstrapInconsistent),
            }
        }
    } else {
        Ok((ProcessedView { valid: false, reply: None }, table))
    }
}

/// The first two reports about places one step apart, by their
/// positions in the table.
pub fn find_distance_1_pair(neighbor_confirmed: &Vec<ConfirmedNeighbor>) -> (r: Option<
    (usize, usize),
>)
    ensures
        match r {
            Some((i, j)) => spec_first_adjacent(neighbor_confirmed@, i as int, j as int),
            None => !spec_has_adjacent(neighbor_confirmed@),
        },
{
    let ghost table = neighbor_confirmed@;
    let mut i: usize = 0;
    while i < neighbor_confirmed.len()
        invariant
            table == neighbor_confirmed@,
            i <= neighbor_confirmed.len(),
            forall|a: int, b: int|
                0 <= a < b < table.len() && a < i ==> !#[trigger] spec_adjacent_at(
                    table,
                    a,
                    b,
                ),
        decreases neighbor_confirmed.len() - i,
    {
        let (_, _, coordinate) = neighbor_confirmed[i];
        let mut j: usize = i + 1;
        while j < neighbor_confirmed.len()
            invariant
                table == neighbor_confirmed@,
                i < j <= neighbor_confirmed.len(),
                coordinate == table[i as int].2,
                forall|a: int, b: int|
                    0 <= a < b < table.len() && (a < i || (a == i && b < j))
                        ==> !#[trigger] spec_adjacent_at(table, a, b),
            decreases neighbor_confirmed.len() - j,
        {
            let (_, _, other) = neighbor_confirmed[j];
            if distance(coordinate, other) == 1 {
                return Some((i, j));
            }
            j += 1;
        }
        i += 1;
    }
    None
}

/// The first two reports about places one step apart: (who said
/// it, which unit, where), twice.
pub fn find_distance_1_neighbor(neighbor_confirmed: &Vec<ConfirmedNeighbor>) -> (r: Option<
    (Id, Id, Coordinate, Id, Id, Coordinate),
>)
    ensures
        match r {
            Some(found) => spec_has_adjacent(neighbor_confirmed@) && found == spec_pair_of(
                neighbor_confirmed@,
                spec_first_adjacent_pair(neighbor_confirmed@).0,
                spec_first_adjacent_pair(neighbor_confirmed@).1,
            ),
            None => !spec_has_adjacent(neighbor_confirmed@),
        },
{
    match find_distance_1_pair(neighbor_confirmed) {
        Some((i, j)) => {
            proof {
                let table = neighbor_confirmed@;
                assert(spec_adjacent_at(table, i as int, j as int));
                let pair = (i as int, j as int);
                assert(spec_first_adjacent(table, pair.0, pair.1));
                let chosen = spec_first_adjacent_pair(table);
                lemma_first_adjacent_is_unique(table, i as int, j as int, chosen.0, chosen.1);
            }
            let (from_id, id, coordinate) = neighbor_confirmed[i];
            let (other_from_id, other_id, other_coordinate) = neighbor_confirmed[j];
            Some((from_id, id, coordinate, other_from_id, other_id, other_coordinate))
        },
        None => None,
    }
}

/// Whether the table tells the unit `this_id` its place.
pub fn is_ready(neighbor_confirmed: &Vec<ConfirmedNeighbor>, this_id: Id) -> (r: bool)
    ensures
        r == spec_ready(neighbor_confirmed@, this_id),
{
    let mut k: usize = 0;
    while k < neighbor_confirmed.len()
        invariant
            k <= neighbor_confirmed.len(),
            forall|n: int| 0 <= n < k ==> (#[trigger] neighbor_confirmed@[n]).1 != this_id,
        decreases neighbor_confirmed.len() - k,
    {
        let (_, id, _) = neighbor_confirmed[k];
        if id == this_id {
            return true;
        }
        k += 1;
    }
    find_distance_1_pair(neighbor_confirmed).is_some()
}

/// The place and the corner of a unit that lies next to the unit
/// at `coordinate`, the proximal unit. The other unit is the
/// distal one.
pub fn get_global_coordinate_and_global_location_from_local_location(
    local_location: LocalNetworkLocation,
    coordinate: Coordinate,
    other_local_location: LocalNetworkLocation,
    other_coordinate: Coordinate,
) -> (r: Result<(Coordinate, LocalNetworkLocation), NetworkError>)
    ensures
        r == spec_place_from_pair(
            local_location,
            coordinate,
            other_local_location,
            other_coordinate,
        ),
{
    let is_clockwise_location = if local_location.rotate_clockwise() == other_local_location {
        true
    } else if local_location.rotate_counterclockwise() == other_local_location {
        false
    } else {
        return Err(NetworkError::BootstrapInconsistent);
    };
    if distance(coordinate, other_coordinate) != 1 {
        return Err(NetworkError::BootstrapInconsistent);
    }
    let along_x = coordinate.0 != other_coordinate.0;
    let is_small_coordinate = if along_x {
        coordinate.0 < other_coordinate.0
    } else {
        coordinate.1 < other_coordinate.1
    };
    let (step_x, step_y, corner): (i32, i32, LocalNetworkLocation) = match (
        is_clockwise_location,
        along_x,
        is_small_coordinate,
    ) {
        (true, true, true) => (0, 1, LocalNetworkLocation::DownLeft),
        (true, true, false) => (0, -1, LocalNetworkLocation::UpRight),
        (true, false, true) => (-1, 0, LocalNetworkLocation::DownRight),
        (true, false, false) => (1, 0, LocalNetworkLocation::UpLeft),
        (false, true, true) => (0, -1, LocalNetworkLocation::UpLeft),
        (false, true, false) => (0, 1, LocalNetworkLocation::DownRight),
        (false, false, true) => (1, 0, LocalNetworkLocation::DownLeft),
        (false, false, false) => (-1, 0, LocalNetworkLocation::UpRight),
    };
    let x: i32 = coordinate.0 as i32 + step_x;
    let y: i32 = coordinate.1 as i32 + step_y;
    if x < -32768 || x > 32767 || y < -32768 || y > 32767 {
        return Err(NetworkError::GridOutOfBounds);
    }
    Ok(((x as i16, y as i16), corner))
}

/// The place and the corner of the unit `this_id`, from reports
/// about its own local net.
pub fn get_coordinate_from_confirmed_localnet_node(
    localnet_confirmed: &Vec<ConfirmedNeighbor>,
    this_id: Id,
) -> (r: Result<(Coordinate, LocalNetworkLocation), NetworkError>)
    ensures
        r == spec_place_in_localnet(localnet_confirmed@, this_id),
{
    let ghost table = localnet_confirmed@;
    let mut found: Option<usize> = None;
    let mut k: usize = 0;
    while k < localnet_confirmed.len() && found.is_none()
        invariant
            table == localnet_confirmed@,
            k <= localnet_confirmed.len(),
            found is None ==> forall|n: int|
                0 <= n < k ==> (#[trigger] table[n]).1 != this_id,
            found matches Some(at) ==> at < table.len() && table[at as int].1 == this_id,
        decreases localnet_confirmed.len() - k + if found is None { 1int } else { 0int },
    {
        let (_, id, _) = localnet_confirmed[k];
        if id == this_id {
            found = Some(k);
        } else {
            k += 1;
        }
    }
    let at = match found {
        Some(at) => at,
        None => {
            return Err(NetworkError::BootstrapInconsistent);
        },
    };
    let (_, _, this_coordinate) = localnet_confirmed[at];
    assert(spec_knows(table, this_id));

    // No unit may lie in two places.
    let mut a: usize = 0;
    while a < localnet_confirmed.len()
        invariant
            table == localnet_confirmed@,
            a <= localnet_confirmed.len(),
            forall|m: int, n: int|
                0 <= m < a && 0 <= n < table.len() ==> !#[trigger] spec_contradict_at(
                    table,
                    m,
                    n,
                ),
        decreases localnet_confirmed.len() - a,
    {
        let (_, id, coordinate) = localnet_confirmed[a];
        let mut b: usize = 0;
        while b < localnet_confirmed.len()
            invariant
                table == localnet_confirmed@,
                a < localnet_confirmed.len(),
                b <= localnet_confirmed.len(),
                id == table[a as int].1,
                coordinate == table[a as int].2,
                forall|m: int, n: int|
                    0 <= m < a && 0 <= n < table.len() ==> !#[trigger] spec_contradict_at(
                        table,
                        m,
                        n,
                    ),
                forall|n: int| 0 <= n < b ==> !#[trigger] spec_contradict_at(table, a as int, n),
            decreases localnet_confirmed.len() - b,
        {
            let (_, other_id, other_coordinate) = localnet_confirmed[b];
            if id == other_id && (coordinate.0 != other_coordinate.0 || coordinate.1
                != other_coordinate.1) {
                assert(spec_contradict_at(table, a as int, b as int));
                return Err(NetworkError::BootstrapInconsistent);
            }
            b += 1;
        }
        a += 1;
    }
    assert(!spec_contradicts(table));
    proof {
        let chosen = spec_report_about(table, this_id);
        assert(!spec_contradict_at(table, chosen, at as int));
    }

    // Is there any unit further right than this one? Further up?
    let mut is_any_bigger_x = false;
    let mut is_any_bigger_y = false;
    let mut n: usize = 0;
    while n < localnet_confirmed.len()
        invariant
            table == localnet_confirmed@,
            n <= localnet_confirmed.len(),
            is_any_bigger_x == spec_any_right_of(table.subrange(0, n as int), this_coordinate),
            is_any_bigger_y == spec_any_above(table.subrange(0, n as int), this_coordinate),
        decreases localnet_confirmed.len() - n,
    {
        let (_, _, coordinate) = localnet_confirmed[n];
        proof {
            let shorter = table.subrange(0, n as int);
            let longer = table.subrange(0, n + 1);
            assert(longer[n as int] == table[n as int]);
            assert(forall|m: int| 0 <= m < n ==> shorter[m] == longer[m]);
            if spec_any_right_of(shorter, this_coordinate) {
                let m = choose|m: int|
                    0 <= m < shorter.len() && (#[trigger] shorter[m]).2.0 > this_coordinate.0;
                assert(longer[m].2.0 > this_coordinate.0);
            }
            if spec_any_above(shorter, this_coordinate) {
                let m = choose|m: int|
                    0 <= m < shorter.len() && (#[trigger] shorter[m]).2.1 > this_coordinate.1;
                assert(longer[m].2.1 > this_coordinate.1);
            }
            if spec_any_right_of(longer, this_coordinate) && coordinate.0
                <= this_coordinate.0 {
                let m = choose|m: int|
                    0 <= m < longer.len() && (#[trigger] longer[m]).2.0 > this_coordinate.0;
                assert(shorter[m].2.0 > this_coordinate.0);
            }
            if spec_any_above(longer, this_coordinate) && coordinate.1 <= this_coordinate.1 {
                let m = choose|m: int|
                    0 <= m < longer.len() && (#[trigger] longer[m]).2.1 > this_coordinate.1;
                assert(shorter[m].2.1 > this_coordinate.1);
            }
        }
        if coordinate.0 > this_coordinate.0 {
            is_any_bigger_x = true;
        }
        if coordinate.1 > this_coordinate.1 {
            is_any_bigger_y = true;
        }
        n += 1;
    }
    assert(table.subrange(0, table.len() as int) =~= table);
    let location = match (is_any_bigger_x, is_any_bigger_y) {
        (true, true) => LocalNetworkLocation::DownLeft,
        (true, false) => LocalNetworkLocation::UpLeft,
        (false, true) => LocalNetworkLocation::DownRight,
        (false, false) => LocalNetworkLocation::UpRight,
    };
    Ok((this_coordinate, location))
}

/// The place and the corner of the unit `this_id`, from its table.
pub fn coordinate_and_global_location_from_neighbor_confirmed(
    neighbor_confirmed: &Vec<ConfirmedNeighbor>,
    this_id: Id,
) -> (r: Result<(Coordinate, LocalNetworkLocation), NetworkError>)
    ensures
        r == spec_estimate(neighbor_confirmed@, this_id),
{
    let ghost table = neighbor_confirmed@;
    // Is a unit of the local net already confirmed?
    let mut same_localnet: Vec<ConfirmedNeighbor> = Vec::new();
    let mut k: usize = 0;
    proof {
        reveal(Seq::filter);
        assert(table.subrange(0, 0).filter(spec_about_localnet(this_id)) =~= Seq::empty());
    }
    while k < neighbor_confirmed.len()
        invariant
            table == neighbor_confirmed@,
            k <= neighbor_confirmed.len(),
            same_localnet@ == table.subrange(0, k as int).filter(spec_about_localnet(this_id)),
        decreases neighbor_confirmed.len() - k,
    {
        let report = neighbor_confirmed[k];
        proof {
            table.subrange(0, k as int).lemma_filter_push(report, spec_about_localnet(this_id));
            assert(table.subrange(0, k as int).push(report) =~= table.subrange(0, k + 1));
        }
        if is_same_localnet(this_id, report.1) {
            same_localnet.push(report);
        }
        k += 1;
    }
    assert(table.subrange(0, table.len() as int) =~= table);
    if same_localnet.len() > 0 {
        if same_localnet.len() != 4 {
            return Err(NetworkError::BootstrapInconsistent);
        }
        return get_coordinate_from_confirmed_localnet_node(&same_localnet, this_id);
    }
    let (from_id, id, coordinate, other_from_id, other_id, other_coordinate) =
        match find_distance_1_neighbor(neighbor_confirmed) {
        Some(found) => found,
        None => {
            return Err(NetworkError::BootstrapInconsistent);
        },
    };
    place_from_reports(
        (from_id, id, coordinate),
        (other_from_id, other_id, other_coordinate),
        this_id,
    )
}

/// The place and the corner of the unit `this_id`, from two reports
/// about units of other local nets one step apart.
pub fn place_from_reports(first: ConfirmedNeighbor, second: ConfirmedNeighbor, this_id: Id) -> (r:
    Result<(Coordinate, LocalNetworkLocation), NetworkError>)
    ensures
        r == spec_place_from_reports(first, second, this_id),
{
    // The unit that a neighbour inside the local net told of is not
    // connected to this unit. The other one is.
    let first_passed_on = is_neighbor_node_in_localnet(this_id, first.0);
    let second_passed_on = is_neighbor_node_in_localnet(this_id, second.0);
    if first_passed_on == second_passed_on {
        return Err(NetworkError::BootstrapInconsistent);
    }
    let (proximal, distal) = if first_passed_on {
        (second, first)
    } else {
        (first, second)
    };
    let location = LocalNetworkLocation::from_id(proximal.1);
    let other_location = LocalNetworkLocation::from_id(distal.1);
    get_global_coordinate_and_global_location_from_local_location(
        location,
        proximal.2,
        other_location,
        distal.2,
    )
}

/// Whether the table holds the report.
fn holds(neighbor_confirmed: &Vec<ConfirmedNeighbor>, report: ConfirmedNeighbor) -> (r: bool)
    ensures
        r == neighbor_confirmed@.contains(report),
{
    let mut k: usize = 0;
    while k < neighbor_confirmed.len()
        invariant
            k <= neighbor_confirmed.len(),
            forall|n: int| 0 <= n < k ==> neighbor_confirmed@[n] != report,
        decreases neighbor_confirmed.len() - k,
    {
        let (from_id, id, coordinate) = neighbor_confirmed[k];
        if from_id == report.0 && id == report.1 && coordinate.0 == report.2.0 && coordinate.1
            == report.2.1 {
            return true;
        }
        k += 1;
    }
    false
}

/// Takes in a packet that arrived while the unit `node_id` looks
/// for its place: adds what a report says to the table, and makes
/// the answer to a request.
pub fn process_reply_for_request_confirmed_coordinate(
    node_id: Id,
    received_packet: &Packet,
    neighbor_confirmed: &mut Vec<ConfirmedNeighbor>,
) -> (r: Result<Processed, NetworkError>)
    ensures
        match spec_process_reply(node_id, received_packet@, old(neighbor_confirmed)@) {
            Ok((processed, table)) => r matches Ok(got) && got@ == processed && final(neighbor_confirmed)@ == table && (got.reply matches Some(reply) ==> reply@.sendable()),
            Err(e) => r matches Err(got) && got == e && final(neighbor_confirmed)@ == old(neighbor_confirmed)@,
        },
{
    match received_packet.get_header() {
        Header::ConfirmCoordinate => {
            let coordinates = match received_packet.load_confirmed_coordinate_packet(node_id) {
                Ok(coordinates) => coordinates,
                Err(_) => {
                    return Ok(Processed { valid: false, reply: None });
                },
            };
            let from_id = received_packet.get_global_from();
            let mut n: usize = 0;
            while n < coordinates.len()
                invariant
                    n <= coordinates.len(),
                    neighbor_confirmed@ == spec_accumulate(
                        old(neighbor_confirmed)@,
                        from_id,
                        coordinates@.subrange(0, n as int),
                    ),
                decreases coordinates.len() - n,
            {
                let (coordinate_id, coordinate) = coordinates[n];
                let item = (from_id, coordinate_id, coordinate);
                assert(coordinates@.subrange(0, n + 1).drop_last() =~= coordinates@.subrange(
                    0,
                    n as int,
                ));
                if !holds(neighbor_confirmed, item) {
                    neighbor_confirmed.push(item);
                }
                n += 1;
            }
            assert(coordinates@.subrange(0, coordinates.len() as int) =~= coordinates@);
            Ok(Processed { valid: true, reply: None })
        },
        Header::HRequestConfirmedCoordinate => {
            if neighbor_confirmed.len() != 0 {
                match Packet::make_confirm_coordinate_packet(
                    node_id,
                    received_packet.get_global_from(),
                    neighbor_confirmed,
                ) {
                    Some(packet) => Ok(Processed { valid: true, reply: Some(packet) }),
                    None => Err(NetworkError::BootstrapInconsistent),
                }
            } else {
                Ok(Processed { valid: true, reply: None })
            }
        },
        _ => Ok(Processed { valid: false, reply: None }),
    }
}


} // verus!
