use vstd::prelude::*;
use vstd::string::StringExecFns;
use crate::localnet::LocalNetworkLocation;
use crate::utils::type_alias::{Coordinate, CoordinateComponent, Id};
use crate::utils::util_const::{
    LOCALNET_DOWNLEFT, LOCALNET_DOWNRIGHT, LOCALNET_ID_MASK, LOCALNET_ID_SHIFT,
    LOCALNET_LOCATION_MASK, LOCALNET_UPLEFT, LOCALNET_UPRIGHT, MAC_ADDRESS_MASK,
    MAC_ADDRESS_SHIFT, ROOT, ROOT_MASK, ROOT_SHIFT,
};

verus! {

// An identity word, least significant bit first:
// root (1 bit) | quadrant (2 bits) | local net number (13 bits).

/// The number of the local net that the unit belongs to.
pub open spec fn spec_localnet_id(id: Id) -> int {
    id as int / 8
}

/// The two-bit code of the unit's quadrant.
pub open spec fn spec_quadrant(id: Id) -> int {
    (id as int / 2) % 4
}

/// Whether the unit belongs to the local net at the origin of the grid.
pub open spec fn spec_is_root(id: Id) -> bool {
    id as int % 2 == 1
}

/// The word with the given fields.
pub open spec fn spec_compose(localnet_id: int, quadrant: int, root: bool) -> int {
    localnet_id * 8 + quadrant * 2 + if root { 1int } else { 0int }
}

pub open spec fn spec_same_localnet(id1: Id, id2: Id) -> bool {
    spec_localnet_id(id1) == spec_localnet_id(id2)
}

/// Two units are neighbours inside a local net when they belong to the
/// same local net and their quadrants differ in the column or in the
/// row, and not in both.
pub open spec fn spec_neighbor_in_localnet(id1: Id, id2: Id) -> bool {
    let q1 = spec_quadrant(id1);
    let q2 = spec_quadrant(id2);
    &&& spec_same_localnet(id1, id2)
    &&& (q1 % 2 != q2 % 2) != (q1 / 2 != q2 / 2)
}

/// The number of set bits of a two-bit value.
pub open spec fn spec_popcount2(x: u16) -> int {
    (x & 1) + ((x >> 1) & 1)
}

/// The quadrant code as a machine word, for bitwise statements.
pub open spec fn spec_quadrant_bits(id: Id) -> u16 {
    (id >> 1) & 3
}

pub open spec fn spec_abs(x: int) -> int {
    if x < 0 {
        -x
    } else {
        x
    }
}

/// The distance between two positions, counted in steps along the
/// axes.
pub open spec fn spec_distance(c1: Coordinate, c2: Coordinate) -> int {
    spec_abs(c1.0 - c2.0) + spec_abs(c1.1 - c2.1)
}

/// The masks and shifts of the fields, in terms of division.
proof fn lemma_fields(id: Id)
    by (bit_vector)
    ensures
        id & 0xfff8 == (id / 8) * 8,
        id & 0x0006 == ((id / 2) % 4) * 2,
        id & 0x0001 == id % 2,
        id & 0xffff == id,
        (id & 0xfff8) >> 3 == id / 8,
        (id & 0xffff) >> 0 == id,
        (id & 0x0001) >> 0 == id % 2,
        (id & 0x0006) == 0 || (id & 0x0006) == 2 || (id & 0x0006) == 4 || (id & 0x0006) == 6,
        (id >> 1) & 3 == (id / 2) % 4,
{
}

pub fn get_raw_localnet_id(id: Id) -> (r: u16)
    ensures
        r == spec_localnet_id(id) * 8,
{
    proof {
        lemma_fields(id);
    }
    id & LOCALNET_ID_MASK
}

pub fn get_raw_mac_address(id: Id) -> (r: u16)
    ensures
        r == id,
{
    proof {
        lemma_fields(id);
    }
    id & MAC_ADDRESS_MASK
}

pub fn get_raw_localnet_location(id: Id) -> (r: u16)
    ensures
        r == spec_quadrant(id) * 2,
{
    proof {
        lemma_fields(id);
    }
    id & LOCALNET_LOCATION_MASK
}

pub fn get_raw_root(id: Id) -> (r: u16)
    ensures
        r == if spec_is_root(id) { 1int } else { 0int },
{
    proof {
        lemma_fields(id);
    }
    id & ROOT_MASK
}

/// Writing the quadrant leaves the other two fields.
proof fn lemma_replace_quadrant(id: Id, location: u16)
    by (bit_vector)
    requires
        location == 0 || location == 2 || location == 4 || location == 6,
    ensures
        ((id & !0x0006u16) | location) / 8 == id / 8,
        (((id & !0x0006u16) | location) / 2) % 4 == location / 2,
        ((id & !0x0006u16) | location) % 2 == id % 2,
{
}

/// Puts the unit into another quadrant of the same local net.
pub fn set_raw_localnet_location(id: &mut Id, localnet_location: LocalNetworkLocation)
    ensures
        spec_localnet_id(*final(id)) == spec_localnet_id(*old(id)),
        spec_quadrant(*final(id)) == localnet_location.code(),
        spec_is_root(*final(id)) == spec_is_root(*old(id)),
{
    let location: Id = localnet_location.into();
    proof {
        lemma_replace_quadrant(*id, location);
    }
    *id = (*id & !LOCALNET_LOCATION_MASK) | location;
}

/// Writing the local net number leaves the other two fields.
proof fn lemma_replace_localnet_id(id: Id, localnet_id: u16)
    by (bit_vector)
    ensures
        ((id & !0xfff8u16) | (localnet_id << 3u16)) / 8 == localnet_id % 8192,
        (((id & !0xfff8u16) | (localnet_id << 3u16)) / 2) % 4 == (id / 2) % 4,
        ((id & !0xfff8u16) | (localnet_id << 3u16)) % 2 == id % 2,
{
}

/// Moves the unit to another local net. A local net number has 13
/// bits: higher bits of `localnet_id` are dropped.
pub fn set_raw_localnet_id(id: &mut Id, localnet_id: u16)
    ensures
        spec_localnet_id(*final(id)) == localnet_id % 8192,
        spec_quadrant(*final(id)) == spec_quadrant(*old(id)),
        spec_is_root(*final(id)) == spec_is_root(*old(id)),
{
    proof {
        lemma_replace_localnet_id(*id, localnet_id);
    }
    *id = (*id & !LOCALNET_ID_MASK) | (localnet_id << LOCALNET_ID_SHIFT)
}

/// Writing the root bit leaves the other two fields.
proof fn lemma_replace_root(id: Id, root: u16)
    by (bit_vector)
    requires
        root == 0 || root == 1,
    ensures
        ((id & !0x0001u16) | root) / 8 == id / 8,
        (((id & !0x0001u16) | root) / 2) % 4 == (id / 2) % 4,
        ((id & !0x0001u16) | root) % 2 == root,
{
}

pub fn set_raw_is_root(id: &mut Id, is_root: bool)
    ensures
        spec_localnet_id(*final(id)) == spec_localnet_id(*old(id)),
        spec_quadrant(*final(id)) == spec_quadrant(*old(id)),
        spec_is_root(*final(id)) == is_root,
{
    let root: Id = if is_root {
        ROOT
    } else {
        0
    };
    proof {
        lemma_replace_root(*id, root);
    }
    *id = (*id & !ROOT_MASK) | root
}

/// Writing the whole word leaves nothing of the old one.
proof fn lemma_replace_word(id: Id, mac_address: u16)
    by (bit_vector)
    ensures
        (id & !0xffffu16) | (mac_address << 0u16) == mac_address,
{
}

pub fn set_raw_mac_address(id: &mut Id, mac_address: u16)
    ensures
        *final(id) == mac_address,
{
    proof {
        lemma_replace_word(*id, mac_address);
    }
    *id = (*id & !MAC_ADDRESS_MASK) | (mac_address << MAC_ADDRESS_SHIFT);
}

pub fn get_localnet_id(id: Id) -> (r: u16)
    ensures
        r == spec_localnet_id(id),
{
    proof {
        lemma_fields(id);
    }
    (id & LOCALNET_ID_MASK) >> LOCALNET_ID_SHIFT
}

pub fn get_mac_address(id: Id) -> (r: u16)
    ensures
        r == id,
{
    proof {
        lemma_fields(id);
    }
    (id & MAC_ADDRESS_MASK) >> MAC_ADDRESS_SHIFT
}

pub fn get_localnet_location(id: Id) -> (r: LocalNetworkLocation)
    ensures
        r.code() == spec_quadrant(id),
{
    let raw = get_raw_localnet_location(id);
    if raw == LOCALNET_UPLEFT {
        LocalNetworkLocation::UpLeft
    } else if raw == LOCALNET_UPRIGHT {
        LocalNetworkLocation::UpRight
    } else if raw == LOCALNET_DOWNLEFT {
        LocalNetworkLocation::DownLeft
    } else {
        LocalNetworkLocation::DownRight
    }
}

pub fn is_root(id: Id) -> (r: bool)
    ensures
        r == spec_is_root(id),
{
    proof {
        lemma_fields(id);
    }
    (id & ROOT_MASK) >> ROOT_SHIFT == ROOT
}

pub fn is_same_localnet(id1: Id, id2: Id) -> (r: bool)
    ensures
        r == spec_same_localnet(id1, id2),
{
    get_localnet_id(id1) == get_localnet_id(id2)
}

pub fn is_neighbor_node_in_localnet(id1: Id, id2: Id) -> (r: bool)
    ensures
        r == spec_neighbor_in_localnet(id1, id2),
{
    if !is_same_localnet(id1, id2) {
        return false;
    }
    let location1 = get_localnet_location(id1);
    let location2 = get_localnet_location(id2);

    match location1 {
        LocalNetworkLocation::UpLeft => match location2 {
            LocalNetworkLocation::UpLeft => false,
            LocalNetworkLocation::UpRight => true,
            LocalNetworkLocation::DownLeft => true,
            LocalNetworkLocation::DownRight => false,
        },
        LocalNetworkLocation::UpRight => match location2 {
            LocalNetworkLocation::UpLeft => true,
            LocalNetworkLocation::UpRight => false,
            LocalNetworkLocation::DownLeft => false,
            LocalNetworkLocation::DownRight => true,
        },
        LocalNetworkLocation::DownLeft => match location2 {
            LocalNetworkLocation::UpLeft => true,
            LocalNetworkLocation::UpRight => false,
            LocalNetworkLocation::DownLeft => false,
            LocalNetworkLocation::DownRight => true,
        },
        LocalNetworkLocation::DownRight => match location2 {
            LocalNetworkLocation::UpLeft => false,
            LocalNetworkLocation::UpRight => true,
            LocalNetworkLocation::DownLeft => true,
            LocalNetworkLocation::DownRight => false,
        },
    }
}

/// Two quadrants differ in one bit exactly when they differ in the
/// column or in the row, and not in both.
proof fn lemma_popcount_of_difference(q1: u16, q2: u16)
    by (bit_vector)
    requires
        q1 < 4,
        q2 < 4,
    ensures
        (((q1 ^ q2) & 1) + (((q1 ^ q2) >> 1) & 1) == 1) <==> ((q1 % 2 != q2 % 2) != (q1 / 2
            != q2 / 2)),
{
}

/// Two units are neighbours inside a local net exactly when they share
/// the local net and the codes of their quadrants differ in one bit.
pub proof fn lemma_neighbors_differ_in_one_axis(id1: Id, id2: Id)
    ensures
        spec_neighbor_in_localnet(id1, id2) <==> (spec_same_localnet(id1, id2) && spec_popcount2(
            spec_quadrant_bits(id1) ^ spec_quadrant_bits(id2),
        ) == 1),
        spec_quadrant_bits(id1) == spec_quadrant(id1),
        spec_quadrant_bits(id2) == spec_quadrant(id2),
{
    lemma_fields(id1);
    lemma_fields(id2);
    lemma_popcount_of_difference(spec_quadrant_bits(id1), spec_quadrant_bits(id2));
}

/// The distance between two positions along the axes. The result has
/// 16 bits, so the two positions must not lie further apart than that.
pub fn calculate_l0_distance(coordinate1: Coordinate, coordinate2: Coordinate) -> (r: u16)
    requires
        spec_distance(coordinate1, coordinate2) <= u16::MAX,
    ensures
        r == spec_distance(coordinate1, coordinate2),
{
    let d: u32 = distance(coordinate1, coordinate2);
    d as u16
}

/// The distance between two positions along the axes, for any two
/// positions.
pub fn distance(coordinate1: Coordinate, coordinate2: Coordinate) -> (r: u32)
    ensures
        r == spec_distance(coordinate1, coordinate2),
{
    let (x1, y1) = coordinate1;
    let (x2, y2) = coordinate2;
    let dx: i32 = x1 as i32 - x2 as i32;
    let dy: i32 = y1 as i32 - y2 as i32;
    let ax: i32 = if dx < 0 {
        -dx
    } else {
        dx
    };
    let ay: i32 = if dy < 0 {
        -dy
    } else {
        dy
    };
    (ax + ay) as u32
}

pub fn add_x(coordinate: Coordinate, x: CoordinateComponent) -> (r: Coordinate)
    requires
        i16::MIN <= coordinate.0 + x <= i16::MAX,
    ensures
        r.0 == coordinate.0 + x,
        r.1 == coordinate.1,
{
    (coordinate.0 + x, coordinate.1)
}

pub fn add_y(coordinate: Coordinate, y: CoordinateComponent) -> (r: Coordinate)
    requires
        i16::MIN <= coordinate.1 + y <= i16::MAX,
    ensures
        r.0 == coordinate.0,
        r.1 == coordinate.1 + y,
{
    (coordinate.0, coordinate.1 + y)
}

/// The character of a decimal digit.
pub open spec fn spec_digit(digit: int) -> char {
    if digit == 0 {
        '0'
    } else if digit == 1 {
        '1'
    } else if digit == 2 {
        '2'
    } else if digit == 3 {
        '3'
    } else if digit == 4 {
        '4'
    } else if digit == 5 {
        '5'
    } else if digit == 6 {
        '6'
    } else if digit == 7 {
        '7'
    } else if digit == 8 {
        '8'
    } else {
        '9'
    }
}

/// A number in decimal digits, without leading zeros.
pub open spec fn spec_decimal(number: nat) -> Seq<char>
    decreases number,
{
    if number < 10 {
        seq![spec_digit(number as int)]
    } else {
        spec_decimal(number / 10).push(spec_digit((number % 10) as int))
    }
}

/// The name of a quadrant.
pub open spec fn spec_location_name(location: LocalNetworkLocation) -> Seq<char> {
    match location {
        LocalNetworkLocation::UpLeft => "UpLeft"@,
        LocalNetworkLocation::UpRight => "UpRight"@,
        LocalNetworkLocation::DownLeft => "DownLeft"@,
        LocalNetworkLocation::DownRight => "DownRight"@,
    }
}

/// The word for a truth value.
pub open spec fn spec_bool_name(value: bool) -> Seq<char> {
    if value {
        "true"@
    } else {
        "false"@
    }
}

/// The four lines that a unit shows of its identity word.
pub open spec fn spec_first_messages(id: Id) -> Seq<Seq<char>> {
    seq![
        "root: "@ + spec_bool_name(spec_is_root(id)),
        "location: "@ + spec_location_name(LocalNetworkLocation::of_code(spec_quadrant(id))),
        "lid: "@ + spec_decimal(spec_localnet_id(id) as nat),
        "mac: "@ + spec_decimal(id as nat),
    ]
}

/// The text of one decimal digit.
fn digit_text(digit: u16) -> (text: &'static str)
    requires
        digit < 10,
    ensures
        text@ == seq![spec_digit(digit as int)],
{
    proof {
        reveal_strlit("0");
        reveal_strlit("1");
        reveal_strlit("2");
        reveal_strlit("3");
        reveal_strlit("4");
        reveal_strlit("5");
        reveal_strlit("6");
        reveal_strlit("7");
        reveal_strlit("8");
        reveal_strlit("9");
    }
    let text = match digit {
        0 => "0",
        1 => "1",
        2 => "2",
        3 => "3",
        4 => "4",
        5 => "5",
        6 => "6",
        7 => "7",
        8 => "8",
        _ => "9",
    };
    assert(text@ =~= seq![spec_digit(digit as int)]);
    text
}

/// A number in decimal digits.
pub fn decimal(number: u16) -> (text: String)
    ensures
        text@ == spec_decimal(number as nat),
    decreases number,
{
    if number < 10 {
        String::from_str(digit_text(number))
    } else {
        let text = decimal(number / 10).concat(digit_text(number % 10));
        assert(text@ =~= spec_decimal(number as nat));
        text
    }
}

/// What a unit shows of its identity word when it starts: whether it
/// belongs to the root local net, its quadrant, the number of its
/// local net and its MAC address.
pub fn get_first_messages(efuse_value: Id) -> (messages: Vec<String>)
    ensures
        messages@.len() == 4,
        forall|n: int| 0 <= n < 4 ==> (#[trigger] messages@[n])@ == spec_first_messages(
            efuse_value,
        )[n],
{
    let mut messages = Vec::new();
    let root = if is_root(efuse_value) {
        "true"
    } else {
        "false"
    };
    messages.push(String::from_str("root: ").concat(root));
    let location = match get_localnet_location(efuse_value) {
        LocalNetworkLocation::UpLeft => "UpLeft",
        LocalNetworkLocation::UpRight => "UpRight",
        LocalNetworkLocation::DownLeft => "DownLeft",
        LocalNetworkLocation::DownRight => "DownRight",
    };
    messages.push(String::from_str("location: ").concat(location));
    let lid = decimal(get_localnet_id(efuse_value));
    messages.push(String::from_str("lid: ").concat(lid.as_str()));
    let mac = decimal(get_mac_address(efuse_value));
    messages.push(String::from_str("mac: ").concat(mac.as_str()));
    messages
}

} // verus!
