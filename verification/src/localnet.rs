//! The 2x2 local net: the four quadrants, how they turn into one
//! another, and what a unit knows of its own local net from its
//! identity word alone.

use vstd::prelude::*;
use crate::system::SystemInfo;
use crate::utils::type_alias::{Coordinate, Id};
use crate::utils::util;
use crate::utils::util_const::{
    LOCALNET_DOWNLEFT, LOCALNET_DOWNRIGHT, LOCALNET_UPLEFT, LOCALNET_UPRIGHT,
};

verus! {

/// A unit's place inside its local net.
#[derive(Debug, PartialEq, Eq, Clone, Copy, Structural)]
pub enum LocalNetworkLocation {
    UpLeft,
    UpRight,
    DownLeft,
    DownRight,
}

impl LocalNetworkLocation {
    /// The two-bit code of the quadrant in an identity word: bit 0 is
    /// the column (0 left, 1 right), bit 1 the row (0 up, 1 down).
    pub open spec fn code(self) -> int {
        match self {
            LocalNetworkLocation::UpLeft => 0,
            LocalNetworkLocation::UpRight => 1,
            LocalNetworkLocation::DownLeft => 2,
            LocalNetworkLocation::DownRight => 3,
        }
    }

    /// The quadrant with the given two-bit code.
    pub open spec fn of_code(code: int) -> LocalNetworkLocation {
        if code == 0 {
            LocalNetworkLocation::UpLeft
        } else if code == 1 {
            LocalNetworkLocation::UpRight
        } else if code == 2 {
            LocalNetworkLocation::DownLeft
        } else {
            LocalNetworkLocation::DownRight
        }
    }

    /// The quadrant across the centre of the local net.
    pub open spec fn spec_diagonal(self) -> LocalNetworkLocation {
        Self::of_code(3 - self.code())
    }

    /// Where the quadrant lies when its local net sits at the origin of
    /// the grid: the lower left unit is at `(0, 0)`.
    pub open spec fn spec_root_coordinate(self) -> Coordinate {
        match self {
            LocalNetworkLocation::UpLeft => (0i16, 1i16),
            LocalNetworkLocation::UpRight => (1i16, 1i16),
            LocalNetworkLocation::DownLeft => (0i16, 0i16),
            LocalNetworkLocation::DownRight => (1i16, 0i16),
        }
    }

    /// One step clockwise: up left, up right, down right, down left,
    /// and round again.
    pub open spec fn spec_clockwise(self) -> LocalNetworkLocation {
        match self {
            LocalNetworkLocation::UpLeft => LocalNetworkLocation::UpRight,
            LocalNetworkLocation::UpRight => LocalNetworkLocation::DownRight,
            LocalNetworkLocation::DownRight => LocalNetworkLocation::DownLeft,
            LocalNetworkLocation::DownLeft => LocalNetworkLocation::UpLeft,
        }
    }

    /// One step counter-clockwise.
    pub open spec fn spec_counterclockwise(self) -> LocalNetworkLocation {
        match self {
            LocalNetworkLocation::UpLeft => LocalNetworkLocation::DownLeft,
            LocalNetworkLocation::DownLeft => LocalNetworkLocation::DownRight,
            LocalNetworkLocation::DownRight => LocalNetworkLocation::UpRight,
            LocalNetworkLocation::UpRight => LocalNetworkLocation::UpLeft,
        }
    }

    pub fn diagonal_location(&self) -> (r: LocalNetworkLocation)
        ensures
            r == self.spec_diagonal(),
    {
        match self {
            LocalNetworkLocation::UpLeft => LocalNetworkLocation::DownRight,
            LocalNetworkLocation::UpRight => LocalNetworkLocation::DownLeft,
            LocalNetworkLocation::DownLeft => LocalNetworkLocation::UpRight,
            LocalNetworkLocation::DownRight => LocalNetworkLocation::UpLeft,
        }
    }

    pub fn get_root_coordinate(&self) -> (r: Coordinate)
        ensures
            r == self.spec_root_coordinate(),
    {
        match self {
            LocalNetworkLocation::UpLeft => (0, 1),
            LocalNetworkLocation::UpRight => (1, 1),
            LocalNetworkLocation::DownLeft => (0, 0),
            LocalNetworkLocation::DownRight => (1, 0),
        }
    }

    /// The quadrant that an identity word names. Every word names one.
    pub fn from_id(id: Id) -> (r: LocalNetworkLocation)
        ensures
            r.code() == util::spec_quadrant(id),
    {
        util::get_localnet_location(id)
    }

    pub fn rotate_clockwise(&self) -> (r: LocalNetworkLocation)
        ensures
            r == self.spec_clockwise(),
    {
        match self {
            LocalNetworkLocation::UpLeft => LocalNetworkLocation::UpRight,
            LocalNetworkLocation::UpRight => LocalNetworkLocation::DownRight,
            LocalNetworkLocation::DownLeft => LocalNetworkLocation::UpLeft,
            LocalNetworkLocation::DownRight => LocalNetworkLocation::DownLeft,
        }
    }

    pub fn rotate_counterclockwise(&self) -> (r: LocalNetworkLocation)
        ensures
            r == self.spec_counterclockwise(),
    {
        match self {
            LocalNetworkLocation::UpLeft => LocalNetworkLocation::DownLeft,
            LocalNetworkLocation::UpRight => LocalNetworkLocation::UpLeft,
            LocalNetworkLocation::DownLeft => LocalNetworkLocation::DownRight,
            LocalNetworkLocation::DownRight => LocalNetworkLocation::UpRight,
        }
    }

    /// The quadrant's two bits, in place: the value of an identity word
    /// that holds this quadrant and nothing else.
    pub fn to_raw(self) -> (r: Id)
        ensures
            r == 2 * self.code(),
    {
        match self {
            LocalNetworkLocation::UpLeft => LOCALNET_UPLEFT,
            LocalNetworkLocation::UpRight => LOCALNET_UPRIGHT,
            LocalNetworkLocation::DownLeft => LOCALNET_DOWNLEFT,
            LocalNetworkLocation::DownRight => LOCALNET_DOWNRIGHT,
        }
    }
}

impl From<LocalNetworkLocation> for u16 {
    /// The quadrant's two bits, in place.
    fn from(value: LocalNetworkLocation) -> (r: u16) {
        value.to_raw()
    }
}

impl vstd::std_specs::convert::FromSpecImpl<LocalNetworkLocation> for u16 {
    open spec fn obeys_from_spec() -> bool {
        true
    }

    open spec fn from_spec(value: LocalNetworkLocation) -> u16 {
        (2 * value.code()) as u16
    }
}

/// The two quadrants next to a quadrant, by their codes, the lower
/// code first.
pub open spec fn spec_neighbor_codes(code: int) -> (int, int) {
    if code == 0 || code == 3 {
        (1, 2)
    } else {
        (0, 3)
    }
}

/// The identity word of the unit that shares the local net of `id`
/// and sits in the quadrant with the given code.
pub open spec fn spec_in_quadrant(id: Id, code: int) -> int {
    util::spec_compose(util::spec_localnet_id(id), code, util::spec_is_root(id))
}

/// What a unit knows of its local net.
#[derive(Debug)]
pub struct LocalNetwork {
    /// The unit's place in the local net.
    location: LocalNetworkLocation,
    /// The number that the four units of the local net share.
    localnet_id: Id,
    is_root: bool,
    /// The two units next to this one.
    neighbor_ids: [Id; 2],
    /// The unit across the centre.
    diagonal_id: Id,
    mac_address: Id,
}

impl View for LocalNetwork {
    type V = Id;

    /// A local net is seen from one unit: its view is the identity
    /// word of that unit.
    closed spec fn view(&self) -> Id {
        self.mac_address
    }
}

impl LocalNetwork {
    #[verifier::type_invariant]
    spec fn inv(&self) -> bool {
        &&& self.location.code() == util::spec_quadrant(self.mac_address)
        &&& self.localnet_id == util::spec_localnet_id(self.mac_address)
        &&& self.is_root == util::spec_is_root(self.mac_address)
        &&& self.neighbor_ids@[0] == spec_in_quadrant(
            self.mac_address,
            spec_neighbor_codes(util::spec_quadrant(self.mac_address)).0,
        )
        &&& self.neighbor_ids@[1] == spec_in_quadrant(
            self.mac_address,
            spec_neighbor_codes(util::spec_quadrant(self.mac_address)).1,
        )
        &&& self.diagonal_id == spec_in_quadrant(
            self.mac_address,
            3 - util::spec_quadrant(self.mac_address),
        )
    }

    /// The local net of the unit whose identity word `system_info`
    /// holds.
    pub fn new<S: SystemInfo>(system_info: &S) -> (localnet: LocalNetwork)
        ensures
            localnet@ == system_info.spec_system_info(),
    {
        Self::from_mac_address(system_info.get_system_info())
    }

    /// The local net of the unit with the given identity word.
    pub fn from_mac_address(mac_address: Id) -> (localnet: LocalNetwork)
        ensures
            localnet@ == mac_address,
    {
        let location: LocalNetworkLocation = util::get_localnet_location(mac_address);
        let localnet_id = util::get_localnet_id(mac_address);
        let is_root = util::is_root(mac_address);

        // The words of the other units differ from this one in the
        // quadrant alone.
        let raw_localnet = util::get_raw_localnet_id(mac_address);
        let raw_location = util::get_raw_localnet_location(mac_address);
        let raw_is_root = util::get_raw_root(mac_address);

        let raw_diagonal_location: Id = location.diagonal_location().to_raw();
        let diagonal_id = raw_localnet + raw_diagonal_location + raw_is_root;

        let mut first: Id = 0;
        let mut second: Id = 0;
        let mut index: usize = 0;
        let mut raw_other_location: Id = 0;
        while raw_other_location < 8
            invariant
                raw_other_location % 2 == 0,
                raw_other_location <= 8,
                raw_localnet == util::spec_localnet_id(mac_address) * 8,
                raw_location == util::spec_quadrant(mac_address) * 2,
                raw_diagonal_location == (3 - util::spec_quadrant(mac_address)) * 2,
                raw_is_root == if util::spec_is_root(mac_address) {
                    1int
                } else {
                    0int
                },
                index <= 2,
                index == Self::spec_found(
                    util::spec_quadrant(mac_address),
                    raw_other_location as int / 2,
                ),
                index >= 1 ==> first == spec_in_quadrant(
                    mac_address,
                    spec_neighbor_codes(util::spec_quadrant(mac_address)).0,
                ),
                index >= 2 ==> second == spec_in_quadrant(
                    mac_address,
                    spec_neighbor_codes(util::spec_quadrant(mac_address)).1,
                ),
            decreases 8 - raw_other_location,
        {
            if raw_location != raw_other_location && raw_diagonal_location != raw_other_location {
                let id = raw_localnet + raw_other_location + raw_is_root;
                if index == 0 {
                    first = id;
                } else {
                    second = id;
                }
                index += 1;
            }
            raw_other_location += 2;
        }
        LocalNetwork {
            location,
            localnet_id,
            is_root,
            neighbor_ids: [first, second],
            diagonal_id,
            mac_address,
        }
    }

    /// How many of the quadrants with a code below `below` are next to
    /// the quadrant with the code `code`.
    spec fn spec_found(code: int, below: int) -> int {
        let (low, high) = spec_neighbor_codes(code);
        (if low < below {
            1int
        } else {
            0int
        }) + (if high < below {
            1int
        } else {
            0int
        })
    }

    /// The other three units of the local net: the two neighbours,
    /// then the unit across the centre.
    pub fn get_nodes_in_localnet(&self) -> (ids: Vec<Id>)
        ensures
            ids@ == seq![
                self.spec_neighbor_ids()[0],
                self.spec_neighbor_ids()[1],
                self.spec_diagonal_id(),
            ],
    {
        proof {
            use_type_invariant(self);
        }
        let mut ids = Vec::new();
        ids.push(self.neighbor_ids[0]);
        ids.push(self.neighbor_ids[1]);
        ids.push(self.diagonal_id);
        assert(ids@ =~= seq![
            self.spec_neighbor_ids()[0],
            self.spec_neighbor_ids()[1],
            self.spec_diagonal_id(),
        ]);
        ids
    }

    /// The identity words of the two neighbours inside the local net,
    /// the one in the quadrant with the lower code first.
    pub open spec fn spec_neighbor_ids(&self) -> Seq<Id> {
        seq![
            spec_in_quadrant(self@, spec_neighbor_codes(util::spec_quadrant(self@)).0) as u16,
            spec_in_quadrant(self@, spec_neighbor_codes(util::spec_quadrant(self@)).1) as u16,
        ]
    }

    /// The identity word of the unit across the centre.
    pub open spec fn spec_diagonal_id(&self) -> Id {
        spec_in_quadrant(self@, 3 - util::spec_quadrant(self@)) as u16
    }

    /// The unit's quadrant.
    pub open spec fn spec_location(&self) -> LocalNetworkLocation {
        LocalNetworkLocation::of_code(util::spec_quadrant(self@))
    }

    /// Where the unit lies if its local net is the one at the origin.
    pub fn root_coordinate(&self) -> (r: Coordinate)
        ensures
            r == self.spec_location().spec_root_coordinate(),
    {
        proof {
            use_type_invariant(self);
        }
        self.location.get_root_coordinate()
    }

    pub fn get_mac_address(&self) -> (r: Id)
        ensures
            r == self@,
    {
        self.mac_address
    }

    pub fn get_localnet_id(&self) -> (r: Id)
        ensures
            r == util::spec_localnet_id(self@),
    {
        proof {
            use_type_invariant(self);
        }
        self.localnet_id
    }

    pub fn is_root(&self) -> (r: bool)
        ensures
            r == util::spec_is_root(self@),
    {
        proof {
            use_type_invariant(self);
        }
        self.is_root
    }

    pub fn get_location(&self) -> (r: LocalNetworkLocation)
        ensures
            r == self.spec_location(),
    {
        proof {
            use_type_invariant(self);
        }
        self.location
    }

    pub fn get_neighbor_ids(&self) -> (r: [Id; 2])
        ensures
            r@ == self.spec_neighbor_ids(),
    {
        proof {
            use_type_invariant(self);
        }
        assert(self.neighbor_ids@ =~= self.spec_neighbor_ids());
        self.neighbor_ids
    }

    pub fn get_diagonal_id(&self) -> (r: Id)
        ensures
            r == self.spec_diagonal_id(),
    {
        proof {
            use_type_invariant(self);
        }
        self.diagonal_id
    }
}

/// A word that is put together from its fields holds those fields.
pub proof fn lemma_fields_of_composed_word(localnet_id: int, code: int, root: bool)
    requires
        0 <= localnet_id < 8192,
        0 <= code < 4,
    ensures
        0 <= util::spec_compose(localnet_id, code, root) <= u16::MAX,
        util::spec_localnet_id(util::spec_compose(localnet_id, code, root) as u16) == localnet_id,
        util::spec_quadrant(util::spec_compose(localnet_id, code, root) as u16) == code,
        util::spec_is_root(util::spec_compose(localnet_id, code, root) as u16) == root,
{
}

/// The two neighbours that a unit finds in its local net are next to
/// it, and the unit across the centre shares the local net and is not
/// next to it.
pub proof fn lemma_units_of_the_localnet(id: Id)
    ensures
        0 <= spec_in_quadrant(id, spec_neighbor_codes(util::spec_quadrant(id)).0) <= u16::MAX,
        0 <= spec_in_quadrant(id, spec_neighbor_codes(util::spec_quadrant(id)).1) <= u16::MAX,
        0 <= spec_in_quadrant(id, 3 - util::spec_quadrant(id)) <= u16::MAX,
        util::spec_neighbor_in_localnet(
            id,
            spec_in_quadrant(id, spec_neighbor_codes(util::spec_quadrant(id)).0) as u16,
        ),
        util::spec_neighbor_in_localnet(
            id,
            spec_in_quadrant(id, spec_neighbor_codes(util::spec_quadrant(id)).1) as u16,
        ),
        util::spec_same_localnet(id, spec_in_quadrant(id, 3 - util::spec_quadrant(id)) as u16),
        !util::spec_neighbor_in_localnet(
            id,
            spec_in_quadrant(id, 3 - util::spec_quadrant(id)) as u16,
        ),
{
    let code = util::spec_quadrant(id);
    let localnet_id = util::spec_localnet_id(id);
    let root = util::spec_is_root(id);
    lemma_fields_of_composed_word(localnet_id, spec_neighbor_codes(code).0, root);
    lemma_fields_of_composed_word(localnet_id, spec_neighbor_codes(code).1, root);
    lemma_fields_of_composed_word(localnet_id, 3 - code, root);
}

/// Turning a quadrant counter-clockwise and then clockwise, or the
/// other way round, gives the quadrant back.
pub proof fn lemma_rotations_are_inverse(q: LocalNetworkLocation)
    ensures
        q.spec_counterclockwise().spec_clockwise() == q,
        q.spec_clockwise().spec_counterclockwise() == q,
{
}

/// Four turns in one direction come back to the start, and two turns
/// reach the diagonal quadrant.
pub proof fn lemma_rotation_cycle(q: LocalNetworkLocation)
    ensures
        q.spec_clockwise().spec_clockwise().spec_clockwise().spec_clockwise() == q,
        q.spec_clockwise().spec_clockwise() == q.spec_diagonal(),
        q.spec_counterclockwise().spec_counterclockwise() == q.spec_diagonal(),
        q.spec_clockwise() != q,
        q.spec_clockwise() != q.spec_counterclockwise(),
{
}

} // verus!
