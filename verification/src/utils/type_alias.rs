use vstd::prelude::*;

verus! {

/// A unit's 16-bit identity word. It doubles as the link-layer address.
pub type Id = u16;

/// One axis of a position in the global grid.
pub type CoordinateComponent = i16;

/// A position `(x, y)` in the global grid.
pub type Coordinate = (i16, i16);

} // verus!
