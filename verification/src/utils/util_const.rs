use vstd::prelude::*;

verus! {

/// The part of a 32-bit hardware word that holds the identity word.
pub const ID_MASK: u32 = 0xFFFF;

/// Bit 0: set on the four units of the local net at the grid's origin.
pub const ROOT_MASK: u16 = 0x0001;

pub const ROOT_SHIFT: u16 = 0;

/// Bits 1..=2: the unit's quadrant inside its local net.
pub const LOCALNET_LOCATION_MASK: u16 = 0b0000_0000_0000_0110;

pub const LOCALNET_LOCATION_SHIFT: u16 = 1;

/// Bits 3..=15: the number of the local net.
pub const LOCALNET_ID_MASK: u16 = 0b1111_1111_1111_1000;

pub const LOCALNET_ID_SHIFT: u16 = 3;

/// The whole word is the MAC address.
pub const MAC_ADDRESS_MASK: u16 = 0b1111_1111_1111_1111;

pub const MAC_ADDRESS_SHIFT: u16 = 0;

pub const ROOT: u16 = 0x0001;

pub const LOCALNET_UPLEFT: u16 = 0x0000;

pub const LOCALNET_UPRIGHT: u16 = 0x0002;

pub const LOCALNET_DOWNLEFT: u16 = 0x0004;

pub const LOCALNET_DOWNRIGHT: u16 = 0x0006;

} // verus!
