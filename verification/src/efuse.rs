//! The identity word as it lies in the one-time programmable memory.

use vstd::prelude::*;
use crate::system::SystemInfo;
use crate::utils::type_alias::Id;
use crate::utils::util_const::ID_MASK;

verus! {

/// The eight registers of block 3. The identity word is the low half
/// of the last register.
#[derive(Debug)]
pub struct Efuse {
    block3: [u32; 8],
}

impl Efuse {
    /// The registers as they were read.
    pub closed spec fn registers(&self) -> Seq<u32> {
        self.block3@
    }

    /// The identity word in a set of registers.
    pub open spec fn spec_value(registers: Seq<u32>) -> Id {
        (registers[7] % 0x10000) as u16
    }

    /// Holds the registers of block 3 as they were read from the
    /// hardware.
    pub fn new(block3: [u32; 8]) -> (efuse: Efuse)
        ensures
            efuse.registers() == block3@,
    {
        Efuse { block3 }
    }

    /// Takes over a new reading of the registers.
    pub fn update(&mut self, block3: [u32; 8])
        ensures
            final(self).registers() == block3@,
    {
        self.block3 = block3;
    }

    /// The identity word.
    pub fn get_efuse_value(&self) -> (id: Id)
        ensures
            id == Self::spec_value(self.registers()),
    {
        let register = self.block3[7];
        assert(register & 0xFFFF == register % 0x10000) by (bit_vector);
        (register & ID_MASK) as Id
    }

    /// The identity word, which is the MAC address as well.
    pub fn get_mac_address(&self) -> (id: Id)
        ensures
            id == Self::spec_value(self.registers()),
    {
        self.get_efuse_value()
    }
}

impl SystemInfo for Efuse {
    open spec fn spec_system_info(&self) -> Id {
        Self::spec_value(self.registers())
    }

    fn get_system_info(&self) -> (id: Id) {
        self.get_efuse_value()
    }
}

} // verus!
