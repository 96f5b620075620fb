//! The audio unit, as far as the bus sees it: twenty-four byte ports
//! that keep what was written to them.

use vstd::prelude::*;

verus! {

/// Address of the first audio port.
pub const APU_BASE: u16 = 0x4000;

/// Number of audio ports, the last at 0x4017.
pub const APU_PORTS: usize = 0x18;

pub struct APU {
    regs: [u8; 0x18],
}

impl View for APU {
    type V = Seq<u8>;

    closed spec fn view(&self) -> Seq<u8> {
        self.regs@
    }
}

impl APU {
    /// An audio unit with every port zero.
    pub fn new() -> (apu: APU)
        ensures
            apu@ == Seq::new(APU_PORTS as nat, |i: int| 0u8),
    {
        let apu = APU { regs: [0u8;0x18] };
        assert(apu@ =~= Seq::new(APU_PORTS as nat, |i: int| 0u8));
        apu
    }

    /// There are always twenty-four ports.
    pub broadcast proof fn lemma_len(&self)
        ensures
            #[trigger] self@.len() == APU_PORTS,
    {
    }

    /// Reads the port at `addr`.
    pub fn loadb(&self, addr: u16) -> (byte: u8)
        requires
            APU_BASE <= addr < APU_BASE + APU_PORTS,
        ensures
            byte == self@[addr - APU_BASE],
    {
        self.regs[(addr - APU_BASE) as usize]
    }

    /// Writes the port at `addr`.
    pub fn storeb(&mut self, addr: u16, val: u8)
        requires
            APU_BASE <= addr < APU_BASE + APU_PORTS,
        ensures
            final(self)@ == old(self)@.update(addr - APU_BASE, val),
    {
        self.regs[(addr - APU_BASE) as usize] = val;
    }

    /// Clears every port.
    pub fn reset(&mut self)
        ensures
            final(self)@ == Seq::new(APU_PORTS as nat, |i: int| 0u8),
    {
        self.regs = [0u8;0x18];
        assert(self@ =~= Seq::new(APU_PORTS as nat, |i: int| 0u8));
    }
}

} // verus!
