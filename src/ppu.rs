use vstd::prelude::*;

verus! {

/// Number of registers in the graphics coprocessor's window.
pub const PPU_REGS: usize = 8;

/// The register window 0x2000..0x3FFF of the graphics coprocessor, seen from
/// the processor's side as eight latches repeated across the range.
pub struct PPU {
    pub regs: Vec<u8>,
}

/// The register that a bus address in the window selects.
pub open spec fn ppu_reg(address: u16) -> int {
    address as int % PPU_REGS as int
}

impl PPU {
    pub open spec fn wf(&self) -> bool {
        self.regs@.len() == PPU_REGS
    }

    pub fn new_nes_ppu() -> (r: PPU)
        ensures
            r.wf(),
            r.regs@ == Seq::new(PPU_REGS as nat, |i: int| 0u8),
    {
        let regs = vec![0u8; PPU_REGS];
        proof {
            assert(regs@ =~= Seq::new(PPU_REGS as nat, |i: int| 0u8));
        }
        PPU { regs }
    }

    pub fn read(&self, address: u16) -> (r: u8)
        requires
            self.wf(),
        ensures
            r == self.regs@[ppu_reg(address)],
    {
        self.regs[address as usize % PPU_REGS]
    }

    pub fn write(&mut self, address: u16, val: u8)
        requires
            old(self).wf(),
        ensures
            final(self).wf(),
            final(self).regs@ == old(self).regs@.update(ppu_reg(address), val),
    {
        self.regs.set(address as usize % PPU_REGS, val);
    }
}

} // verus!
