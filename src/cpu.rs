use vstd::prelude::*;
use crate::error::CpuError;
use crate::mem::NESMemory;
use crate::model::{add16, CpuView, INIT_FLAGS, PPU_DOTS_PER_SCANLINE, STACK_INIT};
use crate::opcode::{opcode, AddressingMode, Instruction, Opcode};

verus! {

/// The processor: registers, flags, program counter, stack pointer, a cycle
/// counter modulo one scanline, and the bus it owns.
pub struct CPU {
    pub mem: NESMemory,
    /// Accumulator.
    pub a: u8,
    pub x: u8,
    pub y: u8,
    /// Carry.
    pub c: bool,
    /// Zero.
    pub z: bool,
    /// Interrupt disable.
    pub i: bool,
    /// Decimal mode.
    pub d: bool,
    /// Break.
    pub b: bool,
    /// Unused.
    pub u: bool,
    /// Overflow.
    pub v: bool,
    /// Sign.
    pub s: bool,
    pub pc: u16,
    pub sp: u8,
    pub cycles: usize,
    /// Whether the stack pointer wraps silently, as the hardware does, instead
    /// of failing on overflow and underflow.
    pub stack_wraps: bool,
}

impl View for CPU {
    type V = CpuView;

    open spec fn view(&self) -> CpuView {
        CpuView {
            mem: self.mem@,
            a: self.a,
            x: self.x,
            y: self.y,
            c: self.c,
            z: self.z,
            i: self.i,
            d: self.d,
            b: self.b,
            u: self.u,
            v: self.v,
            s: self.s,
            pc: self.pc,
            sp: self.sp,
            cycles: self.cycles,
            stack_wraps: self.stack_wraps,
        }
    }
}

impl CPU {
    pub open spec fn wf(&self) -> bool {
        self.mem.wf()
    }

    pub fn new_nes_cpu(mem: NESMemory) -> (r: CPU)
        requires
            mem.wf(),
        ensures
            r.wf(),
            r@ == (CpuView {
                mem: mem@,
                a: 0,
                x: 0,
                y: 0,
                c: false,
                z: false,
                i: false,
                d: false,
                b: false,
                u: false,
                v: false,
                s: false,
                pc: 0,
                sp: STACK_INIT,
                cycles: 0,
                stack_wraps: false,
            }),
    {
        CPU {
            mem,
            a: 0,
            x: 0,
            y: 0,
            c: false,
            z: false,
            i: false,
            d: false,
            b: false,
            u: false,
            v: false,
            s: false,
            pc: 0,
            sp: STACK_INIT,
            cycles: 0,
            stack_wraps: false,
        }
    }

    /// Chooses between silent stack wrap-around and failing on it.
    pub fn set_stack_wrapping(&mut self, wraps: bool)
        ensures
            final(self)@ == (CpuView { stack_wraps: wraps, ..old(self)@ }),
    {
        self.stack_wraps = wraps;
    }

    /// Approximate dot position within the scanline.
    pub fn ppu_dots(&self) -> (r: usize)
        requires
            self.wf(),
        ensures
            r as int == ((self.cycles as int % (PPU_DOTS_PER_SCANLINE as int)) * 3) % (PPU_DOTS_PER_SCANLINE as int),
    {
        (self.cycles % PPU_DOTS_PER_SCANLINE) * 3 % PPU_DOTS_PER_SCANLINE
    }

    /// Power-on reset.
    pub fn init(&mut self) -> (r: Result<(), CpuError>)
        requires
            old(self).wf(),
        ensures
            final(self).wf(),
            (final(self)@, r) == old(self)@.init(),
    {
        let lo = match self.mem.read(0xfffc) {
            Ok(v) => v,
            Err(e) => return Err(CpuError::Bus(e)),
        };
        let hi = match self.mem.read(0xfffd) {
            Ok(v) => v,
            Err(e) => return Err(CpuError::Bus(e)),
        };
        self.pc = hi as u16 * 256 + lo as u16;
        self.set_flags(INIT_FLAGS);
        Ok(())
    }

    pub fn flags(&self) -> (r: u8)
        ensures
            r == self@.flags(),
    {
        (if self.c { 0x01u8 } else { 0 }) | (if self.z { 0x02u8 } else { 0 }) | (if self.i { 0x04u8 } else { 0 })
            | (if self.d { 0x08u8 } else { 0 }) | (if self.b { 0x10u8 } else { 0 }) | (if self.u { 0x20u8 } else { 0 })
            | (if self.v { 0x40u8 } else { 0 }) | (if self.s { 0x80u8 } else { 0 })
    }

    pub fn set_flags(&mut self, val: u8)
        ensures
            final(self)@ == old(self)@.set_flags(val),
    {
        self.c = (val >> 0u8) & 1 == 1;
        self.z = (val >> 1u8) & 1 == 1;
        self.i = (val >> 2u8) & 1 == 1;
        self.d = (val >> 3u8) & 1 == 1;
        self.b = (val >> 4u8) & 1 == 1;
        self.u = (val >> 5u8) & 1 == 1;
        self.v = (val >> 6u8) & 1 == 1;
        self.s = (val >> 7u8) & 1 == 1;
    }

    pub fn stack_push8(&mut self, val: u8) -> (r: Result<(), CpuError>)
        requires
            old(self).wf(),
        ensures
            final(self).wf(),
            (final(self)@, r) == old(self)@.push8(val),
    {
        if self.sp == 0 && !self.stack_wraps {
            return Err(CpuError::StackOverflow);
        }
        let _ = self.mem.write(0x100 + self.sp as u16, val);
        self.sp = self.sp.wrapping_sub(1);
        Ok(())
    }

    pub fn stack_pop8(&mut self) -> (r: Result<u8, CpuError>)
        requires
            old(self).wf(),
        ensures
            final(self).wf(),
            (final(self)@, r) == old(self)@.pop8(),
    {
        if self.sp == STACK_INIT && !self.stack_wraps {
            return Err(CpuError::StackUnderflow);
        }
        self.sp = self.sp.wrapping_add(1);
        reveal(crate::mem::MemView::read);
        match self.mem.read(0x100 + self.sp as u16) {
            Ok(v) => Ok(v),
            Err(e) => Err(CpuError::Bus(e)),
        }
    }

    pub fn stack_push16(&mut self, val: u16) -> (r: Result<(), CpuError>)
        requires
            old(self).wf(),
        ensures
            final(self).wf(),
            (final(self)@, r) == old(self)@.push16(val),
    {
        match self.stack_push8((val / 256) as u8) {
            Ok(_) => self.stack_push8((val % 256) as u8),
            Err(e) => Err(e),
        }
    }

    pub fn stack_pop16(&mut self) -> (r: Result<u16, CpuError>)
        requires
            old(self).wf(),
        ensures
            final(self).wf(),
            (final(self)@, r) == old(self)@.pop16(),
    {
        let lo = match self.stack_pop8() {
            Ok(v) => v,
            Err(e) => return Err(e),
        };
        let hi = match self.stack_pop8() {
            Ok(v) => v,
            Err(e) => return Err(e),
        };
        Ok(hi as u16 * 256 + lo as u16)
    }

    fn update_sz(&mut self, val: u8)
        ensures
            final(self)@ == old(self)@.sz(val),
    {
        self.s = val & 0x80 != 0;
        self.z = val == 0;
    }

    /// Stores `val` at `address`; nothing changes when the bus refuses.
    fn store(&mut self, address: u16, val: u8) -> (r: Result<(), CpuError>)
        requires
            old(self).wf(),
        ensures
            final(self).wf(),
            (final(self)@, r) == old(self)@.store(old(self)@, address, val),
    {
        reveal(crate::mem::MemView::write);
        match self.mem.write(address, val) {
            Ok(_) => Ok(()),
            Err(e) => Err(CpuError::Bus(e)),
        }
    }

    fn add_branch_cycles(&mut self, pc: u16, address: u16)
        requires
            old(self).wf(),
            old(self).cycles <= usize::MAX - 2,
        ensures
            final(self).wf(),
            final(self)@ == old(self)@.tick(if pc / 256 != address / 256 { 2 } else { 1 }),
    {
        let k: usize = if pc / 256 != address / 256 { 2 } else { 1 };
        self.cycles = self.cycles + k;
    }

    fn branch(&mut self, cond: bool, address: u16)
        requires
            old(self).wf(),
            old(self).cycles <= usize::MAX - 2,
        ensures
            final(self).wf(),
            final(self)@ == old(self)@.branch(cond, address),
    {
        if cond {
            let pc = self.pc;
            self.add_branch_cycles(pc, address);
            self.pc = address;
        }
    }

    /// Shift/rotate write-back, after carry, sign and zero are computed.
    fn write_back(&mut self, address: u16, n: u8, carry: bool, mode: &AddressingMode) -> (r: Result<(), CpuError>)
        requires
            old(self).wf(),
        ensures
            final(self).wf(),
            (final(self)@, r) == old(self)@.write_back(
                CpuView { c: carry, ..old(self)@ }.sz(n),
                address,
                n,
                *mode,
            ),
    {
        if *mode == AddressingMode::Accumulator {
            self.a = n;
        } else {
            match self.store(address, n) {
                Ok(_) => {},
                Err(e) => return Err(e),
            }
        }
        self.c = carry;
        self.update_sz(n);
        Ok(())
    }

    //
    // Documented instructions
    //
    pub fn adc(&mut self, _addr: u16, val: u8)
        ensures
            final(self).cycles == old(self).cycles,
            final(self)@ == old(self)@.adc(val),
    {
        let n: u16 = self.a as u16 + val as u16 + if self.c { 1 } else { 0 };
        let r = (n % 256) as u8;
        self.v = ((self.a ^ val) & 0x80 == 0) && ((self.a ^ r) & 0x80 != 0);
        self.c = n > 0xff;
        self.a = r;
        self.update_sz(r);
    }

    pub fn and(&mut self, _addr: u16, val: u8)
        ensures
            final(self).cycles == old(self).cycles,
            final(self)@ == (CpuView { a: old(self).a & val, ..old(self)@ }).sz(old(self).a & val),
    {
        self.a = self.a & val;
        let a = self.a;
        self.update_sz(a);
    }

    pub fn asl(&mut self, addr: u16, val: u8, addr_mode: &AddressingMode) -> (r: Result<(), CpuError>)
        requires
            old(self).wf(),
        ensures
            final(self).cycles == old(self).cycles,
            final(self).wf(),
            (final(self)@, r) == old(self)@.asl(addr, val, *addr_mode),
    {
        let n = ((val as u16 * 2) % 256) as u8;
        self.write_back(addr, n, val & 0x80 != 0, addr_mode)
    }

    pub fn bcc(&mut self, addr: u16, _val: u8)
        requires
            old(self).wf(),
            old(self).cycles <= usize::MAX - 2,
        ensures
            final(self).cycles <= old(self).cycles + 2,
            final(self).wf(),
            final(self)@ == old(self)@.branch(!old(self).c, addr),
    {
        let cond = !self.c;
        self.branch(cond, addr);
    }

    pub fn bcs(&mut self, addr: u16, _val: u8)
        requires
            old(self).wf(),
            old(self).cycles <= usize::MAX - 2,
        ensures
            final(self).cycles <= old(self).cycles + 2,
            final(self).wf(),
            final(self)@ == old(self)@.branch(old(self).c, addr),
    {
        let cond = self.c;
        self.branch(cond, addr);
    }

    pub fn beq(&mut self, addr: u16, _val: u8)
        requires
            old(self).wf(),
            old(self).cycles <= usize::MAX - 2,
        ensures
            final(self).cycles <= old(self).cycles + 2,
            final(self).wf(),
            final(self)@ == old(self)@.branch(old(self).z, addr),
    {
        let cond = self.z;
        self.branch(cond, addr);
    }

    pub fn bit(&mut self, _addr: u16, val: u8)
        ensures
            final(self).cycles == old(self).cycles,
            final(self)@ == old(self)@.bit(val),
    {
        self.s = val & 0x80 != 0;
        self.v = (val >> 6u8) & 1 == 1;
        self.z = self.a & val == 0;
    }

    pub fn bmi(&mut self, addr: u16, _val: u8)
        requires
            old(self).wf(),
            old(self).cycles <= usize::MAX - 2,
        ensures
            final(self).cycles <= old(self).cycles + 2,
            final(self).wf(),
            final(self)@ == old(self)@.branch(old(self).s, addr),
    {
        let cond = self.s;
        self.branch(cond, addr);
    }

    pub fn bne(&mut self, addr: u16, _val: u8)
        requires
            old(self).wf(),
            old(self).cycles <= usize::MAX - 2,
        ensures
            final(self).cycles <= old(self).cycles + 2,
            final(self).wf(),
            final(self)@ == old(self)@.branch(!old(self).z, addr),
    {
        let cond = !self.z;
        self.branch(cond, addr);
    }

    pub fn bpl(&mut self, addr: u16, _val: u8)
        requires
            old(self).wf(),
            old(self).cycles <= usize::MAX - 2,
        ensures
            final(self).cycles <= old(self).cycles + 2,
            final(self).wf(),
            final(self)@ == old(self)@.branch(!old(self).s, addr),
    {
        let cond = !self.s;
        self.branch(cond, addr);
    }

    pub fn brk(&mut self, _addr: u16, _val: u8) -> (r: Result<(), CpuError>)
        requires
            old(self).wf(),
        ensures
            final(self).cycles == old(self).cycles,
            final(self).wf(),
            (final(self)@, r) == old(self)@.brk(),
    {
        let flags = self.flags() | 0x10;
        match self.stack_push16(self.pc.wrapping_add(1)) {
            Ok(_) => {},
            Err(e) => return Err(e),
        }
        match self.stack_push8(flags) {
            Ok(_) => {},
            Err(e) => return Err(e),
        }
        let lo = match self.mem.read(0xfffe) {
            Ok(v) => v,
            Err(e) => return Err(CpuError::Bus(e)),
        };
        let hi = match self.mem.read(0xffff) {
            Ok(v) => v,
            Err(e) => return Err(CpuError::Bus(e)),
        };
        self.pc = hi as u16 * 256 + lo as u16;
        self.i = true;
        Ok(())
    }

    pub fn bvc(&mut self, addr: u16, _val: u8)
        requires
            old(self).wf(),
            old(self).cycles <= usize::MAX - 2,
        ensures
            final(self).cycles <= old(self).cycles + 2,
            final(self).wf(),
            final(self)@ == old(self)@.branch(!old(self).v, addr),
    {
        let cond = !self.v;
        self.branch(cond, addr);
    }

    pub fn bvs(&mut self, addr: u16, _val: u8)
        requires
            old(self).wf(),
            old(self).cycles <= usize::MAX - 2,
        ensures
            final(self).cycles <= old(self).cycles + 2,
            final(self).wf(),
            final(self)@ == old(self)@.branch(old(self).v, addr),
    {
        let cond = self.v;
        self.branch(cond, addr);
    }

    pub fn clc(&mut self, _addr: u16, _val: u8)
        ensures
            final(self).cycles == old(self).cycles,
            final(self)@ == (CpuView { c: false, ..old(self)@ }),
    {
        self.c = false;
    }

    pub fn cld(&mut self, _addr: u16, _val: u8)
        ensures
            final(self).cycles == old(self).cycles,
            final(self)@ == (CpuView { d: false, ..old(self)@ }),
    {
        self.d = false;
    }

    pub fn cli(&mut self, _addr: u16, _val: u8)
        ensures
            final(self).cycles == old(self).cycles,
            final(self)@ == (CpuView { i: false, ..old(self)@ }),
    {
        self.i = false;
    }

    pub fn clv(&mut self, _addr: u16, _val: u8)
        ensures
            final(self).cycles == old(self).cycles,
            final(self)@ == (CpuView { v: false, ..old(self)@ }),
    {
        self.v = false;
    }

    pub fn cmp(&mut self, _addr: u16, val: u8)
        ensures
            final(self).cycles == old(self).cycles,
            final(self)@ == old(self)@.compare(old(self).a, val),
    {
        let n = self.a.wrapping_sub(val);
        self.c = self.a >= val;
        self.update_sz(n);
    }

    pub fn cpx(&mut self, _addr: u16, val: u8)
        ensures
            final(self).cycles == old(self).cycles,
            final(self)@ == old(self)@.compare(old(self).x, val),
    {
        let n = self.x.wrapping_sub(val);
        self.c = self.x >= val;
        self.update_sz(n);
    }

    pub fn cpy(&mut self, _addr: u16, val: u8)
        ensures
            final(self).cycles == old(self).cycles,
            final(self)@ == old(self)@.compare(old(self).y, val),
    {
        let n = self.y.wrapping_sub(val);
        self.c = self.y >= val;
        self.update_sz(n);
    }

    pub fn dec(&mut self, addr: u16, val: u8) -> (r: Result<(), CpuError>)
        requires
            old(self).wf(),
        ensures
            final(self).cycles == old(self).cycles,
            final(self).wf(),
            (final(self)@, r) == old(self)@.dec(addr, val),
    {
        let n = val.wrapping_sub(1);
        match self.store(addr, n) {
            Ok(_) => {},
            Err(e) => return Err(e),
        }
        self.update_sz(n);
        Ok(())
    }

    pub fn dex(&mut self, _addr: u16, _val: u8)
        ensures
            final(self).cycles == old(self).cycles,
            final(self)@ == (CpuView { x: ((old(self).x - 1) % 256) as u8, ..old(self)@ }).sz(
                ((old(self).x - 1) % 256) as u8,
            ),
    {
        let n = self.x.wrapping_sub(1);
        self.x = n;
        self.update_sz(n);
    }

    pub fn dey(&mut self, _addr: u16, _val: u8)
        ensures
            final(self).cycles == old(self).cycles,
            final(self)@ == (CpuView { y: ((old(self).y - 1) % 256) as u8, ..old(self)@ }).sz(
                ((old(self).y - 1) % 256) as u8,
            ),
    {
        let n = self.y.wrapping_sub(1);
        self.y = n;
        self.update_sz(n);
    }

    pub fn eor(&mut self, _addr: u16, val: u8)
        ensures
            final(self).cycles == old(self).cycles,
            final(self)@ == (CpuView { a: old(self).a ^ val, ..old(self)@ }).sz(old(self).a ^ val),
    {
        let n = self.a ^ val;
        self.a = n;
        self.update_sz(n);
    }

    pub fn inc(&mut self, addr: u16, val: u8) -> (r: Result<(), CpuError>)
        requires
            old(self).wf(),
        ensures
            final(self).cycles == old(self).cycles,
            final(self).wf(),
            (final(self)@, r) == old(self)@.inc(addr, val),
    {
        let n = val.wrapping_add(1);
        match self.store(addr, n) {
            Ok(_) => {},
            Err(e) => return Err(e),
        }
        self.update_sz(n);
        Ok(())
    }

    pub fn inx(&mut self, _addr: u16, _val: u8)
        ensures
            final(self).cycles == old(self).cycles,
            final(self)@ == (CpuView { x: ((old(self).x + 1) % 256) as u8, ..old(self)@ }).sz(
                ((old(self).x + 1) % 256) as u8,
            ),
    {
        let n = self.x.wrapping_add(1);
        self.x = n;
        self.update_sz(n);
    }

    pub fn iny(&mut self, _addr: u16, _val: u8)
        ensures
            final(self).cycles == old(self).cycles,
            final(self)@ == (CpuView { y: ((old(self).y + 1) % 256) as u8, ..old(self)@ }).sz(
                ((old(self).y + 1) % 256) as u8,
            ),
    {
        let n = self.y.wrapping_add(1);
        self.y = n;
        self.update_sz(n);
    }

    pub fn jmp(&mut self, addr: u16, _val: u8)
        ensures
            final(self).cycles == old(self).cycles,
            final(self)@ == (CpuView { pc: addr, ..old(self)@ }),
    {
        self.pc = addr;
    }

    pub fn jsr(&mut self, addr: u16, _val: u8) -> (r: Result<(), CpuError>)
        requires
            old(self).wf(),
        ensures
            final(self).cycles == old(self).cycles,
            final(self).wf(),
            (final(self)@, r) == old(self)@.jsr(addr),
    {
        let retaddr = self.pc.wrapping_sub(1);
        match self.stack_push16(retaddr) {
            Ok(_) => {},
            Err(e) => return Err(e),
        }
        self.pc = addr;
        Ok(())
    }

    pub fn lda(&mut self, _addr: u16, val: u8)
        ensures
            final(self).cycles == old(self).cycles,
            final(self)@ == (CpuView { a: val, ..old(self)@ }).sz(val),
    {
        self.a = val;
        self.update_sz(val);
    }

    pub fn ldx(&mut self, _addr: u16, val: u8)
        ensures
            final(self).cycles == old(self).cycles,
            final(self)@ == (CpuView { x: val, ..old(self)@ }).sz(val),
    {
        self.x = val;
        self.update_sz(val);
    }

    pub fn ldy(&mut self, _addr: u16, val: u8)
        ensures
            final(self).cycles == old(self).cycles,
            final(self)@ == (CpuView { y: val, ..old(self)@ }).sz(val),
    {
        self.y = val;
        self.update_sz(val);
    }

    pub fn lsr(&mut self, addr: u16, val: u8, addr_mode: &AddressingMode) -> (r: Result<(), CpuError>)
        requires
            old(self).wf(),
        ensures
            final(self).cycles == old(self).cycles,
            final(self).wf(),
            (final(self)@, r) == old(self)@.lsr(addr, val, *addr_mode),
    {
        self.write_back(addr, val / 2, val & 0x01 == 1, addr_mode)
    }

    pub fn nop(&mut self, _addr: u16, _val: u8)
        ensures
            final(self).cycles == old(self).cycles,
            final(self)@ == old(self)@,
    {
    }

    pub fn ora(&mut self, _addr: u16, val: u8)
        ensures
            final(self).cycles == old(self).cycles,
            final(self)@ == (CpuView { a: old(self).a | val, ..old(self)@ }).sz(old(self).a | val),
    {
        let n = self.a | val;
        self.a = n;
        self.update_sz(n);
    }

    pub fn pha(&mut self, _addr: u16, _val: u8) -> (r: Result<(), CpuError>)
        requires
            old(self).wf(),
        ensures
            final(self).cycles == old(self).cycles,
            final(self).wf(),
            (final(self)@, r) == old(self)@.push8(old(self).a),
    {
        let a = self.a;
        self.stack_push8(a)
    }

    /// Pushes the flags with the break bit set.
    pub fn php(&mut self, _addr: u16, _val: u8) -> (r: Result<(), CpuError>)
        requires
            old(self).wf(),
        ensures
            final(self).cycles == old(self).cycles,
            final(self).wf(),
            (final(self)@, r) == old(self)@.push8(old(self)@.flags() | 0x10),
    {
        let flags = self.flags() | 0x10;
        self.stack_push8(flags)
    }

    pub fn pla(&mut self, _addr: u16, _val: u8) -> (r: Result<(), CpuError>)
        requires
            old(self).wf(),
        ensures
            final(self).cycles == old(self).cycles,
            final(self).wf(),
            (final(self)@, r) == old(self)@.pla(),
    {
        let rv = match self.stack_pop8() {
            Ok(v) => v,
            Err(e) => return Err(e),
        };
        self.a = rv;
        self.update_sz(rv);
        Ok(())
    }

    pub fn plp(&mut self, _addr: u16, _val: u8) -> (r: Result<(), CpuError>)
        requires
            old(self).wf(),
        ensures
            final(self).cycles == old(self).cycles,
            final(self).wf(),
            (final(self)@, r) == old(self)@.plp(),
    {
        let p = match self.stack_pop8() {
            Ok(v) => v,
            Err(e) => return Err(e),
        };
        self.set_flags(p & 0xef | 0x20);
        Ok(())
    }

    pub fn rol(&mut self, addr: u16, val: u8, addr_mode: &AddressingMode) -> (r: Result<(), CpuError>)
        requires
            old(self).wf(),
        ensures
            final(self).cycles == old(self).cycles,
            final(self).wf(),
            (final(self)@, r) == old(self)@.rol(addr, val, *addr_mode),
    {
        let n = ((val as u16 * 2) % 256 + if self.c { 1 } else { 0 }) as u8;
        self.write_back(addr, n, val & 0x80 != 0, addr_mode)
    }

    pub fn ror(&mut self, addr: u16, val: u8, addr_mode: &AddressingMode) -> (r: Result<(), CpuError>)
        requires
            old(self).wf(),
        ensures
            final(self).cycles == old(self).cycles,
            final(self).wf(),
            (final(self)@, r) == old(self)@.ror(addr, val, *addr_mode),
    {
        let n = (val / 2 + if self.c { 0x80 } else { 0 }) as u8;
        self.write_back(addr, n, val & 0x01 == 1, addr_mode)
    }

    pub fn rti(&mut self, _addr: u16, _val: u8) -> (r: Result<(), CpuError>)
        requires
            old(self).wf(),
        ensures
            final(self).cycles == old(self).cycles,
            final(self).wf(),
            (final(self)@, r) == old(self)@.rti(),
    {
        let p = match self.stack_pop8() {
            Ok(v) => v,
            Err(e) => return Err(e),
        };
        self.set_flags(p & 0xef | 0x20);
        let retaddr = match self.stack_pop16() {
            Ok(v) => v,
            Err(e) => return Err(e),
        };
        self.pc = retaddr;
        Ok(())
    }

    pub fn rts(&mut self, _addr: u16, _val: u8) -> (r: Result<(), CpuError>)
        requires
            old(self).wf(),
        ensures
            final(self).cycles == old(self).cycles,
            final(self).wf(),
            (final(self)@, r) == old(self)@.rts(),
    {
        let retaddr = match self.stack_pop16() {
            Ok(v) => v,
            Err(e) => return Err(e),
        };
        self.pc = retaddr.wrapping_add(1);
        Ok(())
    }

    pub fn sbc(&mut self, _addr: u16, val: u8)
        ensures
            final(self).cycles == old(self).cycles,
            final(self)@ == old(self)@.sbc(val),
    {
        let n = self.a.wrapping_sub(val).wrapping_sub(if self.c { 0 } else { 1 });
        self.v = ((self.a ^ val) & 0x80 != 0) && ((self.a ^ n) & 0x80 != 0);
        self.c = n < 0x80;
        self.a = n;
        self.update_sz(n);
    }

    pub fn sec(&mut self, _addr: u16, _val: u8)
        ensures
            final(self).cycles == old(self).cycles,
            final(self)@ == (CpuView { c: true, ..old(self)@ }),
    {
        self.c = true;
    }

    pub fn sed(&mut self, _addr: u16, _val: u8)
        ensures
            final(self).cycles == old(self).cycles,
            final(self)@ == (CpuView { d: true, ..old(self)@ }),
    {
        self.d = true;
    }

    pub fn sei(&mut self, _addr: u16, _val: u8)
        ensures
            final(self).cycles == old(self).cycles,
            final(self)@ == (CpuView { i: true, ..old(self)@ }),
    {
        self.i = true;
    }

    pub fn sta(&mut self, addr: u16, _val: u8) -> (r: Result<(), CpuError>)
        requires
            old(self).wf(),
        ensures
            final(self).cycles == old(self).cycles,
            final(self).wf(),
            (final(self)@, r) == old(self)@.store(old(self)@, addr, old(self).a),
    {
        let a = self.a;
        self.store(addr, a)
    }

    pub fn stx(&mut self, addr: u16, _val: u8) -> (r: Result<(), CpuError>)
        requires
            old(self).wf(),
        ensures
            final(self).cycles == old(self).cycles,
            final(self).wf(),
            (final(self)@, r) == old(self)@.store(old(self)@, addr, old(self).x),
    {
        let x = self.x;
        self.store(addr, x)
    }

    pub fn sty(&mut self, addr: u16, _val: u8) -> (r: Result<(), CpuError>)
        requires
            old(self).wf(),
        ensures
            final(self).cycles == old(self).cycles,
            final(self).wf(),
            (final(self)@, r) == old(self)@.store(old(self)@, addr, old(self).y),
    {
        let y = self.y;
        self.store(addr, y)
    }

    pub fn tax(&mut self, _addr: u16, _val: u8)
        ensures
            final(self).cycles == old(self).cycles,
            final(self)@ == (CpuView { x: old(self).a, ..old(self)@ }).sz(old(self).a),
    {
        let n = self.a;
        self.x = n;
        self.update_sz(n);
    }

    pub fn tay(&mut self, _addr: u16, _val: u8)
        ensures
            final(self).cycles == old(self).cycles,
            final(self)@ == (CpuView { y: old(self).a, ..old(self)@ }).sz(old(self).a),
    {
        let n = self.a;
        self.y = n;
        self.update_sz(n);
    }

    pub fn tsx(&mut self, _addr: u16, _val: u8)
        ensures
            final(self).cycles == old(self).cycles,
            final(self)@ == (CpuView { x: old(self).sp, ..old(self)@ }).sz(old(self).sp),
    {
        let n = self.sp;
        self.x = n;
        self.update_sz(n);
    }

    pub fn txa(&mut self, _addr: u16, _val: u8)
        ensures
            final(self).cycles == old(self).cycles,
            final(self)@ == (CpuView { a: old(self).x, ..old(self)@ }).sz(old(self).x),
    {
        let n = self.x;
        self.a = n;
        self.update_sz(n);
    }

    pub fn txs(&mut self, _addr: u16, _val: u8)
        ensures
            final(self).cycles == old(self).cycles,
            final(self)@ == (CpuView { sp: old(self).x, ..old(self)@ }),
    {
        self.sp = self.x;
    }

    pub fn tya(&mut self, _addr: u16, _val: u8)
        ensures
            final(self).cycles == old(self).cycles,
            final(self)@ == (CpuView { a: old(self).y, ..old(self)@ }).sz(old(self).y),
    {
        let n = self.y;
        self.a = n;
        self.update_sz(n);
    }

    //
    // Undocumented instructions
    //
    /// Accepted and ignored.
    pub fn anc(&mut self, _addr: u16, _val: u8)
        ensures
            final(self).cycles == old(self).cycles,
            final(self)@ == old(self)@,
    {
    }

    pub fn lax(&mut self, _addr: u16, val: u8)
        ensures
            final(self).cycles == old(self).cycles,
            final(self)@ == (CpuView { a: val, x: val, ..old(self)@ }).sz(val),
    {
        self.a = val;
        self.x = val;
        self.update_sz(val);
    }

    pub fn sax(&mut self, addr: u16, _val: u8) -> (r: Result<(), CpuError>)
        requires
            old(self).wf(),
        ensures
            final(self).cycles == old(self).cycles,
            final(self).wf(),
            (final(self)@, r) == old(self)@.store(old(self)@, addr, old(self).a & old(self).x),
    {
        let n = self.a & self.x;
        self.store(addr, n)
    }

    pub fn dcp(&mut self, addr: u16, val: u8) -> (r: Result<(), CpuError>)
        requires
            old(self).wf(),
        ensures
            final(self).cycles == old(self).cycles,
            final(self).wf(),
            (final(self)@, r) == old(self)@.dcp(addr, val),
    {
        let n = val.wrapping_sub(1);
        match self.store(addr, n) {
            Ok(_) => {},
            Err(e) => return Err(e),
        }
        let d = self.a.wrapping_sub(n);
        self.c = self.a >= n;
        self.update_sz(d);
        Ok(())
    }
}


impl Instruction {
    /// Runs the instruction on `cpu` with its resolved operand.
    pub fn run(&self, cpu: &mut CPU, addr: u16, val: u8, addr_mode: &AddressingMode) -> (r: Result<(), CpuError>)
        requires
            old(cpu).wf(),
            old(cpu).cycles <= usize::MAX - 2,
        ensures
            final(cpu).wf(),
            final(cpu).cycles <= old(cpu).cycles + 2,
            (final(cpu)@, r) == old(cpu)@.run(*self, addr, val, *addr_mode),
    {
        match self {
            Instruction::ADC => self.run_part0(cpu, addr, val, addr_mode),
            Instruction::CLD => self.run_part0(cpu, addr, val, addr_mode),
            Instruction::CPX => self.run_part0(cpu, addr, val, addr_mode),
            Instruction::EOR => self.run_part0(cpu, addr, val, addr_mode),
            Instruction::LDA => self.run_part0(cpu, addr, val, addr_mode),
            Instruction::ORA => self.run_part0(cpu, addr, val, addr_mode),
            Instruction::SEI => self.run_part0(cpu, addr, val, addr_mode),
            Instruction::TXA => self.run_part0(cpu, addr, val, addr_mode),
            Instruction::LAX => self.run_part0(cpu, addr, val, addr_mode),
            Instruction::BMI => self.run_part0(cpu, addr, val, addr_mode),
            Instruction::BVS => self.run_part0(cpu, addr, val, addr_mode),
            Instruction::JSR => self.run_part0(cpu, addr, val, addr_mode),
            Instruction::PLP => self.run_part0(cpu, addr, val, addr_mode),
            Instruction::STX => self.run_part0(cpu, addr, val, addr_mode),
            Instruction::ASL => self.run_part0(cpu, addr, val, addr_mode),
            Instruction::Illegal => self.run_part0(cpu, addr, val, addr_mode),
            Instruction::AND => self.run_part1(cpu, addr, val, addr_mode),
            Instruction::CLI => self.run_part1(cpu, addr, val, addr_mode),
            Instruction::CPY => self.run_part1(cpu, addr, val, addr_mode),
            Instruction::INX => self.run_part1(cpu, addr, val, addr_mode),
            Instruction::LDX => self.run_part1(cpu, addr, val, addr_mode),
            Instruction::SBC => self.run_part1(cpu, addr, val, addr_mode),
            Instruction::TAX => self.run_part1(cpu, addr, val, addr_mode),
            Instruction::TXS => self.run_part1(cpu, addr, val, addr_mode),
            Instruction::BCC => self.run_part1(cpu, addr, val, addr_mode),
            Instruction::BNE => self.run_part1(cpu, addr, val, addr_mode),
            Instruction::BRK => self.run_part1(cpu, addr, val, addr_mode),
            Instruction::PHA => self.run_part1(cpu, addr, val, addr_mode),
            Instruction::RTI => self.run_part1(cpu, addr, val, addr_mode),
            Instruction::STY => self.run_part1(cpu, addr, val, addr_mode),
            Instruction::LSR => self.run_part1(cpu, addr, val, addr_mode),
            Instruction::BIT => self.run_part2(cpu, addr, val, addr_mode),
            Instruction::CLV => self.run_part2(cpu, addr, val, addr_mode),
            Instruction::DEX => self.run_part2(cpu, addr, val, addr_mode),
            Instruction::INY => self.run_part2(cpu, addr, val, addr_mode),
            Instruction::LDY => self.run_part2(cpu, addr, val, addr_mode),
            Instruction::SEC => self.run_part2(cpu, addr, val, addr_mode),
            Instruction::TAY => self.run_part2(cpu, addr, val, addr_mode),
            Instruction::TYA => self.run_part2(cpu, addr, val, addr_mode),
            Instruction::BCS => self.run_part2(cpu, addr, val, addr_mode),
            Instruction::BPL => self.run_part2(cpu, addr, val, addr_mode),
            Instruction::DEC => self.run_part2(cpu, addr, val, addr_mode),
            Instruction::PHP => self.run_part2(cpu, addr, val, addr_mode),
            Instruction::RTS => self.run_part2(cpu, addr, val, addr_mode),
            Instruction::SAX => self.run_part2(cpu, addr, val, addr_mode),
            Instruction::ROL => self.run_part2(cpu, addr, val, addr_mode),
            Instruction::CLC => self.run_part3(cpu, addr, val, addr_mode),
            Instruction::CMP => self.run_part3(cpu, addr, val, addr_mode),
            Instruction::DEY => self.run_part3(cpu, addr, val, addr_mode),
            Instruction::JMP => self.run_part3(cpu, addr, val, addr_mode),
            Instruction::NOP => self.run_part3(cpu, addr, val, addr_mode),
            Instruction::SED => self.run_part3(cpu, addr, val, addr_mode),
            Instruction::TSX => self.run_part3(cpu, addr, val, addr_mode),
            Instruction::ANC => self.run_part3(cpu, addr, val, addr_mode),
            Instruction::BEQ => self.run_part3(cpu, addr, val, addr_mode),
            Instruction::BVC => self.run_part3(cpu, addr, val, addr_mode),
            Instruction::INC => self.run_part3(cpu, addr, val, addr_mode),
            Instruction::PLA => self.run_part3(cpu, addr, val, addr_mode),
            Instruction::STA => self.run_part3(cpu, addr, val, addr_mode),
            Instruction::DCP => self.run_part3(cpu, addr, val, addr_mode),
            Instruction::ROR => self.run_part3(cpu, addr, val, addr_mode),
        }
    }

    #[verifier::rlimit(60)]
    fn run_part0(&self, cpu: &mut CPU, addr: u16, val: u8, addr_mode: &AddressingMode) -> (r: Result<(), CpuError>)
        requires
            old(cpu).wf(),
            old(cpu).cycles <= usize::MAX - 2,
            *self == Instruction::ADC || *self == Instruction::CLD || *self == Instruction::CPX || *self == Instruction::EOR || *self == Instruction::LDA || *self == Instruction::ORA || *self == Instruction::SEI || *self == Instruction::TXA || *self == Instruction::LAX || *self == Instruction::BMI || *self == Instruction::BVS || *self == Instruction::JSR || *self == Instruction::PLP || *self == Instruction::STX || *self == Instruction::ASL || *self == Instruction::Illegal,
        ensures
            final(cpu).wf(),
            final(cpu).cycles <= old(cpu).cycles + 2,
            (final(cpu)@, r) == old(cpu)@.run(*self, addr, val, *addr_mode),
    {
        reveal(CpuView::run);
        match self {
            Instruction::ADC => {
                cpu.adc(addr, val);
                Ok(())
            },
            Instruction::CLD => {
                cpu.cld(addr, val);
                Ok(())
            },
            Instruction::CPX => {
                cpu.cpx(addr, val);
                Ok(())
            },
            Instruction::EOR => {
                cpu.eor(addr, val);
                Ok(())
            },
            Instruction::LDA => {
                cpu.lda(addr, val);
                Ok(())
            },
            Instruction::ORA => {
                cpu.ora(addr, val);
                Ok(())
            },
            Instruction::SEI => {
                cpu.sei(addr, val);
                Ok(())
            },
            Instruction::TXA => {
                cpu.txa(addr, val);
                Ok(())
            },
            Instruction::LAX => {
                cpu.lax(addr, val);
                Ok(())
            },
            Instruction::BMI => {
                cpu.bmi(addr, val);
                Ok(())
            },
            Instruction::BVS => {
                cpu.bvs(addr, val);
                Ok(())
            },
            Instruction::JSR => cpu.jsr(addr, val),
            Instruction::PLP => cpu.plp(addr, val),
            Instruction::STX => cpu.stx(addr, val),
            Instruction::ASL => cpu.asl(addr, val, addr_mode),
            Instruction::Illegal => Ok(()),
            _ => Ok(()),
        }
    }

    #[verifier::rlimit(60)]
    fn run_part1(&self, cpu: &mut CPU, addr: u16, val: u8, addr_mode: &AddressingMode) -> (r: Result<(), CpuError>)
        requires
            old(cpu).wf(),
            old(cpu).cycles <= usize::MAX - 2,
            *self == Instruction::AND || *self == Instruction::CLI || *self == Instruction::CPY || *self == Instruction::INX || *self == Instruction::LDX || *self == Instruction::SBC || *self == Instruction::TAX || *self == Instruction::TXS || *self == Instruction::BCC || *self == Instruction::BNE || *self == Instruction::BRK || *self == Instruction::PHA || *self == Instruction::RTI || *self == Instruction::STY || *self == Instruction::LSR,
        ensures
            final(cpu).wf(),
            final(cpu).cycles <= old(cpu).cycles + 2,
            (final(cpu)@, r) == old(cpu)@.run(*self, addr, val, *addr_mode),
    {
        reveal(CpuView::run);
        match self {
            Instruction::AND => {
                cpu.and(addr, val);
                Ok(())
            },
            Instruction::CLI => {
                cpu.cli(addr, val);
                Ok(())
            },
            Instruction::CPY => {
                cpu.cpy(addr, val);
                Ok(())
            },
            Instruction::INX => {
                cpu.inx(addr, val);
                Ok(())
            },
            Instruction::LDX => {
                cpu.ldx(addr, val);
                Ok(())
            },
            Instruction::SBC => {
                cpu.sbc(addr, val);
                Ok(())
            },
            Instruction::TAX => {
                cpu.tax(addr, val);
                Ok(())
            },
            Instruction::TXS => {
                cpu.txs(addr, val);
                Ok(())
            },
            Instruction::BCC => {
                cpu.bcc(addr, val);
                Ok(())
            },
            Instruction::BNE => {
                cpu.bne(addr, val);
                Ok(())
            },
            Instruction::BRK => cpu.brk(addr, val),
            Instruction::PHA => cpu.pha(addr, val),
            Instruction::RTI => cpu.rti(addr, val),
            Instruction::STY => cpu.sty(addr, val),
            Instruction::LSR => cpu.lsr(addr, val, addr_mode),
            _ => Ok(()),
        }
    }

    #[verifier::rlimit(60)]
    fn run_part2(&self, cpu: &mut CPU, addr: u16, val: u8, addr_mode: &AddressingMode) -> (r: Result<(), CpuError>)
        requires
            old(cpu).wf(),
            old(cpu).cycles <= usize::MAX - 2,
            *self == Instruction::BIT || *self == Instruction::CLV || *self == Instruction::DEX || *self == Instruction::INY || *self == Instruction::LDY || *self == Instruction::SEC || *self == Instruction::TAY || *self == Instruction::TYA || *self == Instruction::BCS || *self == Instruction::BPL || *self == Instruction::DEC || *self == Instruction::PHP || *self == Instruction::RTS || *self == Instruction::SAX || *self == Instruction::ROL,
        ensures
            final(cpu).wf(),
            final(cpu).cycles <= old(cpu).cycles + 2,
            (final(cpu)@, r) == old(cpu)@.run(*self, addr, val, *addr_mode),
    {
        reveal(CpuView::run);
        match self {
            Instruction::BIT => {
                cpu.bit(addr, val);
                Ok(())
            },
            Instruction::CLV => {
                cpu.clv(addr, val);
                Ok(())
            },
            Instruction::DEX => {
                cpu.dex(addr, val);
                Ok(())
            },
            Instruction::INY => {
                cpu.iny(addr, val);
                Ok(())
            },
            Instruction::LDY => {
                cpu.ldy(addr, val);
                Ok(())
            },
            Instruction::SEC => {
                cpu.sec(addr, val);
                Ok(())
            },
            Instruction::TAY => {
                cpu.tay(addr, val);
                Ok(())
            },
            Instruction::TYA => {
                cpu.tya(addr, val);
                Ok(())
            },
            Instruction::BCS => {
                cpu.bcs(addr, val);
                Ok(())
            },
            Instruction::BPL => {
                cpu.bpl(addr, val);
                Ok(())
            },
            Instruction::DEC => cpu.dec(addr, val),
            Instruction::PHP => cpu.php(addr, val),
            Instruction::RTS => cpu.rts(addr, val),
            Instruction::SAX => cpu.sax(addr, val),
            Instruction::ROL => cpu.rol(addr, val, addr_mode),
            _ => Ok(()),
        }
    }

    #[verifier::rlimit(60)]
    fn run_part3(&self, cpu: &mut CPU, addr: u16, val: u8, addr_mode: &AddressingMode) -> (r: Result<(), CpuError>)
        requires
            old(cpu).wf(),
            old(cpu).cycles <= usize::MAX - 2,
            *self == Instruction::CLC || *self == Instruction::CMP || *self == Instruction::DEY || *self == Instruction::JMP || *self == Instruction::NOP || *self == Instruction::SED || *self == Instruction::TSX || *self == Instruction::ANC || *self == Instruction::BEQ || *self == Instruction::BVC || *self == Instruction::INC || *self == Instruction::PLA || *self == Instruction::STA || *self == Instruction::DCP || *self == Instruction::ROR,
        ensures
            final(cpu).wf(),
            final(cpu).cycles <= old(cpu).cycles + 2,
            (final(cpu)@, r) == old(cpu)@.run(*self, addr, val, *addr_mode),
    {
        reveal(CpuView::run);
        match self {
            Instruction::CLC => {
                cpu.clc(addr, val);
                Ok(())
            },
            Instruction::CMP => {
                cpu.cmp(addr, val);
                Ok(())
            },
            Instruction::DEY => {
                cpu.dey(addr, val);
                Ok(())
            },
            Instruction::JMP => {
                cpu.jmp(addr, val);
                Ok(())
            },
            Instruction::NOP => {
                cpu.nop(addr, val);
                Ok(())
            },
            Instruction::SED => {
                cpu.sed(addr, val);
                Ok(())
            },
            Instruction::TSX => {
                cpu.tsx(addr, val);
                Ok(())
            },
            Instruction::ANC => {
                cpu.anc(addr, val);
                Ok(())
            },
            Instruction::BEQ => {
                cpu.beq(addr, val);
                Ok(())
            },
            Instruction::BVC => {
                cpu.bvc(addr, val);
                Ok(())
            },
            Instruction::INC => cpu.inc(addr, val),
            Instruction::PLA => cpu.pla(addr, val),
            Instruction::STA => cpu.sta(addr, val),
            Instruction::DCP => cpu.dcp(addr, val),
            Instruction::ROR => cpu.ror(addr, val, addr_mode),
            _ => Ok(()),
        }
    }
}

impl CPU {
    /// Fetches, decodes and executes one instruction.
    pub fn step(&mut self) -> (r: Result<(), CpuError>)
        requires
            old(self).wf(),
        ensures
            final(self).wf(),
            (final(self)@, r) == old(self)@.step(),
    {
        let pc = self.pc;
        let b = match self.mem.read(pc) {
            Ok(b) => b,
            Err(e) => return Err(CpuError::Bus(e)),
        };
        let Opcode(inst, mode, cycles, extra_cycles) = opcode(b);
        let n = match mode.n_bytes() {
            Some(n) => n,
            None => return Err(CpuError::UnsupportedMode { pc, opcode: b }),
        };
        let (addr, val, page_crossed) = match mode.get_data(self, pc) {
            Ok(d) => d,
            Err(e) => return Err(CpuError::Bus(e)),
        };
        self.finish(Opcode(inst, mode, cycles, extra_cycles), n, addr, val, page_crossed)
    }

    /// Adds an instruction's base cost, wrapping at the end of the scanline.
    fn charge_base(&mut self, k: u8)
        requires
            old(self).wf(),
        ensures
            final(self).wf(),
            final(self).cycles < PPU_DOTS_PER_SCANLINE,
            final(self)@ == old(self)@.base_tick(k as int),
    {
        proof {
            vstd::arithmetic::div_mod::lemma_add_mod_noop(
                self.cycles as int,
                k as int,
                PPU_DOTS_PER_SCANLINE as int,
            );
        }
        self.cycles = (self.cycles % PPU_DOTS_PER_SCANLINE + k as usize) % PPU_DOTS_PER_SCANLINE;
    }

    /// Adds `k` cycles on top of the counter.
    fn charge_extra(&mut self, k: u8)
        requires
            old(self).wf(),
            old(self).cycles <= usize::MAX - 255,
        ensures
            final(self).wf(),
            final(self)@ == old(self)@.tick(k as int),
    {
        self.cycles = self.cycles + k as usize;
    }

    #[verifier::rlimit(60)]
    fn finish(&mut self, op: Opcode, n: u16, addr: u16, val: u8, page_crossed: bool) -> (r: Result<(), CpuError>)
        requires
            old(self).wf(),
        ensures
            final(self).wf(),
            (final(self)@, r) == old(self)@.finish(op, n, addr, val, page_crossed),
    {
        let Opcode(inst, mode, cycles, extra_cycles) = op;
        self.pc = self.pc.wrapping_add(n);
        self.charge_base(cycles);
        let ghost s1 = self@;
        assert(s1 == (CpuView { pc: add16(old(self).pc, n as int), ..old(self)@.base_tick(op.2 as int) }));
        let res = inst.run(self, addr, val, &mode);
        let ghost s2 = self@;
        assert((s2, res) == s1.run(op.0, addr, val, op.1));
        if page_crossed && res.is_ok() {
            self.charge_extra(extra_cycles);
        }
        res
    }
}

} // verus!
