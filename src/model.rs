use vstd::prelude::*;
use crate::error::CpuError;
use crate::mem::{MemView, RAM_SIZE};
use crate::opcode::{opcode_of, AddressingMode, Instruction, Opcode};

verus! {

/// Stack pointer at power-on; popping here means the stack is empty.
pub const STACK_INIT: u8 = 0xfd;

/// Dots in one scanline; the cycle counter runs modulo this.
pub const PPU_DOTS_PER_SCANLINE: usize = 341;

/// Flags value after power-on: interrupts disabled and the unused bit set.
pub const INIT_FLAGS: u8 = 0x24;

/// The little-endian 16-bit word of two bytes.
pub open spec fn word(lo: u8, hi: u8) -> u16 {
    (hi as int * 256 + lo as int) as u16
}

/// `a + k`, wrapping within the 16-bit address space.
pub open spec fn add16(a: u16, k: int) -> u16 {
    ((a as int + k) % 0x10000) as u16
}

/// Bit `k` of `v`.
pub open spec fn flag_bit(v: u8, k: u8) -> bool {
    (v >> k) & 1 == 1
}

/// The one-bit value of a flag placed at `mask`.
pub open spec fn flag_mask(f: bool, mask: u8) -> u8 {
    if f {
        mask
    } else {
        0
    }
}

/// The flags byte of eight flags, carry in bit 0 up to sign in bit 7.
pub open spec fn pack_flags(
    c: bool,
    z: bool,
    i: bool,
    d: bool,
    b: bool,
    u: bool,
    v: bool,
    s: bool,
) -> u8 {
    flag_mask(c, 0x01) | flag_mask(z, 0x02) | flag_mask(i, 0x04) | flag_mask(d, 0x08) | flag_mask(
        b,
        0x10,
    ) | flag_mask(u, 0x20) | flag_mask(v, 0x40) | flag_mask(s, 0x80)
}

/// Address of stack slot `sp` in the stack page.
pub open spec fn stack_addr(sp: u8) -> u16 {
    (0x100 + sp as int) as u16
}

/// The processor state as plain values.
pub struct CpuView {
    pub mem: MemView,
    pub a: u8,
    pub x: u8,
    pub y: u8,
    pub c: bool,
    pub z: bool,
    pub i: bool,
    pub d: bool,
    pub b: bool,
    pub u: bool,
    pub v: bool,
    pub s: bool,
    pub pc: u16,
    pub sp: u8,
    pub cycles: usize,
    pub stack_wraps: bool,
}

impl CpuView {
    pub open spec fn flags(self) -> u8 {
        pack_flags(self.c, self.z, self.i, self.d, self.b, self.u, self.v, self.s)
    }

    pub open spec fn set_flags(self, val: u8) -> CpuView {
        CpuView {
            c: flag_bit(val, 0),
            z: flag_bit(val, 1),
            i: flag_bit(val, 2),
            d: flag_bit(val, 3),
            b: flag_bit(val, 4),
            u: flag_bit(val, 5),
            v: flag_bit(val, 6),
            s: flag_bit(val, 7),
            ..self
        }
    }

    /// Sign and zero taken from a result byte.
    pub open spec fn sz(self, val: u8) -> CpuView {
        CpuView { s: val & 0x80 != 0, z: val == 0, ..self }
    }

    /// `next` (registers changed, memory as in `self`) with `val` stored at
    /// `address`; a failed store leaves `self` as it was.
    pub open spec fn store(self, next: CpuView, address: u16, val: u8) -> (CpuView, Result<(), CpuError>) {
        let (m, r) = self.mem.write(address, val);
        match r {
            Ok(_) => (CpuView { mem: m, ..next }, Ok(())),
            Err(e) => (self, Err(CpuError::Bus(e))),
        }
    }

    /// Adds `k` cycles to the counter.
    pub open spec fn tick(self, k: int) -> CpuView {
        CpuView { cycles: (self.cycles + k) as usize, ..self }
    }

    /// Adds an instruction's base cost, wrapping the counter at the end of
    /// the scanline.
    pub open spec fn base_tick(self, k: int) -> CpuView {
        CpuView { cycles: ((self.cycles + k) % PPU_DOTS_PER_SCANLINE as int) as usize, ..self }
    }

    pub open spec fn push8(self, val: u8) -> (CpuView, Result<(), CpuError>) {
        if self.sp == 0 && !self.stack_wraps {
            (self, Err(CpuError::StackOverflow))
        } else {
            (
                CpuView {
                    mem: self.mem.write(stack_addr(self.sp), val).0,
                    sp: ((self.sp as int - 1) % 256) as u8,
                    ..self
                },
                Ok(()),
            )
        }
    }

    pub open spec fn pop8(self) -> (CpuView, Result<u8, CpuError>) {
        if self.sp == STACK_INIT && !self.stack_wraps {
            (self, Err(CpuError::StackUnderflow))
        } else {
            let sp = ((self.sp as int + 1) % 256) as u8;
            (CpuView { sp, ..self }, Ok(self.mem.ram[stack_addr(sp) as int]))
        }
    }

    /// Pushes the high byte, then the low byte.
    pub open spec fn push16(self, val: u16) -> (CpuView, Result<(), CpuError>) {
        let (s1, r) = self.push8((val / 256) as u8);
        match r {
            Ok(_) => s1.push8((val % 256) as u8),
            Err(e) => (s1, Err(e)),
        }
    }

    /// Pops the low byte, then the high byte.
    pub open spec fn pop16(self) -> (CpuView, Result<u16, CpuError>) {
        let (s1, r1) = self.pop8();
        match r1 {
            Ok(lo) => {
                let (s2, r2) = s1.pop8();
                match r2 {
                    Ok(hi) => (s2, Ok(word(lo, hi))),
                    Err(e) => (s2, Err(e)),
                }
            },
            Err(e) => (s1, Err(e)),
        }
    }

    /// Power-on: the program counter from the reset vector, and the initial
    /// flags.
    pub open spec fn init(self) -> (CpuView, Result<(), CpuError>) {
        match (self.mem.read(0xfffc), self.mem.read(0xfffd)) {
            (Ok(lo), Ok(hi)) => (CpuView { pc: word(lo, hi), ..self }.set_flags(INIT_FLAGS), Ok(())),
            (Err(e), _) => (self, Err(CpuError::Bus(e))),
            (_, Err(e)) => (self, Err(CpuError::Bus(e))),
        }
    }

    pub open spec fn adc(self, val: u8) -> CpuView {
        let n = self.a as int + val as int + if self.c { 1int } else { 0 };
        let r = (n % 256) as u8;
        CpuView {
            a: r,
            c: n > 0xff,
            v: ((self.a ^ val) & 0x80 == 0) && ((self.a ^ r) & 0x80 != 0),
            ..self
        }.sz(r)
    }

    pub open spec fn sbc(self, val: u8) -> CpuView {
        let r = ((self.a as int - val as int - if self.c { 0int } else { 1 }) % 256) as u8;
        CpuView {
            a: r,
            c: r < 0x80,
            v: ((self.a ^ val) & 0x80 != 0) && ((self.a ^ r) & 0x80 != 0),
            ..self
        }.sz(r)
    }

    /// Carry when `reg >= val`; sign and zero from the wrapped difference.
    pub open spec fn compare(self, reg: u8, val: u8) -> CpuView {
        CpuView { c: reg >= val, ..self }.sz(((reg as int - val as int) % 256) as u8)
    }

    pub open spec fn bit(self, val: u8) -> CpuView {
        CpuView { s: val & 0x80 != 0, v: (val >> 6) & 1 == 1, z: self.a & val == 0, ..self }
    }

    /// A taken branch costs one cycle, two when the target is on another page.
    pub open spec fn branch(self, cond: bool, address: u16) -> CpuView {
        if cond {
            CpuView {
                pc: address,
                ..self.tick(if self.pc / 256 != address / 256 { 2 } else { 1 })
            }
        } else {
            self
        }
    }

    /// Shift/rotate write-back: `n` goes to the accumulator or to memory.
    pub open spec fn write_back(self, next: CpuView, address: u16, n: u8, mode: AddressingMode) -> (CpuView, Result<(), CpuError>) {
        if mode == AddressingMode::Accumulator {
            (CpuView { a: n, ..next }, Ok(()))
        } else {
            self.store(next, address, n)
        }
    }

    pub open spec fn asl(self, address: u16, val: u8, mode: AddressingMode) -> (CpuView, Result<(), CpuError>) {
        let n = ((val as int * 2) % 256) as u8;
        self.write_back(CpuView { c: val & 0x80 != 0, ..self }.sz(n), address, n, mode)
    }

    pub open spec fn lsr(self, address: u16, val: u8, mode: AddressingMode) -> (CpuView, Result<(), CpuError>) {
        let n = val / 2;
        self.write_back(CpuView { c: val & 0x01 == 1, ..self }.sz(n), address, n, mode)
    }

    pub open spec fn rol(self, address: u16, val: u8, mode: AddressingMode) -> (CpuView, Result<(), CpuError>) {
        let n = ((val as int * 2) % 256 + if self.c { 1int } else { 0 }) as u8;
        self.write_back(CpuView { c: val & 0x80 != 0, ..self }.sz(n), address, n, mode)
    }

    pub open spec fn ror(self, address: u16, val: u8, mode: AddressingMode) -> (CpuView, Result<(), CpuError>) {
        let n = (val / 2 + if self.c { 0x80int } else { 0 }) as u8;
        self.write_back(CpuView { c: val & 0x01 == 1, ..self }.sz(n), address, n, mode)
    }

    pub open spec fn dec(self, address: u16, val: u8) -> (CpuView, Result<(), CpuError>) {
        let n = ((val as int - 1) % 256) as u8;
        self.store(self.sz(n), address, n)
    }

    pub open spec fn inc(self, address: u16, val: u8) -> (CpuView, Result<(), CpuError>) {
        let n = ((val as int + 1) % 256) as u8;
        self.store(self.sz(n), address, n)
    }

    /// Decrement in memory, then compare the accumulator with the result.
    pub open spec fn dcp(self, address: u16, val: u8) -> (CpuView, Result<(), CpuError>) {
        let n = ((val as int - 1) % 256) as u8;
        self.store(self.compare(self.a, n), address, n)
    }

    pub open spec fn jsr(self, address: u16) -> (CpuView, Result<(), CpuError>) {
        let (s1, r) = self.push16(add16(self.pc, -1));
        match r {
            Ok(_) => (CpuView { pc: address, ..s1 }, Ok(())),
            Err(e) => (s1, Err(e)),
        }
    }

    pub open spec fn rts(self) -> (CpuView, Result<(), CpuError>) {
        let (s1, r) = self.pop16();
        match r {
            Ok(ret) => (CpuView { pc: add16(ret, 1), ..s1 }, Ok(())),
            Err(e) => (s1, Err(e)),
        }
    }

    /// Flags pulled from the stack drop the break bit and keep the unused bit.
    pub open spec fn pulled_flags(v: u8) -> u8 {
        v & 0xef | 0x20
    }

    pub open spec fn rti(self) -> (CpuView, Result<(), CpuError>) {
        let (s1, r1) = self.pop8();
        match r1 {
            Ok(p) => {
                let (s2, r2) = s1.set_flags(Self::pulled_flags(p)).pop16();
                match r2 {
                    Ok(ret) => (CpuView { pc: ret, ..s2 }, Ok(())),
                    Err(e) => (s2, Err(e)),
                }
            },
            Err(e) => (s1, Err(e)),
        }
    }

    pub open spec fn pla(self) -> (CpuView, Result<(), CpuError>) {
        let (s1, r) = self.pop8();
        match r {
            Ok(v) => (CpuView { a: v, ..s1 }.sz(v), Ok(())),
            Err(e) => (s1, Err(e)),
        }
    }

    pub open spec fn plp(self) -> (CpuView, Result<(), CpuError>) {
        let (s1, r) = self.pop8();
        match r {
            Ok(v) => (s1.set_flags(Self::pulled_flags(v)), Ok(())),
            Err(e) => (s1, Err(e)),
        }
    }

    /// Software interrupt: pushes the return address and the flags with the
    /// break bit, disables interrupts and jumps through the vector at 0xFFFE.
    pub open spec fn brk(self) -> (CpuView, Result<(), CpuError>) {
        let (s1, r1) = self.push16(add16(self.pc, 1));
        match r1 {
            Ok(_) => {
                let (s2, r2) = s1.push8(self.flags() | 0x10);
                match r2 {
                    Ok(_) => match (s2.mem.read(0xfffe), s2.mem.read(0xffff)) {
                        (Ok(lo), Ok(hi)) => (CpuView { pc: word(lo, hi), i: true, ..s2 }, Ok(())),
                        (Err(e), _) => (s2, Err(CpuError::Bus(e))),
                        (_, Err(e)) => (s2, Err(CpuError::Bus(e))),
                    },
                    Err(e) => (s2, Err(e)),
                }
            },
            Err(e) => (s1, Err(e)),
        }
    }

    /// What instruction `inst` does with its operand.
    #[verifier::opaque]
    pub open spec fn run(self, inst: Instruction, address: u16, val: u8, mode: AddressingMode) -> (CpuView, Result<(), CpuError>) {
        match inst {
            Instruction::ADC => (self.adc(val), Ok(())),
            Instruction::AND => (CpuView { a: self.a & val, ..self }.sz(self.a & val), Ok(())),
            Instruction::ASL => self.asl(address, val, mode),
            Instruction::BCC => (self.branch(!self.c, address), Ok(())),
            Instruction::BCS => (self.branch(self.c, address), Ok(())),
            Instruction::BEQ => (self.branch(self.z, address), Ok(())),
            Instruction::BIT => (self.bit(val), Ok(())),
            Instruction::BMI => (self.branch(self.s, address), Ok(())),
            Instruction::BNE => (self.branch(!self.z, address), Ok(())),
            Instruction::BPL => (self.branch(!self.s, address), Ok(())),
            Instruction::BRK => self.brk(),
            Instruction::BVC => (self.branch(!self.v, address), Ok(())),
            Instruction::BVS => (self.branch(self.v, address), Ok(())),
            Instruction::CLC => (CpuView { c: false, ..self }, Ok(())),
            Instruction::CLD => (CpuView { d: false, ..self }, Ok(())),
            Instruction::CLI => (CpuView { i: false, ..self }, Ok(())),
            Instruction::CLV => (CpuView { v: false, ..self }, Ok(())),
            Instruction::CMP => (self.compare(self.a, val), Ok(())),
            Instruction::CPX => (self.compare(self.x, val), Ok(())),
            Instruction::CPY => (self.compare(self.y, val), Ok(())),
            Instruction::DEC => self.dec(address, val),
            Instruction::DEX => {
                let n = ((self.x as int - 1) % 256) as u8;
                (CpuView { x: n, ..self }.sz(n), Ok(()))
            },
            Instruction::DEY => {
                let n = ((self.y as int - 1) % 256) as u8;
                (CpuView { y: n, ..self }.sz(n), Ok(()))
            },
            Instruction::EOR => (CpuView { a: self.a ^ val, ..self }.sz(self.a ^ val), Ok(())),
            Instruction::INC => self.inc(address, val),
            Instruction::INX => {
                let n = ((self.x as int + 1) % 256) as u8;
                (CpuView { x: n, ..self }.sz(n), Ok(()))
            },
            Instruction::INY => {
                let n = ((self.y as int + 1) % 256) as u8;
                (CpuView { y: n, ..self }.sz(n), Ok(()))
            },
            Instruction::JMP => (CpuView { pc: address, ..self }, Ok(())),
            Instruction::JSR => self.jsr(address),
            Instruction::LDA => (CpuView { a: val, ..self }.sz(val), Ok(())),
            Instruction::LDX => (CpuView { x: val, ..self }.sz(val), Ok(())),
            Instruction::LDY => (CpuView { y: val, ..self }.sz(val), Ok(())),
            Instruction::LSR => self.lsr(address, val, mode),
            Instruction::NOP => (self, Ok(())),
            Instruction::ORA => (CpuView { a: self.a | val, ..self }.sz(self.a | val), Ok(())),
            Instruction::PHA => self.push8(self.a),
            Instruction::PHP => self.push8(self.flags() | 0x10),
            Instruction::PLA => self.pla(),
            Instruction::PLP => self.plp(),
            Instruction::ROL => self.rol(address, val, mode),
            Instruction::ROR => self.ror(address, val, mode),
            Instruction::RTI => self.rti(),
            Instruction::RTS => self.rts(),
            Instruction::SBC => (self.sbc(val), Ok(())),
            Instruction::SEC => (CpuView { c: true, ..self }, Ok(())),
            Instruction::SED => (CpuView { d: true, ..self }, Ok(())),
            Instruction::SEI => (CpuView { i: true, ..self }, Ok(())),
            Instruction::STA => self.store(self, address, self.a),
            Instruction::STX => self.store(self, address, self.x),
            Instruction::STY => self.store(self, address, self.y),
            Instruction::TAX => (CpuView { x: self.a, ..self }.sz(self.a), Ok(())),
            Instruction::TAY => (CpuView { y: self.a, ..self }.sz(self.a), Ok(())),
            Instruction::TSX => (CpuView { x: self.sp, ..self }.sz(self.sp), Ok(())),
            Instruction::TXA => (CpuView { a: self.x, ..self }.sz(self.x), Ok(())),
            Instruction::TXS => (CpuView { sp: self.x, ..self }, Ok(())),
            Instruction::TYA => (CpuView { a: self.y, ..self }.sz(self.y), Ok(())),
            Instruction::LAX => (CpuView { a: val, x: val, ..self }.sz(val), Ok(())),
            Instruction::SAX => self.store(self, address, self.a & self.x),
            Instruction::DCP => self.dcp(address, val),
            Instruction::ANC | Instruction::Illegal => (self, Ok(())),
        }
    }

    /// Advances past a decoded instruction of `n` bytes, charges its base
    /// cycles (wrapping at the end of the scanline), runs it, and adds the
    /// page-crossing cycles on top.
    pub open spec fn finish(self, op: Opcode, n: u16, address: u16, val: u8, crossed: bool) -> (CpuView, Result<(), CpuError>) {
        let s1 = CpuView { pc: add16(self.pc, n as int), ..self.base_tick(op.2 as int) };
        let done = s1.run(op.0, address, val, op.1);
        if done.1 is Ok && crossed {
            (done.0.tick(op.3 as int), done.1)
        } else {
            done
        }
    }

    /// One fetch-decode-execute step. A failed fetch or decode changes
    /// nothing; a failing instruction leaves what its own semantics leave.
    pub open spec fn step(self) -> (CpuView, Result<(), CpuError>) {
        match self.mem.read(self.pc) {
            Err(e) => (self, Err(CpuError::Bus(e))),
            Ok(b) => {
                let op = opcode_of(b);
                match op.1.len() {
                    None => (self, Err(CpuError::UnsupportedMode { pc: self.pc, opcode: b })),
                    Some(n) => match op.1.operand(self, self.pc) {
                        Err(e) => (self, Err(CpuError::Bus(e))),
                        Ok((address, val, crossed)) => self.finish(op, n, address, val, crossed),
                    },
                }
            },
        }
    }
}

/// Packing the flags unpacked from any byte gives that byte back.
pub proof fn lemma_flags_round_trip(val: u8)
    ensures
        pack_flags(
            flag_bit(val, 0),
            flag_bit(val, 1),
            flag_bit(val, 2),
            flag_bit(val, 3),
            flag_bit(val, 4),
            flag_bit(val, 5),
            flag_bit(val, 6),
            flag_bit(val, 7),
        ) == val,
{
    assert((if (val >> 0u8) & 1 == 1 { 1u8 } else { 0u8 }) | (if (val >> 1u8) & 1 == 1 { 2u8 } else { 0u8 })
        | (if (val >> 2u8) & 1 == 1 { 4u8 } else { 0u8 }) | (if (val >> 3u8) & 1 == 1 { 8u8 } else { 0u8 })
        | (if (val >> 4u8) & 1 == 1 { 0x10u8 } else { 0u8 }) | (if (val >> 5u8) & 1 == 1 { 0x20u8 } else { 0u8 })
        | (if (val >> 6u8) & 1 == 1 { 0x40u8 } else { 0u8 }) | (if (val >> 7u8) & 1 == 1 { 0x80u8 } else { 0u8 })
        == val) by (bit_vector);
}

/// Unpacking the packed flags gives the same eight flags back.
pub proof fn lemma_flags_unpack_pack(s: CpuView)
    ensures
        s.set_flags(s.flags()) == s,
{
    let (c, z, i, d, b, u, v, n) = (s.c, s.z, s.i, s.d, s.b, s.u, s.v, s.s);
    let f = s.flags();
    assert(flag_bit(f, 0) == c && flag_bit(f, 1) == z && flag_bit(f, 2) == i && flag_bit(f, 3) == d
        && flag_bit(f, 4) == b && flag_bit(f, 5) == u && flag_bit(f, 6) == v && flag_bit(f, 7) == n) by (bit_vector)
        requires
            f == (if c { 1u8 } else { 0u8 }) | (if z { 2u8 } else { 0u8 }) | (if i { 4u8 } else { 0u8 })
                | (if d { 8u8 } else { 0u8 }) | (if b { 0x10u8 } else { 0u8 }) | (if u { 0x20u8 } else { 0u8 })
                | (if v { 0x40u8 } else { 0u8 }) | (if n { 0x80u8 } else { 0u8 }),
    ;
}

/// Pushing a byte and popping it again gives the byte back and restores the
/// stack pointer, everywhere inside the stack's working range.
pub proof fn lemma_push_pop8(st: CpuView, val: u8)
    requires
        st.mem.wf(),
        1 <= st.sp <= STACK_INIT,
    ensures
        st.push8(val).1 is Ok,
        st.push8(val).0.pop8().1 == Ok::<u8, CpuError>(val),
        st.push8(val).0.pop8().0.sp == st.sp,
{
    reveal(MemView::write);
    let s1 = st.push8(val).0;
    assert(s1.sp == st.sp - 1);
    assert(stack_addr(st.sp) as int % RAM_SIZE as int == stack_addr(st.sp) as int);
}

/// Pushing a 16-bit word and popping it again gives the word back and restores
/// the stack pointer; the low byte sits at the lower address.
pub proof fn lemma_push_pop16(st: CpuView, val: u16)
    requires
        st.mem.wf(),
        2 <= st.sp <= STACK_INIT,
    ensures
        st.push16(val).1 is Ok,
        st.push16(val).0.mem.ram[stack_addr((st.sp - 1) as u8) as int] == (val % 256) as u8,
        st.push16(val).0.mem.ram[stack_addr(st.sp) as int] == (val / 256) as u8,
        st.push16(val).0.pop16().1 == Ok::<u16, CpuError>(val),
        st.push16(val).0.pop16().0.sp == st.sp,
{
    reveal(MemView::write);
    let s1 = st.push8((val / 256) as u8).0;
    let s2 = s1.push8((val % 256) as u8).0;
    assert(s1.sp == st.sp - 1);
    assert(s2.sp == st.sp - 2);
    assert(s2 == st.push16(val).0);
    let p1 = s2.pop8().0;
    assert(p1.sp == st.sp - 1);
    assert(s2.pop8().1 == Ok::<u8, CpuError>((val % 256) as u8));
    assert(p1.pop8().1 == Ok::<u8, CpuError>((val / 256) as u8));
    assert(word((val % 256) as u8, (val / 256) as u8) == val);
}

/// With wrap-around off, popping at the power-on stack pointer and pushing at
/// pointer zero both fail.
pub proof fn lemma_stack_bounds(st: CpuView, val: u8)
    requires
        !st.stack_wraps,
    ensures
        st.sp == STACK_INIT ==> st.pop8() == (st, Err::<u8, CpuError>(CpuError::StackUnderflow)),
        st.sp == 0 ==> st.push8(val) == (st, Err::<(), CpuError>(CpuError::StackOverflow)),
{
}

} // verus!
