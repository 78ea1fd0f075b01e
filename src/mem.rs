use vstd::prelude::*;
use crate::error::MemError;
use crate::mapper::{Mapper2, Mapper2View, PRG_BANK_SIZE, SRAM_SIZE};
use crate::ppu::{ppu_reg, PPU, PPU_REGS};

verus! {

/// Size of the onboard RAM.
pub const RAM_SIZE: usize = 0x800;

/// A byte-addressed device on the processor's 16-bit bus.
pub trait Memory: Sized {
    /// The device's own well-formedness.
    spec fn ready(&self) -> bool;

    /// What a read of `address` returns.
    spec fn read_spec(&self, address: u16) -> Result<u8, MemError>;

    /// Whether `after` and `r` are the device and the result of writing `val`
    /// at `address` into `before`.
    spec fn write_spec(before: &Self, after: &Self, address: u16, val: u8, r: Result<u8, MemError>) -> bool;

    fn read(&mut self, address: u16) -> (r: Result<u8, MemError>)
        requires
            old(self).ready(),
        ensures
            final(self).ready(),
            *final(self) == *old(self),
            r == old(self).read_spec(address),
    ;

    fn write(&mut self, address: u16, val: u8) -> (r: Result<u8, MemError>)
        requires
            old(self).ready(),
        ensures
            final(self).ready(),
            Self::write_spec(old(self), final(self), address, val, r),
    ;
}

/// The bus contents as plain values.
pub struct MemView {
    pub ram: Seq<u8>,
    pub ppu: Seq<u8>,
    pub rom: Seq<u8>,
    pub mapper: Option<Mapper2View>,
}

impl MemView {
    pub open spec fn wf(self) -> bool {
        &&& self.ram.len() == RAM_SIZE
        &&& self.ppu.len() == PPU_REGS
        &&& (self.mapper matches Some(m) ==> m.sram.len() == SRAM_SIZE)
    }

    /// What a read of `address` returns.
    #[verifier::opaque]
    pub open spec fn read(self, address: u16) -> Result<u8, MemError> {
        if address <= 0x1fff {
            Ok(self.ram[address as int % RAM_SIZE as int])
        } else if address <= 0x3fff {
            Ok(self.ppu[ppu_reg(address)])
        } else if address <= 0x5fff {
            Ok(0)
        } else {
            match self.mapper {
                Some(m) => m.read(address),
                None => if address >= 0x8000 && self.rom.len() > 0 {
                    Ok(self.rom[(address as int - 0x8000) % self.rom.len() as int])
                } else {
                    Err(MemError::OutOfBounds(address))
                },
            }
        }
    }

    /// The bus after a write of `val` at `address`, and what the write returns.
    #[verifier::opaque]
    pub open spec fn write(self, address: u16, val: u8) -> (MemView, Result<u8, MemError>) {
        if address <= 0x1fff {
            (MemView { ram: self.ram.update(address as int % RAM_SIZE as int, val), ..self }, Ok(val))
        } else if address <= 0x3fff {
            (MemView { ppu: self.ppu.update(ppu_reg(address), val), ..self }, Ok(val))
        } else if address <= 0x5fff {
            (self, Err(MemError::OutOfBounds(address)))
        } else {
            match self.mapper {
                Some(m) => {
                    let (m2, r) = m.write(address, val);
                    (MemView { mapper: Some(m2), ..self }, r)
                },
                None => if address >= 0x8000 {
                    (self, Err(MemError::WriteToRom))
                } else {
                    (self, Err(MemError::OutOfBounds(address)))
                },
            }
        }
    }
}

/// The processor's bus: 2 KiB of RAM mirrored through 0x0000..0x1FFF, the
/// graphics coprocessor's registers through 0x2000..0x3FFF, and the cartridge
/// from 0x6000 on, through its adapter when one is installed and as a bare
/// program-ROM image otherwise.
pub struct NESMemory {
    pub ppu: PPU,
    pub ram: Vec<u8>,
    pub rom: Vec<u8>,
    pub mapper: Option<Mapper2>,
}

impl View for NESMemory {
    type V = MemView;

    open spec fn view(&self) -> MemView {
        MemView {
            ram: self.ram@,
            ppu: self.ppu.regs@,
            rom: self.rom@,
            mapper: match self.mapper {
                Some(m) => Some(m@),
                None => None,
            },
        }
    }
}

/// A copy of `v`.
fn copy_bytes(v: &Vec<u8>) -> (r: Vec<u8>)
    ensures
        r@ == v@,
{
    let mut out: Vec<u8> = Vec::new();
    let mut i: usize = 0;
    while i < v.len()
        invariant
            i <= v@.len(),
            out@ == v@.subrange(0, i as int),
        decreases v@.len() - i,
    {
        out.push(v[i]);
        proof {
            assert(v@.subrange(0, i + 1) =~= v@.subrange(0, i as int).push(v@[i as int]));
        }
        i = i + 1;
    }
    proof {
        assert(v@.subrange(0, v@.len() as int) =~= v@);
    }
    out
}

impl NESMemory {
    pub open spec fn wf(&self) -> bool {
        self@.wf()
    }

    pub fn new_nes_mem(ppu: PPU) -> (r: NESMemory)
        requires
            ppu.wf(),
        ensures
            r.wf(),
            r@.ram == Seq::new(RAM_SIZE as nat, |i: int| 0u8),
            r@.ppu == ppu.regs@,
            r@.rom == Seq::<u8>::empty(),
            r@.mapper is None,
    {
        let ram = vec![0u8; RAM_SIZE];
        proof {
            assert(ram@ =~= Seq::new(RAM_SIZE as nat, |i: int| 0u8));
        }
        NESMemory { ppu, ram, rom: Vec::new(), mapper: None }
    }

    /// Installs a bare program-ROM image.
    pub fn load_rom(&mut self, data: &Vec<u8>)
        requires
            old(self).wf(),
        ensures
            final(self).wf(),
            final(self)@ == (MemView { rom: data@, ..old(self)@ }),
    {
        self.rom = copy_bytes(data);
    }

    /// Installs a cartridge adapter, which from then on answers for
    /// 0x6000..0xFFFF.
    pub fn load_mapper(&mut self, mapper: Mapper2)
        requires
            old(self).wf(),
            mapper.wf(),
        ensures
            final(self).wf(),
            final(self)@ == (MemView { mapper: Some(mapper@), ..old(self)@ }),
    {
        self.mapper = Some(mapper);
    }

    pub fn read(&self, address: u16) -> (r: Result<u8, MemError>)
        requires
            self.wf(),
        ensures
            r == self@.read(address),
    {
        reveal(MemView::read);
        if address <= 0x1fff {
            Ok(self.ram[address as usize % RAM_SIZE])
        } else if address <= 0x3fff {
            Ok(self.ppu.read(address))
        } else if address <= 0x5fff {
            Ok(0)
        } else {
            match &self.mapper {
                Some(m) => m.read(address),
                None => {
                    if address >= 0x8000 && self.rom.len() > 0 {
                        Ok(self.rom[(address as usize - 0x8000) % self.rom.len()])
                    } else {
                        Err(MemError::OutOfBounds(address))
                    }
                },
            }
        }
    }

    pub fn write(&mut self, address: u16, val: u8) -> (r: Result<u8, MemError>)
        requires
            old(self).wf(),
        ensures
            final(self).wf(),
            (final(self)@, r) == old(self)@.write(address, val),
    {
        reveal(MemView::write);
        if address <= 0x1fff {
            self.ram.set(address as usize % RAM_SIZE, val);
            Ok(val)
        } else if address <= 0x3fff {
            self.ppu.write(address, val);
            Ok(val)
        } else if address <= 0x5fff {
            Err(MemError::OutOfBounds(address))
        } else {
            match &mut self.mapper {
                Some(m) => m.write(address, val),
                None => {
                    if address >= 0x8000 {
                        Err(MemError::WriteToRom)
                    } else {
                        Err(MemError::OutOfBounds(address))
                    }
                },
            }
        }
    }
}

impl Memory for NESMemory {
    open spec fn ready(&self) -> bool {
        self.wf()
    }

    open spec fn read_spec(&self, address: u16) -> Result<u8, MemError> {
        self@.read(address)
    }

    open spec fn write_spec(before: &Self, after: &Self, address: u16, val: u8, r: Result<u8, MemError>) -> bool {
        (after@, r) == before@.write(address, val)
    }

    fn read(&mut self, address: u16) -> (r: Result<u8, MemError>) {
        NESMemory::read(self, address)
    }

    fn write(&mut self, address: u16, val: u8) -> (r: Result<u8, MemError>) {
        NESMemory::write(self, address, val)
    }
}

impl Memory for Mapper2 {
    open spec fn ready(&self) -> bool {
        self.wf()
    }

    open spec fn read_spec(&self, address: u16) -> Result<u8, MemError> {
        self@.read(address)
    }

    open spec fn write_spec(before: &Self, after: &Self, address: u16, val: u8, r: Result<u8, MemError>) -> bool {
        (after@, r) == before@.write(address, val)
    }

    fn read(&mut self, address: u16) -> (r: Result<u8, MemError>) {
        Mapper2::read(self, address)
    }

    fn write(&mut self, address: u16, val: u8) -> (r: Result<u8, MemError>) {
        Mapper2::write(self, address, val)
    }
}

/// RAM is mirrored: a byte written anywhere in 0x0000..0x1FFF reads back at
/// every address of the range that agrees with it modulo 0x800.
pub proof fn lemma_ram_mirror(m: MemView, address: u16, other: u16, val: u8)
    requires
        m.wf(),
        address <= 0x1fff,
        other <= 0x1fff,
        address % 0x800 == other % 0x800,
    ensures
        m.write(address, val).1 == Ok::<u8, MemError>(val),
        m.write(address, val).0.read(other) == Ok::<u8, MemError>(val),
{
    reveal(MemView::write);
    reveal(MemView::read);
}

/// A write into 0x8000..0xFFFF fails as a write to ROM on a bare image, and
/// selects the switchable bank from the value's low nibble through a cartridge
/// adapter.
pub proof fn lemma_rom_write(m: MemView, address: u16, val: u8)
    requires
        address >= 0x8000,
    ensures
        m.mapper is None ==> m.write(address, val) == (m, Err::<u8, MemError>(MemError::WriteToRom)),
        m.mapper matches Some(c) ==> m.write(address, val) == (
            MemView { mapper: Some(Mapper2View { bank1: val & 0x0f, ..c }), ..m },
            Ok::<u8, MemError>(val),
        ),
{
    reveal(MemView::write);
}

/// Through a cartridge adapter, 0x8000 + k reads byte k of the selected
/// switchable bank.
pub proof fn lemma_bank_read(m: MemView, k: u16)
    requires
        m.mapper is Some,
        k < PRG_BANK_SIZE,
        m.mapper->0.bank1 as int * PRG_BANK_SIZE + k < m.mapper->0.prg.len(),
    ensures
        m.read((0x8000 + k) as u16) == Ok::<u8, MemError>(
            m.mapper->0.prg[m.mapper->0.bank1 as int * PRG_BANK_SIZE + k],
        ),
{
    reveal(MemView::read);
}

} // verus!
