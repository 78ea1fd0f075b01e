use vstd::prelude::*;
use crate::codec::{decode_bytes, encode_bytes_spec, lemma_decode_encoded, push_encoded, read_encoded};
use crate::error::{MemError, StateError};

verus! {

/// Size of one switchable program-ROM bank.
pub const PRG_BANK_SIZE: usize = 16384;

/// Size of the battery-backed save RAM.
pub const SRAM_SIZE: usize = 0x2000;

/// Nametable mirroring that a cartridge selects.
#[derive(Clone, Copy, Debug, PartialEq, Eq, Structural)]
pub enum MirrorMode {
    Horizontal,
    Vertical,
    FourScreen,
}

/// Mirroring as the cartridge header's flags byte encodes it: bit 3 asks for
/// four-screen layout, otherwise bit 0 picks vertical over horizontal.
pub open spec fn mirror_mode_of(b: u8) -> MirrorMode {
    if b & 0x08 != 0 {
        MirrorMode::FourScreen
    } else if b & 0x01 != 0 {
        MirrorMode::Vertical
    } else {
        MirrorMode::Horizontal
    }
}

impl MirrorMode {
    pub fn from_byte(b: u8) -> (r: MirrorMode)
        ensures
            r == mirror_mode_of(b),
    {
        if b & 0x08 != 0 {
            MirrorMode::FourScreen
        } else if b & 0x01 != 0 {
            MirrorMode::Vertical
        } else {
            MirrorMode::Horizontal
        }
    }
}

/// The whole state of a bank-switching cartridge, as plain values.
pub struct Mapper2View {
    pub chr: Seq<u8>,
    pub prg: Seq<u8>,
    pub sram: Seq<u8>,
    pub bank1: u8,
    pub bank2: u8,
    pub mirror: MirrorMode,
}

/// Offset into program ROM of `address` (in a 16 KiB window starting at
/// `window`) when `bank` is mapped there.
pub open spec fn prg_offset(bank: u8, address: u16, window: int) -> int {
    bank as int * PRG_BANK_SIZE as int + (address as int - window)
}

impl Mapper2View {
    pub open spec fn read(self, address: u16) -> Result<u8, MemError> {
        if address <= 0x1fff {
            if (address as int) < self.chr.len() {
                Ok(self.chr[address as int])
            } else {
                Err(MemError::OutOfBounds(address))
            }
        } else if 0x6000 <= address <= 0x7fff {
            Ok(self.sram[address as int - 0x6000])
        } else if 0x8000 <= address <= 0xbfff {
            let i = prg_offset(self.bank1, address, 0x8000);
            if i < self.prg.len() {
                Ok(self.prg[i])
            } else {
                Err(MemError::OutOfBounds(address))
            }
        } else if 0xc000 <= address {
            let i = prg_offset(self.bank2, address, 0xc000);
            if i < self.prg.len() {
                Ok(self.prg[i])
            } else {
                Err(MemError::OutOfBounds(address))
            }
        } else {
            Ok(0)
        }
    }

    /// The cartridge after a write, and what the write returns.
    pub open spec fn write(self, address: u16, val: u8) -> (Mapper2View, Result<u8, MemError>) {
        if address <= 0x1fff {
            if (address as int) < self.chr.len() {
                (Mapper2View { chr: self.chr.update(address as int, val), ..self }, Ok(val))
            } else {
                (self, Err(MemError::OutOfBounds(address)))
            }
        } else if 0x6000 <= address <= 0x7fff {
            (Mapper2View { sram: self.sram.update(address as int - 0x6000, val), ..self }, Ok(val))
        } else if 0x8000 <= address {
            (Mapper2View { bank1: val & 0x0f, ..self }, Ok(val))
        } else {
            (self, Ok(0))
        }
    }

    /// The save-state image: length-prefixed character ROM, length-prefixed
    /// program ROM, the raw save RAM, then the two bank indices.
    pub open spec fn state_bytes(self) -> Seq<u8> {
        encode_bytes_spec(self.chr) + encode_bytes_spec(self.prg) + self.sram + seq![
            self.bank1,
            self.bank2,
        ]
    }

}

/// What a save-state stream decodes to, with the number of bytes it takes:
/// `None` where the stream is truncated.
pub open spec fn decode_state(s: Seq<u8>) -> Option<(Seq<u8>, Seq<u8>, Seq<u8>, u8, u8, int)> {
    match decode_bytes(s, 0) {
        Some((chr, p1)) => match decode_bytes(s, p1) {
            Some((prg, p2)) => if p2 + SRAM_SIZE + 2 <= s.len() {
                Some(
                    (
                        chr,
                        prg,
                        s.subrange(p2, p2 + SRAM_SIZE),
                        s[p2 + SRAM_SIZE],
                        s[p2 + SRAM_SIZE + 1],
                        p2 + SRAM_SIZE + 2,
                    ),
                )
            } else {
                None
            },
            None => None,
        },
        None => None,
    }
}

/// UxROM-style cartridge: a switchable 16 KiB program-ROM bank at 0x8000 and
/// the last bank fixed at 0xC000.
pub struct Mapper2 {
    pub chr_rom: Vec<u8>,
    pub prg_rom: Vec<u8>,
    pub sram: Vec<u8>,
    pub prg_bank1: u8,
    pub prg_bank2: u8,
    pub mirror_mode: MirrorMode,
}

impl View for Mapper2 {
    type V = Mapper2View;

    open spec fn view(&self) -> Mapper2View {
        Mapper2View {
            chr: self.chr_rom@,
            prg: self.prg_rom@,
            sram: self.sram@,
            bank1: self.prg_bank1,
            bank2: self.prg_bank2,
            mirror: self.mirror_mode,
        }
    }
}

impl Mapper2 {
    pub open spec fn wf(&self) -> bool {
        self.sram@.len() == SRAM_SIZE
    }

    pub fn new_mapper(rom: Vec<u8>, vrom: Vec<u8>, mirror_mode: u8, n_prg_banks: usize) -> (r: Self)
        requires
            1 <= n_prg_banks <= 256,
        ensures
            r.wf(),
            r@.chr == vrom@,
            r@.prg == rom@,
            r@.sram == Seq::new(SRAM_SIZE as nat, |i: int| 0u8),
            r@.bank1 == 1,
            r@.bank2 == n_prg_banks - 1,
            r@.mirror == mirror_mode_of(mirror_mode),
    {
        let sram = vec![0u8; SRAM_SIZE];
        proof {
            assert(sram@ =~= Seq::new(SRAM_SIZE as nat, |i: int| 0u8));
        }
        Mapper2 {
            chr_rom: vrom,
            prg_rom: rom,
            sram,
            prg_bank1: 1,
            prg_bank2: (n_prg_banks - 1) as u8,
            mirror_mode: MirrorMode::from_byte(mirror_mode),
        }
    }

    pub fn mirror_mode(&self) -> (r: MirrorMode)
        ensures
            r == self@.mirror,
    {
        self.mirror_mode
    }

    pub fn read(&self, address: u16) -> (r: Result<u8, MemError>)
        requires
            self.wf(),
        ensures
            r == self@.read(address),
    {
        if address <= 0x1fff {
            if (address as usize) < self.chr_rom.len() {
                Ok(self.chr_rom[address as usize])
            } else {
                Err(MemError::OutOfBounds(address))
            }
        } else if 0x6000 <= address && address <= 0x7fff {
            Ok(self.sram[address as usize - 0x6000])
        } else if 0x8000 <= address && address <= 0xbfff {
            let index = self.prg_bank1 as usize * PRG_BANK_SIZE + (address as usize - 0x8000);
            if index < self.prg_rom.len() {
                Ok(self.prg_rom[index])
            } else {
                Err(MemError::OutOfBounds(address))
            }
        } else if 0xc000 <= address {
            let index = self.prg_bank2 as usize * PRG_BANK_SIZE + (address as usize - 0xc000);
            if index < self.prg_rom.len() {
                Ok(self.prg_rom[index])
            } else {
                Err(MemError::OutOfBounds(address))
            }
        } else {
            Ok(0)
        }
    }

    pub fn write(&mut self, address: u16, val: u8) -> (r: Result<u8, MemError>)
        requires
            old(self).wf(),
        ensures
            final(self).wf(),
            (final(self)@, r) == old(self)@.write(address, val),
    {
        if address <= 0x1fff {
            if (address as usize) < self.chr_rom.len() {
                self.chr_rom.set(address as usize, val);
                Ok(val)
            } else {
                Err(MemError::OutOfBounds(address))
            }
        } else if 0x6000 <= address && address <= 0x7fff {
            self.sram.set(address as usize - 0x6000, val);
            Ok(val)
        } else if 0x8000 <= address {
            self.prg_bank1 = val & 0x0f;
            Ok(val)
        } else {
            Ok(0)
        }
    }

    /// Appends the save-state image to `output`.
    pub fn save(&self, output: &mut Vec<u8>)
        requires
            self.wf(),
        ensures
            final(output)@ == old(output)@ + self@.state_bytes(),
    {
        push_encoded(output, &self.chr_rom);
        push_encoded(output, &self.prg_rom);
        let ghost before_sram = output@;
        let mut i: usize = 0;
        while i < self.sram.len()
            invariant
                i <= self.sram@.len(),
                output@ == before_sram + self.sram@.subrange(0, i as int),
            decreases self.sram@.len() - i,
        {
            output.push(self.sram[i]);
            proof {
                assert(self.sram@.subrange(0, i + 1) =~= self.sram@.subrange(0, i as int).push(
                    self.sram@[i as int],
                ));
            }
            i = i + 1;
        }
        output.push(self.prg_bank1);
        output.push(self.prg_bank2);
        proof {
            assert(self.sram@.subrange(0, self.sram@.len() as int) =~= self.sram@);
            assert(final(output)@ =~= old(output)@ + self@.state_bytes());
        }
    }

    /// Restores every saved field from the image at the start of `input`, and
    /// returns how many bytes it took. A truncated image changes nothing.
    pub fn load(&mut self, input: &Vec<u8>) -> (r: Result<usize, StateError>)
        requires
            old(self).wf(),
        ensures
            final(self).wf(),
            match decode_state(input@) {
                Some((chr, prg, sram, b1, b2, n)) => r == Ok::<usize, StateError>(n as usize) && final(self)@ == (
                Mapper2View { chr, prg, sram, bank1: b1, bank2: b2, mirror: old(self)@.mirror }),
                None => r == Err::<usize, StateError>(StateError::Truncated) && final(self)@ == old(self)@,
            },
    {
        let (chr, p1) = match read_encoded(input, 0) {
            Some(d) => d,
            None => return Err(StateError::Truncated),
        };
        let (prg, p2) = match read_encoded(input, p1) {
            Some(d) => d,
            None => return Err(StateError::Truncated),
        };
        if input.len() - p2 < SRAM_SIZE + 2 {
            return Err(StateError::Truncated);
        }
        let sram_end = p2 + SRAM_SIZE;
        let mut sram: Vec<u8> = Vec::new();
        let mut i: usize = 0;
        while i < SRAM_SIZE
            invariant
                sram_end == p2 + SRAM_SIZE,
                sram_end + 2 <= input@.len(),
                i <= SRAM_SIZE,
                sram@ == input@.subrange(p2 as int, p2 + i),
            decreases SRAM_SIZE - i,
        {
            sram.push(input[p2 + i]);
            proof {
                assert(input@.subrange(p2 as int, p2 + i + 1) =~= input@.subrange(
                    p2 as int,
                    p2 + i,
                ).push(input@[p2 + i]));
            }
            i = i + 1;
        }
        self.chr_rom = chr;
        self.prg_rom = prg;
        self.sram = sram;
        self.prg_bank1 = input[p2 + SRAM_SIZE];
        self.prg_bank2 = input[p2 + SRAM_SIZE + 1];
        Ok(p2 + SRAM_SIZE + 2)
    }
}

proof fn lemma_decode_state_parts(s: Seq<u8>, chr: Seq<u8>, prg: Seq<u8>, p1: int, p2: int)
    requires
        decode_bytes(s, 0) == Some((chr, p1)),
        decode_bytes(s, p1) == Some((prg, p2)),
        p2 + SRAM_SIZE + 2 <= s.len(),
    ensures
        decode_state(s) == Some(
            (
                chr,
                prg,
                s.subrange(p2, p2 + SRAM_SIZE),
                s[p2 + SRAM_SIZE],
                s[p2 + SRAM_SIZE + 1],
                p2 + SRAM_SIZE + 2,
            ),
        ),
{
}

/// A save-state image decodes to the cartridge that wrote it, whatever
/// follows it in the stream; so loading what was saved restores every saved
/// field.
pub proof fn lemma_save_load_round_trip(m: Mapper2View, rest: Seq<u8>)
    requires
        m.sram.len() == SRAM_SIZE,
        m.chr.len() <= u64::MAX,
        m.prg.len() <= u64::MAX,
    ensures
        decode_state(m.state_bytes() + rest) == Some(
            (m.chr, m.prg, m.sram, m.bank1, m.bank2, m.state_bytes().len() as int),
        ),
        decode_state(m.state_bytes()) == Some(
            (m.chr, m.prg, m.sram, m.bank1, m.bank2, m.state_bytes().len() as int),
        ),
{
    lemma_save_load_prefix(m, rest);
    lemma_save_load_prefix(m, Seq::empty());
    assert(m.state_bytes() + Seq::<u8>::empty() =~= m.state_bytes());
}

proof fn lemma_save_load_prefix(m: Mapper2View, rest: Seq<u8>)
    requires
        m.sram.len() == SRAM_SIZE,
        m.chr.len() <= u64::MAX,
        m.prg.len() <= u64::MAX,
    ensures
        decode_state(m.state_bytes() + rest) == Some(
            (m.chr, m.prg, m.sram, m.bank1, m.bank2, m.state_bytes().len() as int),
        ),
{
    let s = m.state_bytes() + rest;
    let e1 = encode_bytes_spec(m.chr);
    let e2 = encode_bytes_spec(m.prg);
    let t2 = m.sram + seq![m.bank1, m.bank2] + rest;
    let t1 = e2 + t2;
    let p1 = e1.len() as int;
    let p2 = (e1.len() + e2.len()) as int;
    assert(decode_bytes(s, 0) == Some((m.chr, p1))) by {
        assert(s =~= Seq::<u8>::empty() + e1 + t1);
        lemma_decode_encoded(Seq::empty(), m.chr, t1);
    }
    assert(decode_bytes(s, p1) == Some((m.prg, p2))) by {
        assert(s =~= e1 + e2 + t2);
        lemma_decode_encoded(e1, m.prg, t2);
    }
    assert(s.len() == p2 + SRAM_SIZE + 2 + rest.len());
    assert(s.subrange(p2, p2 + SRAM_SIZE) =~= m.sram) by {
        assert(s =~= (e1 + e2) + t2);
    }
    assert(s[p2 + SRAM_SIZE] == m.bank1 && s[p2 + SRAM_SIZE + 1] == m.bank2) by {
        assert(s =~= (e1 + e2) + t2);
    }
    lemma_decode_state_parts(s, m.chr, m.prg, p1, p2);
}

} // verus!
