use nes_core::error::MemError;
use nes_core::mapper::Mapper2;
use nes_core::mem::{Memory, NESMemory};
use nes_core::ppu::PPU;

fn fresh_mem() -> NESMemory {
    let ppu = PPU::new_nes_ppu();
    NESMemory::new_nes_mem(ppu)
}

#[test]
fn test_read_write() {
    let mut mem = fresh_mem();

    // RAM
    assert_eq!(mem.read(0x1000), Ok(0));
    assert_eq!(mem.write(0x1000, 5), Ok(5));
    assert_eq!(mem.read(0x1000), Ok(5));

    // ROM
    mem.load_rom(&vec![0; 0x8000]);
    assert_eq!(mem.read(0x8000), Ok(0));
    assert_eq!(mem.read(0x8001), Ok(0));
    assert_eq!(mem.read(0xffff), Ok(0));
    assert_eq!(mem.write(0x8000, 1).map_err(|e| e.message()), Err("cannot write to ROM"));
    assert_eq!(mem.write(0xffff, 1).map_err(|e| e.message()), Err("cannot write to ROM"));
}

#[test]
fn test_load_rom() {
    let mut mem = fresh_mem();
    mem.load_rom(&vec![0; 0x8000]);
    assert_eq!(mem.read(0x8000), Ok(0));
    assert_eq!(mem.read(0xffff), Ok(0));
    mem.load_rom(&vec![1; 0x8000]);
    assert_eq!(mem.read(0x8000), Ok(1));
    assert_eq!(mem.read(0xffff), Ok(1));
}

#[test]
fn ram_is_mirrored() {
    let mut mem = fresh_mem();
    assert_eq!(mem.write(0x1000, 0x05), Ok(0x05));
    assert_eq!(mem.read(0x0800), Ok(0x05));
    assert_eq!(mem.read(0x0000), Ok(0x05));
    assert_eq!(mem.read(0x1800), Ok(0x05));
}

#[test]
fn ppu_registers_are_mirrored() {
    let mut mem = fresh_mem();
    assert_eq!(mem.write(0x2001, 0x1e), Ok(0x1e));
    assert_eq!(mem.read(0x2009), Ok(0x1e));
    assert_eq!(mem.read(0x3ff9), Ok(0x1e));
    assert_eq!(mem.read(0x2002), Ok(0));
}

#[test]
fn expansion_and_sram_without_cartridge() {
    let mut mem = fresh_mem();
    assert_eq!(mem.read(0x4000), Ok(0));
    assert_eq!(mem.write(0x4000, 1), Err(MemError::OutOfBounds(0x4000)));
    assert_eq!(mem.read(0x6000), Err(MemError::OutOfBounds(0x6000)));
    assert_eq!(mem.write(0x6000, 1).map_err(|e| e.message()), Err("out of bounds"));
}

#[test]
fn rom_read_without_image_is_an_error() {
    let mem = fresh_mem();
    assert_eq!(mem.read(0x8000), Err(MemError::OutOfBounds(0x8000)));
}

#[test]
fn small_rom_image_is_mirrored() {
    let mut mem = fresh_mem();
    let mut rom = vec![0u8; 0x4000];
    rom[3] = 0x77;
    mem.load_rom(&rom);
    assert_eq!(mem.read(0x8003), Ok(0x77));
    assert_eq!(mem.read(0xc003), Ok(0x77));
}

#[test]
fn rom_write_through_mapper_selects_bank() {
    let mut mem = fresh_mem();
    mem.load_rom(&vec![0; 0x8000]);
    assert_eq!(mem.write(0x8000, 1), Err(MemError::WriteToRom));
    assert_eq!(mem.write(0xffff, 1), Err(MemError::WriteToRom));

    let mut prg = vec![0u8; 4 * 0x4000];
    for bank in 0..4 {
        prg[bank * 0x4000] = bank as u8 + 0x10;
    }
    mem.load_mapper(Mapper2::new_mapper(prg, vec![0; 0x2000], 0, 4));
    assert_eq!(mem.read(0x8000), Ok(0x11));
    assert_eq!(mem.write(0x8000, 0x02), Ok(0x02));
    assert_eq!(mem.mapper.as_ref().unwrap().prg_bank1, 2);
    assert_eq!(mem.read(0x8000), Ok(0x12));
    assert_eq!(mem.write(0xffff, 0xf0), Ok(0xf0));
    assert_eq!(mem.mapper.as_ref().unwrap().prg_bank1, 0);
    assert_eq!(mem.read(0x8000), Ok(0x10));
    assert_eq!(mem.read(0xc000), Ok(0x13));
}

#[test]
fn sram_through_mapper() {
    let mut mem = fresh_mem();
    mem.load_mapper(Mapper2::new_mapper(vec![0; 0x8000], vec![0; 0x2000], 0, 2));
    assert_eq!(mem.write(0x6005, 0xab), Ok(0xab));
    assert_eq!(mem.read(0x6005), Ok(0xab));
    assert_eq!(mem.mapper.as_ref().unwrap().sram[5], 0xab);
}

#[test]
fn memory_trait_reaches_bus() {
    let mut mem = fresh_mem();
    assert_eq!(Memory::write(&mut mem, 0x0801, 0x3c), Ok(0x3c));
    assert_eq!(Memory::read(&mut mem, 0x0001), Ok(0x3c));
    assert_eq!(Memory::write(&mut mem, 0x8000, 1), Err(MemError::WriteToRom));
}
