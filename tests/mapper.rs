use nes_core::error::{MemError, StateError};
use nes_core::mapper::{Mapper2, MirrorMode};
use nes_core::mem::Memory;

fn sample_mapper() -> Mapper2 {
    let prg: Vec<u8> = (0..4 * 0x4000).map(|i| (i % 251) as u8).collect();
    let chr: Vec<u8> = (0..0x2000).map(|i| (i % 7) as u8).collect();
    Mapper2::new_mapper(prg, chr, 1, 4)
}

#[test]
fn new_mapper_initial_state() {
    let m = sample_mapper();
    assert_eq!(m.prg_bank1, 1);
    assert_eq!(m.prg_bank2, 3);
    assert_eq!(m.sram.len(), 0x2000);
    assert!(m.sram.iter().all(|b| *b == 0));
    assert_eq!(m.mirror_mode(), MirrorMode::Vertical);
    assert_eq!(MirrorMode::from_byte(0x08), MirrorMode::FourScreen);
    assert_eq!(MirrorMode::from_byte(0x00), MirrorMode::Horizontal);
}

#[test]
fn bank_reads() {
    let m = sample_mapper();
    for k in [0usize, 1, 0x100, 0x3fff] {
        assert_eq!(m.read(0x8000 + k as u16), Ok(m.prg_rom[0x4000 + k]));
        assert_eq!(m.read(0xc000 + k as u16), Ok(m.prg_rom[3 * 0x4000 + k]));
    }
}

#[test]
fn bank_switch_changes_window() {
    let mut m = sample_mapper();
    assert_eq!(m.write(0x8000, 0x32), Ok(0x32));
    assert_eq!(m.prg_bank1, 2);
    assert_eq!(m.read(0x8010), Ok(m.prg_rom[2 * 0x4000 + 0x10]));
    assert_eq!(m.prg_bank2, 3);
}

#[test]
fn bank_beyond_image_is_an_error() {
    let mut m = sample_mapper();
    m.write(0x9000, 0x0f).unwrap();
    assert_eq!(m.read(0x8000), Err(MemError::OutOfBounds(0x8000)));
}

#[test]
fn chr_and_sram_write_through() {
    let mut m = sample_mapper();
    assert_eq!(m.write(0x0010, 0x99), Ok(0x99));
    assert_eq!(m.read(0x0010), Ok(0x99));
    assert_eq!(m.write(0x7fff, 0x55), Ok(0x55));
    assert_eq!(m.read(0x7fff), Ok(0x55));
    assert_eq!(m.write(0x5000, 0x55), Ok(0));
    assert_eq!(m.read(0x5000), Ok(0));
}

#[test]
fn chr_beyond_image_is_an_error() {
    let mut m = Mapper2::new_mapper(vec![0; 0x4000], vec![0; 0x10], 0, 1);
    assert_eq!(m.read(0x0100), Err(MemError::OutOfBounds(0x0100)));
    assert_eq!(m.write(0x0100, 1), Err(MemError::OutOfBounds(0x0100)));
}

#[test]
fn memory_trait_reaches_mapper() {
    let mut m = sample_mapper();
    assert_eq!(Memory::write(&mut m, 0x6001, 3), Ok(3));
    assert_eq!(Memory::read(&mut m, 0x6001), Ok(3));
}

#[test]
fn save_load_round_trip() {
    let mut src = sample_mapper();
    src.write(0x8000, 0x02).unwrap();
    src.write(0x6123, 0xee).unwrap();
    let mut image = Vec::new();
    src.save(&mut image);
    assert_eq!(image.len(), 8 + 0x2000 + 8 + 4 * 0x4000 + 0x2000 + 2);

    let mut dst = Mapper2::new_mapper(vec![], vec![], 1, 1);
    assert_eq!(dst.load(&image), Ok(image.len()));
    assert_eq!(dst.chr_rom, src.chr_rom);
    assert_eq!(dst.prg_rom, src.prg_rom);
    assert_eq!(dst.sram, src.sram);
    assert_eq!(dst.prg_bank1, 2);
    assert_eq!(dst.prg_bank2, src.prg_bank2);
    assert_eq!(dst.mirror_mode(), src.mirror_mode());
}

#[test]
fn save_layout() {
    let m = Mapper2::new_mapper(vec![1, 2], vec![3], 0, 1);
    let mut image = Vec::new();
    m.save(&mut image);
    assert_eq!(&image[0..9], &[1, 0, 0, 0, 0, 0, 0, 0, 3]);
    assert_eq!(&image[9..19], &[2, 0, 0, 0, 0, 0, 0, 0, 1, 2]);
    assert_eq!(image[19 + 0x2000], 1);
    assert_eq!(image[20 + 0x2000], 0);
    assert_eq!(image.len(), 21 + 0x2000);
}

#[test]
fn truncated_image_is_rejected() {
    let src = sample_mapper();
    let mut image = Vec::new();
    src.save(&mut image);
    image.pop();
    let mut dst = Mapper2::new_mapper(vec![9], vec![9], 0, 1);
    assert_eq!(dst.load(&image), Err(StateError::Truncated));
    assert_eq!(dst.chr_rom, vec![9]);
    assert_eq!(dst.load(&vec![0xff; 8]), Err(StateError::Truncated));
}
