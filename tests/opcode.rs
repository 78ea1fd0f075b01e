use nes_core::cpu::CPU;
use nes_core::mem::NESMemory;
use nes_core::opcode::{opcode, AddressingMode, Instruction, Opcode};
use nes_core::ppu::PPU;

fn fresh_cpu() -> CPU {
    let ppu = PPU::new_nes_ppu();
    let mem = NESMemory::new_nes_mem(ppu);
    CPU::new_nes_cpu(mem)
}

#[test]
fn test_addr_mode_immediate() {
    let mut cpu = fresh_cpu();
    cpu.mem.write(0x0301, 0x42).unwrap();
    assert_eq!(AddressingMode::Immediate.get_data(&cpu, 0x0300), Ok((0x0301, 0x42, false)));
}

#[test]
fn table_entries() {
    assert_eq!(opcode(0xa9), Opcode(Instruction::LDA, AddressingMode::Immediate, 2, 0));
    assert_eq!(opcode(0xbd), Opcode(Instruction::LDA, AddressingMode::IndexedX, 4, 1));
    assert_eq!(opcode(0x6c), Opcode(Instruction::JMP, AddressingMode::Indirect, 5, 0));
    assert_eq!(opcode(0xa7), Opcode(Instruction::LAX, AddressingMode::ZeroPageAbsolute, 3, 0));
    assert_eq!(opcode(0x87), Opcode(Instruction::SAX, AddressingMode::ZeroPageAbsolute, 3, 0));
    assert_eq!(opcode(0xc7), Opcode(Instruction::DCP, AddressingMode::ZeroPageAbsolute, 5, 0));
    assert_eq!(opcode(0x02), Opcode(Instruction::Illegal, AddressingMode::Unknown, 0, 0));
}

#[test]
fn mode_lengths() {
    assert_eq!(AddressingMode::Implied.n_bytes(), Some(1));
    assert_eq!(AddressingMode::Accumulator.n_bytes(), Some(1));
    assert_eq!(AddressingMode::Immediate.n_bytes(), Some(2));
    assert_eq!(AddressingMode::Relative.n_bytes(), Some(2));
    assert_eq!(AddressingMode::Absolute.n_bytes(), Some(3));
    assert_eq!(AddressingMode::Unknown.n_bytes(), None);
}

#[test]
fn zero_page_indexed_wraps_in_page() {
    let mut cpu = fresh_cpu();
    cpu.mem.write(0x0301, 0xf0).unwrap();
    cpu.mem.write(0x0010, 0x33).unwrap();
    cpu.x = 0x20;
    assert_eq!(AddressingMode::ZeroPageIndexedX.get_data(&cpu, 0x0300), Ok((0x0010, 0x33, false)));
}

#[test]
fn absolute_indexed_reports_page_cross() {
    let mut cpu = fresh_cpu();
    cpu.mem.write(0x0301, 0xff).unwrap();
    cpu.mem.write(0x0302, 0x04).unwrap();
    cpu.mem.write(0x0500, 0x66).unwrap();
    cpu.y = 1;
    assert_eq!(AddressingMode::IndexedY.get_data(&cpu, 0x0300), Ok((0x0500, 0x66, true)));
    cpu.y = 0;
    assert_eq!(AddressingMode::IndexedY.get_data(&cpu, 0x0300), Ok((0x04ff, 0, false)));
}

#[test]
fn indirect_pointer_stays_in_page() {
    let mut cpu = fresh_cpu();
    cpu.mem.write(0x0301, 0xff).unwrap();
    cpu.mem.write(0x0302, 0x02).unwrap();
    cpu.mem.write(0x02ff, 0x34).unwrap();
    cpu.mem.write(0x0200, 0x12).unwrap();
    assert_eq!(AddressingMode::Indirect.get_data(&cpu, 0x0300), Ok((0x1234, 0, false)));
}

#[test]
fn indirect_indexed_modes() {
    let mut cpu = fresh_cpu();
    cpu.mem.write(0x0301, 0x10).unwrap();
    cpu.mem.write(0x0014, 0x00).unwrap();
    cpu.mem.write(0x0015, 0x06).unwrap();
    cpu.mem.write(0x0600, 0x77).unwrap();
    cpu.x = 4;
    assert_eq!(AddressingMode::PreIndexedIndirect.get_data(&cpu, 0x0300), Ok((0x0600, 0x77, false)));
    cpu.mem.write(0x0010, 0xff).unwrap();
    cpu.mem.write(0x0011, 0x05).unwrap();
    cpu.y = 1;
    assert_eq!(AddressingMode::PostIndexedIndirect.get_data(&cpu, 0x0300), Ok((0x0600, 0x77, true)));
}

#[test]
fn relative_target_after_instruction() {
    let mut cpu = fresh_cpu();
    cpu.mem.write(0x0301, 0x10).unwrap();
    assert_eq!(AddressingMode::Relative.get_data(&cpu, 0x0300), Ok((0x0312, 0, false)));
    cpu.mem.write(0x0301, 0x80).unwrap();
    assert_eq!(AddressingMode::Relative.get_data(&cpu, 0x0300), Ok((0x0282, 0, false)));
}

#[test]
fn instruction_bytes_for_trace() {
    let mut cpu = fresh_cpu();
    cpu.pc = 0x0300;
    cpu.mem.write(0x0300, 0xad).unwrap();
    cpu.mem.write(0x0301, 0x34).unwrap();
    cpu.mem.write(0x0302, 0x12).unwrap();
    assert_eq!(AddressingMode::Absolute.get_bytes(&cpu), Ok(vec![0xad, 0x34, 0x12]));
}
