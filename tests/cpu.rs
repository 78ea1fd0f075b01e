use nes_core::cpu::CPU;
use nes_core::error::CpuError;
use nes_core::mapper::Mapper2;
use nes_core::mem::NESMemory;
use nes_core::opcode::AddressingMode;
use nes_core::ppu::PPU;

fn fresh_cpu() -> CPU {
    let ppu = PPU::new_nes_ppu();
    let mem = NESMemory::new_nes_mem(ppu);
    CPU::new_nes_cpu(mem)
}

/// A processor whose cartridge holds `program` at 0x8000 and whose reset
/// vector points there.
fn cpu_with_program(program: &[u8]) -> CPU {
    let mut rom = vec![0u8; 0x8000];
    rom[..program.len()].copy_from_slice(program);
    rom[0x7ffc] = 0x00;
    rom[0x7ffd] = 0x80;
    let mut cpu = fresh_cpu();
    cpu.mem.load_rom(&rom);
    cpu.init().unwrap();
    cpu
}

#[test]
#[should_panic]
fn test_stack_pop_empty() {
    let mut cpu = fresh_cpu();
    let _ = cpu.stack_pop8().unwrap();
    assert!(false);
}

#[test]
#[should_panic]
fn test_stack_push_full() {
    let mut cpu = fresh_cpu();
    for _ in 0..255 {
        cpu.stack_push8(0xff).unwrap();
    }
    assert!(false);
}

#[test]
fn test_stack() {
    let mut cpu = fresh_cpu();

    cpu.stack_push8(0xff).unwrap();
    assert_eq!(cpu.sp, 0xfc);
    assert_eq!(cpu.mem.ram[0x0100 + (cpu.sp as usize) + 1], 0xff);

    cpu.stack_push16(0xdead).unwrap();
    assert_eq!(cpu.sp, 0xfa);
    assert_eq!(cpu.mem.ram[0x100 + (cpu.sp as usize) + 1], 0xad);
    assert_eq!(cpu.mem.ram[0x100 + (cpu.sp as usize) + 2], 0xde);

    let rv = cpu.stack_pop16().unwrap();
    assert_eq!(cpu.sp, 0xfc);
    assert_eq!(rv, 0xdead);

    let rv = cpu.stack_pop8().unwrap();
    assert_eq!(cpu.sp, 0xfd);
    assert_eq!(rv, 0xff);
}

#[test]
fn test_flags() {
    let mut cpu = fresh_cpu();

    assert_eq!(cpu.flags(), 0x00);

    cpu.set_flags(0x24);
    assert_eq!(cpu.flags(), 0x24);

    cpu.set_flags(0x00);
    assert_eq!(cpu.flags(), 0x00);

    cpu.c = true;
    assert_eq!(cpu.flags(), 0x01);
}

#[test]
fn flags_round_trip_every_byte() {
    let mut cpu = fresh_cpu();
    for v in 0..=255u8 {
        cpu.set_flags(v);
        assert_eq!(cpu.flags(), v);
    }
}

#[test]
fn flags_bit_order() {
    let mut cpu = fresh_cpu();
    cpu.set_flags(0x80);
    assert!(cpu.s && !cpu.c && !cpu.z && !cpu.v);
    cpu.set_flags(0x41);
    assert!(cpu.c && cpu.v && !cpu.s);
}

#[test]
fn push_pop_round_trip() {
    let mut cpu = fresh_cpu();
    cpu.stack_push8(0x42).unwrap();
    assert_eq!(cpu.stack_pop8(), Ok(0x42));
    assert_eq!(cpu.sp, 0xfd);
    cpu.stack_push16(0x1234).unwrap();
    assert_eq!(cpu.mem.ram[0x1fc], 0x34);
    assert_eq!(cpu.mem.ram[0x1fd], 0x12);
    assert_eq!(cpu.stack_pop16(), Ok(0x1234));
    assert_eq!(cpu.sp, 0xfd);
}

#[test]
fn stack_limits_are_errors() {
    let mut cpu = fresh_cpu();
    assert_eq!(cpu.stack_pop8(), Err(CpuError::StackUnderflow));
    assert_eq!(cpu.sp, 0xfd);
    cpu.sp = 0;
    assert_eq!(cpu.stack_push8(1), Err(CpuError::StackOverflow));
    assert_eq!(cpu.sp, 0);
}

#[test]
fn stack_wraps_when_asked() {
    let mut cpu = fresh_cpu();
    cpu.set_stack_wrapping(true);
    cpu.sp = 0;
    assert_eq!(cpu.stack_push8(7), Ok(()));
    assert_eq!(cpu.sp, 0xff);
    assert_eq!(cpu.mem.ram[0x100], 7);
    assert_eq!(cpu.stack_pop8(), Ok(7));
    assert_eq!(cpu.sp, 0);
}

#[test]
fn adc_signed_overflow() {
    let mut cpu = fresh_cpu();
    cpu.a = 0x50;
    cpu.c = false;
    cpu.adc(0, 0x50);
    assert_eq!(cpu.a, 0xa0);
    assert!(!cpu.c);
    assert!(cpu.v);
    assert!(cpu.s);
    assert!(!cpu.z);
}

#[test]
fn adc_carry_out() {
    let mut cpu = fresh_cpu();
    cpu.a = 0xff;
    cpu.c = true;
    cpu.adc(0, 0x01);
    assert_eq!(cpu.a, 0x01);
    assert!(cpu.c);
    assert!(!cpu.v);
    assert!(!cpu.z);
}

#[test]
fn sbc_with_carry_in() {
    let mut cpu = fresh_cpu();
    cpu.a = 0x50;
    cpu.c = true;
    cpu.sbc(0, 0xb0);
    assert_eq!(cpu.a, 0xa0);
    assert!(!cpu.c);
    assert!(cpu.v);
    assert!(cpu.s);
    assert!(!cpu.z);
}

#[test]
fn sbc_borrow() {
    let mut cpu = fresh_cpu();
    cpu.a = 0x05;
    cpu.c = false;
    cpu.sbc(0, 0x03);
    assert_eq!(cpu.a, 0x01);
    assert!(cpu.c);
    assert!(!cpu.v);
}

#[test]
fn branch_cycles_page_cross() {
    let mut cpu = fresh_cpu();
    cpu.pc = 0x00f0;
    cpu.c = false;
    cpu.bcc(0x0105, 0);
    assert_eq!(cpu.pc, 0x0105);
    assert_eq!(cpu.cycles, 2);

    let mut cpu = fresh_cpu();
    cpu.pc = 0x00f0;
    cpu.c = false;
    cpu.bcc(0x00f5, 0);
    assert_eq!(cpu.pc, 0x00f5);
    assert_eq!(cpu.cycles, 1);
}

#[test]
fn branch_not_taken_costs_nothing() {
    let mut cpu = fresh_cpu();
    cpu.pc = 0x00f0;
    cpu.z = false;
    cpu.beq(0x0105, 0);
    assert_eq!(cpu.pc, 0x00f0);
    assert_eq!(cpu.cycles, 0);
}

#[test]
fn compare_sets_carry() {
    let mut cpu = fresh_cpu();
    cpu.a = 0x10;
    cpu.cmp(0, 0x10);
    assert!(cpu.c && cpu.z && !cpu.s);
    cpu.cmp(0, 0x20);
    assert!(!cpu.c && !cpu.z && cpu.s);
    cpu.x = 3;
    cpu.cpx(0, 2);
    assert!(cpu.c && !cpu.z);
}

#[test]
fn shifts_write_accumulator_or_memory() {
    let mut cpu = fresh_cpu();
    cpu.a = 0x81;
    cpu.asl(0, 0x81, &AddressingMode::Accumulator).unwrap();
    assert_eq!(cpu.a, 0x02);
    assert!(cpu.c);
    cpu.lsr(0x10, 0x03, &AddressingMode::ZeroPageAbsolute).unwrap();
    assert_eq!(cpu.mem.ram[0x10], 0x01);
    assert!(cpu.c);
    cpu.c = true;
    cpu.ror(0, 0x02, &AddressingMode::Accumulator).unwrap();
    assert_eq!(cpu.a, 0x81);
    assert!(!cpu.c);
    cpu.c = true;
    cpu.rol(0, 0x80, &AddressingMode::Accumulator).unwrap();
    assert_eq!(cpu.a, 0x01);
    assert!(cpu.c);
}

#[test]
fn inc_dec_wrap() {
    let mut cpu = fresh_cpu();
    cpu.inc(0x20, 0xff).unwrap();
    assert_eq!(cpu.mem.ram[0x20], 0x00);
    assert!(cpu.z);
    cpu.dec(0x20, 0x00).unwrap();
    assert_eq!(cpu.mem.ram[0x20], 0xff);
    assert!(cpu.s);
    cpu.x = 0;
    cpu.dex(0, 0);
    assert_eq!(cpu.x, 0xff);
}

#[test]
fn dcp_decrements_then_compares() {
    let mut cpu = fresh_cpu();
    cpu.a = 0x10;
    cpu.dcp(0x30, 0x11).unwrap();
    assert_eq!(cpu.mem.ram[0x30], 0x10);
    assert!(cpu.c);
    assert!(cpu.z);
}

#[test]
fn lax_and_sax() {
    let mut cpu = fresh_cpu();
    cpu.lax(0, 0x8f);
    assert_eq!(cpu.a, 0x8f);
    assert_eq!(cpu.x, 0x8f);
    assert!(cpu.s);
    cpu.x = 0x0f;
    cpu.sax(0x40, 0).unwrap();
    assert_eq!(cpu.mem.ram[0x40], 0x0f);
}

#[test]
fn store_into_rom_fails_and_changes_nothing() {
    let mut cpu = fresh_cpu();
    cpu.a = 9;
    assert_eq!(
        cpu.sta(0x8000, 0),
        Err(CpuError::Bus(nes_core::error::MemError::WriteToRom))
    );
    assert_eq!(cpu.a, 9);
}

#[test]
fn jsr_rts_round_trip() {
    let mut cpu = fresh_cpu();
    cpu.pc = 0x1234;
    cpu.jsr(0x4000, 0).unwrap();
    assert_eq!(cpu.pc, 0x4000);
    assert_eq!(cpu.sp, 0xfb);
    assert_eq!(cpu.mem.ram[0x1fd], 0x12);
    assert_eq!(cpu.mem.ram[0x1fc], 0x33);
    cpu.rts(0, 0).unwrap();
    assert_eq!(cpu.pc, 0x1234);
    assert_eq!(cpu.sp, 0xfd);
}

#[test]
fn php_plp_masks_break() {
    let mut cpu = fresh_cpu();
    cpu.set_flags(0x01);
    cpu.php(0, 0).unwrap();
    assert_eq!(cpu.mem.ram[0x1fd], 0x11);
    cpu.set_flags(0x00);
    cpu.plp(0, 0).unwrap();
    assert_eq!(cpu.flags(), 0x21);
}

#[test]
fn init_reads_reset_vector() {
    let cpu = cpu_with_program(&[]);
    assert_eq!(cpu.pc, 0x8000);
    assert_eq!(cpu.flags(), 0x24);
}

#[test]
fn step_runs_a_program() {
    // LDA #$05; STA $10; LDX $10; INX; JMP $8000
    let mut cpu = cpu_with_program(&[0xa9, 0x05, 0x85, 0x10, 0xa6, 0x10, 0xe8, 0x4c, 0x00, 0x80]);
    cpu.step().unwrap();
    assert_eq!(cpu.a, 5);
    assert_eq!(cpu.pc, 0x8002);
    assert_eq!(cpu.cycles, 2);
    cpu.step().unwrap();
    assert_eq!(cpu.mem.ram[0x10], 5);
    assert_eq!(cpu.cycles, 5);
    cpu.step().unwrap();
    assert_eq!(cpu.x, 5);
    cpu.step().unwrap();
    assert_eq!(cpu.x, 6);
    cpu.step().unwrap();
    assert_eq!(cpu.pc, 0x8000);
}

#[test]
fn step_takes_branch_to_target() {
    // BNE +2 from 0x8000: the target is 0x8004.
    let mut cpu = cpu_with_program(&[0xd0, 0x02]);
    cpu.z = false;
    cpu.step().unwrap();
    assert_eq!(cpu.pc, 0x8004);
    assert_eq!(cpu.cycles, 3);
}

#[test]
fn step_branch_backwards() {
    // BNE -2 from 0x8000 lands on itself.
    let mut cpu = cpu_with_program(&[0xd0, 0xfe]);
    cpu.z = false;
    cpu.step().unwrap();
    assert_eq!(cpu.pc, 0x8000);
}

#[test]
fn step_page_cross_costs_extra() {
    // LDX #$01; LDA $80FF,X
    let mut cpu = cpu_with_program(&[0xa2, 0x01, 0xbd, 0xff, 0x80]);
    cpu.step().unwrap();
    cpu.step().unwrap();
    assert_eq!(cpu.cycles, 2 + 4 + 1);
}

#[test]
fn step_rejects_unassigned_opcode() {
    let mut cpu = cpu_with_program(&[0x02]);
    assert_eq!(
        cpu.step(),
        Err(CpuError::UnsupportedMode { pc: 0x8000, opcode: 0x02 })
    );
    assert_eq!(cpu.pc, 0x8000);
}

#[test]
fn branch_cycles_do_not_wrap() {
    let mut cpu = fresh_cpu();
    cpu.cycles = 340;
    cpu.pc = 0x10;
    cpu.c = false;
    cpu.bcc(0x20, 0);
    assert_eq!(cpu.cycles, 341);
    assert_eq!(cpu.ppu_dots(), 0);
}

#[test]
fn base_cost_wraps_but_page_cross_does_not() {
    // LDX #$01; ORA $80FF,X
    let mut cpu = cpu_with_program(&[0xa2, 0x01, 0x1d, 0xff, 0x80]);
    cpu.step().unwrap();
    cpu.cycles = 336;
    cpu.step().unwrap();
    assert_eq!(cpu.cycles, 341);
    cpu.cycles = 339;
    cpu.pc = 0x8000;
    cpu.step().unwrap();
    assert_eq!(cpu.cycles, 0);
}

#[test]
fn mapper_cartridge_on_bus() {
    let mut prg = vec![0u8; 0x8000];
    prg[0x4000 + 0x3ffc] = 0x00;
    prg[0x4000 + 0x3ffd] = 0xc0;
    let mapper = Mapper2::new_mapper(prg, vec![0u8; 0x2000], 0, 2);
    let mut cpu = fresh_cpu();
    cpu.mem.load_mapper(mapper);
    cpu.init().unwrap();
    assert_eq!(cpu.pc, 0xc000);
}
