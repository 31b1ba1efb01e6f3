use gbcore::cartridge::DynCartridge;
use gbcore::cpu::Cpu;
use gbcore::exec::exec_next;
use gbcore::mmu::MMU;
use gbcore::ops::{add8_carry, sub8_carry};
use gbcore::regs::Flag;
use gbcore::System;

fn rom_with(program: &[u8]) -> Vec<u8> {
    let mut rom = vec![0u8; 0x8000];
    rom[0x100..0x100 + program.len()].copy_from_slice(program);
    rom[0x147] = 0x00;
    rom
}

fn machine(program: &[u8]) -> (Cpu, MMU) {
    let mut mmu = MMU::new(DynCartridge::new(rom_with(program)).ok().unwrap());
    let mut cpu = Cpu::new();
    cpu.reset(&mut mmu);
    (cpu, mmu)
}

fn run(cpu: &mut Cpu, mmu: &mut MMU, n: usize) {
    for _ in 0..n {
        exec_next(cpu, mmu);
    }
}

fn flags(cpu: &Cpu) -> (bool, bool, bool, bool) {
    (
        cpu.regs.flag(Flag::Zero),
        cpu.regs.flag(Flag::Sub),
        cpu.regs.flag(Flag::HalfCarry),
        cpu.regs.flag(Flag::Carry),
    )
}

#[test]
fn post_boot_registers() {
    let (cpu, _) = machine(&[]);
    assert_eq!(cpu.regs.pc(), 0x0100);
    assert_eq!(cpu.regs.af(), 0x11B0);
    assert_eq!(cpu.regs.bc(), 0x0012);
    assert_eq!(cpu.regs.de(), 0x00D8);
    assert_eq!(cpu.regs.hl(), 0x014D);
    assert_eq!(cpu.regs.sp(), 0xFFFE);
}

#[test]
fn every_opcode_leaves_f_low_nibble_clear() {
    for op in 0..=255u8 {
        for operand in [0x00u8, 0x0F, 0x80, 0xFF].iter() {
            let (mut cpu, mut mmu) = machine(&[op, *operand, *operand]);
            cpu.regs.set_sp(0xDFF0);
            cpu.regs.set_hl(0xC010);
            cpu.regs.set_af(0x0FFF);
            assert_eq!(cpu.regs.f() & 0x0F, 0);
            exec_next(&mut cpu, &mut mmu);
            assert_eq!(cpu.regs.f() & 0x0F, 0, "opcode {:#04x}", op);
            let (mut cpu, mut mmu) = machine(&[0xCB, op]);
            cpu.regs.set_hl(0xC010);
            exec_next(&mut cpu, &mut mmu);
            assert_eq!(cpu.regs.f() & 0x0F, 0, "CB opcode {:#04x}", op);
        }
    }
}

#[test]
fn pop_af_masks_low_nibble() {
    // LD BC,0x12FF; PUSH BC; POP AF; PUSH AF; POP DE
    let (mut cpu, mut mmu) = machine(&[0x01, 0xFF, 0x12, 0xC5, 0xF1, 0xF5, 0xD1]);
    cpu.regs.set_sp(0xDFF0);
    run(&mut cpu, &mut mmu, 3);
    assert_eq!(cpu.regs.a, 0x12);
    assert_eq!(cpu.regs.f(), 0xF0);
    assert_eq!(cpu.regs.sp(), 0xDFF0);
    run(&mut cpu, &mut mmu, 2);
    assert_eq!(cpu.regs.de(), 0x12F0);
}

#[test]
fn eight_bit_carry_helpers() {
    assert_eq!(add8_carry(0x0F, 0x01), (0x10, true, false));
    assert_eq!(add8_carry(0xFF, 0x01), (0x00, true, true));
    assert_eq!(add8_carry(0x80, 0x80), (0x00, false, true));
    assert_eq!(add8_carry(0x12, 0x34), (0x46, false, false));
    assert_eq!(sub8_carry(0x10, 0x01), (0x0F, true, false));
    assert_eq!(sub8_carry(0x00, 0x01), (0xFF, true, true));
    assert_eq!(sub8_carry(0x3E, 0x3E), (0x00, false, false));
}

#[test]
fn adc_and_sbc_use_carry_in() {
    // SCF; LD A,0x0E; ADC A,0x01
    let (mut cpu, mut mmu) = machine(&[0x37, 0x3E, 0x0E, 0xCE, 0x01]);
    run(&mut cpu, &mut mmu, 3);
    assert_eq!(cpu.regs.a, 0x10);
    assert_eq!(flags(&cpu), (false, false, true, false));
    // SCF; LD A,0xFF; ADC A,0x00
    let (mut cpu, mut mmu) = machine(&[0x37, 0x3E, 0xFF, 0xCE, 0x00]);
    run(&mut cpu, &mut mmu, 3);
    assert_eq!(cpu.regs.a, 0x00);
    assert_eq!(flags(&cpu), (true, false, true, true));
    // SCF; LD A,0x10; SBC A,0x0F
    let (mut cpu, mut mmu) = machine(&[0x37, 0x3E, 0x10, 0xDE, 0x0F]);
    run(&mut cpu, &mut mmu, 3);
    assert_eq!(cpu.regs.a, 0x00);
    assert_eq!(flags(&cpu), (true, true, true, false));
    // SCF; LD A,0x00; SBC A,0x00
    let (mut cpu, mut mmu) = machine(&[0x37, 0x3E, 0x00, 0xDE, 0x00]);
    run(&mut cpu, &mut mmu, 3);
    assert_eq!(cpu.regs.a, 0xFF);
    assert_eq!(flags(&cpu), (false, true, true, true));
}

#[test]
fn logic_and_compare_flags() {
    // LD A,0xF0; AND 0x0F
    let (mut cpu, mut mmu) = machine(&[0x3E, 0xF0, 0xE6, 0x0F]);
    run(&mut cpu, &mut mmu, 2);
    assert_eq!((cpu.regs.a, flags(&cpu)), (0x00, (true, false, true, false)));
    // LD A,0xF0; OR 0x0F
    let (mut cpu, mut mmu) = machine(&[0x3E, 0xF0, 0xF6, 0x0F]);
    run(&mut cpu, &mut mmu, 2);
    assert_eq!((cpu.regs.a, flags(&cpu)), (0xFF, (false, false, false, false)));
    // LD A,0x42; CP 0x43
    let (mut cpu, mut mmu) = machine(&[0x3E, 0x42, 0xFE, 0x43]);
    run(&mut cpu, &mut mmu, 2);
    assert_eq!((cpu.regs.a, flags(&cpu)), (0x42, (false, true, true, true)));
}

#[test]
fn inc_dec_keep_carry() {
    // SCF; LD B,0x0F; INC B; DEC B
    let (mut cpu, mut mmu) = machine(&[0x37, 0x06, 0x0F, 0x04, 0x05]);
    run(&mut cpu, &mut mmu, 3);
    assert_eq!(cpu.regs.b, 0x10);
    assert_eq!(flags(&cpu), (false, false, true, true));
    run(&mut cpu, &mut mmu, 1);
    assert_eq!(cpu.regs.b, 0x0F);
    assert_eq!(flags(&cpu), (false, true, true, true));
}

#[test]
fn add_hl_flags() {
    // LD HL,0x0FFF; LD BC,0x0001; ADD HL,BC
    let (mut cpu, mut mmu) = machine(&[0x21, 0xFF, 0x0F, 0x01, 0x01, 0x00, 0x09]);
    run(&mut cpu, &mut mmu, 3);
    assert_eq!(cpu.regs.hl(), 0x1000);
    let (z, n, h, c) = flags(&cpu);
    assert_eq!((z, n, h, c), (true, false, true, false));
}

#[test]
fn cpl_twice_is_identity() {
    // LD A,0x5C; CPL; CPL
    let (mut cpu, mut mmu) = machine(&[0x3E, 0x5C, 0x2F, 0x2F]);
    run(&mut cpu, &mut mmu, 2);
    assert_eq!(cpu.regs.a, 0xA3);
    assert!(cpu.regs.flag(Flag::Sub) && cpu.regs.flag(Flag::HalfCarry));
    run(&mut cpu, &mut mmu, 1);
    assert_eq!(cpu.regs.a, 0x5C);
}

#[test]
fn swap_twice_is_identity() {
    // LD B,0xA5; SWAP B; SWAP B
    let (mut cpu, mut mmu) = machine(&[0x06, 0xA5, 0xCB, 0x30, 0xCB, 0x30]);
    run(&mut cpu, &mut mmu, 2);
    assert_eq!(cpu.regs.b, 0x5A);
    run(&mut cpu, &mut mmu, 1);
    assert_eq!(cpu.regs.b, 0xA5);
    // SWAP of zero sets Z.
    let (mut cpu, mut mmu) = machine(&[0x06, 0x00, 0xCB, 0x30]);
    run(&mut cpu, &mut mmu, 2);
    assert_eq!(flags(&cpu), (true, false, false, false));
}

#[test]
fn swap_and_rotations_on_hl_in_ram() {
    // LD HL,0xC080; LD (HL),0xA5; SWAP (HL); SWAP (HL)
    let (mut cpu, mut mmu) = machine(&[0x21, 0x80, 0xC0, 0x36, 0xA5, 0xCB, 0x36, 0xCB, 0x36]);
    run(&mut cpu, &mut mmu, 3);
    assert_eq!(mmu.read(0xC080), 0x5A);
    run(&mut cpu, &mut mmu, 1);
    assert_eq!(mmu.read(0xC080), 0xA5);
    // LD HL,0xFF90; LD (HL),0x81; SCF; RL (HL); RR (HL)
    let (mut cpu, mut mmu) = machine(&[0x21, 0x90, 0xFF, 0x36, 0x81, 0x37, 0xCB, 0x16, 0xCB, 0x1E]);
    run(&mut cpu, &mut mmu, 4);
    assert_eq!(mmu.read(0xFF90), 0x03);
    assert!(cpu.regs.flag(Flag::Carry));
    run(&mut cpu, &mut mmu, 1);
    assert_eq!(mmu.read(0xFF90), 0x81);
    assert!(cpu.regs.flag(Flag::Carry));
}

#[test]
fn rotations_undo_each_other() {
    // LD A,0x81; RLC A; RRC A
    let (mut cpu, mut mmu) = machine(&[0x3E, 0x81, 0xCB, 0x07, 0xCB, 0x0F]);
    run(&mut cpu, &mut mmu, 2);
    assert_eq!(cpu.regs.a, 0x03);
    assert!(cpu.regs.flag(Flag::Carry));
    run(&mut cpu, &mut mmu, 1);
    assert_eq!(cpu.regs.a, 0x81);
    // LD A,0x80; SCF; RL A; RR A: byte and carry come back.
    let (mut cpu, mut mmu) = machine(&[0x3E, 0x80, 0x37, 0xCB, 0x17, 0xCB, 0x1F]);
    run(&mut cpu, &mut mmu, 3);
    assert_eq!(cpu.regs.a, 0x01);
    assert!(cpu.regs.flag(Flag::Carry));
    run(&mut cpu, &mut mmu, 1);
    assert_eq!(cpu.regs.a, 0x80);
    assert!(cpu.regs.flag(Flag::Carry));
    // RLA clears Z even on a zero result: LD A,0x80; AND A; RLA
    let (mut cpu, mut mmu) = machine(&[0x3E, 0x80, 0xA7, 0x17]);
    run(&mut cpu, &mut mmu, 3);
    assert_eq!(cpu.regs.a, 0x00);
    assert_eq!(flags(&cpu), (false, false, false, true));
}

#[test]
fn shifts_and_bit_ops() {
    // LD C,0x81; SRA C; SRL C; SLA C
    let (mut cpu, mut mmu) = machine(&[0x0E, 0x81, 0xCB, 0x29, 0xCB, 0x39, 0xCB, 0x21]);
    run(&mut cpu, &mut mmu, 2);
    assert_eq!(cpu.regs.c, 0xC0);
    assert!(cpu.regs.flag(Flag::Carry));
    run(&mut cpu, &mut mmu, 1);
    assert_eq!(cpu.regs.c, 0x60);
    run(&mut cpu, &mut mmu, 1);
    assert_eq!(cpu.regs.c, 0xC0);
    // LD D,0x00; SET 3,D; BIT 3,D; RES 3,D; BIT 3,D
    let (mut cpu, mut mmu) = machine(&[0x16, 0x00, 0xCB, 0xDA, 0xCB, 0x5A, 0xCB, 0x9A, 0xCB, 0x5A]);
    run(&mut cpu, &mut mmu, 3);
    assert_eq!(cpu.regs.d, 0x08);
    assert!(!cpu.regs.flag(Flag::Zero));
    run(&mut cpu, &mut mmu, 2);
    assert_eq!(cpu.regs.d, 0x00);
    assert!(cpu.regs.flag(Flag::Zero) && cpu.regs.flag(Flag::HalfCarry));
}

#[test]
fn daa_after_bcd_addition_and_subtraction() {
    // LD A,0x45; ADD A,0x38; DAA
    let (mut cpu, mut mmu) = machine(&[0x3E, 0x45, 0xC6, 0x38, 0x27]);
    run(&mut cpu, &mut mmu, 3);
    assert_eq!(cpu.regs.a, 0x83);
    assert!(!cpu.regs.flag(Flag::Carry));
    // LD A,0x99; ADD A,0x01; DAA
    let (mut cpu, mut mmu) = machine(&[0x3E, 0x99, 0xC6, 0x01, 0x27]);
    run(&mut cpu, &mut mmu, 3);
    assert_eq!(cpu.regs.a, 0x00);
    assert!(cpu.regs.flag(Flag::Carry) && cpu.regs.flag(Flag::Zero));
    // LD A,0x42; SUB 0x13; DAA
    let (mut cpu, mut mmu) = machine(&[0x3E, 0x42, 0xD6, 0x13, 0x27]);
    run(&mut cpu, &mut mmu, 3);
    assert_eq!(cpu.regs.a, 0x29);
}

#[test]
fn memory_operands_and_hl_increment() {
    // LD HL,0xC000; LD A,0x77; LD (HL+),A; LD (HL-),A; LD A,(HL+)
    let (mut cpu, mut mmu) = machine(&[0x21, 0x00, 0xC0, 0x3E, 0x77, 0x22, 0x32, 0x2A]);
    run(&mut cpu, &mut mmu, 3);
    assert_eq!(mmu.read(0xC000), 0x77);
    assert_eq!(cpu.regs.hl(), 0xC001);
    run(&mut cpu, &mut mmu, 1);
    assert_eq!(mmu.read(0xC001), 0x77);
    assert_eq!(cpu.regs.hl(), 0xC000);
    // LDH (0x80),A; LD A,(0xFF80) via LD A,(nn)
    let (mut cpu, mut mmu) = machine(&[0x3E, 0x3C, 0xE0, 0x80, 0x3E, 0x00, 0xFA, 0x80, 0xFF]);
    run(&mut cpu, &mut mmu, 4);
    assert_eq!(cpu.regs.a, 0x3C);
    assert_eq!(cpu.regs.pc(), 0x0109);
}

#[test]
fn call_and_ret() {
    // CALL 0x0110 ... at 0x0110: RET
    let mut program = vec![0xCD, 0x10, 0x01];
    program.resize(0x10, 0x00);
    program.push(0xC9);
    let (mut cpu, mut mmu) = machine(&program);
    cpu.regs.set_sp(0xDFF0);
    run(&mut cpu, &mut mmu, 1);
    assert_eq!(cpu.regs.pc(), 0x0110);
    assert_eq!(cpu.regs.sp(), 0xDFEE);
    assert_eq!(mmu.read(0xDFEE), 0x03);
    assert_eq!(mmu.read(0xDFEF), 0x01);
    run(&mut cpu, &mut mmu, 1);
    assert_eq!(cpu.regs.pc(), 0x0103);
    assert_eq!(cpu.regs.sp(), 0xDFF0);
}

#[test]
fn ld_hl_sp_offset_flags() {
    // LD SP,0x00FF... via LD SP,nn; LD HL,SP+1
    let (mut cpu, mut mmu) = machine(&[0x31, 0xFF, 0x00, 0xF8, 0x01, 0xE8, 0xFF]);
    run(&mut cpu, &mut mmu, 2);
    assert_eq!(cpu.regs.hl(), 0x0100);
    assert_eq!(flags(&cpu), (false, false, true, true));
    // ADD SP,-1
    run(&mut cpu, &mut mmu, 1);
    assert_eq!(cpu.regs.sp(), 0x00FE);
}

#[test]
fn interrupt_dispatch() {
    // EI, then NOPs.
    let (mut cpu, mut mmu) = machine(&[0xFB, 0x00, 0x00]);
    cpu.regs.set_sp(0xDFF0);
    assert_eq!(cpu.tick(&mut mmu), 4);
    mmu.write(0xFFFF, 0b00110);
    mmu.write(0xFF0F, 0b00110);
    let t = cpu.tick(&mut mmu);
    assert_eq!(t, 8);
    // LCD STAT (bit 1) is served before Timer (bit 2).
    assert_eq!(cpu.regs.pc(), 0x0048);
    assert_eq!(mmu.read(0xFF0F), 0b00100);
    assert!(!cpu.i_master);
    assert_eq!(mmu.read(0xDFEF), 0x01);
    assert_eq!(mmu.read(0xDFEE), 0x01);
    // With IME clear, nothing more is served.
    assert_eq!(cpu.tick(&mut mmu), 4);
    assert_eq!(cpu.regs.pc(), 0x0049);
}

#[test]
fn halt_wakes_on_request_without_ime() {
    // HALT; INC A
    let (mut cpu, mut mmu) = machine(&[0x76, 0x3C]);
    cpu.tick(&mut mmu);
    assert!(cpu.halt);
    assert_eq!(cpu.tick(&mut mmu), 4);
    assert_eq!(cpu.regs.pc(), 0x0101);
    mmu.write(0xFF0F, 0b10000);
    cpu.tick(&mut mmu);
    assert!(!cpu.halt);
    assert_eq!(cpu.regs.a, 0x12);
    assert_eq!(cpu.regs.pc(), 0x0102);
}

#[test]
fn nop_jr_loop_runs_a_million_cycles() {
    let mut sys = System::new(DynCartridge::new(rom_with(&[0x00, 0x18, 0xFD])).ok().unwrap());
    let mut total: u64 = 0;
    let mut lines_seen = std::collections::HashSet::new();
    let mut ly = sys.mmu.read(0xFF44);
    let mut changes: Vec<u64> = vec![];
    while total < 1_000_000 {
        let t = sys.cpu.tick(&mut sys.mmu);
        sys.gpu.tick(&mut sys.mmu, t);
        sys.timers.tick(&mut sys.mmu, t);
        total += t as u64;
        if sys.mmu.read(0xFF44) != ly {
            ly = sys.mmu.read(0xFF44);
            changes.push(total);
        }
        let pc = sys.cpu.regs.pc();
        assert!((0x0100..=0x0102).contains(&pc), "pc {:#06x}", pc);
        lines_seen.insert(sys.mmu.read(0xFF44));
    }
    assert!(!sys.cpu.i_master);
    assert_eq!(sys.cpu.regs.sp(), 0xFFFE);
    // LY moves every 456 T-cycles, give or take the length of one instruction.
    for (k, c) in changes.iter().enumerate() {
        let due = changes[0] + 456 * k as u64;
        assert!(c + 12 >= due && *c <= due + 12, "change {} at {} (due {})", k, c, due);
    }
    assert_eq!(lines_seen.len(), 154);
    assert!(lines_seen.iter().all(|ly| *ly <= 153));
}

#[test]
fn add_then_halt() {
    let mut sys = System::new(DynCartridge::new(rom_with(&[0x3E, 0x05, 0xC6, 0x03, 0x76])).ok().unwrap());
    for _ in 0..3 {
        sys.step();
    }
    assert!(sys.cpu.halt);
    assert_eq!(sys.cpu.regs.a, 8);
    assert_eq!(sys.cpu.regs.f(), 0x00);
    let pc = sys.cpu.regs.pc();
    let ly = sys.mmu.read(0xFF44);
    let mut moved = false;
    for _ in 0..1000 {
        sys.step();
        assert_eq!(sys.cpu.regs.pc(), pc);
        assert_eq!(sys.cpu.regs.a, 8);
        moved |= sys.mmu.read(0xFF44) != ly;
    }
    assert!(moved);
}

#[test]
fn xor_dec_jr_z_falls_through() {
    let mut sys = System::new(DynCartridge::new(rom_with(&[0xAF, 0x3D, 0x28, 0xFD])).ok().unwrap());
    for _ in 0..3 {
        sys.step();
    }
    assert_eq!(sys.cpu.regs.a, 0xFF);
    assert_eq!(flags(&sys.cpu), (false, true, true, false));
    assert_eq!(sys.cpu.regs.pc(), 0x0104);
}

#[test]
fn mbc1_program_switches_bank() {
    // LD A,2; LD (0x2000),A; LD A,(0x4000); HALT
    let mut rom = vec![0u8; 0x10000];
    let program = [0x3E, 0x02, 0xEA, 0x00, 0x20, 0xFA, 0x00, 0x40, 0x76];
    rom[0x100..0x100 + program.len()].copy_from_slice(&program);
    rom[0x147] = 0x01;
    rom[0x148] = 0x01;
    rom[0x149] = 0x00;
    rom[0x4000] = 0x11;
    rom[0x8000] = 0xAB;
    let mut sys = System::new(DynCartridge::new(rom).ok().unwrap());
    for _ in 0..4 {
        sys.step();
    }
    assert!(sys.cpu.halt);
    assert_eq!(sys.cpu.regs.a, 0xAB);
}
