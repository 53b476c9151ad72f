use not_so_gb::alu::{alu, shift, AluOp, ShiftOp};
use not_so_gb::{Fault, FaultKind, Video, CPU};

/// A 32 KiB image of zeros with `code` placed at the reset address.
fn rom_with(code: &[u8]) -> Vec<u8> {
    let mut rom = vec![0u8; 0x8000];
    rom[0x150..0x150 + code.len()].copy_from_slice(code);
    rom
}

#[test]
fn reset_state() {
    let cpu = CPU::new(rom_with(&[]));
    let r = cpu.registers();
    assert_eq!(r.pc, 0x0150);
    assert_eq!(r.sp, 0xffc0);
    assert!(r.zero && r.carry && r.ime);
    assert_eq!(r.a, 0);
    assert_eq!(cpu.video().lcdc, 0x80);
}

#[test]
fn alu_zero_flag_follows_result() {
    let r = alu(AluOp::Add, 0xff, 0x01, false);
    assert_eq!((r.value, r.zero, r.carry), (0x00, true, true));
    let r = alu(AluOp::Add, 0x00, 0x00, false);
    assert_eq!((r.value, r.zero, r.carry), (0x00, true, false));
    let r = alu(AluOp::Adc, 0xfe, 0x01, true);
    assert_eq!((r.value, r.zero, r.carry), (0x00, true, true));
    let r = alu(AluOp::Sub, 0x00, 0x01, false);
    assert_eq!((r.value, r.zero, r.carry), (0xff, false, true));
    let r = alu(AluOp::Sbc, 0x05, 0x04, true);
    assert_eq!((r.value, r.zero, r.carry), (0x00, true, false));
    let r = alu(AluOp::Sbc, 0x00, 0xff, true);
    assert_eq!((r.value, r.zero, r.carry), (0x00, true, true));
    let r = alu(AluOp::And, 0xf0, 0x0f, true);
    assert_eq!((r.value, r.zero, r.carry), (0x00, true, false));
    let r = alu(AluOp::Or, 0xf0, 0x0f, true);
    assert_eq!((r.value, r.zero, r.carry), (0xff, false, false));
    let r = alu(AluOp::Xor, 0xff, 0xff, false);
    assert_eq!((r.value, r.zero, r.carry), (0x00, true, false));
}

#[test]
fn compare_does_not_change_a() {
    let r = alu(AluOp::Cp, 0x10, 0x20, false);
    assert_eq!((r.value, r.zero, r.carry), (0x10, false, true));
    let r = alu(AluOp::Cp, 0x10, 0x10, false);
    assert_eq!((r.value, r.zero, r.carry), (0x10, true, false));
}

#[test]
fn rotates_and_shifts() {
    let r = shift(ShiftOp::Rl, 0x80, false);
    assert_eq!((r.value, r.zero, r.carry), (0x00, true, true));
    let r = shift(ShiftOp::Rl, 0x41, true);
    assert_eq!((r.value, r.zero, r.carry), (0x83, false, false));
    let r = shift(ShiftOp::Rr, 0x01, true);
    assert_eq!((r.value, r.zero, r.carry), (0x80, false, true));
    let r = shift(ShiftOp::Sla, 0xc1, false);
    assert_eq!((r.value, r.zero, r.carry), (0x82, false, true));
    let r = shift(ShiftOp::Sra, 0x81, false);
    assert_eq!((r.value, r.zero, r.carry), (0xc0, false, true));
    let r = shift(ShiftOp::Srl, 0x01, false);
    assert_eq!((r.value, r.zero, r.carry), (0x00, true, true));
    let r = shift(ShiftOp::Swap, 0x12, true);
    assert_eq!((r.value, r.zero, r.carry), (0x21, false, true));
    let r = shift(ShiftOp::Swap, 0x00, false);
    assert_eq!((r.value, r.zero, r.carry), (0x00, true, false));
}

#[test]
fn bank_switch_selects_window() {
    let mut rom = vec![0u8; 0x10000];
    rom[2 * 0x4000 + 5] = 0xab;
    rom[0x4000 + 5] = 0x11;
    let mut cpu = CPU::new(rom);
    assert_eq!(cpu.read_mem(0x4005), Ok(0x11));
    assert_eq!(cpu.write_mem(0x2000, 2), Ok(()));
    assert_eq!(cpu.read_mem(0x4005), Ok(0xab));
    // past the end of the image the window reads 0
    assert_eq!(cpu.write_mem(0x2000, 9), Ok(()));
    assert_eq!(cpu.read_mem(0x4005), Ok(0x00));
}

#[test]
fn push_then_pop_round_trips() {
    let mut cpu = CPU::new(rom_with(&[]));
    assert_eq!(cpu.push(0x1234), Ok(()));
    assert_eq!(cpu.registers().sp, 0xffbe);
    assert_eq!(cpu.read_mem(0xffbe), Ok(0x34));
    assert_eq!(cpu.read_mem(0xffbf), Ok(0x12));
    assert_eq!(cpu.pop(), Ok(0x1234));
    assert_eq!(cpu.registers().sp, 0xffc0);
}

#[test]
fn call_then_return() {
    let mut rom = rom_with(&[0xcd, 0x00, 0x02]);
    rom[0x200] = 0xc9;
    let mut cpu = CPU::new(rom);
    assert_eq!(cpu.step(), Ok(false));
    assert_eq!(cpu.registers().pc, 0x0200);
    assert_eq!(cpu.registers().sp, 0xffbe);
    assert_eq!(cpu.step(), Ok(false));
    assert_eq!(cpu.registers().pc, 0x0153);
    assert_eq!(cpu.registers().sp, 0xffc0);
}

#[test]
fn conditional_call_not_taken_skips_operand() {
    // INC A clears zero; CALL Z is then not taken
    let mut cpu = CPU::new(rom_with(&[0x3c, 0xcc, 0x00, 0x02]));
    cpu.step().unwrap();
    assert!(!cpu.registers().zero);
    cpu.step().unwrap();
    assert_eq!(cpu.registers().pc, 0x0154);
    assert_eq!(cpu.registers().sp, 0xffc0);
}

#[test]
fn relative_jump_backwards() {
    // XOR A sets zero; JR Z,-3 jumps back to the XOR
    let mut cpu = CPU::new(rom_with(&[0xaf, 0x28, 0xfd]));
    cpu.step().unwrap();
    assert!(cpu.registers().zero);
    cpu.step().unwrap();
    assert_eq!(cpu.registers().pc, 0x0150);
}

#[test]
fn frame_interrupt_is_dispatched() {
    // LD A,1; LDH (0xff),A enables bit 0 in IE; JR -2 spins
    let mut cpu = CPU::new(rom_with(&[0x3e, 0x01, 0xe0, 0xff, 0x18, 0xfe]));
    let mut frames = 0;
    for _ in 0..20000 {
        if cpu.step().unwrap() {
            frames += 1;
            break;
        }
    }
    assert_eq!(frames, 1);
    let r = cpu.registers();
    assert_eq!(r.pc, 0x0040);
    assert!(!r.ime);
    assert_eq!(r.reg_if & 0x01, 0);
    assert_eq!(r.sp, 0xffbe);
    assert_eq!(cpu.read_mem(0xffbe), Ok(0x54));
    assert_eq!(cpu.read_mem(0xffbf), Ok(0x01));
}

#[test]
fn interrupt_waits_for_ime() {
    // DI; LD A,1; LDH (0xff),A; JR -2
    let mut cpu = CPU::new(rom_with(&[0xf3, 0x3e, 0x01, 0xe0, 0xff, 0x18, 0xfe]));
    let mut edge = false;
    for _ in 0..20000 {
        if cpu.step().unwrap() {
            edge = true;
            break;
        }
    }
    assert!(edge);
    let r = cpu.registers();
    assert_eq!(r.pc, 0x0155);
    assert_eq!(r.reg_if & 0x01, 0x01);
}

#[test]
fn oam_dma_copies_160_bytes() {
    let mut cpu = CPU::new(rom_with(&[]));
    for i in 0..0x100u16 {
        cpu.write_mem(0xc000 + i, (i as u8) ^ 0x5a).unwrap();
    }
    assert_eq!(cpu.write_mem(0xff46, 0xc0), Ok(()));
    let oam = &cpu.video().oam;
    for i in 0..160usize {
        assert_eq!(oam[i], (i as u8) ^ 0x5a);
    }
    assert_eq!(oam[160], 0);
    assert_eq!(oam[255], 0);
}

#[test]
fn oam_dma_from_unmapped_source_faults() {
    let mut cpu = CPU::new(rom_with(&[]));
    assert_eq!(cpu.write_mem(0xff46, 0xa0), Err(FaultKind::UnmappedRead(0xa000)));
}

#[test]
fn unknown_opcode_faults() {
    let mut cpu = CPU::new(rom_with(&[0xd3]));
    assert_eq!(cpu.step(), Err(Fault { pc: 0x0150, kind: FaultKind::UnknownOpcode(0xd3) }));
}

#[test]
fn unknown_extended_opcode_faults() {
    let mut cpu = CPU::new(rom_with(&[0x00, 0xcb, 0x00]));
    cpu.step().unwrap();
    assert_eq!(
        cpu.step(),
        Err(Fault { pc: 0x0151, kind: FaultKind::UnknownExtendedOpcode(0x00) })
    );
}

#[test]
fn unmapped_accesses_fault() {
    let mut cpu = CPU::new(rom_with(&[]));
    assert_eq!(cpu.read_mem(0xa000), Err(FaultKind::UnmappedRead(0xa000)));
    assert_eq!(cpu.read_mem(0xfe00), Err(FaultKind::UnmappedRead(0xfe00)));
    assert_eq!(cpu.write_mem(0xfe00, 1), Err(FaultKind::UnmappedWrite(0xfe00)));
    assert_eq!(cpu.write_mem(0x0100, 1), Err(FaultKind::UnmappedWrite(0x0100)));
    // accepted and dropped
    assert_eq!(cpu.write_mem(0xff47, 1), Ok(()));
}

#[test]
fn load_from_unmapped_address_faults_in_step() {
    // LD A,(0xa000)
    let mut cpu = CPU::new(rom_with(&[0xfa, 0x00, 0xa0]));
    assert_eq!(cpu.step(), Err(Fault { pc: 0x0150, kind: FaultKind::UnmappedRead(0xa000) }));
}

#[test]
fn fixed_registers_read_back() {
    let mut cpu = CPU::new(rom_with(&[]));
    assert_eq!(cpu.read_mem(0xff00), Ok(0xff));
    cpu.set_timer(0x42);
    assert_eq!(cpu.read_mem(0xff04), Ok(0x42));
    assert_eq!(cpu.write_mem(0xff40, 0x91), Ok(()));
    assert_eq!(cpu.read_mem(0xff40), Ok(0x91));
    assert_eq!(cpu.write_mem(0xffff, 0x01), Ok(()));
    assert_eq!(cpu.read_mem(0xffff), Ok(0x01));
}

#[test]
fn store_through_hl_increments_hl() {
    // LD HL,0xc000; LD A,0x7f; LD (HL+),A
    let mut cpu = CPU::new(rom_with(&[0x21, 0x00, 0xc0, 0x3e, 0x7f, 0x22]));
    for _ in 0..3 {
        cpu.step().unwrap();
    }
    let r = cpu.registers();
    assert_eq!((r.h, r.l), (0xc0, 0x01));
    assert_eq!(cpu.read_mem(0xc000), Ok(0x7f));
}

#[test]
fn increment_through_hl_stores_result() {
    // LD HL,0xc000; INC (HL); INC (HL)
    let mut cpu = CPU::new(rom_with(&[0x21, 0x00, 0xc0, 0x34, 0x34]));
    for _ in 0..3 {
        cpu.step().unwrap();
    }
    assert_eq!(cpu.read_mem(0xc000), Ok(0x02));
    assert!(!cpu.registers().zero);
}

#[test]
fn push_and_pop_af_carry_flags() {
    // SCF; PUSH AF; XOR A; POP AF
    let mut cpu = CPU::new(rom_with(&[0x37, 0xf5, 0xaf, 0xf1]));
    cpu.step().unwrap();
    cpu.step().unwrap();
    cpu.step().unwrap();
    assert!(!cpu.registers().carry);
    cpu.step().unwrap();
    assert!(cpu.registers().carry);
}

#[test]
fn extended_bit_operations() {
    // LD A,0x00; SET 3,A (0xdf); BIT 3,A (0x5f); RES 0... A via 0x87
    let mut cpu = CPU::new(rom_with(&[0x3e, 0x01, 0xcb, 0xdf, 0xcb, 0x5f, 0xcb, 0x87]));
    cpu.step().unwrap();
    cpu.step().unwrap();
    assert_eq!(cpu.registers().a, 0x09);
    cpu.step().unwrap();
    assert!(!cpu.registers().zero);
    cpu.step().unwrap();
    assert_eq!(cpu.registers().a, 0x08);
}

#[test]
fn video_timing_advances_lines() {
    let mut v = Video::new();
    v.step();
    assert_eq!(v.stat & 0x03, 0x02);
    for _ in 0..20 {
        v.step();
    }
    assert_eq!(v.stat & 0x03, 0x03);
    for _ in 0..79 {
        v.step();
    }
    assert_eq!(v.ly, 1);
    assert!(!v.vblank_interrupt);
    for _ in 0..144 * 100 {
        v.step();
    }
    assert_eq!(v.ly, 145);
    assert!(v.vblank_interrupt);
}

#[test]
fn pixel_uses_tile_map_and_data() {
    let mut v = Video::new();
    assert!(!v.pixel_dark(0, 0));
    v.vram[0] = 0x01;
    assert!(!v.pixel_dark(0, 0));
    v.vram[1] = 0x01;
    assert!(v.pixel_dark(0, 0));
    assert!(!v.pixel_dark(1, 0));
}
