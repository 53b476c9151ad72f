//! The mathematical model of the whole machine and the meaning of every
//! instruction over it. Faults are values here: an access outside the address
//! map or an opcode with no table entry ends the computation with an error.

use crate::alu::{alu_spec, shift_spec};
use crate::instr::{decode_cb_spec, decode_spec, CbInstr, Cond, Instr, Operand, Pair, StackPair};
use crate::video::{tick_spec, VideoState};
use vstd::prelude::*;

verus! {

pub const ROM_BANK_SIZE: usize = 0x4000;

pub const WRAM_SIZE: usize = 0x2000;

pub const HRAM_SIZE: usize = 0x80;

/// Number of bytes that one OAM DMA transfer copies.
pub const DMA_LENGTH: usize = 160;

/// Address that selects the switchable ROM bank.
pub const BANK_SELECT: u16 = 0x2000;

/// Address whose write starts an OAM DMA transfer.
pub const DMA_TRIGGER: u16 = 0xff46;

/// Where execution continues when the frame interrupt is taken.
pub const INTERRUPT_VECTOR: u16 = 0x0040;

/// The CPU registers, flags and interrupt registers.
#[derive(Clone, Copy, Debug, PartialEq, Eq, Structural)]
pub struct Registers {
    pub a: u8,
    pub b: u8,
    pub c: u8,
    pub d: u8,
    pub e: u8,
    pub h: u8,
    pub l: u8,
    pub pc: u16,
    pub sp: u16,
    pub zero: bool,
    pub carry: bool,
    pub ime: bool,
    pub reg_if: u8,
    pub reg_ie: u8,
}

/// What kind of fault stopped execution.
#[derive(Clone, Copy, Debug, PartialEq, Eq, Structural)]
pub enum FaultKind {
    UnknownOpcode(u8),
    UnknownExtendedOpcode(u8),
    UnmappedRead(u16),
    UnmappedWrite(u16),
}

/// A fatal fault, with the address of the instruction that raised it.
#[derive(Clone, Copy, Debug, PartialEq, Eq, Structural)]
pub struct Fault {
    pub pc: u16,
    pub kind: FaultKind,
}

/// The whole machine: registers, ROM with the selected bank (its window
/// starts at `rom_bank * ROM_BANK_SIZE`), the two RAMs, the
/// timer byte and the display peripheral.
pub struct Machine {
    pub regs: Registers,
    pub rom: Seq<u8>,
    pub rom_bank: u8,
    pub wram: Seq<u8>,
    pub hram: Seq<u8>,
    pub timer: u8,
    pub video: VideoState,
}

impl Machine {
    pub open spec fn wf(self) -> bool {
        &&& self.wram.len() == WRAM_SIZE
        &&& self.hram.len() == HRAM_SIZE
        &&& self.video.wf()
    }
}

pub open spec fn set_regs(m: Machine, r: Registers) -> Machine {
    Machine { regs: r, ..m }
}

// ---- register pairs ----

pub open spec fn pair_value(r: Registers, p: Pair) -> u16 {
    match p {
        Pair::BC => (r.b * 256 + r.c) as u16,
        Pair::DE => (r.d * 256 + r.e) as u16,
        Pair::HL => (r.h * 256 + r.l) as u16,
        Pair::SP => r.sp,
    }
}

pub open spec fn hl_of(r: Registers) -> u16 {
    pair_value(r, Pair::HL)
}

pub open spec fn with_pair(r: Registers, p: Pair, v: u16) -> Registers {
    let hi = (v / 256) as u8;
    let lo = (v % 256) as u8;
    match p {
        Pair::BC => Registers { b: hi, c: lo, ..r },
        Pair::DE => Registers { d: hi, e: lo, ..r },
        Pair::HL => Registers { h: hi, l: lo, ..r },
        Pair::SP => Registers { sp: v, ..r },
    }
}

/// AF holds A in the low byte, `zero` in bit 8 and `carry` in bit 9.
pub open spec fn stack_pair_value(r: Registers, p: StackPair) -> u16 {
    match p {
        StackPair::BC => pair_value(r, Pair::BC),
        StackPair::DE => pair_value(r, Pair::DE),
        StackPair::HL => pair_value(r, Pair::HL),
        StackPair::AF => (r.a + (if r.zero { 0x100int } else { 0 }) + (if r.carry {
            0x200int
        } else {
            0
        })) as u16,
    }
}

pub open spec fn with_stack_pair(r: Registers, p: StackPair, v: u16) -> Registers {
    match p {
        StackPair::BC => with_pair(r, Pair::BC, v),
        StackPair::DE => with_pair(r, Pair::DE, v),
        StackPair::HL => with_pair(r, Pair::HL, v),
        StackPair::AF => Registers {
            a: (v % 256) as u8,
            zero: (v / 0x100) % 2 == 1,
            carry: (v / 0x200) % 2 == 1,
            ..r
        },
    }
}

pub open spec fn cond_holds(r: Registers, c: Cond) -> bool {
    match c {
        Cond::Always => true,
        Cond::NotZero => !r.zero,
        Cond::Zero => r.zero,
        Cond::NotCarry => !r.carry,
        Cond::Carry => r.carry,
    }
}

// ---- the address map ----

/// Addresses that a read may touch.
pub open spec fn readable(addr: u16) -> bool {
    ||| addr < 0xa000
    ||| 0xc000 <= addr < 0xe000
    ||| addr == 0xff00
    ||| addr == 0xff04
    ||| addr == 0xff0f
    ||| addr == 0xff25
    ||| addr == 0xff40
    ||| addr == 0xff41
    ||| addr == 0xff44
    ||| addr >= 0xff80
}

/// A ROM byte, or 0 past the end of the image.
pub open spec fn rom_byte(rom: Seq<u8>, i: int) -> u8 {
    if 0 <= i < rom.len() {
        rom[i]
    } else {
        0
    }
}

/// The byte that a read of a readable address returns.
pub open spec fn read_value(m: Machine, addr: u16) -> u8 {
    if addr < 0x4000 {
        rom_byte(m.rom, addr as int)
    } else if addr < 0x8000 {
        rom_byte(m.rom, addr - 0x4000 + m.rom_bank * ROM_BANK_SIZE)
    } else if addr < 0xa000 {
        m.video.vram[addr - 0x8000]
    } else if 0xc000 <= addr < 0xe000 {
        m.wram[addr - 0xc000]
    } else if addr == 0xff00 {
        0xff
    } else if addr == 0xff04 {
        m.timer
    } else if addr == 0xff0f {
        m.regs.reg_if
    } else if addr == 0xff40 {
        m.video.lcdc
    } else if addr == 0xff41 {
        m.video.stat
    } else if addr == 0xff44 {
        m.video.ly
    } else if 0xff80 <= addr < 0xffff {
        m.hram[addr - 0xff80]
    } else if addr == 0xffff {
        m.regs.reg_ie
    } else {
        0
    }
}

#[verifier::opaque]
pub open spec fn read_spec(m: Machine, addr: u16) -> Result<u8, FaultKind> {
    if readable(addr) {
        Ok(read_value(m, addr))
    } else {
        Err(FaultKind::UnmappedRead(addr))
    }
}

/// Known peripheral registers whose writes are accepted and dropped.
pub open spec fn ignored_write(addr: u16) -> bool {
    ||| addr == 0xff00
    ||| addr == 0xff01
    ||| addr == 0xff02
    ||| addr == 0xff06
    ||| addr == 0xff07
    ||| addr == 0xff10
    ||| addr == 0xff12
    ||| addr == 0xff14
    ||| addr == 0xff17
    ||| addr == 0xff19
    ||| addr == 0xff1a
    ||| addr == 0xff1c
    ||| addr == 0xff21
    ||| addr == 0xff23
    ||| addr == 0xff24
    ||| addr == 0xff25
    ||| addr == 0xff26
    ||| addr == 0xff42
    ||| addr == 0xff43
    ||| addr == 0xff47
    ||| addr == 0xff48
    ||| addr == 0xff49
    ||| addr == 0xff4a
    ||| addr == 0xff4b
}

/// Addresses that a write may touch.
pub open spec fn writable(addr: u16) -> bool {
    ||| addr == BANK_SELECT
    ||| 0x8000 <= addr < 0xa000
    ||| 0xc000 <= addr < 0xe000
    ||| 0xff80 <= addr
    ||| ignored_write(addr)
    ||| addr == 0xff0f
    ||| addr == 0xff40
    ||| addr == 0xff41
    ||| addr == DMA_TRIGGER
}

/// Source address of byte `n` of a DMA transfer started with `v`.
pub open spec fn dma_source(v: u8, n: int) -> u16 {
    (v * 256 + n) as u16
}

/// The first source address, from byte `n` on, that cannot be read.
pub open spec fn dma_fault(v: u8, n: int) -> Option<u16>
    decreases DMA_LENGTH - n,
{
    if n >= DMA_LENGTH {
        None
    } else if !readable(dma_source(v, n)) {
        Some(dma_source(v, n))
    } else {
        dma_fault(v, n + 1)
    }
}

/// OAM after a DMA transfer started with `v`: its first 160 bytes are the
/// source bytes in order, the rest is kept.
pub open spec fn dma_oam(m: Machine, v: u8) -> Seq<u8> {
    Seq::new(
        m.video.oam.len(),
        |i: int|
            if i < DMA_LENGTH {
                read_value(m, dma_source(v, i))
            } else {
                m.video.oam[i]
            },
    )
}

#[verifier::opaque]
pub open spec fn write_spec(m: Machine, addr: u16, v: u8) -> Result<Machine, FaultKind> {
    if addr == BANK_SELECT {
        Ok(Machine { rom_bank: v, ..m })
    } else if 0xc000 <= addr < 0xe000 {
        Ok(Machine { wram: m.wram.update(addr - 0xc000, v), ..m })
    } else if 0x8000 <= addr < 0xa000 {
        Ok(Machine { video: VideoState { vram: m.video.vram.update(addr - 0x8000, v), ..m.video }, ..m })
    } else if 0xff80 <= addr < 0xffff {
        Ok(Machine { hram: m.hram.update(addr - 0xff80, v), ..m })
    } else if ignored_write(addr) {
        Ok(m)
    } else if addr == 0xff0f {
        Ok(set_regs(m, Registers { reg_if: v, ..m.regs }))
    } else if addr == 0xff40 {
        Ok(Machine { video: VideoState { lcdc: v, ..m.video }, ..m })
    } else if addr == 0xff41 {
        Ok(Machine { video: VideoState { stat: v, ..m.video }, ..m })
    } else if addr == DMA_TRIGGER {
        match dma_fault(v, 0) {
            Some(a) => Err(FaultKind::UnmappedRead(a)),
            None => Ok(Machine { video: VideoState { oam: dma_oam(m, v), ..m.video }, ..m }),
        }
    } else if addr == 0xffff {
        Ok(set_regs(m, Registers { reg_ie: v, ..m.regs }))
    } else {
        Err(FaultKind::UnmappedWrite(addr))
    }
}

/// Little-endian 16-bit read.
pub open spec fn read16_spec(m: Machine, addr: u16) -> Result<u16, FaultKind> {
    match read_spec(m, addr) {
        Err(e) => Err(e),
        Ok(lo) => match read_spec(m, addr.wrapping_add(1)) {
            Err(e) => Err(e),
            Ok(hi) => Ok((lo + hi * 256) as u16),
        },
    }
}

/// Little-endian 16-bit write, low byte first.
pub open spec fn write16_spec(m: Machine, addr: u16, v: u16) -> Result<Machine, FaultKind> {
    match write_spec(m, addr, (v % 256) as u8) {
        Err(e) => Err(e),
        Ok(m1) => write_spec(m1, addr.wrapping_add(1), (v / 256) as u8),
    }
}

pub open spec fn fetch8_spec(m: Machine) -> Result<(Machine, u8), FaultKind> {
    match read_spec(m, m.regs.pc) {
        Err(e) => Err(e),
        Ok(b) => Ok((set_regs(m, Registers { pc: m.regs.pc.wrapping_add(1), ..m.regs }), b)),
    }
}

pub open spec fn fetch16_spec(m: Machine) -> Result<(Machine, u16), FaultKind> {
    match read16_spec(m, m.regs.pc) {
        Err(e) => Err(e),
        Ok(w) => Ok((set_regs(m, Registers { pc: m.regs.pc.wrapping_add(2), ..m.regs }), w)),
    }
}

/// Push: SP moves down by two, then the value is stored at the new SP.
pub open spec fn push_spec(m: Machine, v: u16) -> Result<Machine, FaultKind> {
    let sp = m.regs.sp.wrapping_sub(2);
    write16_spec(set_regs(m, Registers { sp, ..m.regs }), sp, v)
}

/// Pop: the value is loaded from SP, then SP moves up by two.
pub open spec fn pop_spec(m: Machine) -> Result<(Machine, u16), FaultKind> {
    match read16_spec(m, m.regs.sp) {
        Err(e) => Err(e),
        Ok(v) => Ok((set_regs(m, Registers { sp: m.regs.sp.wrapping_add(2), ..m.regs }), v)),
    }
}

pub open spec fn get_operand(m: Machine, o: Operand) -> Result<u8, FaultKind> {
    match o {
        Operand::B => Ok(m.regs.b),
        Operand::C => Ok(m.regs.c),
        Operand::D => Ok(m.regs.d),
        Operand::E => Ok(m.regs.e),
        Operand::H => Ok(m.regs.h),
        Operand::L => Ok(m.regs.l),
        Operand::HlInd => read_spec(m, hl_of(m.regs)),
        Operand::A => Ok(m.regs.a),
    }
}

pub open spec fn set_operand(m: Machine, o: Operand, v: u8) -> Result<Machine, FaultKind> {
    let r = m.regs;
    match o {
        Operand::B => Ok(set_regs(m, Registers { b: v, ..r })),
        Operand::C => Ok(set_regs(m, Registers { c: v, ..r })),
        Operand::D => Ok(set_regs(m, Registers { d: v, ..r })),
        Operand::E => Ok(set_regs(m, Registers { e: v, ..r })),
        Operand::H => Ok(set_regs(m, Registers { h: v, ..r })),
        Operand::L => Ok(set_regs(m, Registers { l: v, ..r })),
        Operand::HlInd => write_spec(m, hl_of(r), v),
        Operand::A => Ok(set_regs(m, Registers { a: v, ..r })),
    }
}

/// A with the result of `op`, and both flags as the operation sets them.
pub open spec fn apply_alu(r: Registers, op: crate::alu::AluOp, v: u8) -> Registers {
    let out = alu_spec(op, r.a, v, r.carry);
    Registers { a: out.value, zero: out.zero, carry: out.carry, ..r }
}

/// PC after a relative jump by the signed byte `off`.
pub open spec fn jr_target(pc: u16, off: u8) -> u16 {
    if off >= 128 {
        pc.wrapping_sub((256 - off) as u16)
    } else {
        pc.wrapping_add(off as u16)
    }
}

/// The mask of bit `b` of a byte.
pub open spec fn bit_mask(b: u8) -> u8 {
    1u8 << (b % 8)
}

// The instructions of the base table that read operands or touch memory,
// one function each, on the machine whose PC has moved past the opcode byte.

/// LD rr,d16
pub open spec fn ld_pair_imm_spec(m: Machine, p: Pair) -> Result<Machine, FaultKind> {
    match fetch16_spec(m) {
        Err(e) => Err(e),
        Ok((m1, v)) => Ok(set_regs(m1, with_pair(m1.regs, p, v))),
    }
}

/// INC r: `zero` follows the 8-bit result, `carry` is kept.
pub open spec fn inc_spec(m: Machine, o: Operand) -> Result<Machine, FaultKind> {
    let r = m.regs;
    match get_operand(m, o) {
        Err(e) => Err(e),
        Ok(v) => {
            let x = v.wrapping_add(1);
            set_operand(set_regs(m, Registers { zero: x == 0, ..r }), o, x)
        },
    }
}

/// DEC r: `zero` follows the 8-bit result, `carry` is kept.
pub open spec fn dec_spec(m: Machine, o: Operand) -> Result<Machine, FaultKind> {
    let r = m.regs;
    match get_operand(m, o) {
        Err(e) => Err(e),
        Ok(v) => {
            let x = v.wrapping_sub(1);
            set_operand(set_regs(m, Registers { zero: x == 0, ..r }), o, x)
        },
    }
}

/// LD r,d8
pub open spec fn ld_imm_spec(m: Machine, o: Operand) -> Result<Machine, FaultKind> {
    match fetch8_spec(m) {
        Err(e) => Err(e),
        Ok((m1, v)) => set_operand(m1, o, v),
    }
}

/// JR cc,e8: the operand is consumed whether or not the jump is taken.
pub open spec fn jr_spec(m: Machine, c: Cond) -> Result<Machine, FaultKind> {
    let r = m.regs;
    match fetch8_spec(m) {
        Err(e) => Err(e),
        Ok((m1, off)) => if cond_holds(r, c) {
            Ok(set_regs(m1, Registers { pc: jr_target(m1.regs.pc, off), ..m1.regs }))
        } else {
            Ok(m1)
        },
    }
}

/// LD A,(DE)
pub open spec fn ld_a_from_de_spec(m: Machine) -> Result<Machine, FaultKind> {
    let r = m.regs;
    match read_spec(m, pair_value(r, Pair::DE)) {
        Err(e) => Err(e),
        Ok(v) => Ok(set_regs(m, Registers { a: v, ..r })),
    }
}

/// LD (HL+),A
pub open spec fn ld_hl_inc_a_spec(m: Machine) -> Result<Machine, FaultKind> {
    let r = m.regs;
    match write_spec(m, hl_of(r), r.a) {
        Err(e) => Err(e),
        Ok(m1) => Ok(set_regs(m1, with_pair(m1.regs, Pair::HL, hl_of(r).wrapping_add(1)))),
    }
}

/// LD A,(HL+)
pub open spec fn ld_a_hl_inc_spec(m: Machine) -> Result<Machine, FaultKind> {
    let r = m.regs;
    match read_spec(m, hl_of(r)) {
        Err(e) => Err(e),
        Ok(v) => Ok(
            set_regs(m, with_pair(Registers { a: v, ..r }, Pair::HL, hl_of(r).wrapping_add(1))),
        ),
    }
}

/// LD A,(HL-)
pub open spec fn ld_a_hl_dec_spec(m: Machine) -> Result<Machine, FaultKind> {
    let r = m.regs;
    match read_spec(m, hl_of(r)) {
        Err(e) => Err(e),
        Ok(v) => Ok(
            set_regs(m, with_pair(Registers { a: v, ..r }, Pair::HL, hl_of(r).wrapping_sub(1))),
        ),
    }
}

/// LD r,r'
pub open spec fn ld_spec(m: Machine, dst: Operand, src: Operand) -> Result<Machine, FaultKind> {
    match get_operand(m, src) {
        Err(e) => Err(e),
        Ok(v) => set_operand(m, dst, v),
    }
}

/// ALU A,r
pub open spec fn alu_instr_spec(m: Machine, op: crate::alu::AluOp, o: Operand) -> Result<Machine, FaultKind> {
    let r = m.regs;
    match get_operand(m, o) {
        Err(e) => Err(e),
        Ok(v) => Ok(set_regs(m, apply_alu(r, op, v))),
    }
}

/// ALU A,d8
pub open spec fn alu_imm_spec(m: Machine, op: crate::alu::AluOp) -> Result<Machine, FaultKind> {
    match fetch8_spec(m) {
        Err(e) => Err(e),
        Ok((m1, v)) => Ok(set_regs(m1, apply_alu(m1.regs, op, v))),
    }
}

/// RET cc
pub open spec fn ret_spec(m: Machine, c: Cond) -> Result<Machine, FaultKind> {
    let r = m.regs;
    if cond_holds(r, c) {
        match pop_spec(m) {
            Err(e) => Err(e),
            Ok((m1, v)) => Ok(set_regs(m1, Registers { pc: v, ..m1.regs })),
        }
    } else {
        Ok(m)
    }
}

/// RETI: sets IME, then returns.
pub open spec fn reti_spec(m: Machine) -> Result<Machine, FaultKind> {
    let r = m.regs;
    match pop_spec(set_regs(m, Registers { ime: true, ..r })) {
        Err(e) => Err(e),
        Ok((m1, v)) => Ok(set_regs(m1, Registers { pc: v, ..m1.regs })),
    }
}

/// POP rr
pub open spec fn pop_pair_spec(m: Machine, p: StackPair) -> Result<Machine, FaultKind> {
    match pop_spec(m) {
        Err(e) => Err(e),
        Ok((m1, v)) => Ok(set_regs(m1, with_stack_pair(m1.regs, p, v))),
    }
}

/// JP cc,a16: the operand is consumed whether or not the jump is taken.
pub open spec fn jp_spec(m: Machine, c: Cond) -> Result<Machine, FaultKind> {
    let r = m.regs;
    match fetch16_spec(m) {
        Err(e) => Err(e),
        Ok((m1, t)) => if cond_holds(r, c) {
            Ok(set_regs(m1, Registers { pc: t, ..m1.regs }))
        } else {
            Ok(m1)
        },
    }
}

/// CALL cc,a16: the operand is consumed whether or not the call is taken; the pushed address is the one after the operand.
pub open spec fn call_spec(m: Machine, c: Cond) -> Result<Machine, FaultKind> {
    let r = m.regs;
    match fetch16_spec(m) {
        Err(e) => Err(e),
        Ok((m1, t)) => if cond_holds(r, c) {
            match push_spec(m1, m1.regs.pc) {
                Err(e) => Err(e),
                Ok(m2) => Ok(set_regs(m2, Registers { pc: t, ..m2.regs })),
            }
        } else {
            Ok(m1)
        },
    }
}

/// LDH (a8),A
pub open spec fn store_high_imm_spec(m: Machine) -> Result<Machine, FaultKind> {
    let r = m.regs;
    match fetch8_spec(m) {
        Err(e) => Err(e),
        Ok((m1, n)) => write_spec(m1, (0xff00 + n) as u16, r.a),
    }
}

/// LD (a16),A
pub open spec fn store_abs_spec(m: Machine) -> Result<Machine, FaultKind> {
    let r = m.regs;
    match fetch16_spec(m) {
        Err(e) => Err(e),
        Ok((m1, addr)) => write_spec(m1, addr, r.a),
    }
}

/// LDH A,(a8)
pub open spec fn load_high_imm_spec(m: Machine) -> Result<Machine, FaultKind> {
    match fetch8_spec(m) {
        Err(e) => Err(e),
        Ok((m1, n)) => match read_spec(m1, (0xff00 + n) as u16) {
            Err(e) => Err(e),
            Ok(v) => Ok(set_regs(m1, Registers { a: v, ..m1.regs })),
        },
    }
}

/// LD A,(a16)
pub open spec fn load_abs_spec(m: Machine) -> Result<Machine, FaultKind> {
    match fetch16_spec(m) {
        Err(e) => Err(e),
        Ok((m1, addr)) => match read_spec(m1, addr) {
            Err(e) => Err(e),
            Ok(v) => Ok(set_regs(m1, Registers { a: v, ..m1.regs })),
        },
    }
}

/// One base-table instruction, on the machine whose PC has moved past the
/// opcode byte.
#[verifier::opaque]
pub open spec fn exec_spec(m: Machine, i: Instr) -> Result<Machine, FaultKind> {
    let r = m.regs;
    match i {
        Instr::Nop | Instr::Prefix => Ok(m),
        Instr::LdPairImm(p) => ld_pair_imm_spec(m, p),
        Instr::AddHl(p) => Ok(
            set_regs(m, with_pair(r, Pair::HL, hl_of(r).wrapping_add(pair_value(r, p)))),
        ),
        Instr::IncPair(p) => Ok(set_regs(m, with_pair(r, p, pair_value(r, p).wrapping_add(1)))),
        Instr::DecPair(p) => Ok(set_regs(m, with_pair(r, p, pair_value(r, p).wrapping_sub(1)))),
        Instr::Inc(o) => inc_spec(m, o),
        Instr::Dec(o) => dec_spec(m, o),
        Instr::LdImm(o) => ld_imm_spec(m, o),
        Instr::Rlca => Ok(
            set_regs(m, Registers { a: ((r.a % 128) * 2 + r.a / 128) as u8, carry: r.a >= 128, ..r }),
        ),
        Instr::Cpl => Ok(set_regs(m, Registers { a: (255 - r.a) as u8, ..r })),
        Instr::Scf => Ok(set_regs(m, Registers { carry: true, ..r })),
        Instr::Ccf => Ok(set_regs(m, Registers { carry: !r.carry, ..r })),
        Instr::Jr(c) => jr_spec(m, c),
        Instr::LdAFromDe => ld_a_from_de_spec(m),
        Instr::LdHlIncA => ld_hl_inc_a_spec(m),
        Instr::LdAHlInc => ld_a_hl_inc_spec(m),
        Instr::LdAHlDec => ld_a_hl_dec_spec(m),
        Instr::Ld(dst, src) => ld_spec(m, dst, src),
        Instr::Alu(op, o) => alu_instr_spec(m, op, o),
        Instr::AluImm(op) => alu_imm_spec(m, op),
        Instr::Ret(c) => ret_spec(m, c),
        Instr::Reti => reti_spec(m),
        Instr::Pop(p) => pop_pair_spec(m, p),
        Instr::Push(p) => push_spec(m, stack_pair_value(r, p)),
        Instr::Jp(c) => jp_spec(m, c),
        Instr::Call(c) => call_spec(m, c),
        Instr::JpHl => Ok(set_regs(m, Registers { pc: hl_of(r), ..r })),
        Instr::StoreHighImm => store_high_imm_spec(m),
        Instr::StoreHighC => write_spec(m, (0xff00 + r.c) as u16, r.a),
        Instr::StoreAbs => store_abs_spec(m),
        Instr::LoadHighImm => load_high_imm_spec(m),
        Instr::LoadAbs => load_abs_spec(m),
        Instr::Di => Ok(set_regs(m, Registers { ime: false, ..r })),
        Instr::Ei => Ok(set_regs(m, Registers { ime: true, ..r })),
    }
}

/// One extended-table instruction, on the machine whose PC has moved past the
/// prefix and the second opcode byte.
#[verifier::opaque]
pub open spec fn exec_cb_spec(m: Machine, i: CbInstr) -> Result<Machine, FaultKind> {
    let r = m.regs;
    match i {
        CbInstr::Shift(op, o) => match get_operand(m, o) {
            Err(e) => Err(e),
            Ok(v) => {
                let out = shift_spec(op, v, r.carry);
                set_operand(set_regs(m, Registers { zero: out.zero, carry: out.carry, ..r }), o, out.value)
            },
        },
        CbInstr::TestBit(b, o) => match get_operand(m, o) {
            Err(e) => Err(e),
            Ok(v) => Ok(set_regs(m, Registers { zero: v & bit_mask(b) == 0, ..r })),
        },
        CbInstr::ResetBit(b, o) => match get_operand(m, o) {
            Err(e) => Err(e),
            Ok(v) => set_operand(m, o, v & !bit_mask(b)),
        },
        CbInstr::SetBit(b, o) => match get_operand(m, o) {
            Err(e) => Err(e),
            Ok(v) => set_operand(m, o, v | bit_mask(b)),
        },
    }
}

pub open spec fn at_pc(pc: u16, r: Result<Machine, FaultKind>) -> Result<Machine, Fault> {
    match r {
        Ok(m) => Ok(m),
        Err(kind) => Err(Fault { pc, kind }),
    }
}

/// Fetch, decode and execute the instruction at PC.
pub open spec fn instruction_spec(m: Machine) -> Result<Machine, Fault> {
    let pc = m.regs.pc;
    match fetch8_spec(m) {
        Err(kind) => Err(Fault { pc, kind }),
        Ok((m1, op)) => match decode_spec(op) {
            None => Err(Fault { pc, kind: FaultKind::UnknownOpcode(op) }),
            Some(Instr::Prefix) => match fetch8_spec(m1) {
                Err(kind) => Err(Fault { pc, kind }),
                Ok((m2, op2)) => match decode_cb_spec(op2) {
                    None => Err(Fault { pc, kind: FaultKind::UnknownExtendedOpcode(op2) }),
                    Some(ci) => at_pc(pc, exec_cb_spec(m2, ci)),
                },
            },
            Some(i) => at_pc(pc, exec_spec(m1, i)),
        },
    }
}

/// The peripheral tick; a frame-complete edge is moved into IF bit 0.
/// The flag says whether the edge came.
pub open spec fn tick_machine(m: Machine) -> (Machine, bool) {
    let v = tick_spec(m.video);
    if v.vblank_interrupt {
        let reg_if = if m.regs.reg_if % 2 == 0 {
            (m.regs.reg_if + 1) as u8
        } else {
            m.regs.reg_if
        };
        (
            Machine {
                video: VideoState { vblank_interrupt: false, ..v },
                regs: Registers { reg_if, ..m.regs },
                ..m
            },
            true,
        )
    } else {
        (Machine { video: v, ..m }, false)
    }
}

/// Whether the frame interrupt is taken now.
pub open spec fn interrupt_due(r: Registers) -> bool {
    r.ime && r.reg_if % 2 == 1 && r.reg_ie % 2 == 1
}

/// Taking the frame interrupt: clear IF bit 0 and IME, push PC, jump to the
/// vector.
pub open spec fn interrupt_spec(m: Machine) -> Result<Machine, FaultKind> {
    let r = m.regs;
    if interrupt_due(r) {
        match push_spec(set_regs(m, Registers { reg_if: (r.reg_if - 1) as u8, ime: false, ..r }), r.pc) {
            Err(e) => Err(e),
            Ok(m1) => Ok(set_regs(m1, Registers { pc: INTERRUPT_VECTOR, ..m1.regs })),
        }
    } else {
        Ok(m)
    }
}

/// One `step`: an instruction, a peripheral tick, then interrupt dispatch.
/// The flag says whether the peripheral completed a frame.
pub open spec fn step_spec(m: Machine) -> Result<(Machine, bool), Fault> {
    match instruction_spec(m) {
        Err(f) => Err(f),
        Ok(m1) => {
            let (m2, edge) = tick_machine(m1);
            match interrupt_spec(m2) {
                Err(kind) => Err(Fault { pc: m.regs.pc, kind }),
                Ok(m3) => Ok((m3, edge)),
            }
        },
    }
}

} // verus!
