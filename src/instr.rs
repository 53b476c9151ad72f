//! The two opcode tables: each byte is decoded into an instruction
//! descriptor, or into nothing when the table has no entry for it.

use crate::alu::{AluOp, ShiftOp};
use vstd::prelude::*;

verus! {

/// The addressable 8-bit operands; `HlInd` is the byte at address HL.
#[derive(Clone, Copy, Debug, PartialEq, Eq, Structural)]
pub enum Operand {
    B,
    C,
    D,
    E,
    H,
    L,
    HlInd,
    A,
}

/// Register pairs of the 16-bit loads and arithmetic.
#[derive(Clone, Copy, Debug, PartialEq, Eq, Structural)]
pub enum Pair {
    BC,
    DE,
    HL,
    SP,
}

/// Register pairs that push and pop move.
#[derive(Clone, Copy, Debug, PartialEq, Eq, Structural)]
pub enum StackPair {
    BC,
    DE,
    HL,
    AF,
}

/// Branch conditions over the flags.
#[derive(Clone, Copy, Debug, PartialEq, Eq, Structural)]
pub enum Cond {
    Always,
    NotZero,
    Zero,
    NotCarry,
    Carry,
}

/// An instruction of the base table.
#[derive(Clone, Copy, Debug, PartialEq, Eq, Structural)]
pub enum Instr {
    Nop,
    LdPairImm(Pair),
    AddHl(Pair),
    IncPair(Pair),
    DecPair(Pair),
    Inc(Operand),
    Dec(Operand),
    LdImm(Operand),
    Rlca,
    Cpl,
    Scf,
    Ccf,
    Jr(Cond),
    LdAFromDe,
    LdHlIncA,
    LdAHlInc,
    LdAHlDec,
    Ld(Operand, Operand),
    Alu(AluOp, Operand),
    AluImm(AluOp),
    Ret(Cond),
    Reti,
    Pop(StackPair),
    Push(StackPair),
    Jp(Cond),
    Call(Cond),
    JpHl,
    StoreHighImm,
    StoreHighC,
    StoreAbs,
    LoadHighImm,
    LoadAbs,
    Di,
    Ei,
    Prefix,
}

/// An instruction of the extended table; the `u8` of a bit operation is the
/// bit index (0 to 7).
#[derive(Clone, Copy, Debug, PartialEq, Eq, Structural)]
pub enum CbInstr {
    Shift(ShiftOp, Operand),
    TestBit(u8, Operand),
    ResetBit(u8, Operand),
    SetBit(u8, Operand),
}

/// Decodes the three-bit operand field (only its low three bits are read).
pub open spec fn operand_spec(bits: u8) -> Operand {
    match bits % 8 {
        0 => Operand::B,
        1 => Operand::C,
        2 => Operand::D,
        3 => Operand::E,
        4 => Operand::H,
        5 => Operand::L,
        6 => Operand::HlInd,
        _ => Operand::A,
    }
}

pub fn operand_of(bits: u8) -> (r: Operand)
    ensures
        r == operand_spec(bits),
{
    match bits % 8 {
        0 => Operand::B,
        1 => Operand::C,
        2 => Operand::D,
        3 => Operand::E,
        4 => Operand::H,
        5 => Operand::L,
        6 => Operand::HlInd,
        _ => Operand::A,
    }
}

/// Decodes a two-bit register-pair field.
pub open spec fn pair_spec(bits: u8) -> Pair {
    match bits % 4 {
        0 => Pair::BC,
        1 => Pair::DE,
        2 => Pair::HL,
        _ => Pair::SP,
    }
}

pub fn pair_of(bits: u8) -> (r: Pair)
    ensures
        r == pair_spec(bits),
{
    match bits % 4 {
        0 => Pair::BC,
        1 => Pair::DE,
        2 => Pair::HL,
        _ => Pair::SP,
    }
}

/// Decodes a two-bit pair field of push and pop, where the last pair is AF.
pub open spec fn stack_pair_spec(bits: u8) -> StackPair {
    match bits % 4 {
        0 => StackPair::BC,
        1 => StackPair::DE,
        2 => StackPair::HL,
        _ => StackPair::AF,
    }
}

pub fn stack_pair_of(bits: u8) -> (r: StackPair)
    ensures
        r == stack_pair_spec(bits),
{
    match bits % 4 {
        0 => StackPair::BC,
        1 => StackPair::DE,
        2 => StackPair::HL,
        _ => StackPair::AF,
    }
}

/// Decodes a two-bit condition field.
pub open spec fn cond_spec(bits: u8) -> Cond {
    match bits % 4 {
        0 => Cond::NotZero,
        1 => Cond::Zero,
        2 => Cond::NotCarry,
        _ => Cond::Carry,
    }
}

pub fn cond_of(bits: u8) -> (r: Cond)
    ensures
        r == cond_spec(bits),
{
    match bits % 4 {
        0 => Cond::NotZero,
        1 => Cond::Zero,
        2 => Cond::NotCarry,
        _ => Cond::Carry,
    }
}

/// Decodes the three-bit accumulator-operation field.
pub open spec fn alu_op_spec(bits: u8) -> AluOp {
    match bits % 8 {
        0 => AluOp::Add,
        1 => AluOp::Adc,
        2 => AluOp::Sub,
        3 => AluOp::Sbc,
        4 => AluOp::And,
        5 => AluOp::Xor,
        6 => AluOp::Or,
        _ => AluOp::Cp,
    }
}

pub fn alu_op_of(bits: u8) -> (r: AluOp)
    ensures
        r == alu_op_spec(bits),
{
    match bits % 8 {
        0 => AluOp::Add,
        1 => AluOp::Adc,
        2 => AluOp::Sub,
        3 => AluOp::Sbc,
        4 => AluOp::And,
        5 => AluOp::Xor,
        6 => AluOp::Or,
        _ => AluOp::Cp,
    }
}

/// The base table. HALT (0x76) is executed as a no-op.
pub open spec fn decode_spec(op: u8) -> Option<Instr> {
    match op {
        0x00 | 0x76 => Some(Instr::Nop),
        0x01 | 0x11 | 0x21 | 0x31 => Some(Instr::LdPairImm(pair_spec(op / 16))),
        0x09 | 0x19 | 0x29 => Some(Instr::AddHl(pair_spec(op / 16))),
        0x13 | 0x23 => Some(Instr::IncPair(pair_spec(op / 16))),
        0x0b | 0x1b | 0x2b => Some(Instr::DecPair(pair_spec(op / 16))),
        0x04 | 0x0c | 0x34 | 0x3c => Some(Instr::Inc(operand_spec(op / 8))),
        0x05 | 0x0d | 0x15 | 0x1d | 0x35 | 0x3d => Some(Instr::Dec(operand_spec(op / 8))),
        0x06 | 0x0e | 0x16 | 0x1e | 0x26 | 0x36 | 0x3e => Some(Instr::LdImm(operand_spec(op / 8))),
        0x07 => Some(Instr::Rlca),
        0x2f => Some(Instr::Cpl),
        0x37 => Some(Instr::Scf),
        0x3f => Some(Instr::Ccf),
        0x18 => Some(Instr::Jr(Cond::Always)),
        0x20 | 0x28 | 0x30 | 0x38 => Some(Instr::Jr(cond_spec(op / 8))),
        0x1a => Some(Instr::LdAFromDe),
        0x22 => Some(Instr::LdHlIncA),
        0x2a => Some(Instr::LdAHlInc),
        0x3a => Some(Instr::LdAHlDec),
        0x41 | 0x42 | 0x46 | 0x47 | 0x4a | 0x4f | 0x50 | 0x51 | 0x54 | 0x56 | 0x57 | 0x5d | 0x5e
        | 0x5f | 0x62 | 0x67 | 0x68 | 0x6b | 0x6e | 0x6f | 0x70 | 0x71 | 0x72 | 0x73 | 0x74 |
        0x75 | 0x77 | 0x78 | 0x79 | 0x7a | 0x7b | 0x7c | 0x7d | 0x7e => Some(Instr::Ld(operand_spec(op / 8), operand_spec(op))),
        0x80 | 0x81 | 0x82 | 0x83 | 0x85 | 0x87 | 0x88 | 0x98 | 0xa0 | 0xa3 | 0xa6 | 0xa7 | 0xa8
        | 0xaf | 0xb0 | 0xb1 | 0xb2 | 0xb6 | 0xb8 | 0xb9 | 0xbe => Some(Instr::Alu(alu_op_spec(op / 8), operand_spec(op))),
        0xe6 | 0xf6 | 0xfe => Some(Instr::AluImm(alu_op_spec(op / 8))),
        0xc0 | 0xc8 => Some(Instr::Ret(cond_spec(op / 8))),
        0xc9 => Some(Instr::Ret(Cond::Always)),
        0xd9 => Some(Instr::Reti),
        0xc1 | 0xd1 | 0xe1 | 0xf1 => Some(Instr::Pop(stack_pair_spec(op / 16))),
        0xc5 | 0xd5 | 0xe5 | 0xf5 => Some(Instr::Push(stack_pair_spec(op / 16))),
        0xc2 | 0xca | 0xd2 | 0xda => Some(Instr::Jp(cond_spec(op / 8))),
        0xc3 => Some(Instr::Jp(Cond::Always)),
        0xcc => Some(Instr::Call(cond_spec(op / 8))),
        0xcd => Some(Instr::Call(Cond::Always)),
        0xe9 => Some(Instr::JpHl),
        0xe0 => Some(Instr::StoreHighImm),
        0xe2 => Some(Instr::StoreHighC),
        0xea => Some(Instr::StoreAbs),
        0xf0 => Some(Instr::LoadHighImm),
        0xfa => Some(Instr::LoadAbs),
        0xf3 => Some(Instr::Di),
        0xfb => Some(Instr::Ei),
        0xcb => Some(Instr::Prefix),
        _ => None,
    }
}

pub fn decode(op: u8) -> (r: Option<Instr>)
    ensures
        r == decode_spec(op),
{
    match op {
        0x00 | 0x76 => Some(Instr::Nop),
        0x01 | 0x11 | 0x21 | 0x31 => Some(Instr::LdPairImm(pair_of(op / 16))),
        0x09 | 0x19 | 0x29 => Some(Instr::AddHl(pair_of(op / 16))),
        0x13 | 0x23 => Some(Instr::IncPair(pair_of(op / 16))),
        0x0b | 0x1b | 0x2b => Some(Instr::DecPair(pair_of(op / 16))),
        0x04 | 0x0c | 0x34 | 0x3c => Some(Instr::Inc(operand_of(op / 8))),
        0x05 | 0x0d | 0x15 | 0x1d | 0x35 | 0x3d => Some(Instr::Dec(operand_of(op / 8))),
        0x06 | 0x0e | 0x16 | 0x1e | 0x26 | 0x36 | 0x3e => Some(Instr::LdImm(operand_of(op / 8))),
        0x07 => Some(Instr::Rlca),
        0x2f => Some(Instr::Cpl),
        0x37 => Some(Instr::Scf),
        0x3f => Some(Instr::Ccf),
        0x18 => Some(Instr::Jr(Cond::Always)),
        0x20 | 0x28 | 0x30 | 0x38 => Some(Instr::Jr(cond_of(op / 8))),
        0x1a => Some(Instr::LdAFromDe),
        0x22 => Some(Instr::LdHlIncA),
        0x2a => Some(Instr::LdAHlInc),
        0x3a => Some(Instr::LdAHlDec),
        0x41 | 0x42 | 0x46 | 0x47 | 0x4a | 0x4f | 0x50 | 0x51 | 0x54 | 0x56 | 0x57 | 0x5d | 0x5e
        | 0x5f | 0x62 | 0x67 | 0x68 | 0x6b | 0x6e | 0x6f | 0x70 | 0x71 | 0x72 | 0x73 | 0x74 |
        0x75 | 0x77 | 0x78 | 0x79 | 0x7a | 0x7b | 0x7c | 0x7d | 0x7e => Some(Instr::Ld(operand_of(op / 8), operand_of(op))),
        0x80 | 0x81 | 0x82 | 0x83 | 0x85 | 0x87 | 0x88 | 0x98 | 0xa0 | 0xa3 | 0xa6 | 0xa7 | 0xa8
        | 0xaf | 0xb0 | 0xb1 | 0xb2 | 0xb6 | 0xb8 | 0xb9 | 0xbe => Some(Instr::Alu(alu_op_of(op / 8), operand_of(op))),
        0xe6 | 0xf6 | 0xfe => Some(Instr::AluImm(alu_op_of(op / 8))),
        0xc0 | 0xc8 => Some(Instr::Ret(cond_of(op / 8))),
        0xc9 => Some(Instr::Ret(Cond::Always)),
        0xd9 => Some(Instr::Reti),
        0xc1 | 0xd1 | 0xe1 | 0xf1 => Some(Instr::Pop(stack_pair_of(op / 16))),
        0xc5 | 0xd5 | 0xe5 | 0xf5 => Some(Instr::Push(stack_pair_of(op / 16))),
        0xc2 | 0xca | 0xd2 | 0xda => Some(Instr::Jp(cond_of(op / 8))),
        0xc3 => Some(Instr::Jp(Cond::Always)),
        0xcc => Some(Instr::Call(cond_of(op / 8))),
        0xcd => Some(Instr::Call(Cond::Always)),
        0xe9 => Some(Instr::JpHl),
        0xe0 => Some(Instr::StoreHighImm),
        0xe2 => Some(Instr::StoreHighC),
        0xea => Some(Instr::StoreAbs),
        0xf0 => Some(Instr::LoadHighImm),
        0xfa => Some(Instr::LoadAbs),
        0xf3 => Some(Instr::Di),
        0xfb => Some(Instr::Ei),
        0xcb => Some(Instr::Prefix),
        _ => None,
    }
}

/// The extended table, reached through the prefix byte.
pub open spec fn decode_cb_spec(op: u8) -> Option<CbInstr> {
    match op {
        0x12 => Some(CbInstr::Shift(ShiftOp::Rl, operand_spec(op))),
        0x1b => Some(CbInstr::Shift(ShiftOp::Rr, operand_spec(op))),
        0x23 => Some(CbInstr::Shift(ShiftOp::Sla, operand_spec(op))),
        0x2a => Some(CbInstr::Shift(ShiftOp::Sra, operand_spec(op))),
        0x30 | 0x31 | 0x32 | 0x33 | 0x34 | 0x35 | 0x36 | 0x37 => Some(CbInstr::Shift(ShiftOp::Swap, operand_spec(op))),
        0x3f => Some(CbInstr::Shift(ShiftOp::Srl, operand_spec(op))),
        0x46 | 0x47 | 0x4e | 0x4f | 0x50 | 0x51 | 0x52 | 0x53 | 0x54 | 0x55 | 0x56 | 0x57 | 0x58
        | 0x59 | 0x5a | 0x5b | 0x5c | 0x5d | 0x5e | 0x5f | 0x66 | 0x6f | 0x70 | 0x71 | 0x72 |
        0x73 | 0x74 | 0x75 | 0x76 | 0x77 | 0x78 | 0x79 | 0x7a | 0x7b | 0x7c | 0x7d | 0x7e | 0x7f => Some(CbInstr::TestBit(op / 8 % 8, operand_spec(op))),
        0x80 | 0x81 | 0x82 | 0x83 | 0x84 | 0x85 | 0x86 | 0x87 | 0x88 | 0x89 | 0x8a | 0x8b | 0x8c
        | 0x8d | 0x8e | 0x8f | 0x90 | 0x91 | 0x92 | 0x93 | 0x94 | 0x95 | 0x96 | 0x97 | 0xa2 |
        0xa6 | 0xae | 0xaf => Some(CbInstr::ResetBit(op / 8 % 8, operand_spec(op))),
        0xd0 | 0xd1 | 0xd2 | 0xd3 | 0xd4 | 0xd5 | 0xd6 | 0xd7 | 0xd8 | 0xd9 | 0xda | 0xdb | 0xdc
        | 0xdd | 0xde | 0xdf => Some(CbInstr::SetBit(op / 8 % 8, operand_spec(op))),
        _ => None,
    }
}

pub fn decode_cb(op: u8) -> (r: Option<CbInstr>)
    ensures
        r == decode_cb_spec(op),
{
    match op {
        0x12 => Some(CbInstr::Shift(ShiftOp::Rl, operand_of(op))),
        0x1b => Some(CbInstr::Shift(ShiftOp::Rr, operand_of(op))),
        0x23 => Some(CbInstr::Shift(ShiftOp::Sla, operand_of(op))),
        0x2a => Some(CbInstr::Shift(ShiftOp::Sra, operand_of(op))),
        0x30 | 0x31 | 0x32 | 0x33 | 0x34 | 0x35 | 0x36 | 0x37 => Some(CbInstr::Shift(ShiftOp::Swap, operand_of(op))),
        0x3f => Some(CbInstr::Shift(ShiftOp::Srl, operand_of(op))),
        0x46 | 0x47 | 0x4e | 0x4f | 0x50 | 0x51 | 0x52 | 0x53 | 0x54 | 0x55 | 0x56 | 0x57 | 0x58
        | 0x59 | 0x5a | 0x5b | 0x5c | 0x5d | 0x5e | 0x5f | 0x66 | 0x6f | 0x70 | 0x71 | 0x72 |
        0x73 | 0x74 | 0x75 | 0x76 | 0x77 | 0x78 | 0x79 | 0x7a | 0x7b | 0x7c | 0x7d | 0x7e | 0x7f => Some(CbInstr::TestBit(op / 8 % 8, operand_of(op))),
        0x80 | 0x81 | 0x82 | 0x83 | 0x84 | 0x85 | 0x86 | 0x87 | 0x88 | 0x89 | 0x8a | 0x8b | 0x8c
        | 0x8d | 0x8e | 0x8f | 0x90 | 0x91 | 0x92 | 0x93 | 0x94 | 0x95 | 0x96 | 0x97 | 0xa2 |
        0xa6 | 0xae | 0xaf => Some(CbInstr::ResetBit(op / 8 % 8, operand_of(op))),
        0xd0 | 0xd1 | 0xd2 | 0xd3 | 0xd4 | 0xd5 | 0xd6 | 0xd7 | 0xd8 | 0xd9 | 0xda | 0xdb | 0xdc
        | 0xdd | 0xde | 0xdf => Some(CbInstr::SetBit(op / 8 % 8, operand_of(op))),
        _ => None,
    }
}

} // verus!
