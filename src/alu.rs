//! Pure arithmetic, logical and shift operations on bytes, with the flags
//! (`zero`, `carry`) that each of them produces.

use vstd::prelude::*;

verus! {

/// The eight accumulator operations of the base table.
#[derive(Clone, Copy, Debug, PartialEq, Eq, Structural)]
pub enum AluOp {
    Add,
    Adc,
    Sub,
    Sbc,
    And,
    Xor,
    Or,
    Cp,
}

/// The rotate and shift operations of the extended table.
#[derive(Clone, Copy, Debug, PartialEq, Eq, Structural)]
pub enum ShiftOp {
    Rl,
    Rr,
    Sla,
    Sra,
    Swap,
    Srl,
}

/// A byte result together with the two flags after the operation.
#[derive(Clone, Copy, Debug, PartialEq, Eq, Structural)]
pub struct AluOut {
    pub value: u8,
    pub zero: bool,
    pub carry: bool,
}

pub open spec fn carry_in(c: bool) -> int {
    if c { 1 } else { 0 }
}

/// `A op v` with the incoming carry `c`. For `Cp` the value is `A` unchanged.
pub open spec fn alu_spec(op: AluOp, a: u8, v: u8, c: bool) -> AluOut {
    match op {
        AluOp::Add => {
            let r = a + v;
            AluOut { value: (r % 256) as u8, zero: r % 256 == 0, carry: r > 255 }
        },
        AluOp::Adc => {
            let r = a + v + carry_in(c);
            AluOut { value: (r % 256) as u8, zero: r % 256 == 0, carry: r > 255 }
        },
        AluOp::Sub => {
            let r = a - v;
            AluOut { value: (r % 256) as u8, zero: r % 256 == 0, carry: r < 0 }
        },
        AluOp::Sbc => {
            let r = a - v - carry_in(c);
            AluOut { value: (r % 256) as u8, zero: r % 256 == 0, carry: r < 0 }
        },
        AluOp::And => AluOut { value: a & v, zero: a & v == 0, carry: false },
        AluOp::Xor => AluOut { value: a ^ v, zero: a ^ v == 0, carry: false },
        AluOp::Or => AluOut { value: a | v, zero: a | v == 0, carry: false },
        AluOp::Cp => AluOut { value: a, zero: v == a, carry: v > a },
    }
}

/// Rotate or shift `v`, threading the incoming carry `c` where the operation
/// takes one. `Swap` leaves the carry as it was.
pub open spec fn shift_spec(op: ShiftOp, v: u8, c: bool) -> AluOut {
    let r: int = match op {
        ShiftOp::Rl => (v * 2) % 256 + carry_in(c),
        ShiftOp::Rr => v / 2 + 128 * carry_in(c),
        ShiftOp::Sla => (v as int * 2) % 256,
        ShiftOp::Sra => v / 2 + (if v >= 128 { 128int } else { 0int }),
        ShiftOp::Swap => (v % 16) * 16 + v / 16,
        ShiftOp::Srl => v as int / 2,
    };
    let carry = match op {
        ShiftOp::Rl | ShiftOp::Sla => v >= 128,
        ShiftOp::Swap => c,
        _ => v % 2 == 1,
    };
    AluOut { value: r as u8, zero: r == 0, carry }
}

/// The result byte of a flag-setting accumulator operation; for `Cp` this is
/// the difference that the comparison computes and then discards.
pub open spec fn alu_result(op: AluOp, a: u8, v: u8, c: bool) -> int {
    match op {
        AluOp::Cp => (a - v) % 256,
        _ => alu_spec(op, a, v, c).value as int,
    }
}

pub fn alu(op: AluOp, a: u8, v: u8, c: bool) -> (r: AluOut)
    ensures
        r == alu_spec(op, a, v, c),
{
    match op {
        AluOp::Add => {
            let r: u16 = a as u16 + v as u16;
            AluOut { value: (r % 256) as u8, zero: r % 256 == 0, carry: r > 255 }
        },
        AluOp::Adc => {
            let r: u16 = a as u16 + v as u16 + if c { 1u16 } else { 0u16 };
            AluOut { value: (r % 256) as u8, zero: r % 256 == 0, carry: r > 255 }
        },
        AluOp::Sub | AluOp::Sbc => {
            let borrow: u16 = if op == AluOp::Sbc && c { 1 } else { 0 };
            let sub: u16 = v as u16 + borrow;
            if a as u16 >= sub {
                let r: u16 = a as u16 - sub;
                AluOut { value: r as u8, zero: r == 0, carry: false }
            } else {
                let r: u16 = 256 + a as u16 - sub;
                AluOut { value: r as u8, zero: r == 0, carry: true }
            }
        },
        AluOp::And => AluOut { value: a & v, zero: a & v == 0, carry: false },
        AluOp::Xor => AluOut { value: a ^ v, zero: a ^ v == 0, carry: false },
        AluOp::Or => AluOut { value: a | v, zero: a | v == 0, carry: false },
        AluOp::Cp => AluOut { value: a, zero: v == a, carry: v > a },
    }
}

pub fn shift(op: ShiftOp, v: u8, c: bool) -> (r: AluOut)
    ensures
        r == shift_spec(op, v, c),
{
    let cin: u8 = if c { 1 } else { 0 };
    let value: u8 = match op {
        ShiftOp::Rl => (v % 128) * 2 + cin,
        ShiftOp::Rr => v / 2 + 128 * cin,
        ShiftOp::Sla => (v % 128) * 2,
        ShiftOp::Sra => v / 2 + (v / 128) * 128,
        ShiftOp::Swap => (v % 16) * 16 + v / 16,
        ShiftOp::Srl => v / 2,
    };
    let carry = match op {
        ShiftOp::Rl | ShiftOp::Sla => v >= 128,
        ShiftOp::Swap => c,
        _ => v % 2 == 1,
    };
    AluOut { value, zero: value == 0, carry }
}

/// Every flag-setting accumulator operation sets `zero` exactly when its
/// 8-bit result is 0.
pub proof fn lemma_alu_zero_flag(op: AluOp, a: u8, v: u8, c: bool)
    ensures
        alu_spec(op, a, v, c).zero == (alu_result(op, a, v, c) == 0),
{
    if op == AluOp::Cp {
        assert((v == a) == ((a - v) % 256 == 0));
    }
}

/// Every rotate and shift sets `zero` exactly when the byte it returns is 0.
pub proof fn lemma_shift_zero_flag(op: ShiftOp, v: u8, c: bool)
    ensures
        shift_spec(op, v, c).zero == (shift_spec(op, v, c).value == 0),
{
}

} // verus!
