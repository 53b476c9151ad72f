//! The fetch-decode-execute engine: operand access, the stack, every
//! instruction of both tables, and `step` with the peripheral tick and
//! interrupt dispatch.

use crate::alu::{alu, shift};
use crate::cpu::{outcome, CPU};
use crate::instr::{decode, decode_cb, CbInstr, Cond, Instr, Operand, Pair, StackPair};
use crate::machine::{
    apply_alu, bit_mask, cond_holds, exec_cb_spec, exec_spec, fetch16_spec, fetch8_spec,
    get_operand, hl_of, instruction_spec, interrupt_spec, pair_value, pop_spec, push_spec,
    set_operand, set_regs, stack_pair_value, step_spec, tick_machine, with_pair,
    with_stack_pair, Fault, FaultKind, Machine, Registers, INTERRUPT_VECTOR,
};
use vstd::prelude::*;

verus! {

impl CPU {
    /// Returns PC and moves it past one byte.
    fn pc_inc(&mut self) -> (r: u16)
        ensures
            r == old(self).regs.pc,
            final(self)@ == set_regs(old(self)@, Registers { pc: r.wrapping_add(1), ..old(self)@.regs }),
    {
        let result = self.regs.pc;
        self.regs.pc = self.regs.pc.wrapping_add(1);
        result
    }

    /// Reads the byte at PC and moves PC past it.
    fn fetch8(&mut self) -> (r: Result<u8, FaultKind>)
        requires
            old(self).wf(),
        ensures
            final(self).wf(),
            match r {
                Ok(b) => fetch8_spec(old(self)@) == Ok::<(Machine, u8), FaultKind>((final(self)@, b)),
                Err(e) => fetch8_spec(old(self)@) == Err::<(Machine, u8), FaultKind>(e),
            },
    {
        let b = self.read_mem(self.regs.pc)?;
        self.pc_inc();
        Ok(b)
    }

    /// Reads the 16-bit operand at PC and moves PC past it.
    fn fetch16(&mut self) -> (r: Result<u16, FaultKind>)
        requires
            old(self).wf(),
        ensures
            final(self).wf(),
            match r {
                Ok(w) => fetch16_spec(old(self)@) == Ok::<(Machine, u16), FaultKind>((final(self)@, w)),
                Err(e) => fetch16_spec(old(self)@) == Err::<(Machine, u16), FaultKind>(e),
            },
    {
        let w = self.read_mem16(self.regs.pc)?;
        self.regs.pc = self.regs.pc.wrapping_add(2);
        Ok(w)
    }

    fn pair(&self, p: Pair) -> (r: u16)
        ensures
            r == pair_value(self.regs, p),
    {
        match p {
            Pair::BC => self.regs.b as u16 * 256 + self.regs.c as u16,
            Pair::DE => self.regs.d as u16 * 256 + self.regs.e as u16,
            Pair::HL => self.regs.h as u16 * 256 + self.regs.l as u16,
            Pair::SP => self.regs.sp,
        }
    }

    fn hl(&self) -> (r: u16)
        ensures
            r == hl_of(self.regs),
    {
        self.pair(Pair::HL)
    }

    /// Writes a pair through to its two 8-bit registers.
    fn set_pair(&mut self, p: Pair, value: u16)
        ensures
            final(self)@ == set_regs(old(self)@, with_pair(old(self).regs, p, value)),
    {
        let hi = (value / 256) as u8;
        let lo = (value % 256) as u8;
        match p {
            Pair::BC => {
                self.regs.b = hi;
                self.regs.c = lo;
            },
            Pair::DE => {
                self.regs.d = hi;
                self.regs.e = lo;
            },
            Pair::HL => {
                self.regs.h = hi;
                self.regs.l = lo;
            },
            Pair::SP => self.regs.sp = value,
        }
    }

    fn stack_pair(&self, p: StackPair) -> (r: u16)
        ensures
            r == stack_pair_value(self.regs, p),
    {
        match p {
            StackPair::BC => self.pair(Pair::BC),
            StackPair::DE => self.pair(Pair::DE),
            StackPair::HL => self.pair(Pair::HL),
            StackPair::AF => {
                let mut result = self.regs.a as u16;
                if self.regs.zero {
                    result = result + 0x100;
                }
                if self.regs.carry {
                    result = result + 0x200;
                }
                result
            },
        }
    }

    fn set_stack_pair(&mut self, p: StackPair, value: u16)
        ensures
            final(self)@ == set_regs(old(self)@, with_stack_pair(old(self).regs, p, value)),
    {
        match p {
            StackPair::BC => self.set_pair(Pair::BC, value),
            StackPair::DE => self.set_pair(Pair::DE, value),
            StackPair::HL => self.set_pair(Pair::HL, value),
            StackPair::AF => {
                self.regs.a = (value % 256) as u8;
                self.regs.zero = (value / 0x100) % 2 == 1;
                self.regs.carry = (value / 0x200) % 2 == 1;
            },
        }
    }

    /// Moves SP down by two and stores `value` there.
    pub fn push(&mut self, value: u16) -> (r: Result<(), FaultKind>)
        requires
            old(self).wf(),
        ensures
            final(self).wf(),
            outcome(r, push_spec(old(self)@, value), final(self)@),
    {
        self.regs.sp = self.regs.sp.wrapping_sub(2);
        self.write_mem16(self.regs.sp, value)
    }

    /// Loads the value at SP and moves SP up by two.
    pub fn pop(&mut self) -> (r: Result<u16, FaultKind>)
        requires
            old(self).wf(),
        ensures
            final(self).wf(),
            match r {
                Ok(v) => pop_spec(old(self)@) == Ok::<(Machine, u16), FaultKind>((final(self)@, v)),
                Err(e) => pop_spec(old(self)@) == Err::<(Machine, u16), FaultKind>(e),
            },
    {
        let result = self.read_mem16(self.regs.sp)?;
        self.regs.sp = self.regs.sp.wrapping_add(2);
        Ok(result)
    }

    fn get_operand(&self, o: Operand) -> (r: Result<u8, FaultKind>)
        requires
            self.wf(),
        ensures
            r == get_operand(self@, o),
    {
        match o {
            Operand::B => Ok(self.regs.b),
            Operand::C => Ok(self.regs.c),
            Operand::D => Ok(self.regs.d),
            Operand::E => Ok(self.regs.e),
            Operand::H => Ok(self.regs.h),
            Operand::L => Ok(self.regs.l),
            Operand::HlInd => self.read_mem(self.hl()),
            Operand::A => Ok(self.regs.a),
        }
    }

    fn set_operand(&mut self, o: Operand, value: u8) -> (r: Result<(), FaultKind>)
        requires
            old(self).wf(),
        ensures
            final(self).wf(),
            outcome(r, set_operand(old(self)@, o, value), final(self)@),
    {
        match o {
            Operand::B => self.regs.b = value,
            Operand::C => self.regs.c = value,
            Operand::D => self.regs.d = value,
            Operand::E => self.regs.e = value,
            Operand::H => self.regs.h = value,
            Operand::L => self.regs.l = value,
            Operand::HlInd => return self.write_mem(self.hl(), value),
            Operand::A => self.regs.a = value,
        }
        Ok(())
    }

    fn cond_holds(&self, c: Cond) -> (r: bool)
        ensures
            r == cond_holds(self.regs, c),
    {
        match c {
            Cond::Always => true,
            Cond::NotZero => !self.regs.zero,
            Cond::Zero => self.regs.zero,
            Cond::NotCarry => !self.regs.carry,
            Cond::Carry => self.regs.carry,
        }
    }

    /// Applies an accumulator operation with operand `value`.
    fn instr_alu(&mut self, op: crate::alu::AluOp, value: u8)
        ensures
            final(self)@ == set_regs(old(self)@, apply_alu(old(self).regs, op, value)),
    {
        let out = alu(op, self.regs.a, value, self.regs.carry);
        self.regs.a = out.value;
        self.regs.zero = out.zero;
        self.regs.carry = out.carry;
    }

    // One handler per base-table instruction. Each is exact against the
    // model: on success the new state is the model's, on a fault the model
    // fails the same way.

    fn exec_ld_pair_imm(&mut self, p: Pair) -> (r: Result<(), FaultKind>)
        requires
            old(self).wf(),
        ensures
            final(self).wf(),
            outcome(r, exec_spec(old(self)@, Instr::LdPairImm(p)), final(self)@),
    {
        reveal(exec_spec);
        let v = self.fetch16()?;
        self.set_pair(p, v);
        Ok(())
    }

    fn exec_add_hl(&mut self, p: Pair) -> (r: Result<(), FaultKind>)
        requires
            old(self).wf(),
        ensures
            final(self).wf(),
            outcome(r, exec_spec(old(self)@, Instr::AddHl(p)), final(self)@),
    {
        reveal(exec_spec);
        // 16-bit arithmetic leaves both flags alone
        let v = self.hl().wrapping_add(self.pair(p));
        self.set_pair(Pair::HL, v);
        Ok(())
    }

    fn exec_inc_pair(&mut self, p: Pair) -> (r: Result<(), FaultKind>)
        requires
            old(self).wf(),
        ensures
            final(self).wf(),
            outcome(r, exec_spec(old(self)@, Instr::IncPair(p)), final(self)@),
    {
        reveal(exec_spec);
        let v = self.pair(p).wrapping_add(1);
        self.set_pair(p, v);
        Ok(())
    }

    fn exec_dec_pair(&mut self, p: Pair) -> (r: Result<(), FaultKind>)
        requires
            old(self).wf(),
        ensures
            final(self).wf(),
            outcome(r, exec_spec(old(self)@, Instr::DecPair(p)), final(self)@),
    {
        reveal(exec_spec);
        let v = self.pair(p).wrapping_sub(1);
        self.set_pair(p, v);
        Ok(())
    }

    fn exec_inc(&mut self, o: Operand) -> (r: Result<(), FaultKind>)
        requires
            old(self).wf(),
        ensures
            final(self).wf(),
            outcome(r, exec_spec(old(self)@, Instr::Inc(o)), final(self)@),
    {
        reveal(exec_spec);
        let v = self.get_operand(o)?.wrapping_add(1);
        self.regs.zero = v == 0;
        self.set_operand(o, v)
    }

    fn exec_dec(&mut self, o: Operand) -> (r: Result<(), FaultKind>)
        requires
            old(self).wf(),
        ensures
            final(self).wf(),
            outcome(r, exec_spec(old(self)@, Instr::Dec(o)), final(self)@),
    {
        reveal(exec_spec);
        let v = self.get_operand(o)?.wrapping_sub(1);
        self.regs.zero = v == 0;
        self.set_operand(o, v)
    }

    fn exec_rlca(&mut self) -> (r: Result<(), FaultKind>)
        requires
            old(self).wf(),
        ensures
            final(self).wf(),
            outcome(r, exec_spec(old(self)@, Instr::Rlca), final(self)@),
    {
        reveal(exec_spec);
        let a = self.regs.a;
        self.regs.carry = a >= 128;
        self.regs.a = (a % 128) * 2 + a / 128;
        Ok(())
    }

    fn exec_cpl(&mut self) -> (r: Result<(), FaultKind>)
        requires
            old(self).wf(),
        ensures
            final(self).wf(),
            outcome(r, exec_spec(old(self)@, Instr::Cpl), final(self)@),
    {
        reveal(exec_spec);
        self.regs.a = 255 - self.regs.a;
        Ok(())
    }

    fn exec_scf(&mut self) -> (r: Result<(), FaultKind>)
        requires
            old(self).wf(),
        ensures
            final(self).wf(),
            outcome(r, exec_spec(old(self)@, Instr::Scf), final(self)@),
    {
        reveal(exec_spec);
        self.regs.carry = true;
        Ok(())
    }

    fn exec_ccf(&mut self) -> (r: Result<(), FaultKind>)
        requires
            old(self).wf(),
        ensures
            final(self).wf(),
            outcome(r, exec_spec(old(self)@, Instr::Ccf), final(self)@),
    {
        reveal(exec_spec);
        self.regs.carry = !self.regs.carry;
        Ok(())
    }

    fn exec_alu(&mut self, op: crate::alu::AluOp, o: Operand) -> (r: Result<(), FaultKind>)
        requires
            old(self).wf(),
        ensures
            final(self).wf(),
            outcome(r, exec_spec(old(self)@, Instr::Alu(op, o)), final(self)@),
    {
        reveal(exec_spec);
        let v = self.get_operand(o)?;
        self.instr_alu(op, v);
        Ok(())
    }

    fn exec_alu_imm(&mut self, op: crate::alu::AluOp) -> (r: Result<(), FaultKind>)
        requires
            old(self).wf(),
        ensures
            final(self).wf(),
            outcome(r, exec_spec(old(self)@, Instr::AluImm(op)), final(self)@),
    {
        reveal(exec_spec);
        let v = self.fetch8()?;
        self.instr_alu(op, v);
        Ok(())
    }

    fn exec_ld_imm(&mut self, o: Operand) -> (r: Result<(), FaultKind>)
        requires
            old(self).wf(),
        ensures
            final(self).wf(),
            outcome(r, exec_spec(old(self)@, Instr::LdImm(o)), final(self)@),
    {
        reveal(exec_spec);
        let v = self.fetch8()?;
        self.set_operand(o, v)
    }

    fn exec_ld_a_from_de(&mut self) -> (r: Result<(), FaultKind>)
        requires
            old(self).wf(),
        ensures
            final(self).wf(),
            outcome(r, exec_spec(old(self)@, Instr::LdAFromDe), final(self)@),
    {
        reveal(exec_spec);
        self.regs.a = self.read_mem(self.pair(Pair::DE))?;
        Ok(())
    }

    fn exec_ld_hl_inc_a(&mut self) -> (r: Result<(), FaultKind>)
        requires
            old(self).wf(),
        ensures
            final(self).wf(),
            outcome(r, exec_spec(old(self)@, Instr::LdHlIncA), final(self)@),
    {
        reveal(exec_spec);
        let hl = self.hl();
        self.write_mem(hl, self.regs.a)?;
        self.set_pair(Pair::HL, hl.wrapping_add(1));
        Ok(())
    }

    fn exec_ld_a_hl_inc(&mut self) -> (r: Result<(), FaultKind>)
        requires
            old(self).wf(),
        ensures
            final(self).wf(),
            outcome(r, exec_spec(old(self)@, Instr::LdAHlInc), final(self)@),
    {
        reveal(exec_spec);
        let hl = self.hl();
        self.regs.a = self.read_mem(hl)?;
        self.set_pair(Pair::HL, hl.wrapping_add(1));
        Ok(())
    }

    fn exec_ld_a_hl_dec(&mut self) -> (r: Result<(), FaultKind>)
        requires
            old(self).wf(),
        ensures
            final(self).wf(),
            outcome(r, exec_spec(old(self)@, Instr::LdAHlDec), final(self)@),
    {
        reveal(exec_spec);
        let hl = self.hl();
        self.regs.a = self.read_mem(hl)?;
        self.set_pair(Pair::HL, hl.wrapping_sub(1));
        Ok(())
    }

    fn exec_ld(&mut self, dst: Operand, src: Operand) -> (r: Result<(), FaultKind>)
        requires
            old(self).wf(),
        ensures
            final(self).wf(),
            outcome(r, exec_spec(old(self)@, Instr::Ld(dst, src)), final(self)@),
    {
        reveal(exec_spec);
        let v = self.get_operand(src)?;
        self.set_operand(dst, v)
    }

    fn exec_store_high_imm(&mut self) -> (r: Result<(), FaultKind>)
        requires
            old(self).wf(),
        ensures
            final(self).wf(),
            outcome(r, exec_spec(old(self)@, Instr::StoreHighImm), final(self)@),
    {
        reveal(exec_spec);
        let n = self.fetch8()?;
        self.write_mem(0xff00 + n as u16, self.regs.a)
    }

    fn exec_store_high_c(&mut self) -> (r: Result<(), FaultKind>)
        requires
            old(self).wf(),
        ensures
            final(self).wf(),
            outcome(r, exec_spec(old(self)@, Instr::StoreHighC), final(self)@),
    {
        reveal(exec_spec);
        self.write_mem(0xff00 + self.regs.c as u16, self.regs.a)
    }

    fn exec_store_abs(&mut self) -> (r: Result<(), FaultKind>)
        requires
            old(self).wf(),
        ensures
            final(self).wf(),
            outcome(r, exec_spec(old(self)@, Instr::StoreAbs), final(self)@),
    {
        reveal(exec_spec);
        let addr = self.fetch16()?;
        self.write_mem(addr, self.regs.a)
    }

    fn exec_load_high_imm(&mut self) -> (r: Result<(), FaultKind>)
        requires
            old(self).wf(),
        ensures
            final(self).wf(),
            outcome(r, exec_spec(old(self)@, Instr::LoadHighImm), final(self)@),
    {
        reveal(exec_spec);
        let n = self.fetch8()?;
        self.regs.a = self.read_mem(0xff00 + n as u16)?;
        Ok(())
    }

    fn exec_load_abs(&mut self) -> (r: Result<(), FaultKind>)
        requires
            old(self).wf(),
        ensures
            final(self).wf(),
            outcome(r, exec_spec(old(self)@, Instr::LoadAbs), final(self)@),
    {
        reveal(exec_spec);
        let addr = self.fetch16()?;
        self.regs.a = self.read_mem(addr)?;
        Ok(())
    }

    fn instr_jr(&mut self, c: Cond) -> (r: Result<(), FaultKind>)
        requires
            old(self).wf(),
        ensures
            final(self).wf(),
            outcome(r, exec_spec(old(self)@, Instr::Jr(c)), final(self)@),
    {
        reveal(exec_spec);
        let taken = self.cond_holds(c);
        let offset = self.fetch8()?;
        if taken {
            self.regs.pc = if offset >= 128 {
                self.regs.pc.wrapping_sub((256 - offset as u16))
            } else {
                self.regs.pc.wrapping_add(offset as u16)
            };
        }
        Ok(())
    }

    fn instr_ret(&mut self, c: Cond) -> (r: Result<(), FaultKind>)
        requires
            old(self).wf(),
        ensures
            final(self).wf(),
            outcome(r, exec_spec(old(self)@, Instr::Ret(c)), final(self)@),
    {
        reveal(exec_spec);
        if self.cond_holds(c) {
            self.regs.pc = self.pop()?;
        }
        Ok(())
    }

    fn exec_reti(&mut self) -> (r: Result<(), FaultKind>)
        requires
            old(self).wf(),
        ensures
            final(self).wf(),
            outcome(r, exec_spec(old(self)@, Instr::Reti), final(self)@),
    {
        reveal(exec_spec);
        self.regs.ime = true;
        self.regs.pc = self.pop()?;
        Ok(())
    }

    fn exec_pop(&mut self, p: StackPair) -> (r: Result<(), FaultKind>)
        requires
            old(self).wf(),
        ensures
            final(self).wf(),
            outcome(r, exec_spec(old(self)@, Instr::Pop(p)), final(self)@),
    {
        reveal(exec_spec);
        let v = self.pop()?;
        self.set_stack_pair(p, v);
        Ok(())
    }

    fn exec_push(&mut self, p: StackPair) -> (r: Result<(), FaultKind>)
        requires
            old(self).wf(),
        ensures
            final(self).wf(),
            outcome(r, exec_spec(old(self)@, Instr::Push(p)), final(self)@),
    {
        reveal(exec_spec);
        self.push(self.stack_pair(p))
    }

    fn exec_jp(&mut self, c: Cond) -> (r: Result<(), FaultKind>)
        requires
            old(self).wf(),
        ensures
            final(self).wf(),
            outcome(r, exec_spec(old(self)@, Instr::Jp(c)), final(self)@),
    {
        reveal(exec_spec);
        let taken = self.cond_holds(c);
        let target = self.fetch16()?;
        if taken {
            self.regs.pc = target;
        }
        Ok(())
    }

    fn instr_call(&mut self, c: Cond) -> (r: Result<(), FaultKind>)
        requires
            old(self).wf(),
        ensures
            final(self).wf(),
            outcome(r, exec_spec(old(self)@, Instr::Call(c)), final(self)@),
    {
        reveal(exec_spec);
        let taken = self.cond_holds(c);
        let target = self.fetch16()?;
        if taken {
            self.push(self.regs.pc)?;
            self.regs.pc = target;
        }
        Ok(())
    }

    fn exec_jp_hl(&mut self) -> (r: Result<(), FaultKind>)
        requires
            old(self).wf(),
        ensures
            final(self).wf(),
            outcome(r, exec_spec(old(self)@, Instr::JpHl), final(self)@),
    {
        reveal(exec_spec);
        self.regs.pc = self.hl();
        Ok(())
    }

    fn exec_di(&mut self) -> (r: Result<(), FaultKind>)
        requires
            old(self).wf(),
        ensures
            final(self).wf(),
            outcome(r, exec_spec(old(self)@, Instr::Di), final(self)@),
    {
        reveal(exec_spec);
        self.regs.ime = false;
        Ok(())
    }

    fn exec_ei(&mut self) -> (r: Result<(), FaultKind>)
        requires
            old(self).wf(),
        ensures
            final(self).wf(),
            outcome(r, exec_spec(old(self)@, Instr::Ei), final(self)@),
    {
        reveal(exec_spec);
        self.regs.ime = true;
        Ok(())
    }

    /// Register arithmetic, 16-bit immediate loads and flag operations.
    fn exec_arith(&mut self, i: Instr) -> (r: Result<(), FaultKind>)
        requires
            old(self).wf(),
            i is LdPairImm || i is AddHl || i is IncPair || i is DecPair || i is Inc
            || i is Dec || i is Rlca || i is Cpl || i is Scf || i is Ccf || i is Alu
            || i is AluImm,
        ensures
            final(self).wf(),
            outcome(r, exec_spec(old(self)@, i), final(self)@),
    {
        match i {
            Instr::LdPairImm(p) => self.exec_ld_pair_imm(p),
            Instr::AddHl(p) => self.exec_add_hl(p),
            Instr::IncPair(p) => self.exec_inc_pair(p),
            Instr::DecPair(p) => self.exec_dec_pair(p),
            Instr::Inc(o) => self.exec_inc(o),
            Instr::Dec(o) => self.exec_dec(o),
            Instr::Rlca => self.exec_rlca(),
            Instr::Cpl => self.exec_cpl(),
            Instr::Scf => self.exec_scf(),
            Instr::Ccf => self.exec_ccf(),
            Instr::Alu(op, o) => self.exec_alu(op, o),
            Instr::AluImm(op) => self.exec_alu_imm(op),
            // excluded by the precondition
            _ => Err(FaultKind::UnknownOpcode(0)),
        }
    }

    /// Loads and stores between registers and memory.
    fn exec_load(&mut self, i: Instr) -> (r: Result<(), FaultKind>)
        requires
            old(self).wf(),
            i is LdImm || i is LdAFromDe || i is LdHlIncA || i is LdAHlInc || i is LdAHlDec
            || i is Ld || i is StoreHighImm || i is StoreHighC || i is StoreAbs
            || i is LoadHighImm || i is LoadAbs,
        ensures
            final(self).wf(),
            outcome(r, exec_spec(old(self)@, i), final(self)@),
    {
        match i {
            Instr::LdImm(o) => self.exec_ld_imm(o),
            Instr::LdAFromDe => self.exec_ld_a_from_de(),
            Instr::LdHlIncA => self.exec_ld_hl_inc_a(),
            Instr::LdAHlInc => self.exec_ld_a_hl_inc(),
            Instr::LdAHlDec => self.exec_ld_a_hl_dec(),
            Instr::Ld(dst, src) => self.exec_ld(dst, src),
            Instr::StoreHighImm => self.exec_store_high_imm(),
            Instr::StoreHighC => self.exec_store_high_c(),
            Instr::StoreAbs => self.exec_store_abs(),
            Instr::LoadHighImm => self.exec_load_high_imm(),
            Instr::LoadAbs => self.exec_load_abs(),
            // excluded by the precondition
            _ => Err(FaultKind::UnknownOpcode(0)),
        }
    }

    /// Jumps, calls, returns, the stack and the interrupt gate.
    fn exec_flow(&mut self, i: Instr) -> (r: Result<(), FaultKind>)
        requires
            old(self).wf(),
            i is Jr || i is Ret || i is Reti || i is Pop || i is Push || i is Jp
            || i is Call || i is JpHl || i is Di || i is Ei,
        ensures
            final(self).wf(),
            outcome(r, exec_spec(old(self)@, i), final(self)@),
    {
        match i {
            Instr::Jr(c) => self.instr_jr(c),
            Instr::Ret(c) => self.instr_ret(c),
            Instr::Reti => self.exec_reti(),
            Instr::Pop(p) => self.exec_pop(p),
            Instr::Push(p) => self.exec_push(p),
            Instr::Jp(c) => self.exec_jp(c),
            Instr::Call(c) => self.instr_call(c),
            Instr::JpHl => self.exec_jp_hl(),
            Instr::Di => self.exec_di(),
            Instr::Ei => self.exec_ei(),
            // excluded by the precondition
            _ => Err(FaultKind::UnknownOpcode(0)),
        }
    }

    /// Executes one base-table instruction whose opcode byte has been fetched.
    fn execute(&mut self, i: Instr) -> (r: Result<(), FaultKind>)
        requires
            old(self).wf(),
        ensures
            final(self).wf(),
            outcome(r, exec_spec(old(self)@, i), final(self)@),
    {
        match i {
            Instr::Nop | Instr::Prefix => {
                proof {
                    reveal(exec_spec);
                }
                Ok(())
            },
            Instr::LdPairImm(..) | Instr::AddHl(..) | Instr::IncPair(..) | Instr::DecPair(..)
            | Instr::Inc(..) | Instr::Dec(..) | Instr::Rlca | Instr::Cpl | Instr::Scf | Instr::Ccf
            | Instr::Alu(..) | Instr::AluImm(..) => self.exec_arith(i),
            Instr::LdImm(..) | Instr::LdAFromDe | Instr::LdHlIncA | Instr::LdAHlInc
            | Instr::LdAHlDec | Instr::Ld(..) | Instr::StoreHighImm | Instr::StoreHighC
            | Instr::StoreAbs | Instr::LoadHighImm | Instr::LoadAbs => self.exec_load(i),
            _ => self.exec_flow(i),
        }
    }

    fn exec_shift(&mut self, op: crate::alu::ShiftOp, o: Operand) -> (r: Result<(), FaultKind>)
        requires
            old(self).wf(),
        ensures
            final(self).wf(),
            outcome(r, exec_cb_spec(old(self)@, CbInstr::Shift(op, o)), final(self)@),
    {
        reveal(exec_cb_spec);
        let v = self.get_operand(o)?;
        let out = shift(op, v, self.regs.carry);
        self.regs.zero = out.zero;
        self.regs.carry = out.carry;
        self.set_operand(o, out.value)
    }

    fn exec_test_bit(&mut self, b: u8, o: Operand) -> (r: Result<(), FaultKind>)
        requires
            old(self).wf(),
        ensures
            final(self).wf(),
            outcome(r, exec_cb_spec(old(self)@, CbInstr::TestBit(b, o)), final(self)@),
    {
        reveal(exec_cb_spec);
        let v = self.get_operand(o)?;
        self.regs.zero = v & (1u8 << (b % 8)) == 0;
        Ok(())
    }

    fn exec_reset_bit(&mut self, b: u8, o: Operand) -> (r: Result<(), FaultKind>)
        requires
            old(self).wf(),
        ensures
            final(self).wf(),
            outcome(r, exec_cb_spec(old(self)@, CbInstr::ResetBit(b, o)), final(self)@),
    {
        reveal(exec_cb_spec);
        let v = self.get_operand(o)?;
        self.set_operand(o, v & !(1u8 << (b % 8)))
    }

    fn exec_set_bit(&mut self, b: u8, o: Operand) -> (r: Result<(), FaultKind>)
        requires
            old(self).wf(),
        ensures
            final(self).wf(),
            outcome(r, exec_cb_spec(old(self)@, CbInstr::SetBit(b, o)), final(self)@),
    {
        reveal(exec_cb_spec);
        let v = self.get_operand(o)?;
        self.set_operand(o, v | (1u8 << (b % 8)))
    }

    /// Executes one extended-table instruction whose two opcode bytes have
    /// been fetched.
    fn execute_cb(&mut self, i: CbInstr) -> (r: Result<(), FaultKind>)
        requires
            old(self).wf(),
        ensures
            final(self).wf(),
            outcome(r, exec_cb_spec(old(self)@, i), final(self)@),
    {
        match i {
            CbInstr::Shift(op, o) => self.exec_shift(op, o),
            CbInstr::TestBit(b, o) => self.exec_test_bit(b, o),
            CbInstr::ResetBit(b, o) => self.exec_reset_bit(b, o),
            CbInstr::SetBit(b, o) => self.exec_set_bit(b, o),
        }
    }

    /// Fetches, decodes and executes the instruction at PC.
    fn run_instruction(&mut self) -> (r: Result<(), Fault>)
        requires
            old(self).wf(),
        ensures
            final(self).wf(),
            match r {
                Ok(_) => instruction_spec(old(self)@) == Ok::<Machine, Fault>(final(self)@),
                Err(f) => instruction_spec(old(self)@) == Err::<Machine, Fault>(f),
            },
    {
        let pc = self.regs.pc;
        let op = match self.fetch8() {
            Ok(b) => b,
            Err(kind) => return Err(Fault { pc, kind }),
        };
        let result = match decode(op) {
            None => return Err(Fault { pc, kind: FaultKind::UnknownOpcode(op) }),
            Some(Instr::Prefix) => {
                let op2 = match self.fetch8() {
                    Ok(b) => b,
                    Err(kind) => return Err(Fault { pc, kind }),
                };
                match decode_cb(op2) {
                    None => return Err(Fault { pc, kind: FaultKind::UnknownExtendedOpcode(op2) }),
                    Some(ci) => self.execute_cb(ci),
                }
            },
            Some(i) => self.execute(i),
        };
        match result {
            Ok(()) => Ok(()),
            Err(kind) => Err(Fault { pc, kind }),
        }
    }

    /// Ticks the peripheral and moves a frame-complete edge into IF bit 0.
    fn tick(&mut self) -> (edge: bool)
        requires
            old(self).wf(),
        ensures
            final(self).wf(),
            (final(self)@, edge) == tick_machine(old(self)@),
    {
        self.video.step();
        if self.video.vblank_interrupt {
            self.video.vblank_interrupt = false;
            if self.regs.reg_if % 2 == 0 {
                self.regs.reg_if = self.regs.reg_if + 1;
            }
            true
        } else {
            false
        }
    }

    /// Takes the frame interrupt when IME is set and bit 0 is both pending
    /// and enabled.
    fn dispatch_interrupt(&mut self) -> (r: Result<(), FaultKind>)
        requires
            old(self).wf(),
        ensures
            final(self).wf(),
            outcome(r, interrupt_spec(old(self)@), final(self)@),
    {
        if self.regs.ime && self.regs.reg_if % 2 == 1 && self.regs.reg_ie % 2 == 1 {
            let pc = self.regs.pc;
            // clear the pending bit 0
            self.regs.reg_if = self.regs.reg_if - 1;
            self.regs.ime = false;
            self.push(pc)?;
            self.regs.pc = INTERRUPT_VECTOR;
        }
        Ok(())
    }

    /// Performs one instruction (a prefixed one counts as one), ticks the
    /// peripheral once and dispatches the frame interrupt. Returns whether
    /// the peripheral completed a frame; a fault is fatal to the caller.
    pub fn step(&mut self) -> (r: Result<bool, Fault>)
        requires
            old(self).wf(),
        ensures
            final(self).wf(),
            match r {
                Ok(edge) => step_spec(old(self)@) == Ok::<(Machine, bool), Fault>((final(self)@, edge)),
                Err(f) => step_spec(old(self)@) == Err::<(Machine, bool), Fault>(f),
            },
    {
        let pc = self.regs.pc;
        self.run_instruction()?;
        let edge = self.tick();
        match self.dispatch_interrupt() {
            Ok(()) => Ok(edge),
            Err(kind) => Err(Fault { pc, kind }),
        }
    }
}

} // verus!
