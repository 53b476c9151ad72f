//! Properties of the machine model that relate several operations.

use crate::instr::{decode_cb_spec, decode_spec, Cond, Instr};
use crate::machine::{
    dma_fault, dma_source, exec_spec, fetch8_spec, instruction_spec, pop_spec, push_spec,
    read16_spec, read_spec, read_value, readable, rom_byte, step_spec, writable, write_spec,
    Fault, FaultKind, Machine, BANK_SELECT, DMA_LENGTH, DMA_TRIGGER, INTERRUPT_VECTOR,
    ROM_BANK_SIZE,
};
use crate::video::tick_spec;
use vstd::prelude::*;

verus! {

/// Work RAM or high RAM: memory that reads back what was written.
pub open spec fn ram_address(a: u16) -> bool {
    (0xc000 <= a < 0xe000) || (0xff80 <= a < 0xffff)
}

/// Both bytes that a push from `sp` stores lie in RAM.
pub open spec fn stack_in_ram(sp: u16) -> bool {
    ram_address(sp.wrapping_sub(2)) && ram_address(sp.wrapping_sub(1))
}

/// After the bank-select write of `v`, offset `k` of the switchable window
/// reads ROM byte `v * 0x4000 + k`, or 0 past the end of the image.
pub proof fn lemma_bank_switch(m: Machine, v: u8, k: u16)
    requires
        m.wf(),
        k < ROM_BANK_SIZE,
    ensures
        write_spec(m, BANK_SELECT, v) is Ok,
        read_spec(write_spec(m, BANK_SELECT, v)->Ok_0, (0x4000 + k) as u16) == Ok::<u8, FaultKind>(
            rom_byte(m.rom, v * ROM_BANK_SIZE + k),
        ),
{
    reveal(write_spec);
    reveal(read_spec);
}

/// A push followed by a pop returns the pushed value and restores SP.
pub proof fn lemma_push_pop(m: Machine, x: u16)
    requires
        m.wf(),
        stack_in_ram(m.regs.sp),
    ensures
        push_spec(m, x) is Ok,
        pop_spec(push_spec(m, x)->Ok_0) is Ok,
        pop_spec(push_spec(m, x)->Ok_0)->Ok_0.1 == x,
        pop_spec(push_spec(m, x)->Ok_0)->Ok_0.0.regs.sp == m.regs.sp,
{
    reveal(write_spec);
    reveal(read_spec);
    assert(x == (x % 256) as u8 + ((x / 256) as u8) * 256) by (nonlinear_arith);
}

/// Executing a call at A whose target T holds a return comes back to A + 3
/// with SP as it was. Here the three call bytes and the return byte are read
/// from the fixed ROM bank.
pub proof fn lemma_call_return(m: Machine, t: u16)
    requires
        m.wf(),
        m.regs.pc + 3 <= ROM_BANK_SIZE,
        m.regs.pc + 3 <= m.rom.len(),
        t < ROM_BANK_SIZE,
        t < m.rom.len(),
        m.rom[m.regs.pc as int] == 0xcd,
        m.rom[m.regs.pc + 1] + m.rom[m.regs.pc + 2] * 256 == t,
        m.rom[t as int] == 0xc9,
        stack_in_ram(m.regs.sp),
    ensures
        instruction_spec(m) is Ok,
        instruction_spec(instruction_spec(m)->Ok_0) is Ok,
        instruction_spec(instruction_spec(m)->Ok_0)->Ok_0.regs.pc == m.regs.pc + 3,
        instruction_spec(instruction_spec(m)->Ok_0)->Ok_0.regs.sp == m.regs.sp,
{
    reveal(write_spec);
    reveal(read_spec);
    reveal(exec_spec);
    let a = m.regs.pc;
    assert(decode_spec(0xcd) == Some(Instr::Call(Cond::Always)));
    assert(decode_spec(0xc9) == Some(Instr::Ret(Cond::Always)));
    let m1 = instruction_spec(m)->Ok_0;
    assert(m1.regs.pc == t);
    assert(m1.regs.sp == m.regs.sp.wrapping_sub(2));
    let ret = (a + 3) as u16;
    assert(ret == (ret % 256) as u8 + ((ret / 256) as u8) * 256) by (nonlinear_arith);
}

/// With IME set and IE bit 0 set, a step whose peripheral tick completes a
/// frame clears IF bit 0 and IME, pushes the PC that the instruction left,
/// and continues at the interrupt vector. `m` is the machine after the
/// step's instruction.
pub proof fn lemma_interrupt_dispatch(m0: Machine, m: Machine)
    requires
        m0.wf(),
        m.wf(),
        instruction_spec(m0) == Ok::<Machine, Fault>(m),
        m.regs.ime,
        m.regs.reg_ie % 2 == 1,
        tick_spec(m.video).vblank_interrupt,
        stack_in_ram(m.regs.sp),
    ensures
        step_spec(m0) is Ok,
        step_spec(m0)->Ok_0.1,
        step_spec(m0)->Ok_0.0.regs.reg_if % 2 == 0,
        !step_spec(m0)->Ok_0.0.regs.ime,
        step_spec(m0)->Ok_0.0.regs.pc == INTERRUPT_VECTOR,
        step_spec(m0)->Ok_0.0.regs.sp == m.regs.sp.wrapping_sub(2),
        read16_spec(step_spec(m0)->Ok_0.0, m.regs.sp.wrapping_sub(2)) == Ok::<u16, FaultKind>(m.regs.pc),
{
    reveal(write_spec);
    reveal(read_spec);
    let pc = m.regs.pc;
    assert(pc == (pc % 256) as u8 + ((pc / 256) as u8) * 256) by (nonlinear_arith);
}

/// A write of `v` to the DMA trigger whose source bytes can all be read
/// copies exactly the 160 bytes from `v << 8` on into OAM, in order, and
/// changes nothing else.
pub proof fn lemma_dma_copy(m: Machine, v: u8)
    requires
        m.wf(),
        dma_fault(v, 0) is None,
    ensures
        write_spec(m, DMA_TRIGGER, v) is Ok,
        ({
            let m1 = write_spec(m, DMA_TRIGGER, v)->Ok_0;
            &&& m1.video.oam.len() == m.video.oam.len()
            &&& forall|i: int|
                0 <= i < DMA_LENGTH ==> read_spec(m, #[trigger] dma_source(v, i))
                    == Ok::<u8, FaultKind>(m1.video.oam[i])
            &&& forall|i: int| DMA_LENGTH <= i < m.video.oam.len() ==> m1.video.oam[i] == m.video.oam[i]
            &&& m1.regs == m.regs
            &&& m1.wram == m.wram
            &&& m1.hram == m.hram
            &&& m1.video.vram == m.video.vram
        }),
{
    reveal(write_spec);
    reveal(read_spec);
    assert forall|i: int| 0 <= i < DMA_LENGTH implies readable(#[trigger] dma_source(v, i)) by {
        lemma_dma_fault_none(v, 0, i);
    }
}

proof fn lemma_dma_fault_none(v: u8, n: int, i: int)
    requires
        0 <= n <= i < DMA_LENGTH,
        dma_fault(v, n) is None,
    ensures
        readable(dma_source(v, i)),
    decreases i - n,
{
    if n < i {
        lemma_dma_fault_none(v, n + 1, i);
    }
}

/// An opcode with no entry in the base table ends the step with a fault
/// that names it and its address.
pub proof fn lemma_unknown_opcode_faults(m: Machine)
    requires
        readable(m.regs.pc),
        decode_spec(read_value(m, m.regs.pc)) is None,
    ensures
        step_spec(m) == Err::<(Machine, bool), Fault>(
            Fault { pc: m.regs.pc, kind: FaultKind::UnknownOpcode(read_value(m, m.regs.pc)) },
        ),
{
    reveal(read_spec);
}

/// A prefix followed by a byte with no entry in the extended table ends the
/// step with a fault that names that byte and the address of the prefix.
pub proof fn lemma_unknown_extended_opcode_faults(m: Machine)
    requires
        readable(m.regs.pc),
        readable(m.regs.pc.wrapping_add(1)),
        read_value(m, m.regs.pc) == 0xcb,
        decode_cb_spec(read_value(fetch8_spec(m)->Ok_0.0, m.regs.pc.wrapping_add(1))) is None,
    ensures
        step_spec(m) == Err::<(Machine, bool), Fault>(
            Fault {
                pc: m.regs.pc,
                kind: FaultKind::UnknownExtendedOpcode(
                    read_value(fetch8_spec(m)->Ok_0.0, m.regs.pc.wrapping_add(1)),
                ),
            },
        ),
{
    reveal(read_spec);
    assert(decode_spec(0xcb) == Some(Instr::Prefix));
}

/// A read outside the address map is a fault, never a value.
pub proof fn lemma_unmapped_read_faults(m: Machine, addr: u16)
    requires
        !readable(addr),
    ensures
        read_spec(m, addr) == Err::<u8, FaultKind>(FaultKind::UnmappedRead(addr)),
{
    reveal(read_spec);
}

/// A write outside the address map and its list of accepted registers is a
/// fault, never a silent no-op.
pub proof fn lemma_unmapped_write_faults(m: Machine, addr: u16, v: u8)
    requires
        !writable(addr),
    ensures
        write_spec(m, addr, v) == Err::<Machine, FaultKind>(FaultKind::UnmappedWrite(addr)),
{
    reveal(write_spec);
}

} // verus!
