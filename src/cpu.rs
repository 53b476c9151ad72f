//! The machine state as one owned value, its construction, and the address
//! decoder through which every memory access goes.

use crate::machine::{
    dma_fault, dma_oam, dma_source, read16_spec, read_spec, read_value, readable, rom_byte,
    write16_spec, write_spec, FaultKind, Machine, Registers, DMA_LENGTH, DMA_TRIGGER,
    BANK_SELECT, HRAM_SIZE, ROM_BANK_SIZE, WRAM_SIZE,
};
use crate::video::Video;
use vstd::prelude::*;

verus! {

/// Reset value of PC.
pub const RESET_PC: u16 = 0x0150;

/// Reset value of SP.
pub const RESET_SP: u16 = 0xffc0;

pub struct CPU {
    pub(crate) regs: Registers,
    pub(crate) rom: Vec<u8>,
    pub(crate) rom_bank: u8,
    pub(crate) wram: Vec<u8>,
    pub(crate) hram: Vec<u8>,
    pub(crate) timer: u8,
    pub(crate) video: Video,
}

impl View for CPU {
    type V = Machine;

    open(crate) spec fn view(&self) -> Machine {
        Machine {
            regs: self.regs,
            rom: self.rom@,
            rom_bank: self.rom_bank,
            wram: self.wram@,
            hram: self.hram@,
            timer: self.timer,
            video: self.video@,
        }
    }
}

/// The machine right after loading `rom`.
pub open spec fn reset_spec(rom: Seq<u8>) -> Machine {
    Machine {
        regs: Registers {
            a: 0,
            b: 0,
            c: 0,
            d: 0,
            e: 0,
            h: 0,
            l: 0,
            pc: RESET_PC,
            sp: RESET_SP,
            zero: true,
            carry: true,
            ime: true,
            reg_if: 0,
            reg_ie: 0,
        },
        rom,
        rom_bank: 1,
        wram: Seq::new(WRAM_SIZE as nat, |i: int| 0u8),
        hram: Seq::new(HRAM_SIZE as nat, |i: int| 0u8),
        timer: 0,
        video: crate::video::VideoState {
            lcdc: 0x80,
            stat: 0,
            ly: 0,
            counter: 0,
            vram: Seq::new(crate::video::VRAM_SIZE as nat, |i: int| 0u8),
            oam: Seq::new(crate::video::OAM_SIZE as nat, |i: int| 0u8),
            vblank_interrupt: false,
        },
    }
}

/// What a write-like operation owes: on success the new state is the one
/// the model gives, on failure the model fails with the same fault.
pub open spec fn outcome(r: Result<(), FaultKind>, expected: Result<Machine, FaultKind>, after: Machine) -> bool {
    match r {
        Ok(_) => expected == Ok::<Machine, FaultKind>(after),
        Err(e) => expected == Err::<Machine, FaultKind>(e),
    }
}

impl CPU {
    pub open spec fn wf(&self) -> bool {
        self@.wf()
    }

    /// A machine in its reset state with `rom` loaded.
    pub fn new(rom: Vec<u8>) -> (r: CPU)
        ensures
            r.wf(),
            r@ == reset_spec(rom@),
    {
        let wram: Vec<u8> = vec![0u8; WRAM_SIZE];
        let hram: Vec<u8> = vec![0u8; HRAM_SIZE];
        assert(wram@ =~= Seq::new(WRAM_SIZE as nat, |i: int| 0u8));
        assert(hram@ =~= Seq::new(HRAM_SIZE as nat, |i: int| 0u8));
        let r = CPU {
            regs: Registers {
                a: 0,
                b: 0,
                c: 0,
                d: 0,
                e: 0,
                h: 0,
                l: 0,
                pc: RESET_PC,
                sp: RESET_SP,
                zero: true,
                carry: true,
                ime: true,
                reg_if: 0,
                reg_ie: 0,
            },
            rom,
            rom_bank: 1,
            wram,
            hram,
            timer: 0,
            video: Video::new(),
        };
        assert(r@.video == reset_spec(rom@).video);
        r
    }

    /// The registers and flags.
    pub fn registers(&self) -> (r: Registers)
        ensures
            r == self@.regs,
    {
        self.regs
    }

    /// The display peripheral.
    pub fn video(&self) -> (r: &Video)
        ensures
            r@ == self@.video,
    {
        &self.video
    }

    /// Sets the byte that the timer register reads as.
    pub fn set_timer(&mut self, value: u8)
        ensures
            final(self)@ == (Machine { timer: value, ..old(self)@ }),
    {
        self.timer = value;
    }

    fn rom_at(&self, i: usize) -> (r: u8)
        ensures
            r == rom_byte(self.rom@, i as int),
    {
        if i < self.rom.len() {
            self.rom[i]
        } else {
            0
        }
    }

    /// Reads a byte through the address map.
    pub fn read_mem(&self, addr: u16) -> (r: Result<u8, FaultKind>)
        requires
            self.wf(),
        ensures
            r == read_spec(self@, addr),
    {
        reveal(read_spec);
        if addr < 0x4000 {
            Ok(self.rom_at(addr as usize))
        } else if addr < 0x8000 {
            Ok(self.rom_at(addr as usize - 0x4000 + self.rom_bank as usize * ROM_BANK_SIZE))
        } else if addr < 0xa000 {
            Ok(self.video.vram[addr as usize - 0x8000])
        } else if addr >= 0xc000 && addr < 0xe000 {
            Ok(self.wram[addr as usize - 0xc000])
        } else if addr == 0xff00 {
            Ok(0xff)
        } else if addr == 0xff04 {
            Ok(self.timer)
        } else if addr == 0xff0f {
            Ok(self.regs.reg_if)
        } else if addr == 0xff25 {
            Ok(0)
        } else if addr == 0xff40 {
            Ok(self.video.lcdc)
        } else if addr == 0xff41 {
            Ok(self.video.stat)
        } else if addr == 0xff44 {
            Ok(self.video.ly)
        } else if addr >= 0xff80 && addr < 0xffff {
            Ok(self.hram[addr as usize - 0xff80])
        } else if addr == 0xffff {
            Ok(self.regs.reg_ie)
        } else {
            Err(FaultKind::UnmappedRead(addr))
        }
    }

    /// OAM DMA: copies 160 bytes from `value * 256` on into OAM.
    fn dma(&mut self, value: u8) -> (r: Result<(), FaultKind>)
        requires
            old(self).wf(),
        ensures
            final(self).wf(),
            outcome(r, write_spec(old(self)@, DMA_TRIGGER, value), final(self)@),
    {
        reveal(write_spec);
        reveal(read_spec);
        let ghost m0 = self@;
        let mut n: usize = 0;
        while n < DMA_LENGTH
            invariant
                self.wf(),
                0 <= n <= DMA_LENGTH,
                dma_fault(value, 0) == dma_fault(value, n as int),
                forall|k: int| 0 <= k < n ==> readable(#[trigger] dma_source(value, k)),
                self@ == (Machine { video: crate::video::VideoState { oam: self.video.oam@, ..m0.video }, ..m0 }),
                forall|k: int| 0 <= k < n ==> self.video.oam@[k] == read_value(m0, dma_source(value, k)),
                forall|k: int| n <= k < self.video.oam@.len() ==> self.video.oam@[k] == m0.video.oam[k],
            decreases DMA_LENGTH - n,
        {
            reveal(write_spec);
            reveal(read_spec);
            let src: u16 = (value as u16) * 256 + n as u16;
            assert(src == dma_source(value, n as int));
            match self.read_mem(src) {
                Ok(b) => {
                    self.video.oam.set(n, b);
                },
                Err(e) => {
                    return Err(e);
                },
            }
            n = n + 1;
        }
        assert(self.video.oam@ =~= dma_oam(m0, value));
        Ok(())
    }

    /// Writes a byte through the address map.
    pub fn write_mem(&mut self, addr: u16, value: u8) -> (r: Result<(), FaultKind>)
        requires
            old(self).wf(),
        ensures
            final(self).wf(),
            outcome(r, write_spec(old(self)@, addr, value), final(self)@),
    {
        reveal(write_spec);
        if addr == BANK_SELECT {
            self.rom_bank = value;
        } else if addr >= 0xc000 && addr < 0xe000 {
            self.wram.set(addr as usize - 0xc000, value);
        } else if addr >= 0x8000 && addr < 0xa000 {
            self.video.vram.set(addr as usize - 0x8000, value);
        } else if addr >= 0xff80 && addr < 0xffff {
            self.hram.set(addr as usize - 0xff80, value);
        } else if addr == 0xff00 || addr == 0xff01 || addr == 0xff02 || addr == 0xff06 || addr
            == 0xff07 || addr == 0xff10 || addr == 0xff12 || addr == 0xff14 || addr == 0xff17
            || addr == 0xff19 || addr == 0xff1a || addr == 0xff1c || addr == 0xff21 || addr
            == 0xff23 || addr == 0xff24 || addr == 0xff25 || addr == 0xff26 || addr == 0xff42
            || addr == 0xff43 || addr == 0xff47 || addr == 0xff48 || addr == 0xff49 || addr
            == 0xff4a || addr == 0xff4b {
            // audio, serial, timer control, scroll and palette registers
        } else if addr == 0xff0f {
            self.regs.reg_if = value;
        } else if addr == 0xff40 {
            self.video.lcdc = value;
        } else if addr == 0xff41 {
            self.video.stat = value;
        } else if addr == DMA_TRIGGER {
            return self.dma(value);
        } else if addr == 0xffff {
            self.regs.reg_ie = value;
        } else {
            return Err(FaultKind::UnmappedWrite(addr));
        }
        Ok(())
    }

    /// Reads a little-endian 16-bit value.
    pub(crate) fn read_mem16(&self, addr: u16) -> (r: Result<u16, FaultKind>)
        requires
            self.wf(),
        ensures
            r == read16_spec(self@, addr),
    {
        let low = self.read_mem(addr)?;
        let high = self.read_mem(addr.wrapping_add(1))?;
        Ok(low as u16 + (high as u16) * 256)
    }

    /// Writes a little-endian 16-bit value, low byte first.
    pub(crate) fn write_mem16(&mut self, addr: u16, value: u16) -> (r: Result<(), FaultKind>)
        requires
            old(self).wf(),
        ensures
            final(self).wf(),
            outcome(r, write16_spec(old(self)@, addr, value), final(self)@),
    {
        self.write_mem(addr, (value % 256) as u8)?;
        self.write_mem(addr.wrapping_add(1), (value / 256) as u8)
    }
}

} // verus!
