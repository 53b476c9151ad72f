//! The display peripheral as the core sees it: its byte stores, its three
//! status registers, scanline timing and the frame-complete signal.

use vstd::prelude::*;

verus! {

/// Ticks per scanline.
pub const LINE_TICKS: u32 = 100;

/// The scanline whose start completes a frame.
pub const VBLANK_LINE: u8 = 145;

pub const VRAM_SIZE: usize = 0x2000;

pub const OAM_SIZE: usize = 0x100;

pub const SCREEN_WIDTH: usize = 160;

pub const SCREEN_HEIGHT: usize = 144;

pub struct Video {
    pub lcdc: u8,
    pub stat: u8,
    pub ly: u8,
    pub counter: u32,
    pub vram: Vec<u8>,
    pub oam: Vec<u8>,
    pub vblank_interrupt: bool,
}

/// The mathematical state of the display peripheral.
pub struct VideoState {
    pub lcdc: u8,
    pub stat: u8,
    pub ly: u8,
    pub counter: u32,
    pub vram: Seq<u8>,
    pub oam: Seq<u8>,
    pub vblank_interrupt: bool,
}

impl View for Video {
    type V = VideoState;

    open spec fn view(&self) -> VideoState {
        VideoState {
            lcdc: self.lcdc,
            stat: self.stat,
            ly: self.ly,
            counter: self.counter,
            vram: self.vram@,
            oam: self.oam@,
            vblank_interrupt: self.vblank_interrupt,
        }
    }
}

impl VideoState {
    pub open spec fn wf(self) -> bool {
        &&& self.counter < LINE_TICKS
        &&& self.vram.len() == VRAM_SIZE
        &&& self.oam.len() == OAM_SIZE
    }
}

/// The mode bits (low two bits of `stat`) for a line and a tick within it.
pub open spec fn mode_spec(ly: u8, counter: int) -> u8 {
    if ly >= 144 {
        1
    } else if counter < 10 {
        2
    } else if counter < 50 {
        3
    } else {
        0
    }
}

/// One tick: the mode bits of `stat` follow the position in the line; at
/// the end of a line `ly` advances, and reaching the frame-complete line
/// raises the frame signal.
pub open spec fn tick_spec(v: VideoState) -> VideoState {
    let counter = v.counter + 1;
    let stat = (v.stat - v.stat % 4 + mode_spec(v.ly, counter)) as u8;
    if counter < LINE_TICKS {
        VideoState { stat, counter: counter as u32, ..v }
    } else {
        let ly = ((v.ly + 1) % 256) as u8;
        VideoState {
            stat,
            counter: 0,
            ly,
            vblank_interrupt: v.vblank_interrupt || ly == VBLANK_LINE,
            ..v
        }
    }
}

/// Whether the background pixel at (x, y) is drawn dark: the tile map at
/// 0x1800 picks a tile, and the pixel is dark when its bit is set in both
/// bytes of the tile row.
pub open spec fn pixel_dark_spec(vram: Seq<u8>, x: int, y: int) -> bool {
    let tile = vram[0x1800 + x / 8 + (y / 8) * 0x20];
    let row = tile * 16 + (y % 8) * 2;
    let bit = 1u8 << ((x % 8) as u8);
    (vram[row] & bit) == bit && (vram[row + 1] & bit) == bit
}

impl Video {
    pub open spec fn wf(&self) -> bool {
        self@.wf()
    }

    pub fn new() -> (r: Video)
        ensures
            r.wf(),
            r.lcdc == 0x80,
            r.stat == 0,
            r.ly == 0,
            r.counter == 0,
            !r.vblank_interrupt,
            r.vram@ == Seq::new(VRAM_SIZE as nat, |i: int| 0u8),
            r.oam@ == Seq::new(OAM_SIZE as nat, |i: int| 0u8),
    {
        let vram: Vec<u8> = vec![0u8; VRAM_SIZE];
        let oam: Vec<u8> = vec![0u8; OAM_SIZE];
        assert(vram@ =~= Seq::new(VRAM_SIZE as nat, |i: int| 0u8));
        assert(oam@ =~= Seq::new(OAM_SIZE as nat, |i: int| 0u8));
        Video { lcdc: 0x80, stat: 0x00, ly: 0, counter: 0, vram, oam, vblank_interrupt: false }
    }

    /// Advances the display timing by one tick.
    pub fn step(&mut self)
        requires
            old(self).wf(),
        ensures
            final(self)@ == tick_spec(old(self)@),
            final(self).wf(),
    {
        self.counter = self.counter + 1;
        let mode: u8 = if self.ly >= 144 {
            1
        } else if self.counter < 10 {
            2
        } else if self.counter < 50 {
            3
        } else {
            0
        };
        self.stat = self.stat - self.stat % 4 + mode;
        if self.counter < LINE_TICKS {
            return;
        }
        self.counter = 0;
        self.ly = self.ly.wrapping_add(1);
        if self.ly == VBLANK_LINE {
            self.vblank_interrupt = true;
        }
    }

    /// Whether the background pixel at (x, y) of the screen is dark.
    pub fn pixel_dark(&self, x: usize, y: usize) -> (r: bool)
        requires
            self.wf(),
            x < SCREEN_WIDTH,
            y < SCREEN_HEIGHT,
        ensures
            r == pixel_dark_spec(self.vram@, x as int, y as int),
    {
        let tile = self.vram[0x1800 + x / 8 + y / 8 * 0x20] as usize;
        let row = tile * 16 + (y % 8) * 2;
        let bit: u8 = 1u8 << ((x % 8) as u8);
        (self.vram[row] & bit) == bit && (self.vram[row + 1] & bit) == bit
    }
}

} // verus!
