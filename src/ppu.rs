//! Picture Processing Unit: register file, VRAM with nametable mirroring and
//! palette aliasing, the dot/scanline clock, VBlank/NMI, sprite-0 hit, and
//! whole-frame rendering into an RGBA framebuffer.

use crate::cartridge::{Cartridge, MapperRegs, Mirroring, regs_after_irq_clock, zeroed};
use vstd::prelude::*;

verus! {

pub const SCREEN_WIDTH: usize = 256;

pub const SCREEN_HEIGHT: usize = 240;

/// Bytes in the RGBA framebuffer.
pub const FRAME_BYTES: usize = 245760;

pub const DOTS_PER_SCANLINE: u64 = 341;

pub const SCANLINES_PER_FRAME: u64 = 262;

pub const DOTS_PER_FRAME: u64 = 89342;

/// The CPU-visible register latches and the internal `v`/`t`/`x`/`w` state.
#[derive(Clone, Copy, Debug, PartialEq, Eq, Structural)]
pub struct Registers {
    pub ctrl: u8,
    pub mask: u8,
    pub status: u8,
    pub oam_addr: u8,
    pub scroll_x: u8,
    pub scroll_y: u8,
    pub addr: u16,
    pub data_buffer: u8,
    /// Current VRAM address.
    pub v: u16,
    /// Temporary VRAM address.
    pub t: u16,
    /// Fine X scroll.
    pub x: u8,
    /// Write toggle shared by `$2005` and `$2006`.
    pub w: bool,
}

pub struct Renderer {
    pub scanline: u16,
    pub cycle: u16,
    pub frame: u64,
    pub frame_buffer: Vec<u8>,
    pub palette: Vec<u8>,
    pub vram: Vec<u8>,
    pub oam: Vec<u8>,
}

pub struct Ppu {
    pub registers: Registers,
    pub renderer: Renderer,
    /// NMI latch raised at VBlank entry when `$2000.7` is set.
    pub nmi: bool,
    pub cartridge: Option<Cartridge>,
}

/// RGB of an entry of the fixed 64-colour NTSC palette.
pub fn palette_rgb(i: u8) -> (u8, u8, u8) {
    match i % 64 {
        0 => (0x80, 0x80, 0x80),
        1 => (0x00, 0x3D, 0xA6),
        2 => (0x00, 0x12, 0xB0),
        3 => (0x44, 0x00, 0x96),
        4 => (0xA1, 0x00, 0x5E),
        5 => (0xC7, 0x00, 0x28),
        6 => (0xBA, 0x06, 0x00),
        7 => (0x8C, 0x17, 0x00),
        8 => (0x5C, 0x2F, 0x00),
        9 => (0x10, 0x45, 0x00),
        10 => (0x05, 0x4A, 0x00),
        11 => (0x00, 0x47, 0x2E),
        12 => (0x00, 0x41, 0x66),
        13 => (0x00, 0x00, 0x00),
        14 => (0x05, 0x05, 0x05),
        15 => (0x05, 0x05, 0x05),
        16 => (0xC7, 0xC7, 0xC7),
        17 => (0x00, 0x77, 0xFF),
        18 => (0x21, 0x55, 0xFF),
        19 => (0x82, 0x37, 0xFA),
        20 => (0xEB, 0x2F, 0xB5),
        21 => (0xFF, 0x29, 0x50),
        22 => (0xFF, 0x22, 0x00),
        23 => (0xD6, 0x32, 0x00),
        24 => (0xC4, 0x62, 0x00),
        25 => (0x35, 0x80, 0x00),
        26 => (0x05, 0x8F, 0x00),
        27 => (0x00, 0x8A, 0x55),
        28 => (0x00, 0x99, 0xCC),
        29 => (0x21, 0x21, 0x21),
        30 => (0x09, 0x09, 0x09),
        31 => (0x09, 0x09, 0x09),
        32 => (0xFF, 0xFF, 0xFF),
        33 => (0x0F, 0xD7, 0xFF),
        34 => (0x69, 0xA2, 0xFF),
        35 => (0xD4, 0x80, 0xFF),
        36 => (0xFF, 0x45, 0xF3),
        37 => (0xFF, 0x61, 0x8B),
        38 => (0xFF, 0x88, 0x33),
        39 => (0xFF, 0x9C, 0x12),
        40 => (0xFA, 0xBC, 0x20),
        41 => (0x9F, 0xE3, 0x0E),
        42 => (0x2B, 0xF0, 0x35),
        43 => (0x0C, 0xF0, 0xA4),
        44 => (0x05, 0xFB, 0xFF),
        45 => (0x5E, 0x5E, 0x5E),
        46 => (0x0D, 0x0D, 0x0D),
        47 => (0x0D, 0x0D, 0x0D),
        48 => (0xFF, 0xFF, 0xFF),
        49 => (0xA6, 0xFC, 0xFF),
        50 => (0xB3, 0xEC, 0xFF),
        51 => (0xDA, 0xAB, 0xEB),
        52 => (0xFF, 0xA8, 0xF9),
        53 => (0xFF, 0xAB, 0xB3),
        54 => (0xFF, 0xD2, 0xB0),
        55 => (0xFF, 0xEF, 0xA6),
        56 => (0xFF, 0xF7, 0x9C),
        57 => (0xD7, 0xE8, 0x95),
        58 => (0xA6, 0xED, 0xAF),
        59 => (0xA2, 0xF2, 0xDA),
        60 => (0x99, 0xFF, 0xFC),
        61 => (0xDD, 0xDD, 0xDD),
        62 => (0x11, 0x11, 0x11),
        _ => (0x11, 0x11, 0x11),
    }
}

/// Index into the 2 KiB nametable memory for a PPU address in `$2000-$3EFF`.
pub open spec fn mirror_index(m: Mirroring, addr: u16) -> int {
    let index = (addr % 0x1000) as int;
    let table = index / 0x400;
    match m {
        Mirroring::Horizontal => if table == 0 {
            index
        } else if table == 3 {
            index - 0x800
        } else {
            index - 0x400
        },
        Mirroring::Vertical => if table >= 2 {
            index - 0x800
        } else {
            index
        },
        Mirroring::SingleScreenLower => index % 0x400,
        Mirroring::SingleScreenUpper => index % 0x400 + 0x400,
    }
}

/// Index into palette memory for a PPU address in `$3F00-$3FFF`; entries
/// `$10/$14/$18/$1C` alias `$00/$04/$08/$0C`.
pub open spec fn palette_index(addr: u16) -> int {
    let p = ((addr - 0x3F00) % 0x20) as int;
    if p >= 0x10 && p % 4 == 0 {
        p % 0x10
    } else {
        p
    }
}

/// Palette memory after writing `value` at slot `slot`. Slots $00/$04/$08/$0C
/// and $10/$14/$18/$1C are the same cells, so both copies are written.
pub open spec fn palette_written(pal: Seq<u8>, slot: int, value: u8) -> Seq<u8> {
    if slot % 4 == 0 {
        pal.update(slot % 16, value).update(slot % 16 + 16, value)
    } else {
        pal.update(slot, value)
    }
}

pub fn write_palette_slot(pal: &mut Vec<u8>, slot: usize, value: u8)
    requires
        old(pal)@.len() == 32,
        slot < 32,
    ensures
        final(pal)@ == palette_written(old(pal)@, slot as int, value),
{
    if slot % 4 == 0 {
        pal.set(slot % 16, value);
        pal.set(slot % 16 + 16, value);
    } else {
        pal.set(slot, value);
    }
}

/// Pixels in the framebuffer.
pub const PIXELS: usize = 61440;

/// Every pixel's alpha byte is 255.
pub open spec fn opaque_alpha(fb: Seq<u8>) -> bool {
    forall|p: int| 0 <= p < PIXELS ==> #[trigger] fb[4 * p + 3] == 255
}

/// A black, opaque picture.
fn black_frame() -> (r: Vec<u8>)
    ensures
        r@.len() == FRAME_BYTES,
        opaque_alpha(r@),
{
    let mut out: Vec<u8> = Vec::new();
    let mut i: usize = 0;
    while i < FRAME_BYTES
        invariant
            out@.len() == i,
            i % 4 == 0,
            i <= FRAME_BYTES,
            forall|p: int| 0 <= p && 4 * p + 3 < i ==> #[trigger] out@[4 * p + 3] == 255,
        decreases FRAME_BYTES - i,
    {
        out.push(0);
        out.push(0);
        out.push(0);
        out.push(255);
        i = i + 4;
    }
    out
}

/// Total dots since power-on.
pub open spec fn dots(r: &Renderer) -> int {
    r.frame as int * DOTS_PER_FRAME as int + r.scanline as int * DOTS_PER_SCANLINE as int
        + r.cycle as int
}

/// The register file after a CPU write of `value` to register `addr`.
pub open spec fn registers_after_write(r: Registers, addr: u16, value: u8) -> Registers {
    let reg = addr & 0x2007;
    if reg == 0x2000 {
        Registers { ctrl: value, t: (r.t & 0xF3FF) | (((value as u16) & 0x03) << 10u16), ..r }
    } else if reg == 0x2001 {
        Registers { mask: value, ..r }
    } else if reg == 0x2003 {
        Registers { oam_addr: value, ..r }
    } else if reg == 0x2004 {
        Registers { oam_addr: r.oam_addr.wrapping_add(1), ..r }
    } else if reg == 0x2005 {
        if !r.w {
            Registers {
                t: (r.t & 0xFFE0) | ((value as u16) >> 3u16),
                x: value & 0x07,
                scroll_x: value,
                w: true,
                ..r
            }
        } else {
            Registers {
                t: (((r.t & 0x8FFF) | (((value as u16) & 0x07) << 12u16)) & 0xFC1F) | (((value as u16)
                    & 0xF8) << 2u16),
                scroll_y: value,
                w: false,
                ..r
            }
        }
    } else if reg == 0x2006 {
        if !r.w {
            Registers { t: (r.t & 0x80FF) | (((value as u16) & 0x3F) << 8u16), w: true, ..r }
        } else {
            let t = (r.t & 0xFF00) | (value as u16);
            Registers { t, v: t, w: false, ..r }
        }
    } else if reg == 0x2007 {
        Registers { v: r.v.wrapping_add(vram_increment(r)), ..r }
    } else {
        r
    }
}

pub open spec fn vram_increment(r: Registers) -> u16 {
    if r.ctrl & 0x04 != 0 {
        32
    } else {
        1
    }
}

impl Renderer {
    pub open spec fn wf(&self) -> bool {
        &&& self.scanline < 262
        &&& self.cycle < 341
        &&& self.frame_buffer@.len() == FRAME_BYTES
        &&& opaque_alpha(self.frame_buffer@)
        &&& self.palette@.len() == 32
        &&& self.vram@.len() == 2048
        &&& self.oam@.len() == 256
    }

    fn new() -> (r: Renderer)
        ensures
            r.wf(),
            r.scanline == 0,
            r.cycle == 0,
            r.frame == 0,
            r.palette@ == Seq::new(32, |i: int| 0u8),
            r.vram@ == Seq::new(2048, |i: int| 0u8),
            r.oam@ == Seq::new(256, |i: int| 0u8),
    {
        Renderer {
            scanline: 0,
            cycle: 0,
            frame: 0,
            frame_buffer: black_frame(),
            palette: zeroed(32),
            vram: zeroed(2048),
            oam: zeroed(256),
        }
    }

    /// Advances one dot: dots wrap into scanlines, scanlines into frames.
    fn tick(&mut self)
        requires
            old(self).wf(),
            old(self).frame < u64::MAX,
        ensures
            final(self).wf(),
            dots(final(self)) == dots(old(self)) + 1,
            final(self).frame_buffer == old(self).frame_buffer,
            final(self).palette == old(self).palette,
            final(self).vram == old(self).vram,
            final(self).oam == old(self).oam,
    {
        self.cycle = self.cycle + 1;
        if self.cycle > 340 {
            self.cycle = 0;
            self.scanline = self.scanline + 1;
            if self.scanline > 261 {
                self.scanline = 0;
                self.frame = self.frame + 1;
            }
        }
    }
}

impl Registers {
    fn new() -> (r: Registers)
        ensures
            r == (Registers {
                ctrl: 0,
                mask: 0,
                status: 0,
                oam_addr: 0,
                scroll_x: 0,
                scroll_y: 0,
                addr: 0,
                data_buffer: 0,
                v: 0,
                t: 0,
                x: 0,
                w: false,
            }),
    {
        Registers {
            ctrl: 0,
            mask: 0,
            status: 0,
            oam_addr: 0,
            scroll_x: 0,
            scroll_y: 0,
            addr: 0,
            data_buffer: 0,
            v: 0,
            t: 0,
            x: 0,
            w: false,
        }
    }
}

impl Ppu {
    pub open spec fn wf(&self) -> bool {
        &&& self.renderer.wf()
        &&& self.registers.t < 0x8000
        &&& self.mem_ok()
    }

    /// The memories the PPU reads have their sizes.
    pub open spec fn mem_ok(&self) -> bool {
        &&& self.renderer.palette@.len() == 32
        &&& self.renderer.vram@.len() == 2048
        &&& self.renderer.oam@.len() == 256
        &&& (self.cartridge matches Some(c) ==> c.wf())
    }

    pub open spec fn mirroring_spec(&self) -> Mirroring {
        match self.cartridge {
            Some(c) => c.regs.mirroring,
            None => Mirroring::Horizontal,
        }
    }

    pub open spec fn chr_at(&self, addr: u16) -> u8 {
        match self.cartridge {
            Some(c) => c.chr_read(addr),
            None => 0,
        }
    }

    /// What the PPU sees at `addr` of its own address space.
    pub open spec fn vram_read(&self, addr: u16) -> u8 {
        let a = addr % 0x4000;
        if a < 0x2000 {
            self.chr_at(a)
        } else if a < 0x3F00 {
            self.renderer.vram@[mirror_index(self.mirroring_spec(), a)]
        } else {
            self.renderer.palette@[palette_index(a)]
        }
    }

    /// The register file, buffer and result of a `$2007` read.
    pub open spec fn data_read(&self) -> (u8, Registers) {
        let r = self.registers;
        let addr = r.v;
        let stepped = Registers { v: r.v.wrapping_add(vram_increment(r)), ..r };
        if addr <= 0x3EFF {
            (r.data_buffer, Registers { data_buffer: self.vram_read(addr), ..stepped })
        } else if addr <= 0x3FFF {
            (self.vram_read(addr), Registers { data_buffer: self.vram_read(addr & 0x2FFF), ..stepped })
        } else {
            (0, stepped)
        }
    }

    /// Result and register file of a CPU read of register `addr`.
    pub open spec fn register_read(&self, addr: u16) -> (u8, Registers) {
        let r = self.registers;
        let reg = addr & 0x2007;
        if reg == 0x2002 {
            (r.status, Registers { status: r.status & 0x7F, w: false, ..r })
        } else if reg == 0x2004 {
            (self.renderer.oam@[r.oam_addr as int], r)
        } else if reg == 0x2007 {
            self.data_read()
        } else {
            (0, r)
        }
    }

    /// Everything but the register file is left as it was.
    pub open spec fn same_memory(&self, other: &Ppu) -> bool {
        &&& self.renderer.scanline == other.renderer.scanline
        &&& self.renderer.cycle == other.renderer.cycle
        &&& self.renderer.frame == other.renderer.frame
        &&& self.renderer.frame_buffer == other.renderer.frame_buffer
        &&& self.renderer.palette == other.renderer.palette
        &&& self.renderer.vram == other.renderer.vram
        &&& self.renderer.oam == other.renderer.oam
        &&& self.cartridge == other.cartridge
        &&& self.nmi == other.nmi
    }

    pub fn new() -> (r: Ppu)
        ensures
            r.wf(),
            r.cartridge is None,
            !r.nmi,
            r.renderer.scanline == 0,
            r.renderer.cycle == 0,
            r.renderer.frame == 0,
            r.registers.status == 0,
            r.registers.ctrl == 0,
            r.registers.data_buffer == 0,
            !r.registers.w,
    {
        Ppu { registers: Registers::new(), renderer: Renderer::new(), nmi: false, cartridge: None }
    }

    pub fn set_cartridge(&mut self, cartridge: Cartridge)
        requires
            old(self).wf(),
            cartridge.wf(),
        ensures
            final(self).wf(),
            final(self).cartridge == Some(cartridge),
            final(self).registers == old(self).registers,
            final(self).nmi == old(self).nmi,
            final(self).renderer == old(self).renderer,
    {
        self.cartridge = Some(cartridge);
    }

    pub fn scanline(&self) -> (r: u16)
        ensures
            r == self.renderer.scanline,
    {
        self.renderer.scanline
    }

    pub fn cycle(&self) -> (r: u16)
        ensures
            r == self.renderer.cycle,
    {
        self.renderer.cycle
    }

    pub fn frame(&self) -> (r: u64)
        ensures
            r == self.renderer.frame,
    {
        self.renderer.frame
    }

    pub fn frame_buffer(&self) -> (r: &[u8])
        ensures
            r@ == self.renderer.frame_buffer@,
            self.wf() ==> r@.len() == FRAME_BYTES && opaque_alpha(r@),
    {
        self.renderer.frame_buffer.as_slice()
    }

    fn read_chr(&self, addr: u16) -> (r: u8)
        requires
            self.mem_ok(),
        ensures
            r == self.chr_at(addr),
    {
        match &self.cartridge {
            Some(c) => c.read_chr_byte(addr),
            None => 0,
        }
    }

    fn mirroring(&self) -> (m: Mirroring)
        ensures
            m == self.mirroring_spec(),
    {
        match &self.cartridge {
            Some(c) => c.mirroring(),
            None => Mirroring::Horizontal,
        }
    }

    fn mirror_vram_addr(&self, addr: u16) -> (i: usize)
        requires
            0x2000 <= addr < 0x3F00,
        ensures
            i == mirror_index(self.mirroring_spec(), addr),
            i < 2048,
    {
        let index = (addr % 0x1000) as usize;
        let table = index / 0x400;
        match self.mirroring() {
            Mirroring::Horizontal => if table == 0 {
                index
            } else if table == 3 {
                index - 0x800
            } else {
                index - 0x400
            },
            Mirroring::Vertical => if table >= 2 {
                index - 0x800
            } else {
                index
            },
            Mirroring::SingleScreenLower => index % 0x400,
            Mirroring::SingleScreenUpper => index % 0x400 + 0x400,
        }
    }

    pub fn read_vram(&self, addr: u16) -> (r: u8)
        requires
            self.mem_ok(),
        ensures
            r == self.vram_read(addr),
    {
        let a = addr % 0x4000;
        if a < 0x2000 {
            self.read_chr(a)
        } else if a < 0x3F00 {
            let i = self.mirror_vram_addr(a);
            self.renderer.vram[i]
        } else {
            let p = ((a - 0x3F00) % 0x20) as usize;
            let p = if p >= 0x10 && p % 4 == 0 {
                p % 0x10
            } else {
                p
            };
            self.renderer.palette[p]
        }
    }
}

/// Reading `$3F10/$14/$18/$1C` always gives the same byte as
/// `$3F00/$04/$08/$0C`, in every state; a palette write keeps the two copies
/// of such an entry equal.
pub proof fn lemma_palette_mirror(p: &Ppu, k: u16)
    requires
        k < 4,
    ensures
        p.vram_read((0x3F10 + 4 * k) as u16) == p.vram_read((0x3F00 + 4 * k) as u16),
        forall|pal: Seq<u8>, slot: int, v: u8|
            pal.len() == 32 && 0 <= slot < 32 ==> #[trigger] palette_written(pal, slot, v)[4 * k]
                == palette_written(pal, slot, v)[4 * k + 16] || pal[4 * k] != pal[4 * k + 16],
{
}


impl Ppu {
    /// Row of sprite 0's pattern that `scanline` shows (after vertical flip).
    pub open spec fn sprite0_row(&self, scanline: u16) -> int {
        let oam = self.renderer.oam@;
        let top = oam[0] as int + 1;
        let height = if self.registers.ctrl & 0x20 != 0 { 16int } else { 8int };
        if oam[2] & 0x80 != 0 {
            height - 1 - (scanline - top)
        } else {
            scanline - top
        }
    }

    /// Column `col` of sprite 0 on `scanline` is an opaque sprite pixel over
    /// an opaque background pixel, at x < 255 and not clipped at the left edge.
    pub open spec fn sprite0_pixel_hit(&self, scanline: u16, col: u16) -> bool {
        let oam = self.renderer.oam@;
        let mask = self.registers.mask;
        let ctrl = self.registers.ctrl;
        let px = oam[3] as int + col;
        let clipped = px < 8 && ((mask & 0x02) == 0 || (mask & 0x04) == 0);
        let sprite_base = if ctrl & 0x08 != 0 { 0x1000int } else { 0int };
        let tile_addr = sprite_base + oam[1] as int * 16 + self.sprite0_row(scanline);
        let bit: u8 = if oam[2] & 0x40 != 0 { col as u8 } else { (7 - col) as u8 };
        let sprite_pixel = pattern_bits(self.chr_at(tile_addr as u16), self.chr_at((tile_addr + 8) as u16), bit);
        let tile_num = self.vram_read((0x2000 + (scanline / 8) as int * 32 + px / 8) as u16);
        let bg_base = if ctrl & 0x10 != 0 { 0x1000int } else { 0int };
        let bg_addr = bg_base + tile_num as int * 16 + (scanline % 8) as int;
        let bg_pixel = pattern_bits(self.chr_at(bg_addr as u16), self.chr_at((bg_addr + 8) as u16), (7 - px % 8) as u8);
        px < 255 && !clipped && sprite_pixel != 0 && bg_pixel != 0
    }

    /// Sprite-0 hit on `scanline`: background and sprites enabled, sprite 0
    /// at x < 255 covers the scanline, and one of its eight columns hits.
    pub open spec fn sprite0_hit(&self, scanline: u16) -> bool {
        let oam = self.renderer.oam@;
        let top = oam[0] as int + 1;
        let height = if self.registers.ctrl & 0x20 != 0 { 16int } else { 8int };
        &&& self.registers.mask & 0x08 != 0
        &&& self.registers.mask & 0x10 != 0
        &&& oam[3] < 255
        &&& top <= scanline < top + height
        &&& exists|col: u16| col < 8 && #[trigger] self.sprite0_pixel_hit(scanline, col)
    }
}

/// `new` is the cartridge after a PPU write of `value` at pattern address `addr`.
pub open spec fn chr_written(old: Option<Cartridge>, new: Option<Cartridge>, addr: u16, value: u8) -> bool {
    match (old, new) {
        (None, None) => true,
        (Some(a), Some(b)) => {
            &&& b.prg_rom == a.prg_rom
            &&& b.chr_rom == a.chr_rom
            &&& b.prg_ram == a.prg_ram
            &&& b.mapper == a.mapper
            &&& b.regs == a.regs
            &&& b.chr_ram@ == match a.chr_write_index(addr) {
                Some(i) => a.chr_ram@.update(i, value),
                None => a.chr_ram@,
            }
        },
        _ => false,
    }
}

/// `new` is the cartridge after zero or one scanline clocks of its IRQ counter.
pub open spec fn cart_clocked(old: Option<Cartridge>, new: Option<Cartridge>) -> bool {
    match (old, new) {
        (None, None) => true,
        (Some(a), Some(b)) => {
            &&& b.prg_rom == a.prg_rom
            &&& b.chr_rom == a.chr_rom
            &&& b.prg_ram == a.prg_ram
            &&& b.chr_ram == a.chr_ram
            &&& b.mapper == a.mapper
            &&& (b.regs == a.regs || b.regs == regs_after_irq_clock(a.regs))
        },
        _ => false,
    }
}

/// All 64 sprites sit at Y >= 0xEF.
pub open spec fn all_sprites_hidden(oam: Seq<u8>) -> bool {
    forall|i: int| 0 <= i < 64 ==> #[trigger] oam[4 * i] >= 0xEF
}

proof fn lemma_pixel_in_bounds(x: usize, y: usize)
    requires
        x < 256,
        y < 240,
    ensures
        (y * 256 + x) * 4 + 3 < FRAME_BYTES,
{
    assert((y * 256 + x) * 4 + 3 < 245760) by (nonlinear_arith)
        requires
            x < 256,
            y < 240,
    ;
}

fn put_pixel(fb: &mut Vec<u8>, x: usize, y: usize, rgb: (u8, u8, u8))
    requires
        old(fb)@.len() == FRAME_BYTES,
        opaque_alpha(old(fb)@),
        x < 256,
        y < 240,
    ensures
        final(fb)@.len() == FRAME_BYTES,
        opaque_alpha(final(fb)@),
{
    proof {
        lemma_pixel_in_bounds(x, y);
    }
    let idx = (y * SCREEN_WIDTH + x) * 4;
    assert(idx % 4 == 0) by (nonlinear_arith)
        requires
            idx == (y * 256 + x) * 4,
    ;
    fb.set(idx, rgb.0);
    fb.set(idx + 1, rgb.1);
    fb.set(idx + 2, rgb.2);
    fb.set(idx + 3, 255);
}

proof fn lemma_t_stays_15_bits(r: Registers, addr: u16, value: u8)
    requires
        r.t < 0x8000,
    ensures
        registers_after_write(r, addr, value).t < 0x8000,
{
    let t = r.t;
    assert(t < 0x8000 ==> (t & 0xF3FF) | (((value as u16) & 0x03) << 10u16) < 0x8000) by (bit_vector);
    assert(t < 0x8000 ==> (t & 0xFFE0) | ((value as u16) >> 3u16) < 0x8000) by (bit_vector);
    assert(t < 0x8000 ==> (((t & 0x8FFF) | (((value as u16) & 0x07) << 12u16)) & 0xFC1F) | (((
    value as u16) & 0xF8) << 2u16) < 0x8000) by (bit_vector);
    assert(t < 0x8000 ==> (t & 0x80FF) | (((value as u16) & 0x3F) << 8u16) < 0x8000) by (bit_vector);
    assert(t < 0x8000 ==> (t & 0xFF00) | (value as u16) < 0x8000) by (bit_vector);
}

impl Ppu {
    /// Stores `value` at `addr` of the PPU address space: pattern memory goes
    /// to the cartridge, nametables through mirroring, palette with aliasing.
    pub fn write_vram(&mut self, addr: u16, value: u8)
        requires
            old(self).wf(),
        ensures
            final(self).wf(),
            final(self).registers == old(self).registers,
            final(self).nmi == old(self).nmi,
            final(self).renderer.scanline == old(self).renderer.scanline,
            final(self).renderer.cycle == old(self).renderer.cycle,
            final(self).renderer.frame == old(self).renderer.frame,
            final(self).renderer.frame_buffer == old(self).renderer.frame_buffer,
            final(self).renderer.oam == old(self).renderer.oam,
            ({
                let a = addr % 0x4000;
                &&& final(self).renderer.vram@ == if 0x2000 <= a < 0x3F00 {
                    old(self).renderer.vram@.update(mirror_index(old(self).mirroring_spec(), a), value)
                } else {
                    old(self).renderer.vram@
                }
                &&& final(self).renderer.palette@ == if a >= 0x3F00 {
                    palette_written(old(self).renderer.palette@, ((a - 0x3F00) % 0x20) as int, value)
                } else {
                    old(self).renderer.palette@
                }
                &&& if a < 0x2000 {
                    chr_written(old(self).cartridge, final(self).cartridge, a, value)
                } else {
                    final(self).cartridge == old(self).cartridge
                }
            }),
    {
        let a = addr % 0x4000;
        if a < 0x2000 {
            match &mut self.cartridge {
                Some(c) => c.write_chr_byte(a, value),
                None => {},
            }
        } else if a < 0x3F00 {
            let i = self.mirror_vram_addr(a);
            self.renderer.vram.set(i, value);
        } else {
            let p = ((a - 0x3F00) % 0x20) as usize;
            write_palette_slot(&mut self.renderer.palette, p, value);
        }
    }

    /// CPU read of a PPU register. `$2002` returns the status and clears
    /// VBlank and the write toggle; `$2004` reads OAM; `$2007` reads through
    /// the one-byte buffer below the palette and directly from the palette.
    pub fn read_register(&mut self, addr: u16) -> (r: u8)
        requires
            old(self).wf(),
        ensures
            final(self).wf(),
            (r, final(self).registers) == old(self).register_read(addr),
            final(self).same_memory(old(self)),
    {
        let reg = addr & 0x2007;
        if reg == 0x2002 {
            let data = self.registers.status;
            self.registers.status = self.registers.status & 0x7F;
            self.registers.w = false;
            data
        } else if reg == 0x2004 {
            self.renderer.oam[self.registers.oam_addr as usize]
        } else if reg == 0x2007 {
            let addr = self.registers.v;
            let increment: u16 = if self.registers.ctrl & 0x04 != 0 { 32 } else { 1 };
            self.registers.v = self.registers.v.wrapping_add(increment);
            if addr <= 0x3EFF {
                let result = self.registers.data_buffer;
                self.registers.data_buffer = self.read_vram(addr);
                result
            } else if addr <= 0x3FFF {
                self.registers.data_buffer = self.read_vram(addr & 0x2FFF);
                self.read_vram(addr)
            } else {
                0
            }
        } else {
            0
        }
    }

    /// CPU write of a PPU register.
    pub fn write_register(&mut self, addr: u16, value: u8)
        requires
            old(self).wf(),
        ensures
            final(self).wf(),
            final(self).registers == registers_after_write(old(self).registers, addr, value),
            final(self).nmi == old(self).nmi,
            final(self).renderer.scanline == old(self).renderer.scanline,
            final(self).renderer.cycle == old(self).renderer.cycle,
            final(self).renderer.frame == old(self).renderer.frame,
            final(self).renderer.frame_buffer == old(self).renderer.frame_buffer,
            final(self).renderer.oam@ == if addr & 0x2007 == 0x2004 {
                old(self).renderer.oam@.update(old(self).registers.oam_addr as int, value)
            } else {
                old(self).renderer.oam@
            },
            addr & 0x2007 != 0x2007 ==> {
                &&& final(self).renderer.vram == old(self).renderer.vram
                &&& final(self).renderer.palette == old(self).renderer.palette
                &&& final(self).cartridge == old(self).cartridge
            },
            addr & 0x2007 == 0x2007 ==> {
                let a = old(self).registers.v % 0x4000;
                &&& final(self).renderer.vram@ == if 0x2000 <= a < 0x3F00 {
                    old(self).renderer.vram@.update(mirror_index(old(self).mirroring_spec(), a), value)
                } else {
                    old(self).renderer.vram@
                }
                &&& final(self).renderer.palette@ == if a >= 0x3F00 {
                    palette_written(old(self).renderer.palette@, ((a - 0x3F00) % 0x20) as int, value)
                } else {
                    old(self).renderer.palette@
                }
                &&& if a < 0x2000 {
                    chr_written(old(self).cartridge, final(self).cartridge, a, value)
                } else {
                    final(self).cartridge == old(self).cartridge
                }
            },
    {
        proof {
            lemma_t_stays_15_bits(self.registers, addr, value);
        }
        let reg = addr & 0x2007;
        if reg == 0x2000 {
            self.registers.ctrl = value;
            self.registers.t = (self.registers.t & 0xF3FF) | (((value as u16) & 0x03) << 10u16);
        } else if reg == 0x2001 {
            self.registers.mask = value;
        } else if reg == 0x2003 {
            self.registers.oam_addr = value;
        } else if reg == 0x2004 {
            self.write_oam_data(value);
        } else if reg == 0x2005 {
            if !self.registers.w {
                self.registers.t = (self.registers.t & 0xFFE0) | ((value as u16) >> 3u16);
                self.registers.x = value & 0x07;
                self.registers.scroll_x = value;
            } else {
                self.registers.t = (((self.registers.t & 0x8FFF) | (((value as u16) & 0x07) << 12u16))
                    & 0xFC1F) | (((value as u16) & 0xF8) << 2u16);
                self.registers.scroll_y = value;
            }
            self.registers.w = !self.registers.w;
        } else if reg == 0x2006 {
            if !self.registers.w {
                self.registers.t = (self.registers.t & 0x80FF) | (((value as u16) & 0x3F) << 8u16);
            } else {
                self.registers.t = (self.registers.t & 0xFF00) | (value as u16);
                self.registers.v = self.registers.t;
            }
            self.registers.w = !self.registers.w;
        } else if reg == 0x2007 {
            let addr = self.registers.v;
            let increment: u16 = if self.registers.ctrl & 0x04 != 0 { 32 } else { 1 };
            self.registers.v = self.registers.v.wrapping_add(increment);
            self.write_vram(addr, value);
        }
    }

    /// Writes OAM at `OAMADDR` and advances `OAMADDR` (also the OAM DMA sink).
    pub fn write_oam_data(&mut self, value: u8)
        requires
            old(self).wf(),
        ensures
            final(self).wf(),
            final(self).registers == (Registers {
                oam_addr: old(self).registers.oam_addr.wrapping_add(1),
                ..old(self).registers
            }),
            final(self).renderer.oam@ == old(self).renderer.oam@.update(
                old(self).registers.oam_addr as int,
                value,
            ),
            final(self).nmi == old(self).nmi,
            final(self).cartridge == old(self).cartridge,
            final(self).renderer.scanline == old(self).renderer.scanline,
            final(self).renderer.cycle == old(self).renderer.cycle,
            final(self).renderer.frame == old(self).renderer.frame,
            final(self).renderer.frame_buffer == old(self).renderer.frame_buffer,
            final(self).renderer.vram == old(self).renderer.vram,
            final(self).renderer.palette == old(self).renderer.palette,
    {
        self.renderer.oam.set(self.registers.oam_addr as usize, value);
        self.registers.oam_addr = self.registers.oam_addr.wrapping_add(1);
    }
}


/// The PPU with its register file replaced.
pub open spec fn with_registers(p: Ppu, r: Registers) -> Ppu {
    Ppu { registers: r, ..p }
}

/// The bytes returned by `n` successive reads of `$2007` starting from `p`.
pub open spec fn data_reads(p: Ppu, n: nat) -> Seq<u8>
    decreases n,
{
    if n == 0 {
        Seq::empty()
    } else {
        let (b, r) = p.register_read(0x2007);
        seq![b].add(data_reads(with_registers(p, r), (n - 1) as nat))
    }
}

/// Setting the VRAM address through two `$2006` writes and then reading
/// `$2007` four times (increment 1, below the palette) yields the stale
/// buffer followed by the bytes at the address and the next two.
pub proof fn lemma_buffered_data_reads(p: Ppu, hi: u8, lo: u8)
    requires
        p.wf(),
        !p.registers.w,
        p.registers.ctrl & 0x04 == 0,
        (hi & 0x3F) as int * 256 + lo as int + 3 < 0x3F00,
    ensures
        ({
            let v = ((hi & 0x3F) as int * 256 + lo as int) as u16;
            let r = registers_after_write(registers_after_write(p.registers, 0x2006, hi), 0x2006, lo);
            data_reads(with_registers(p, r), 4) == seq![
                p.registers.data_buffer,
                p.vram_read(v),
                p.vram_read((v + 1) as u16),
                p.vram_read((v + 2) as u16),
            ]
        }),
{
    let t = p.registers.t;
    let v = ((hi & 0x3F) as int * 256 + lo as int) as u16;
    assert(0x2006u16 & 0x2007u16 == 0x2006u16) by (bit_vector);
    assert(0x2007u16 & 0x2007u16 == 0x2007u16) by (bit_vector);
    assert(t < 0x8000 ==> ((((t & 0x80FF) | (((hi as u16) & 0x3F) << 8u16)) & 0xFF00) | (lo as u16))
        == ((hi & 0x3F) as u16) * 256 + (lo as u16)) by (bit_vector);
    let r = registers_after_write(registers_after_write(p.registers, 0x2006, hi), 0x2006, lo);
    assert(r.v == v);
    assert(r.ctrl == p.registers.ctrl);
    let p0 = with_registers(p, r);
    reveal_with_fuel(data_reads, 5);
    let (b0, r1) = p0.register_read(0x2007);
    let p1 = with_registers(p0, r1);
    let (b1, r2) = p1.register_read(0x2007);
    let p2 = with_registers(p1, r2);
    let (b2, r3) = p2.register_read(0x2007);
    let p3 = with_registers(p2, r3);
    let (b3, r4) = p3.register_read(0x2007);
    let p4 = with_registers(p3, r4);
    assert(b0 == p.registers.data_buffer);
    assert(r1.v == v + 1);
    assert(b1 == p.vram_read(v));
    assert(r2.v == v + 2);
    assert(b2 == p.vram_read((v + 1) as u16));
    assert(b3 == p.vram_read((v + 2) as u16));
    assert(data_reads(p4, 0) == Seq::<u8>::empty());
    assert(data_reads(p0, 4) =~= seq![b0, b1, b2, b3]);
}


/// Two-bit pixel of a pattern row at horizontal bit `bit`.
pub open spec fn pattern_bits(plane0: u8, plane1: u8, bit: u8) -> int {
    ((plane0 >> bit) & 1) as int + ((plane1 >> bit) & 1) as int * 2
}

fn pattern_pixel(plane0: u8, plane1: u8, bit: u8) -> (r: u8)
    requires
        bit < 8,
    ensures
        r < 4,
        r as int == pattern_bits(plane0, plane1, bit),
{
    let lo = (plane0 >> bit) & 1;
    let hi = (plane1 >> bit) & 1;
    assert(lo <= 1 && hi <= 1) by (bit_vector)
        requires
            lo == (plane0 >> bit) & 1,
            hi == (plane1 >> bit) & 1,
    ;
    lo + hi * 2
}

impl Ppu {
    /// Advances the PPU by one dot and performs what happens at the new
    /// position: VBlank entry (status bit 7, NMI when enabled) at scanline
    /// 241 dot 1, flag clearing at 261 dot 1, the sprite-0 check at dot 2 and
    /// the mapper's scanline clock at dot 260 of rendered visible scanlines,
    /// and rendering of the finished picture at scanline 240 dot 1.
    pub fn tick(&mut self)
        requires
            old(self).wf(),
            old(self).renderer.frame < u64::MAX,
        ensures
            final(self).wf(),
            dots(&final(self).renderer) == dots(&old(self).renderer) + 1,
            final(self).renderer.vram == old(self).renderer.vram,
            final(self).renderer.palette == old(self).renderer.palette,
            final(self).renderer.oam == old(self).renderer.oam,
            final(self).renderer.frame_buffer@.len() == FRAME_BYTES,
            cart_clocked(old(self).cartridge, final(self).cartridge),
            final(self).registers == (Registers {
                status: final(self).registers.status,
                ..old(self).registers
            }),
            ({
                let s = final(self).renderer.scanline;
                let c = final(self).renderer.cycle;
                let old_status = old(self).registers.status;
                let status = final(self).registers.status;
                if s == 241 && c == 1 {
                    &&& status == old_status | 0x80
                    &&& final(self).nmi == (old(self).nmi || old(self).registers.ctrl & 0x80 != 0)
                } else if s == 261 && c == 1 {
                    &&& status == old_status & 0x1F
                    &&& !final(self).nmi
                } else {
                    &&& status == old_status || status == old_status | 0x40
                    &&& final(self).nmi == old(self).nmi
                }
            }),
    {
        self.renderer.tick();
        let scanline = self.renderer.scanline;
        let cycle = self.renderer.cycle;
        let rendering_enabled = (self.registers.mask & 0x18) != 0;

        if scanline == 241 && cycle == 1 {
            self.registers.status = self.registers.status | 0x80;
            if self.registers.ctrl & 0x80 != 0 {
                self.nmi = true;
            }
        }
        if scanline == 261 && cycle == 1 {
            self.registers.status = self.registers.status & 0x1F;
            self.nmi = false;
        }
        if scanline < 240 && cycle == 2 && rendering_enabled {
            if (self.registers.status & 0x40) == 0 && self.sprite_zero_hit(scanline) {
                self.registers.status = self.registers.status | 0x40;
            }
        }
        if scanline == 240 && cycle == 1 {
            self.render_frame();
        }
        if cycle == 260 && scanline < 240 && rendering_enabled {
            match &mut self.cartridge {
                Some(c) => c.clock_irq(),
                None => {},
            }
        }
    }

    /// Whether an opaque pixel of sprite 0 overlaps an opaque background
    /// pixel on `scanline` (x < 255, honouring left-edge clipping).
    fn sprite_zero_hit(&self, scanline: u16) -> (r: bool)
        requires
            self.mem_ok(),
            scanline < 240,
        ensures
            r == self.sprite0_hit(scanline),
    {
        let mask = self.registers.mask;
        let ctrl = self.registers.ctrl;
        if (mask & 0x08) == 0 || (mask & 0x10) == 0 {
            return false;
        }
        let sprite_y = self.renderer.oam[0] as u16;
        let sprite_tile = self.renderer.oam[1];
        let sprite_attr = self.renderer.oam[2];
        let sprite_x = self.renderer.oam[3] as u16;
        if sprite_x >= 255 {
            return false;
        }
        let sprite_top = sprite_y + 1;
        let sprite_height: u16 = if (ctrl & 0x20) != 0 { 16 } else { 8 };
        if scanline < sprite_top || scanline >= sprite_top + sprite_height {
            return false;
        }
        let sprite_row = scanline - sprite_top;
        let flip_v = (sprite_attr & 0x80) != 0;
        let flip_h = (sprite_attr & 0x40) != 0;
        let row = if flip_v { sprite_height - 1 - sprite_row } else { sprite_row };
        let sprite_base: u16 = if (ctrl & 0x08) != 0 { 0x1000 } else { 0x0000 };
        let tile_addr = sprite_base + (sprite_tile as u16) * 16 + row;
        let sprite_plane0 = self.read_chr(tile_addr);
        let sprite_plane1 = self.read_chr(tile_addr + 8);
        let bg_base: u16 = if (ctrl & 0x10) != 0 { 0x1000 } else { 0x0000 };

        let mut col: u16 = 0;
        while col < 8
            invariant
                self.mem_ok(),
                sprite_x < 255,
                scanline < 240,
                bg_base <= 0x1000,
                mask == self.registers.mask,
                ctrl == self.registers.ctrl,
                mask & 0x08 != 0,
                mask & 0x10 != 0,
                sprite_x == self.renderer.oam@[3],
                sprite_top == self.renderer.oam@[0] as int + 1,
                sprite_height == if ctrl & 0x20 != 0 { 16int } else { 8int },
                sprite_top <= scanline < sprite_top + sprite_height,
                col <= 8,
                tile_addr as int == (if ctrl & 0x08 != 0 { 0x1000int } else { 0int }) + self.renderer.oam@[1] as int
                    * 16 + self.sprite0_row(scanline),
                sprite_plane0 == self.chr_at(tile_addr),
                sprite_plane1 == self.chr_at((tile_addr + 8) as u16),
                flip_h == (self.renderer.oam@[2] & 0x40 != 0),
                bg_base == if ctrl & 0x10 != 0 { 0x1000int } else { 0int },
                forall|c: u16| c < col ==> !#[trigger] self.sprite0_pixel_hit(scanline, c),
            decreases 8 - col,
        {
            let pixel_x = sprite_x + col;
            let clipped = pixel_x < 8 && ((mask & 0x02) == 0 || (mask & 0x04) == 0);
            if pixel_x < 255 && !clipped {
                let sprite_bit: u8 = if flip_h { col as u8 } else { (7 - col) as u8 };
                let sprite_pixel = pattern_pixel(sprite_plane0, sprite_plane1, sprite_bit);
                if sprite_pixel != 0 {
                    let tile_x = pixel_x / 8;
                    let tile_y = scanline / 8;
                    let fine_x = pixel_x % 8;
                    let fine_y = scanline % 8;
                    let tile_num = self.read_vram(0x2000 + tile_y * 32 + tile_x);
                    let bg_tile_addr = bg_base + (tile_num as u16) * 16 + fine_y;
                    let bg_plane0 = self.read_chr(bg_tile_addr);
                    let bg_plane1 = self.read_chr(bg_tile_addr + 8);
                    let bg_pixel = pattern_pixel(bg_plane0, bg_plane1, (7 - fine_x) as u8);
                    if bg_pixel != 0 {
                        assert(self.sprite0_pixel_hit(scanline, col));
                        return true;
                    }
                }
            }
            assert(!self.sprite0_pixel_hit(scanline, col));
            col = col + 1;
        }
        assert forall|c: u16| c < 8 implies !#[trigger] self.sprite0_pixel_hit(scanline, c) by {}
        false
    }

    fn palette_color(&self, index: u8) -> (u8, u8, u8)
        requires
            self.mem_ok(),
    {
        let entry = self.renderer.palette[(index % 32) as usize] % 64;
        palette_rgb(entry)
    }

    /// Produces the picture from the current nametable, pattern, palette and
    /// OAM state.
    fn render_frame(&mut self)
        requires
            old(self).wf(),
        ensures
            final(self).wf(),
            final(self).registers == old(self).registers,
            final(self).nmi == old(self).nmi,
            final(self).cartridge == old(self).cartridge,
            final(self).renderer.scanline == old(self).renderer.scanline,
            final(self).renderer.cycle == old(self).renderer.cycle,
            final(self).renderer.frame == old(self).renderer.frame,
            final(self).renderer.vram == old(self).renderer.vram,
            final(self).renderer.palette == old(self).renderer.palette,
            final(self).renderer.oam == old(self).renderer.oam,
    {
        let mut fb: Vec<u8> = Vec::new();
        core::mem::swap(&mut fb, &mut self.renderer.frame_buffer);
        let bg = self.palette_color(0);
        let mut i: usize = 0;
        while i < FRAME_BYTES
            invariant
                fb@.len() == FRAME_BYTES,
                i % 4 == 0,
                i <= FRAME_BYTES,
                forall|p: int| 0 <= p < PIXELS && 4 * p + 3 < i ==> #[trigger] fb@[4 * p + 3] == 255,
            decreases FRAME_BYTES - i,
        {
            fb.set(i, bg.0);
            fb.set(i + 1, bg.1);
            fb.set(i + 2, bg.2);
            fb.set(i + 3, 255);
            i = i + 4;
        }
        if self.registers.mask & 0x08 != 0 {
            self.render_background(&mut fb);
        }
        if self.registers.mask & 0x10 != 0 {
            self.render_sprites(&mut fb);
        }
        core::mem::swap(&mut fb, &mut self.renderer.frame_buffer);
    }

    fn render_background(&self, fb: &mut Vec<u8>)
        requires
            self.mem_ok(),
            old(fb)@.len() == FRAME_BYTES,
            opaque_alpha(old(fb)@),
        opaque_alpha(old(fb)@),
        ensures
            final(fb)@.len() == FRAME_BYTES,
            opaque_alpha(final(fb)@),
        opaque_alpha(final(fb)@),
    {
        let ctrl = self.registers.ctrl;
        let pattern_base: u16 = if ctrl & 0x10 != 0 { 0x1000 } else { 0x0000 };
        let base_nt_x: usize = if (ctrl & 0x01) != 0 { 256 } else { 0 };
        let base_nt_y: usize = if (ctrl & 0x02) != 0 { 240 } else { 0 };
        let scroll_x = self.registers.scroll_x as usize;
        let scroll_y = self.registers.scroll_y as usize;
        let mut y: usize = 0;
        while y < 240
            invariant
                self.mem_ok(),
                fb@.len() == FRAME_BYTES,
                opaque_alpha(fb@),
                pattern_base <= 0x1000,
                base_nt_x <= 256,
                base_nt_y <= 240,
                scroll_x < 256,
                scroll_y < 256,
            decreases 240 - y,
        {
            let mut x: usize = 0;
            while x < 256
                invariant
                    self.mem_ok(),
                    fb@.len() == FRAME_BYTES,
                    opaque_alpha(fb@),
                opaque_alpha(fb@),
                    y < 240,
                    pattern_base <= 0x1000,
                    base_nt_x <= 256,
                    base_nt_y <= 240,
                    scroll_x < 256,
                    scroll_y < 256,
                decreases 256 - x,
            {
                let sx = (x + scroll_x + base_nt_x) % 512;
                let sy = (y + scroll_y + base_nt_y) % 480;
                let tile_x = sx / 8;
                let tile_y = sy / 8;
                let pixel_x = sx % 8;
                let pixel_y = sy % 8;
                let nt_x = tile_x / 32;
                let nt_y = tile_y / 30;
                let nt_offset = ((nt_x + nt_y * 2) * 0x0400) as u16;
                let nt_addr = 0x2000 + nt_offset + ((tile_y % 30) * 32 + (tile_x % 32)) as u16;
                let tile_num = self.read_vram(nt_addr);
                let attr_x = (tile_x % 32) / 4;
                let attr_y = (tile_y % 30) / 4;
                let attr_addr = 0x2000 + nt_offset + 0x3C0 + (attr_y * 8 + attr_x) as u16;
                let attr_byte = self.read_vram(attr_addr);
                let shift = (((tile_y % 4) / 2) * 4 + ((tile_x % 4) / 2) * 2) as u8;
                let palette_num = (attr_byte >> shift) & 0x03;
                let tile_addr = pattern_base + (tile_num as u16) * 16 + pixel_y as u16;
                let plane0 = self.read_chr(tile_addr);
                let plane1 = self.read_chr(tile_addr + 8);
                let pixel_value = pattern_pixel(plane0, plane1, (7 - pixel_x) as u8);
                if pixel_value != 0 {
                    assert(palette_num <= 3) by (bit_vector)
                        requires
                            palette_num == (attr_byte >> shift) & 0x03,
                    ;
                    let color = self.palette_color(palette_num * 4 + pixel_value);
                    put_pixel(fb, x, y, color);
                }
                x = x + 1;
            }
            y = y + 1;
        }
    }

    /// Draws the 64 sprites in reverse OAM order so that entry 0 ends on top;
    /// a sprite at Y >= 0xEF is skipped.
    pub fn render_sprites(&self, fb: &mut Vec<u8>)
        requires
            self.mem_ok(),
            old(fb)@.len() == FRAME_BYTES,
            opaque_alpha(old(fb)@),
        opaque_alpha(old(fb)@),
        ensures
            final(fb)@.len() == FRAME_BYTES,
            opaque_alpha(final(fb)@),
        opaque_alpha(final(fb)@),
            all_sprites_hidden(self.renderer.oam@) ==> final(fb)@ == old(fb)@,
    {
        let ctrl = self.registers.ctrl;
        let sprite_size: usize = if ctrl & 0x20 != 0 { 16 } else { 8 };
        let pattern_base: u16 = if ctrl & 0x08 != 0 { 0x1000 } else { 0x0000 };
        let ghost original = fb@;
        let mut n: usize = 64;
        while n > 0
            invariant
                self.mem_ok(),
                fb@.len() == FRAME_BYTES,
                opaque_alpha(fb@),
                n <= 64,
                sprite_size <= 16,
                pattern_base <= 0x1000,
                all_sprites_hidden(self.renderer.oam@) ==> fb@ == original,
            decreases n,
        {
            n = n - 1;
            let i = n;
            let sprite_y = self.renderer.oam[i * 4] as usize;
            if sprite_y < 0xEF {
                assert(!all_sprites_hidden(self.renderer.oam@)) by {
                    if all_sprites_hidden(self.renderer.oam@) {
                        assert(self.renderer.oam@[4 * (i as int)] >= 0xEF);
                    }
                }
                self.draw_sprite(fb, i, sprite_size, pattern_base);
            }
        }
    }

    fn draw_sprite(&self, fb: &mut Vec<u8>, i: usize, sprite_size: usize, pattern_base: u16)
        requires
            self.mem_ok(),
            old(fb)@.len() == FRAME_BYTES,
            opaque_alpha(old(fb)@),
        opaque_alpha(old(fb)@),
            i < 64,
            sprite_size <= 16,
            pattern_base <= 0x1000,
        ensures
            final(fb)@.len() == FRAME_BYTES,
            opaque_alpha(final(fb)@),
        opaque_alpha(final(fb)@),
    {
        let sprite_y = self.renderer.oam[i * 4] as usize;
        let tile_num = self.renderer.oam[i * 4 + 1];
        let attributes = self.renderer.oam[i * 4 + 2];
        let sprite_x = self.renderer.oam[i * 4 + 3] as usize;
        assert(attributes & 0x03 <= 3) by (bit_vector);
        let palette_num = (attributes & 0x03) + 4;
        let flip_h = (attributes & 0x40) != 0;
        let flip_v = (attributes & 0x80) != 0;
        let mut py: usize = 0;
        while py < sprite_size
            invariant
                self.mem_ok(),
                fb@.len() == FRAME_BYTES,
                opaque_alpha(fb@),
                sprite_size <= 16,
                pattern_base <= 0x1000,
                sprite_y < 256,
                sprite_x < 256,
                palette_num <= 7,
            decreases sprite_size - py,
        {
            let y = sprite_y + py + 1;
            if y < 240 {
                let tile_y = if flip_v { sprite_size - 1 - py } else { py };
                let tile_addr = pattern_base + (tile_num as u16) * 16 + tile_y as u16;
                let plane0 = self.read_chr(tile_addr);
                let plane1 = self.read_chr(tile_addr + 8);
                let mut px: usize = 0;
                while px < 8
                    invariant
                        self.mem_ok(),
                        fb@.len() == FRAME_BYTES,
                        opaque_alpha(fb@),
                    opaque_alpha(fb@),
                opaque_alpha(fb@),
                        y < 240,
                        sprite_x < 256,
                        palette_num <= 7,
                    decreases 8 - px,
                {
                    let x = sprite_x + px;
                    if x < 256 {
                        let bit: u8 = if flip_h { px as u8 } else { (7 - px) as u8 };
                        let pixel_value = pattern_pixel(plane0, plane1, bit);
                        if pixel_value != 0 {
                            let color = self.palette_color(palette_num * 4 + pixel_value);
                            put_pixel(fb, x, y, color);
                        }
                    }
                    px = px + 1;
                }
            }
            py = py + 1;
        }
    }
}


/// The CPU-side view of the cartridge is the same in `a` and `b`: same PRG
/// memories, mapper and bank registers; only CHR RAM and the scanline-IRQ
/// state may differ.
pub open spec fn cart_stable(a: Option<Cartridge>, b: Option<Cartridge>) -> bool {
    match (a, b) {
        (None, None) => true,
        (Some(x), Some(y)) => {
            &&& y.prg_rom == x.prg_rom
            &&& y.chr_rom == x.chr_rom
            &&& y.prg_ram == x.prg_ram
            &&& y.mapper == x.mapper
            &&& y.regs == (MapperRegs {
                irq_counter: y.regs.irq_counter,
                irq_reload_flag: y.regs.irq_reload_flag,
                irq_pending: y.regs.irq_pending,
                ..x.regs
            })
        },
        _ => false,
    }
}

pub proof fn lemma_cart_stable_trans(a: Option<Cartridge>, b: Option<Cartridge>, c: Option<Cartridge>)
    requires
        cart_stable(a, b),
        cart_stable(b, c),
    ensures
        cart_stable(a, c),
{
}

pub proof fn lemma_cart_clocked_stable(a: Option<Cartridge>, b: Option<Cartridge>)
    requires
        cart_clocked(a, b),
    ensures
        cart_stable(a, b),
{
}

pub proof fn lemma_chr_written_stable(a: Option<Cartridge>, b: Option<Cartridge>, addr: u16, v: u8)
    requires
        chr_written(a, b, addr, v),
    ensures
        cart_stable(a, b),
{
}

/// A cartridge's PRG reads only depend on what `cart_stable` keeps.
pub proof fn lemma_cart_stable_prg(a: Cartridge, b: Cartridge, addr: u16)
    requires
        cart_stable(Some(a), Some(b)),
    ensures
        a.prg_read(addr) == b.prg_read(addr),
{
}


impl Default for Ppu {
    fn default() -> (r: Ppu)
        ensures
            r.wf(),
            r.cartridge is None,
            r.renderer.scanline == 0,
            r.renderer.cycle == 0,
    {
        Ppu::new()
    }
}

} // verus!
