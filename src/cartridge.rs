//! iNES cartridges and the bank-switching policies of the supported mappers
//! (0 NROM, 1 MMC1, 2 UxROM, 3 CNROM, 4 MMC3, 7 AxROM, 66 GxROM).

use crate::error::NesError;
use vstd::prelude::*;

verus! {

/// Size of a PRG ROM unit in the iNES header.
pub const PRG_UNIT: usize = 16384;

/// Size of a CHR ROM unit in the iNES header.
pub const CHR_UNIT: usize = 8192;

/// Size of the PRG RAM at `$6000-$7FFF` and of CHR RAM.
pub const RAM_SIZE: usize = 8192;

/// How the four logical nametables map onto the 2 KiB of physical VRAM.
#[derive(Debug, Clone, Copy, PartialEq, Eq, Structural)]
pub enum Mirroring {
    Horizontal,
    Vertical,
    SingleScreenLower,
    SingleScreenUpper,
}

/// The eight MMC3 bank registers R0-R7.
#[derive(Debug, Clone, Copy, PartialEq, Eq, Structural)]
pub struct BankRegisters {
    pub r0: u8,
    pub r1: u8,
    pub r2: u8,
    pub r3: u8,
    pub r4: u8,
    pub r5: u8,
    pub r6: u8,
    pub r7: u8,
}

impl BankRegisters {
    pub open spec fn spec_set(self, i: u8, v: u8) -> BankRegisters {
        if i == 0 {
            BankRegisters { r0: v, ..self }
        } else if i == 1 {
            BankRegisters { r1: v, ..self }
        } else if i == 2 {
            BankRegisters { r2: v, ..self }
        } else if i == 3 {
            BankRegisters { r3: v, ..self }
        } else if i == 4 {
            BankRegisters { r4: v, ..self }
        } else if i == 5 {
            BankRegisters { r5: v, ..self }
        } else if i == 6 {
            BankRegisters { r6: v, ..self }
        } else {
            BankRegisters { r7: v, ..self }
        }
    }

    fn set(self, i: u8, v: u8) -> (r: BankRegisters)
        ensures
            r == self.spec_set(i, v),
    {
        match i {
            0 => BankRegisters { r0: v, ..self },
            1 => BankRegisters { r1: v, ..self },
            2 => BankRegisters { r2: v, ..self },
            3 => BankRegisters { r3: v, ..self },
            4 => BankRegisters { r4: v, ..self },
            5 => BankRegisters { r5: v, ..self },
            6 => BankRegisters { r6: v, ..self },
            _ => BankRegisters { r7: v, ..self },
        }
    }
}

/// Every register a mapper keeps, including the current mirroring.
#[derive(Debug, Clone, Copy, PartialEq, Eq, Structural)]
pub struct MapperRegs {
    pub mirroring: Mirroring,
    /// UxROM / AxROM / GxROM bank select.
    pub prg_bank: u8,
    /// CNROM / GxROM CHR bank select.
    pub chr_bank: u8,
    pub mmc1_shift_register: u8,
    pub mmc1_shift_count: u8,
    pub mmc1_control: u8,
    pub mmc1_chr_bank_0: u8,
    pub mmc1_chr_bank_1: u8,
    pub mmc1_prg_bank: u8,
    pub banks: BankRegisters,
    pub register_select: u8,
    pub prg_bank_mode: bool,
    pub chr_bank_mode: bool,
    pub irq_counter: u8,
    pub irq_reload: u8,
    pub irq_pending: bool,
    pub irq_enabled: bool,
    pub irq_reload_flag: bool,
}

pub struct Cartridge {
    pub prg_rom: Vec<u8>,
    pub chr_rom: Vec<u8>,
    pub prg_ram: Vec<u8>,
    pub chr_ram: Vec<u8>,
    pub mapper: u8,
    pub regs: MapperRegs,
}

// ---------------------------------------------------------------------------
// The iNES container
// ---------------------------------------------------------------------------

pub open spec fn ines_magic(d: Seq<u8>) -> bool {
    d.len() >= 4 && d[0] == 0x4E && d[1] == 0x45 && d[2] == 0x53 && d[3] == 0x1A
}

/// Offset of the PRG payload: the header, plus the trainer when flags6 bit 2 is set.
pub open spec fn ines_prg_start(d: Seq<u8>) -> int {
    16 + if d[6] & 4 != 0 { 512int } else { 0int }
}

pub open spec fn ines_prg_size(d: Seq<u8>) -> int {
    d[4] as int * PRG_UNIT as int
}

pub open spec fn ines_chr_size(d: Seq<u8>) -> int {
    d[5] as int * CHR_UNIT as int
}

pub open spec fn ines_mapper(d: Seq<u8>) -> u8 {
    (d[7] & 0xF0) | (d[6] >> 4)
}

pub open spec fn ines_mirroring(d: Seq<u8>) -> Mirroring {
    if d[6] & 1 != 0 {
        Mirroring::Vertical
    } else {
        Mirroring::Horizontal
    }
}

/// A complete image: a 16-byte header with the magic, and every declared
/// byte present.
pub open spec fn ines_valid(d: Seq<u8>) -> bool {
    &&& d.len() >= 16
    &&& ines_magic(d)
    &&& d.len() >= ines_prg_start(d) + ines_prg_size(d) + ines_chr_size(d)
}

pub open spec fn initial_regs(mirroring: Mirroring) -> MapperRegs {
    MapperRegs {
        mirroring,
        prg_bank: 0,
        chr_bank: 0,
        mmc1_shift_register: 0,
        mmc1_shift_count: 0,
        mmc1_control: 0x0C,
        mmc1_chr_bank_0: 0,
        mmc1_chr_bank_1: 0,
        mmc1_prg_bank: 0,
        banks: BankRegisters { r0: 0, r1: 0, r2: 0, r3: 0, r4: 0, r5: 0, r6: 0, r7: 0 },
        register_select: 0,
        prg_bank_mode: false,
        chr_bank_mode: false,
        irq_counter: 0,
        irq_reload: 0,
        irq_pending: false,
        irq_enabled: false,
        irq_reload_flag: false,
    }
}

// ---------------------------------------------------------------------------
// Address decoding
// ---------------------------------------------------------------------------

/// The byte at `i`, or 0 when `i` is out of range.
pub open spec fn byte_at(s: Seq<u8>, i: int) -> u8 {
    if 0 <= i < s.len() {
        s[i]
    } else {
        0
    }
}

/// The byte at `i` taken modulo the memory's size (0 for empty memory).
pub open spec fn banked(s: Seq<u8>, i: int) -> u8 {
    if s.len() == 0 {
        0
    } else {
        s[i % (s.len() as int)]
    }
}

pub open spec fn last_bank(len: int, unit: int) -> int {
    if len / unit >= 1 {
        len / unit - 1
    } else {
        0
    }
}

pub open spec fn second_last_bank(len: int, unit: int) -> int {
    if len / unit >= 2 {
        len / unit - 2
    } else {
        0
    }
}

pub open spec fn in_prg_ram(addr: u16) -> bool {
    0x6000 <= addr <= 0x7FFF
}

/// MMC3 CHR bank for the 1 KiB slot that `addr` falls in.
pub open spec fn mmc3_chr_bank(r: MapperRegs, addr: u16) -> u8 {
    let b = r.banks;
    let slot = addr / 0x400;
    if addr >= 0x2000 {
        0
    } else if !r.chr_bank_mode {
        if slot == 0 {
            b.r0 & 0xFE
        } else if slot == 1 {
            b.r0 | 0x01
        } else if slot == 2 {
            b.r1 & 0xFE
        } else if slot == 3 {
            b.r1 | 0x01
        } else if slot == 4 {
            b.r2
        } else if slot == 5 {
            b.r3
        } else if slot == 6 {
            b.r4
        } else {
            b.r5
        }
    } else {
        if slot == 0 {
            b.r2
        } else if slot == 1 {
            b.r3
        } else if slot == 2 {
            b.r4
        } else if slot == 3 {
            b.r5
        } else if slot == 4 {
            b.r0 & 0xFE
        } else if slot == 5 {
            b.r0 | 0x01
        } else if slot == 6 {
            b.r1 & 0xFE
        } else {
            b.r1 | 0x01
        }
    }
}

/// MMC1 CHR index before reduction modulo the memory's size.
pub open spec fn mmc1_chr_index(r: MapperRegs, addr: u16) -> int {
    if (r.mmc1_control >> 4u8) & 0x01 == 0 {
        (r.mmc1_chr_bank_0 & 0x1E) as int * 8192 + (addr % 0x2000) as int
    } else if addr < 0x1000 {
        r.mmc1_chr_bank_0 as int * 4096 + (addr % 0x1000) as int
    } else {
        r.mmc1_chr_bank_1 as int * 4096 + (addr % 0x1000) as int
    }
}

impl Cartridge {
    pub open spec fn wf(&self) -> bool {
        &&& self.prg_ram@.len() == RAM_SIZE
        &&& self.chr_ram@.len() == if self.chr_rom@.len() == 0 { RAM_SIZE as int } else { 0 }
        &&& self.prg_rom@.len() <= 255 * PRG_UNIT
        &&& self.chr_rom@.len() <= 255 * CHR_UNIT
        &&& self.regs.mmc1_shift_count < 5
    }

    /// PRG byte at `addr` for NROM (also used by CNROM).
    pub open spec fn nrom_prg(&self, addr: u16) -> u8 {
        if in_prg_ram(addr) {
            byte_at(self.prg_ram@, addr - 0x6000)
        } else if addr >= 0x8000 {
            byte_at(
                self.prg_rom@,
                if self.prg_rom@.len() == 16384 { (addr % 0x4000) as int } else { (addr % 0x8000) as int },
            )
        } else {
            0
        }
    }

    /// What the CPU reads at `addr` in `$4020-$FFFF`.
    pub open spec fn prg_read(&self, addr: u16) -> u8 {
        let r = self.regs;
        let rom = self.prg_rom@;
        let len = rom.len() as int;
        if self.mapper == 0 || self.mapper == 3 {
            self.nrom_prg(addr)
        } else if self.mapper == 1 || self.mapper == 2 || self.mapper == 4 {
            if in_prg_ram(addr) {
                byte_at(self.prg_ram@, addr - 0x6000)
            } else if addr < 0x8000 {
                0
            } else if self.mapper == 1 {
                let mode = (r.mmc1_control >> 2u8) & 0x03;
                if addr < 0xC000 {
                    let bank = if mode <= 1 {
                        (r.mmc1_prg_bank & 0xFE) as int
                    } else if mode == 2 {
                        0
                    } else {
                        r.mmc1_prg_bank as int
                    };
                    banked(rom, bank * 16384 + (addr - 0x8000))
                } else {
                    let bank = if mode <= 1 {
                        (r.mmc1_prg_bank | 0x01) as int
                    } else if mode == 2 {
                        r.mmc1_prg_bank as int
                    } else {
                        last_bank(len, 16384)
                    };
                    banked(rom, bank * 16384 + (addr - 0xC000))
                }
            } else if self.mapper == 2 {
                if addr < 0xC000 {
                    banked(rom, r.prg_bank as int * 16384 + (addr - 0x8000))
                } else {
                    banked(rom, last_bank(len, 16384) * 16384 + (addr - 0xC000))
                }
            } else {
                let bank = if addr < 0xA000 {
                    if r.prg_bank_mode {
                        second_last_bank(len, 8192)
                    } else {
                        r.banks.r6 as int
                    }
                } else if addr < 0xC000 {
                    r.banks.r7 as int
                } else if addr < 0xE000 {
                    if r.prg_bank_mode {
                        r.banks.r6 as int
                    } else {
                        second_last_bank(len, 8192)
                    }
                } else {
                    last_bank(len, 8192)
                };
                banked(rom, bank * 8192 + addr % 0x2000)
            }
        } else if self.mapper == 7 || self.mapper == 66 {
            if addr >= 0x8000 {
                let bank = if self.mapper == 7 {
                    (r.prg_bank & 0x07) as int
                } else {
                    ((r.prg_bank >> 4u8) & 0x03) as int
                };
                banked(rom, bank * 32768 + (addr - 0x8000))
            } else {
                0
            }
        } else {
            0
        }
    }

    /// What the PPU reads at pattern-table address `addr`.
    pub open spec fn chr_read(&self, addr: u16) -> u8 {
        let r = self.regs;
        let rom = self.chr_rom@;
        let ram = self.chr_ram@;
        if self.mapper == 1 {
            if rom.len() == 0 {
                banked(ram, mmc1_chr_index(r, addr))
            } else {
                banked(rom, mmc1_chr_index(r, addr))
            }
        } else if self.mapper == 2 || self.mapper == 7 {
            byte_at(ram, (addr % 0x2000) as int)
        } else if self.mapper == 0 || self.mapper == 3 || self.mapper == 4 || self.mapper == 66 {
            if rom.len() == 0 {
                byte_at(ram, (addr % 0x2000) as int)
            } else if self.mapper == 0 {
                byte_at(rom, (addr % 0x2000) as int)
            } else if self.mapper == 4 {
                banked(rom, mmc3_chr_bank(r, addr) as int * 1024 + (addr % 0x400) as int)
            } else {
                banked(rom, r.chr_bank as int * 8192 + (addr % 0x2000) as int)
            }
        } else {
            0
        }
    }

    /// Index into CHR RAM that a PPU write to `addr` stores to, if any.
    pub open spec fn chr_write_index(&self, addr: u16) -> Option<int> {
        if self.chr_ram@.len() == 0 {
            None
        } else if self.mapper == 1 {
            Some(mmc1_chr_index(self.regs, addr) % (self.chr_ram@.len() as int))
        } else if self.mapper == 0 || self.mapper == 2 || self.mapper == 3 || self.mapper == 4
            || self.mapper == 7 || self.mapper == 66 {
            Some((addr % 0x2000) as int)
        } else {
            None
        }
    }

    /// Whether a CPU write to `addr` stores into PRG RAM.
    pub open spec fn writes_prg_ram(&self, addr: u16) -> bool {
        self.mapper <= 4 && in_prg_ram(addr)
    }
}

/// MMC1 control bits 0-1: single-screen lower, single-screen upper,
/// vertical, horizontal.
pub open spec fn mmc1_mirroring(control: u8) -> Mirroring {
    let m = control % 4;
    if m == 0 {
        Mirroring::SingleScreenLower
    } else if m == 1 {
        Mirroring::SingleScreenUpper
    } else if m == 2 {
        Mirroring::Vertical
    } else {
        Mirroring::Horizontal
    }
}

/// MMC1 serial port: one bit per write, committed on the fifth.
pub open spec fn mmc1_write(r: MapperRegs, addr: u16, value: u8) -> MapperRegs {
    if value & 0x80 != 0 {
        MapperRegs {
            mmc1_shift_register: 0,
            mmc1_shift_count: 0,
            mmc1_control: r.mmc1_control | 0x0C,
            ..r
        }
    } else {
        let shift = r.mmc1_shift_register | ((value & 0x01) << r.mmc1_shift_count);
        let count = r.mmc1_shift_count + 1;
        if count < 5 {
            MapperRegs { mmc1_shift_register: shift, mmc1_shift_count: count as u8, ..r }
        } else {
            let target = (addr >> 13u16) & 0x03;
            let committed = if target == 0 {
                MapperRegs {
                    mmc1_control: shift,
                    mirroring: mmc1_mirroring(shift),
                    ..r
                }
            } else if target == 1 {
                MapperRegs { mmc1_chr_bank_0: shift, ..r }
            } else if target == 2 {
                MapperRegs { mmc1_chr_bank_1: shift, ..r }
            } else {
                MapperRegs { mmc1_prg_bank: shift & 0x0F, ..r }
            };
            MapperRegs { mmc1_shift_register: 0, mmc1_shift_count: 0, ..committed }
        }
    }
}

/// MMC3 register writes.
pub open spec fn mmc3_write(r: MapperRegs, addr: u16, value: u8) -> MapperRegs {
    let even = addr % 2 == 0;
    if addr < 0xA000 {
        if even {
            MapperRegs {
                register_select: value & 0x07,
                prg_bank_mode: value & 0x40 != 0,
                chr_bank_mode: value & 0x80 != 0,
                ..r
            }
        } else {
            MapperRegs { banks: r.banks.spec_set(r.register_select, value), ..r }
        }
    } else if addr < 0xC000 {
        if even {
            MapperRegs {
                mirroring: if value & 0x01 != 0 {
                    Mirroring::Horizontal
                } else {
                    Mirroring::Vertical
                },
                ..r
            }
        } else {
            r
        }
    } else if addr < 0xE000 {
        if even {
            MapperRegs { irq_reload: value, ..r }
        } else {
            MapperRegs { irq_reload_flag: true, irq_counter: 0, ..r }
        }
    } else {
        if even {
            MapperRegs { irq_enabled: false, irq_pending: false, ..r }
        } else {
            MapperRegs { irq_enabled: true, ..r }
        }
    }
}

/// Mapper registers after a CPU write of `value` to `addr`.
pub open spec fn regs_after_write(r: MapperRegs, mapper: u8, addr: u16, value: u8) -> MapperRegs {
    if addr < 0x8000 {
        r
    } else if mapper == 1 {
        mmc1_write(r, addr, value)
    } else if mapper == 2 {
        MapperRegs { prg_bank: value & 0x0F, ..r }
    } else if mapper == 3 {
        MapperRegs { chr_bank: value & 0x03, ..r }
    } else if mapper == 4 {
        mmc3_write(r, addr, value)
    } else if mapper == 7 {
        MapperRegs {
            prg_bank: value & 0x07,
            mirroring: if value & 0x10 != 0 {
                Mirroring::SingleScreenUpper
            } else {
                Mirroring::SingleScreenLower
            },
            ..r
        }
    } else if mapper == 66 {
        MapperRegs { prg_bank: value, chr_bank: value & 0x03, ..r }
    } else {
        r
    }
}

/// MMC3 scanline counter, clocked once per rendered scanline.
pub open spec fn regs_after_irq_clock(r: MapperRegs) -> MapperRegs {
    let counter = if r.irq_counter == 0 || r.irq_reload_flag {
        r.irq_reload
    } else {
        (r.irq_counter - 1) as u8
    };
    MapperRegs {
        irq_counter: counter,
        irq_reload_flag: if r.irq_counter == 0 || r.irq_reload_flag {
            false
        } else {
            r.irq_reload_flag
        },
        irq_pending: r.irq_pending || (counter == 0 && r.irq_enabled),
        ..r
    }
}

fn byte_or_zero(v: &Vec<u8>, i: usize) -> (r: u8)
    ensures
        r == byte_at(v@, i as int),
{
    if i < v.len() {
        v[i]
    } else {
        0
    }
}

fn banked_byte(v: &Vec<u8>, i: usize) -> (r: u8)
    ensures
        r == banked(v@, i as int),
{
    let len = v.len();
    if len == 0 {
        0
    } else {
        v[i % len]
    }
}

fn last_bank_of(len: usize, unit: usize) -> (r: usize)
    requires
        unit > 0,
    ensures
        r == last_bank(len as int, unit as int),
        r <= len / unit,
{
    let n = len / unit;
    if n >= 1 {
        n - 1
    } else {
        0
    }
}

fn second_last_bank_of(len: usize, unit: usize) -> (r: usize)
    requires
        unit > 0,
    ensures
        r == second_last_bank(len as int, unit as int),
        r <= len / unit,
{
    let n = len / unit;
    if n >= 2 {
        n - 2
    } else {
        0
    }
}

fn copy_range(data: &[u8], start: usize, end: usize) -> (r: Vec<u8>)
    requires
        start <= end <= data@.len(),
    ensures
        r@ == data@.subrange(start as int, end as int),
{
    let mut out: Vec<u8> = Vec::new();
    let mut i: usize = start;
    while i < end
        invariant
            start <= i <= end <= data@.len(),
            out@ == data@.subrange(start as int, i as int),
        decreases end - i,
    {
        out.push(data[i]);
        i = i + 1;
    }
    out
}

pub(crate) fn zeroed(n: usize) -> (r: Vec<u8>)
    ensures
        r@ == Seq::new(n as nat, |i: int| 0u8),
{
    let mut out: Vec<u8> = Vec::new();
    let mut i: usize = 0;
    while i < n
        invariant
            i <= n,
            out@ == Seq::new(i as nat, |j: int| 0u8),
        decreases n - i,
    {
        out.push(0);
        i = i + 1;
        proof {
            assert(out@ =~= Seq::new(i as nat, |j: int| 0u8));
        }
    }
    out
}

/// Tests whether `data` is a complete iNES image.
pub fn ines_image_valid(data: &[u8]) -> (r: bool)
    ensures
        r == ines_valid(data@),
{
    if data.len() < 16 {
        return false;
    }
    if data[0] != 0x4E || data[1] != 0x45 || data[2] != 0x53 || data[3] != 0x1A {
        return false;
    }
    let prg_start: usize = if data[6] & 4 != 0 { 16 + 512 } else { 16 };
    let prg_size = data[4] as usize * PRG_UNIT;
    let chr_size = data[5] as usize * CHR_UNIT;
    data.len() >= prg_start + prg_size + chr_size
}

impl Cartridge {
    /// Builds a cartridge from a complete iNES image: PRG and CHR are copied
    /// out of the payload, 8 KiB of PRG RAM is allocated, and 8 KiB of CHR RAM
    /// stands in for CHR ROM when the header declares none.
    pub fn new(data: &[u8]) -> (r: Cartridge)
        requires
            ines_valid(data@),
        ensures
            r.wf(),
            r.prg_rom@ == data@.subrange(
                ines_prg_start(data@),
                ines_prg_start(data@) + ines_prg_size(data@),
            ),
            r.chr_rom@ == data@.subrange(
                ines_prg_start(data@) + ines_prg_size(data@),
                ines_prg_start(data@) + ines_prg_size(data@) + ines_chr_size(data@),
            ),
            r.mapper == ines_mapper(data@),
            r.regs == initial_regs(ines_mirroring(data@)),
            r.prg_ram@ == Seq::new(RAM_SIZE as nat, |i: int| 0u8),
            r.chr_ram@ == if ines_chr_size(data@) == 0 {
                Seq::new(RAM_SIZE as nat, |i: int| 0u8)
            } else {
                Seq::empty()
            },
    {
        let prg_size = data[4] as usize * PRG_UNIT;
        let chr_size = data[5] as usize * CHR_UNIT;
        let flags6 = data[6];
        let flags7 = data[7];
        let mapper = (flags7 & 0xF0) | (flags6 >> 4);
        let mirroring = if (flags6 & 0x01) != 0 {
            Mirroring::Vertical
        } else {
            Mirroring::Horizontal
        };
        let prg_start: usize = if flags6 & 4 != 0 { 16 + 512 } else { 16 };
        let chr_start = prg_start + prg_size;
        let prg_rom = copy_range(data, prg_start, chr_start);
        let chr_rom = copy_range(data, chr_start, chr_start + chr_size);
        let chr_ram = if chr_size == 0 { zeroed(RAM_SIZE) } else { Vec::new() };
        let prg_ram = zeroed(RAM_SIZE);
        proof {
            assert(chr_rom@.len() == chr_size);
        }
        Cartridge {
            prg_rom,
            chr_rom,
            prg_ram,
            chr_ram,
            mapper,
            regs: MapperRegs {
                mirroring,
                prg_bank: 0,
                chr_bank: 0,
                mmc1_shift_register: 0,
                mmc1_shift_count: 0,
                mmc1_control: 0x0C,
                mmc1_chr_bank_0: 0,
                mmc1_chr_bank_1: 0,
                mmc1_prg_bank: 0,
                banks: BankRegisters { r0: 0, r1: 0, r2: 0, r3: 0, r4: 0, r5: 0, r6: 0, r7: 0 },
                register_select: 0,
                prg_bank_mode: false,
                chr_bank_mode: false,
                irq_counter: 0,
                irq_reload: 0,
                irq_pending: false,
                irq_enabled: false,
                irq_reload_flag: false,
            },
        }
    }

    /// Parses an iNES image, rejecting one that is too short, lacks the
    /// magic, or is shorter than its header declares.
    pub fn from_ines(data: &[u8]) -> (r: Result<Cartridge, NesError>)
        ensures
            r.is_ok() == ines_valid(data@),
            r matches Ok(c) ==> c.wf() && c.mapper == ines_mapper(data@)
                && c.regs == initial_regs(ines_mirroring(data@))
                && c.prg_rom@ == data@.subrange(
                ines_prg_start(data@),
                ines_prg_start(data@) + ines_prg_size(data@),
            ) && c.chr_rom@ == data@.subrange(
                ines_prg_start(data@) + ines_prg_size(data@),
                ines_prg_start(data@) + ines_prg_size(data@) + ines_chr_size(data@),
            ),
            r matches Err(e) ==> e is InvalidRom,
    {
        if data.len() < 16 {
            return Err(NesError::InvalidRom("File too small".to_string()));
        }
        if !ines_image_valid(data) {
            if data[0] != 0x4E || data[1] != 0x45 || data[2] != 0x53 || data[3] != 0x1A {
                return Err(NesError::InvalidRom("Invalid iNES header".to_string()));
            }
            return Err(NesError::InvalidRom("File size mismatch".to_string()));
        }
        Ok(Cartridge::new(data))
    }

    pub fn mapper(&self) -> (r: u8)
        ensures
            r == self.mapper,
    {
        self.mapper
    }

    pub fn mirroring(&self) -> (r: Mirroring)
        ensures
            r == self.regs.mirroring,
    {
        self.regs.mirroring
    }

    /// Whether the header selected vertical mirroring (true) or horizontal.
    pub fn vertical_mirroring(&self) -> (r: bool)
        ensures
            r == (self.regs.mirroring == Mirroring::Vertical),
    {
        match self.regs.mirroring {
            Mirroring::Vertical => true,
            _ => false,
        }
    }

    pub fn irq_pending(&self) -> (r: bool)
        ensures
            r == self.regs.irq_pending,
    {
        self.regs.irq_pending
    }

    pub fn acknowledge_irq(&mut self)
        ensures
            final(self).regs == (MapperRegs { irq_pending: false, ..old(self).regs }),
            final(self).prg_rom == old(self).prg_rom,
            final(self).chr_rom == old(self).chr_rom,
            final(self).prg_ram == old(self).prg_ram,
            final(self).chr_ram == old(self).chr_ram,
            final(self).mapper == old(self).mapper,
    {
        self.regs.irq_pending = false;
    }

    /// Clocks the MMC3 scanline counter.
    pub fn clock_irq(&mut self)
        ensures
            final(self).regs == regs_after_irq_clock(old(self).regs),
            final(self).prg_rom == old(self).prg_rom,
            final(self).chr_rom == old(self).chr_rom,
            final(self).prg_ram == old(self).prg_ram,
            final(self).chr_ram == old(self).chr_ram,
            final(self).mapper == old(self).mapper,
    {
        if self.regs.irq_counter == 0 || self.regs.irq_reload_flag {
            self.regs.irq_counter = self.regs.irq_reload;
            self.regs.irq_reload_flag = false;
        } else {
            self.regs.irq_counter = self.regs.irq_counter - 1;
        }
        if self.regs.irq_counter == 0 && self.regs.irq_enabled {
            self.regs.irq_pending = true;
        }
    }
}


impl Cartridge {
    /// CPU read in `$4020-$FFFF` through the mapper.
    pub fn read_prg_byte(&self, addr: u16) -> (r: u8)
        requires
            self.wf(),
        ensures
            r == self.prg_read(addr),
    {
        match self.mapper {
            0 | 3 => self.nrom_read_prg(addr),
            1 => self.mmc1_read_prg(addr),
            2 => self.uxrom_read_prg(addr),
            4 => self.mmc3_read_prg(addr),
            7 | 66 => self.wide_read_prg(addr),
            _ => 0,
        }
    }

    fn nrom_read_prg(&self, addr: u16) -> (r: u8)
        ensures
            r == self.nrom_prg(addr),
    {
        if 0x6000 <= addr && addr <= 0x7FFF {
            byte_or_zero(&self.prg_ram, (addr - 0x6000) as usize)
        } else if addr >= 0x8000 {
            let index = if self.prg_rom.len() == 16384 {
                (addr % 0x4000) as usize
            } else {
                (addr % 0x8000) as usize
            };
            byte_or_zero(&self.prg_rom, index)
        } else {
            0
        }
    }

    fn mmc1_read_prg(&self, addr: u16) -> (r: u8)
        requires
            self.wf(),
            self.mapper == 1,
        ensures
            r == self.prg_read(addr),
    {
        if 0x6000 <= addr && addr <= 0x7FFF {
            return byte_or_zero(&self.prg_ram, (addr - 0x6000) as usize);
        }
        if addr < 0x8000 {
            return 0;
        }
        let mode = (self.regs.mmc1_control >> 2u8) & 0x03;
        let prg_bank = self.regs.mmc1_prg_bank;
        if addr < 0xC000 {
            let bank: usize = if mode <= 1 {
                (prg_bank & 0xFE) as usize
            } else if mode == 2 {
                0
            } else {
                prg_bank as usize
            };
            banked_byte(&self.prg_rom, bank * 16384 + (addr - 0x8000) as usize)
        } else {
            let bank: usize = if mode <= 1 {
                (prg_bank | 0x01) as usize
            } else if mode == 2 {
                prg_bank as usize
            } else {
                last_bank_of(self.prg_rom.len(), 16384)
            };
            proof {
                assert(bank * 16384 <= 255 * 16384) by (nonlinear_arith)
                    requires
                        bank <= 255,
                ;
            }
            banked_byte(&self.prg_rom, bank * 16384 + (addr - 0xC000) as usize)
        }
    }

    fn uxrom_read_prg(&self, addr: u16) -> (r: u8)
        requires
            self.wf(),
            self.mapper == 2,
        ensures
            r == self.prg_read(addr),
    {
        if 0x6000 <= addr && addr <= 0x7FFF {
            byte_or_zero(&self.prg_ram, (addr - 0x6000) as usize)
        } else if addr < 0x8000 {
            0
        } else if addr < 0xC000 {
            banked_byte(&self.prg_rom, self.regs.prg_bank as usize * 16384 + (addr - 0x8000) as usize)
        } else {
            let bank = last_bank_of(self.prg_rom.len(), 16384);
            proof {
                assert(bank * 16384 <= 255 * 16384) by (nonlinear_arith)
                    requires
                        bank <= 255,
                ;
            }
            banked_byte(&self.prg_rom, bank * 16384 + (addr - 0xC000) as usize)
        }
    }

    fn mmc3_read_prg(&self, addr: u16) -> (r: u8)
        requires
            self.wf(),
            self.mapper == 4,
        ensures
            r == self.prg_read(addr),
    {
        if 0x6000 <= addr && addr <= 0x7FFF {
            return byte_or_zero(&self.prg_ram, (addr - 0x6000) as usize);
        }
        if addr < 0x8000 {
            return 0;
        }
        let len = self.prg_rom.len();
        let r = self.regs;
        let bank: usize = if addr < 0xA000 {
            if r.prg_bank_mode {
                second_last_bank_of(len, 8192)
            } else {
                r.banks.r6 as usize
            }
        } else if addr < 0xC000 {
            r.banks.r7 as usize
        } else if addr < 0xE000 {
            if r.prg_bank_mode {
                r.banks.r6 as usize
            } else {
                second_last_bank_of(len, 8192)
            }
        } else {
            last_bank_of(len, 8192)
        };
        proof {
            assert(bank * 8192 <= 600 * 8192) by (nonlinear_arith)
                requires
                    bank <= 600,
            ;
        }
        banked_byte(&self.prg_rom, bank * 8192 + (addr % 0x2000) as usize)
    }

    /// AxROM and GxROM: one 32 KiB window at `$8000`.
    fn wide_read_prg(&self, addr: u16) -> (r: u8)
        requires
            self.wf(),
            self.mapper == 7 || self.mapper == 66,
        ensures
            r == self.prg_read(addr),
    {
        if addr >= 0x8000 {
            let bank: usize = if self.mapper == 7 {
                (self.regs.prg_bank & 0x07) as usize
            } else {
                ((self.regs.prg_bank >> 4u8) & 0x03) as usize
            };
            banked_byte(&self.prg_rom, bank * 32768 + (addr - 0x8000) as usize)
        } else {
            0
        }
    }

    /// PPU read of pattern memory through the mapper.
    pub fn read_chr_byte(&self, addr: u16) -> (r: u8)
        requires
            self.wf(),
        ensures
            r == self.chr_read(addr),
    {
        let m = self.mapper;
        if m == 1 {
            let index = mmc1_chr_index_of(self.regs, addr);
            if self.chr_rom.len() == 0 {
                banked_byte(&self.chr_ram, index)
            } else {
                banked_byte(&self.chr_rom, index)
            }
        } else if m == 2 || m == 7 {
            byte_or_zero(&self.chr_ram, (addr % 0x2000) as usize)
        } else if m == 0 || m == 3 || m == 4 || m == 66 {
            if self.chr_rom.len() == 0 {
                byte_or_zero(&self.chr_ram, (addr % 0x2000) as usize)
            } else if m == 0 {
                byte_or_zero(&self.chr_rom, (addr % 0x2000) as usize)
            } else if m == 4 {
                let bank = mmc3_chr_bank_of(self.regs, addr);
                banked_byte(&self.chr_rom, bank as usize * 1024 + (addr % 0x400) as usize)
            } else {
                banked_byte(&self.chr_rom, self.regs.chr_bank as usize * 8192 + (addr % 0x2000) as usize)
            }
        } else {
            0
        }
    }

    /// PPU write of pattern memory: lands in CHR RAM when the cartridge has
    /// it, and is dropped for CHR ROM.
    pub fn write_chr_byte(&mut self, addr: u16, value: u8)
        requires
            old(self).wf(),
        ensures
            final(self).wf(),
            final(self).chr_ram@ == match old(self).chr_write_index(addr) {
                Some(i) => old(self).chr_ram@.update(i, value),
                None => old(self).chr_ram@,
            },
            final(self).prg_rom == old(self).prg_rom,
            final(self).chr_rom == old(self).chr_rom,
            final(self).prg_ram == old(self).prg_ram,
            final(self).mapper == old(self).mapper,
            final(self).regs == old(self).regs,
    {
        let len = self.chr_ram.len();
        if len == 0 {
            return;
        }
        let m = self.mapper;
        if m == 1 {
            let index = mmc1_chr_index_of(self.regs, addr) % len;
            self.chr_ram.set(index, value);
        } else if m == 0 || m == 2 || m == 3 || m == 4 || m == 7 || m == 66 {
            self.chr_ram.set((addr % 0x2000) as usize, value);
        }
    }

    /// CPU write in `$4020-$FFFF`: PRG RAM for the mappers that have it,
    /// mapper registers at `$8000-$FFFF`.
    pub fn write_prg_byte(&mut self, addr: u16, value: u8)
        requires
            old(self).wf(),
        ensures
            final(self).wf(),
            final(self).regs == regs_after_write(old(self).regs, old(self).mapper, addr, value),
            final(self).prg_ram@ == if old(self).writes_prg_ram(addr) {
                old(self).prg_ram@.update(addr - 0x6000, value)
            } else {
                old(self).prg_ram@
            },
            final(self).prg_rom == old(self).prg_rom,
            final(self).chr_rom == old(self).chr_rom,
            final(self).chr_ram == old(self).chr_ram,
            final(self).mapper == old(self).mapper,
    {
        if self.mapper <= 4 && 0x6000 <= addr && addr <= 0x7FFF {
            self.prg_ram.set((addr - 0x6000) as usize, value);
        }
        self.regs = next_regs(self.regs, self.mapper, addr, value);
    }
}

fn mmc1_chr_index_of(r: MapperRegs, addr: u16) -> (i: usize)
    ensures
        i == mmc1_chr_index(r, addr),
{
    if (r.mmc1_control >> 4u8) & 0x01 == 0 {
        (r.mmc1_chr_bank_0 & 0x1E) as usize * 8192 + (addr % 0x2000) as usize
    } else if addr < 0x1000 {
        r.mmc1_chr_bank_0 as usize * 4096 + (addr % 0x1000) as usize
    } else {
        r.mmc1_chr_bank_1 as usize * 4096 + (addr % 0x1000) as usize
    }
}

fn mmc3_chr_bank_of(r: MapperRegs, addr: u16) -> (bank: u8)
    ensures
        bank == mmc3_chr_bank(r, addr),
{
    let b = r.banks;
    let slot = addr / 0x400;
    if addr >= 0x2000 {
        0
    } else if !r.chr_bank_mode {
        match slot {
            0 => b.r0 & 0xFE,
            1 => b.r0 | 0x01,
            2 => b.r1 & 0xFE,
            3 => b.r1 | 0x01,
            4 => b.r2,
            5 => b.r3,
            6 => b.r4,
            _ => b.r5,
        }
    } else {
        match slot {
            0 => b.r2,
            1 => b.r3,
            2 => b.r4,
            3 => b.r5,
            4 => b.r0 & 0xFE,
            5 => b.r0 | 0x01,
            6 => b.r1 & 0xFE,
            _ => b.r1 | 0x01,
        }
    }
}

fn mmc1_mirroring_of(control: u8) -> (m: Mirroring)
    ensures
        m == mmc1_mirroring(control),
{
    match control % 4 {
        0 => Mirroring::SingleScreenLower,
        1 => Mirroring::SingleScreenUpper,
        2 => Mirroring::Vertical,
        _ => Mirroring::Horizontal,
    }
}

fn mmc1_next(r: MapperRegs, addr: u16, value: u8) -> (n: MapperRegs)
    requires
        r.mmc1_shift_count < 5,
    ensures
        n == mmc1_write(r, addr, value),
        n.mmc1_shift_count < 5,
{
    if value & 0x80 != 0 {
        return MapperRegs {
            mmc1_shift_register: 0,
            mmc1_shift_count: 0,
            mmc1_control: r.mmc1_control | 0x0C,
            ..r
        };
    }
    let shift = r.mmc1_shift_register | ((value & 0x01) << r.mmc1_shift_count);
    let count = r.mmc1_shift_count + 1;
    if count < 5 {
        return MapperRegs { mmc1_shift_register: shift, mmc1_shift_count: count, ..r };
    }
    let target = (addr >> 13u16) & 0x03;
    let committed = if target == 0 {
        MapperRegs {
            mmc1_control: shift,
            mirroring: mmc1_mirroring_of(shift),
            ..r
        }
    } else if target == 1 {
        MapperRegs { mmc1_chr_bank_0: shift, ..r }
    } else if target == 2 {
        MapperRegs { mmc1_chr_bank_1: shift, ..r }
    } else {
        MapperRegs { mmc1_prg_bank: shift & 0x0F, ..r }
    };
    MapperRegs { mmc1_shift_register: 0, mmc1_shift_count: 0, ..committed }
}

fn mmc3_next(r: MapperRegs, addr: u16, value: u8) -> (n: MapperRegs)
    ensures
        n == mmc3_write(r, addr, value),
{
    let even = addr % 2 == 0;
    if addr < 0xA000 {
        if even {
            MapperRegs {
                register_select: value & 0x07,
                prg_bank_mode: value & 0x40 != 0,
                chr_bank_mode: value & 0x80 != 0,
                ..r
            }
        } else {
            MapperRegs { banks: r.banks.set(r.register_select, value), ..r }
        }
    } else if addr < 0xC000 {
        if even {
            MapperRegs {
                mirroring: if value & 0x01 != 0 {
                    Mirroring::Horizontal
                } else {
                    Mirroring::Vertical
                },
                ..r
            }
        } else {
            r
        }
    } else if addr < 0xE000 {
        if even {
            MapperRegs { irq_reload: value, ..r }
        } else {
            MapperRegs { irq_reload_flag: true, irq_counter: 0, ..r }
        }
    } else {
        if even {
            MapperRegs { irq_enabled: false, irq_pending: false, ..r }
        } else {
            MapperRegs { irq_enabled: true, ..r }
        }
    }
}

fn next_regs(r: MapperRegs, mapper: u8, addr: u16, value: u8) -> (n: MapperRegs)
    requires
        r.mmc1_shift_count < 5,
    ensures
        n == regs_after_write(r, mapper, addr, value),
        n.mmc1_shift_count < 5,
{
    if addr < 0x8000 {
        r
    } else if mapper == 1 {
        mmc1_next(r, addr, value)
    } else if mapper == 2 {
        MapperRegs { prg_bank: value & 0x0F, ..r }
    } else if mapper == 3 {
        MapperRegs { chr_bank: value & 0x03, ..r }
    } else if mapper == 4 {
        mmc3_next(r, addr, value)
    } else if mapper == 7 {
        MapperRegs {
            prg_bank: value & 0x07,
            mirroring: if value & 0x10 != 0 {
                Mirroring::SingleScreenUpper
            } else {
                Mirroring::SingleScreenLower
            },
            ..r
        }
    } else if mapper == 66 {
        MapperRegs { prg_bank: value, chr_bank: value & 0x03, ..r }
    } else {
        r
    }
}

} // verus!
