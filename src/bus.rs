//! The CPU's memory bus: the address map, the master clock that ticks the
//! PPU three times and the APU once per CPU cycle, and OAM DMA.

use crate::apu::Apu;
use crate::cartridge::{Cartridge, ines_valid};
use crate::controller::{Controller, read_result, write_result};
use crate::ppu::{
    Ppu,
    cart_stable,
    dots,
    lemma_cart_clocked_stable,
    lemma_cart_stable_prg,
    lemma_cart_stable_trans,
    lemma_chr_written_stable,
};
use vstd::prelude::*;

verus! {

/// Upper bound on the master cycle count that the library accepts; at the
/// NTSC clock it is reached after about eighty years.
pub const CYCLE_CEILING: u64 = 0x0010_0000_0000_0000;

/// Stall of an OAM DMA started on an even cycle. Stalls of several DMAs
/// add up until the CPU consumes them.
pub const DMA_STALL: u64 = 513;

pub struct Bus {
    /// 2 KiB of internal RAM, mirrored four times over `$0000-$1FFF`.
    pub ram: Vec<u8>,
    /// The PPU, which also holds the cartridge.
    pub ppu: Ppu,
    pub apu: Apu,
    pub controller: Controller,
    /// CPU cycles since power-on.
    pub cycles: u64,
    /// Cycles the CPU still owes to a finished OAM DMA.
    pub cpu_stall_cycles: u64,
}

impl Bus {
    /// The internal invariant, including the clock coupling: the PPU has
    /// advanced exactly three dots and the APU one cycle per CPU cycle.
    pub open spec fn wf(&self) -> bool {
        &&& self.ram@.len() == 2048
        &&& self.ppu.wf()
        &&& self.apu.wf()
        &&& dots(&self.ppu.renderer) == 3 * self.cycles
        &&& self.apu.cycles == self.cycles
        &&& self.cycles <= CYCLE_CEILING
        &&& self.cpu_stall_cycles <= (DMA_STALL + 1) * self.cycles
    }

    /// Room for `n` more cycles.
    pub open spec fn room(&self, n: int) -> bool {
        self.wf() && self.cycles + n <= CYCLE_CEILING
    }

    /// The byte the CPU sees in internal RAM at `addr` (`addr < $2000`).
    pub open spec fn ram_read(&self, addr: u16) -> u8 {
        self.ram@[(addr % 0x800) as int]
    }

    /// The byte the cartridge answers at `addr`; open bus (the high byte of
    /// the address) without a cartridge.
    pub open spec fn cart_read(&self, addr: u16) -> u8 {
        match self.ppu.cartridge {
            Some(c) => c.prg_read(addr),
            None => (addr >> 8u16) as u8,
        }
    }

    /// What the CPU reads at an address whose read has no side effects:
    /// RAM, the write-only and unused I/O range, and the cartridge.
    pub open spec fn quiet_read(&self, addr: u16) -> u8 {
        if addr < 0x2000 {
            self.ram_read(addr)
        } else if addr < 0x4020 {
            0
        } else {
            self.cart_read(addr)
        }
    }

    /// Reads at `addr` change nothing.
    pub open spec fn is_quiet(addr: u16) -> bool {
        addr < 0x2000 || (0x4020 <= addr) || (0x4000 <= addr < 0x4020 && addr != 0x4015 && addr
            != 0x4016)
    }

    /// What one clock leaves alone.
    pub open spec fn clock_keeps(&self, old: &Bus) -> bool {
        &&& self.ram == old.ram
        &&& self.controller == old.controller
        &&& self.cpu_stall_cycles == old.cpu_stall_cycles
        &&& cart_stable(old.ppu.cartridge, self.ppu.cartridge)
    }

    pub fn new() -> (r: Bus)
        ensures
            r.wf(),
            r.cycles == 0,
            r.cpu_stall_cycles == 0,
            r.ppu.cartridge is None,
            r.ram@ == Seq::new(2048, |i: int| 0u8),
    {
        Bus {
            ram: crate::cartridge::zeroed(2048),
            ppu: Ppu::new(),
            apu: Apu::new(),
            controller: Controller::new(),
            cycles: 0,
            cpu_stall_cycles: 0,
        }
    }

    /// Hands out the pending DMA stall and clears it.
    pub fn reset_cpu_stall_cycles(&mut self) -> (r: u64)
        requires
            old(self).wf(),
        ensures
            final(self).wf(),
            r == old(self).cpu_stall_cycles,
            final(self).cpu_stall_cycles == 0,
            final(self).cycles == old(self).cycles,
            final(self).ram == old(self).ram,
            final(self).controller == old(self).controller,
            final(self).ppu.cartridge == old(self).ppu.cartridge,
    {
        let c = self.cpu_stall_cycles;
        self.cpu_stall_cycles = 0;
        c
    }

    /// One CPU cycle: three PPU dots, then one APU cycle (and the DMC's
    /// sample fetch when it asks for one).
    pub fn tick(&mut self)
        requires
            old(self).room(1),
        ensures
            final(self).wf(),
            final(self).cycles == old(self).cycles + 1,
            final(self).clock_keeps(old(self)),
            final(self).ppu.registers.oam_addr == old(self).ppu.registers.oam_addr,
            final(self).ppu.renderer.oam == old(self).ppu.renderer.oam,
    {
        proof {
            assert(self.ppu.renderer.frame * 89342 <= dots(&self.ppu.renderer));
        }
        let ghost c0 = self.ppu.cartridge;
        self.cycles = self.cycles + 1;
        self.ppu.tick();
        let ghost c1 = self.ppu.cartridge;
        self.ppu.tick();
        let ghost c2 = self.ppu.cartridge;
        self.ppu.tick();
        proof {
            lemma_cart_clocked_stable(c0, c1);
            lemma_cart_clocked_stable(c1, c2);
            lemma_cart_clocked_stable(c2, self.ppu.cartridge);
            lemma_cart_stable_trans(c0, c1, c2);
            lemma_cart_stable_trans(c0, c2, self.ppu.cartridge);
        }
        self.apu.tick();
        match self.apu.dmc_fetch_address() {
            Some(addr) => {
                let byte = self.cartridge_read(addr);
                self.apu.dmc_fill(byte);
            },
            None => {},
        }
    }

    fn cartridge_read(&self, addr: u16) -> (r: u8)
        requires
            self.ppu.wf(),
        ensures
            r == self.cart_read(addr),
    {
        match &self.ppu.cartridge {
            Some(c) => c.read_prg_byte(addr),
            None => (addr >> 8u16) as u8,
        }
    }

    fn unclocked_read_byte(&mut self, address: u16) -> (r: u8)
        requires
            old(self).wf(),
        ensures
            final(self).wf(),
            final(self).cycles == old(self).cycles,
            final(self).ram == old(self).ram,
            final(self).cpu_stall_cycles == old(self).cpu_stall_cycles,
            final(self).ppu.cartridge == old(self).ppu.cartridge,
            Self::is_quiet(address) ==> r == old(self).quiet_read(address) && final(self).controller
                == old(self).controller,
            address == 0x4016 ==> (r, final(self).controller) == read_result(old(self).controller),
            address != 0x4016 ==> final(self).controller == old(self).controller,
            final(self).ppu.renderer.oam == old(self).ppu.renderer.oam,
            final(self).ppu.registers.oam_addr == old(self).ppu.registers.oam_addr,
    {
        if address < 0x2000 {
            self.ram[(address % 0x800) as usize]
        } else if address < 0x4000 {
            self.ppu.read_register(address)
        } else if address == 0x4015 {
            self.apu.read_register(address)
        } else if address == 0x4016 {
            self.controller.read()
        } else if address < 0x4020 {
            0
        } else {
            self.cartridge_read(address)
        }
    }

    fn unclocked_write_byte(&mut self, address: u16, value: u8)
        requires
            old(self).wf(),
            old(self).cpu_stall_cycles + DMA_STALL + 1 <= (DMA_STALL + 1) * old(self).cycles,
        ensures
            final(self).wf(),
            final(self).cycles == old(self).cycles,
            final(self).ram@ == if address < 0x2000 {
                old(self).ram@.update((address % 0x800) as int, value)
            } else {
                old(self).ram@
            },
            address == 0x4016 ==> final(self).controller == write_result(old(self).controller, value),
            address != 0x4016 && !(address == 0x4014 && value == 0x40) ==> final(self).controller
                == old(self).controller,
            final(self).cpu_stall_cycles == old(self).cpu_stall_cycles + if address == 0x4014 {
                DMA_STALL + old(self).cycles % 2
            } else {
                0
            },
            address == 0x4014 ==> dma_copied(old(self), final(self), value),
            address < 0x4020 ==> cart_stable(old(self).ppu.cartridge, final(self).ppu.cartridge),
    {
        if address < 0x2000 {
            self.ram.set((address % 0x800) as usize, value);
        } else if address < 0x4000 {
            let ghost c0 = self.ppu.cartridge;
            let ghost v = self.ppu.registers.v % 0x4000;
            self.ppu.write_register(address, value);
            proof {
                if address & 0x2007 == 0x2007 && v < 0x2000 {
                    lemma_chr_written_stable(c0, self.ppu.cartridge, v, value);
                }
            }
        } else if address == 0x4014 {
            self.oam_dma(value);
        } else if address == 0x4016 {
            self.controller.write(value);
        } else if address <= 0x4017 {
            self.apu.write_register(address, value);
        } else if address < 0x4020 {
        } else {
            match &mut self.ppu.cartridge {
                Some(c) => c.write_prg_byte(address, value),
                None => {},
            }
        }
    }

    /// Copies the 256 bytes of page `bank` into OAM and books the CPU stall:
    /// 513 cycles, one more when started on an odd cycle. The copy reads as
    /// the CPU would, so page $40 also clocks the controller port.
    fn oam_dma(&mut self, bank: u8)
        requires
            old(self).wf(),
            old(self).cpu_stall_cycles + DMA_STALL + 1 <= (DMA_STALL + 1) * old(self).cycles,
        ensures
            final(self).wf(),
            final(self).cycles == old(self).cycles,
            final(self).ram == old(self).ram,
            bank != 0x40 ==> final(self).controller == old(self).controller,
            final(self).cpu_stall_cycles == old(self).cpu_stall_cycles + DMA_STALL + old(self).cycles % 2,
            final(self).ppu.cartridge == old(self).ppu.cartridge,
            dma_copied(old(self), final(self), bank),
    {
        proof {
            assert((DMA_STALL + 1) * self.cycles <= (DMA_STALL + 1) * CYCLE_CEILING) by (nonlinear_arith)
                requires
                    self.cycles <= CYCLE_CEILING,
            ;
        }
        self.cpu_stall_cycles = self.cpu_stall_cycles + DMA_STALL + self.cycles % 2;
        let base: u16 = (bank as u16) * 0x100;
        let ghost a0 = self.ppu.registers.oam_addr as int;
        let mut i: u16 = 0;
        while i < 256
            invariant
                self.wf(),
                self.cycles == old(self).cycles,
                self.ram == old(self).ram,
                bank != 0x40 ==> self.controller == old(self).controller,
                self.cpu_stall_cycles == old(self).cpu_stall_cycles + DMA_STALL + old(self).cycles % 2,
                self.ppu.cartridge == old(self).ppu.cartridge,
                base as int == bank as int * 0x100,
                a0 == old(self).ppu.registers.oam_addr as int,
                i <= 256,
                self.ppu.registers.oam_addr as int == (a0 + i) % 256,
                forall|j: int|
                    0 <= j < i && Bus::is_quiet((base as int + j) as u16) ==> #[trigger] self.ppu.renderer.oam@[(a0
                        + j) % 256] == old(self).quiet_read((base as int + j) as u16),
            decreases 256 - i,
        {
            let addr = base + i;
            let v = self.unclocked_read_byte(addr);
            let ghost before = self.ppu.renderer.oam@;
            self.ppu.write_oam_data(v);
            proof {
                assert forall|j: int|
                    0 <= j < i + 1 && Bus::is_quiet((base as int + j) as u16) implies #[trigger] self.ppu.renderer.oam@[(
                    a0 + j) % 256] == old(self).quiet_read((base as int + j) as u16) by {
                    if j < i {
                        lemma_distinct_slots(a0, j, i as int);
                        assert(before[(a0 + j) % 256] == old(self).quiet_read((base as int + j) as u16));
                    }
                }
            }
            i = i + 1;
        }
    }

    /// Clocked read: one cycle passes, then the address is decoded.
    pub fn read_byte(&mut self, address: u16) -> (r: u8)
        requires
            old(self).room(1),
        ensures
            final(self).wf(),
            final(self).cycles == old(self).cycles + 1,
            final(self).ram == old(self).ram,
            final(self).cpu_stall_cycles == old(self).cpu_stall_cycles,
            cart_stable(old(self).ppu.cartridge, final(self).ppu.cartridge),
            Self::is_quiet(address) ==> r == old(self).quiet_read(address),
            address == 0x4016 ==> (r, final(self).controller) == read_result(old(self).controller),
            address != 0x4016 ==> final(self).controller == old(self).controller,
    {
        let ghost c0 = self.ppu.cartridge;
        self.tick();
        let ghost c1 = self.ppu.cartridge;
        proof {
            match (c0, c1) {
                (Some(a), Some(b)) => lemma_cart_stable_prg(a, b, address),
                _ => {},
            }
        }
        self.unclocked_read_byte(address)
    }

    /// Clocked write: one cycle passes, then the address is decoded.
    pub fn write_byte(&mut self, address: u16, value: u8)
        requires
            old(self).room(1),
        ensures
            final(self).wf(),
            final(self).cycles == old(self).cycles + 1,
            final(self).ram@ == if address < 0x2000 {
                old(self).ram@.update((address % 0x800) as int, value)
            } else {
                old(self).ram@
            },
            address == 0x4016 ==> final(self).controller == write_result(old(self).controller, value),
            address != 0x4016 && !(address == 0x4014 && value == 0x40) ==> final(self).controller
                == old(self).controller,
            final(self).cpu_stall_cycles == old(self).cpu_stall_cycles + if address == 0x4014 {
                DMA_STALL + (old(self).cycles + 1) % 2
            } else {
                0
            },
            address == 0x4014 ==> dma_copied(old(self), final(self), value),
            address < 0x4020 ==> cart_stable(old(self).ppu.cartridge, final(self).ppu.cartridge),
    {
        let ghost c0 = self.ppu.cartridge;
        let ghost b0 = *self;
        self.tick();
        let ghost c1 = self.ppu.cartridge;
        let ghost b1 = *self;
        proof {
            if address == 0x4014 {
                assert forall|i: int| 0 <= i < 256 implies #[trigger] b1.quiet_read(((value as int) * 256 + i) as u16)
                    == b0.quiet_read(((value as int) * 256 + i) as u16) by {
                    lemma_quiet_read_stable(&b0, &b1, ((value as int) * 256 + i) as u16);
                }
            }
        }
        self.unclocked_write_byte(address, value);
        proof {
            if address == 0x4014 {
                assert(b1.ppu.registers.oam_addr == b0.ppu.registers.oam_addr);
                assert forall|i: int|
                    0 <= i < 256 && Bus::is_quiet(((value as int) * 256 + i) as u16) implies #[trigger] self.ppu.renderer.oam@[(
                    b0.ppu.registers.oam_addr as int + i) % 256] == b0.quiet_read(((value as int) * 256 + i) as u16) by {
                    assert(b1.quiet_read(((value as int) * 256 + i) as u16) == b0.quiet_read(((value as int) * 256 + i) as u16));
                }
            }
            if address < 0x4020 {
                lemma_cart_stable_trans(c0, c1, self.ppu.cartridge);
            }
        }
    }

    /// Two clocked reads: low byte at `a`, high byte at `b`.
    pub fn read_noncontinuous_word(&mut self, a: u16, b: u16) -> (r: u16)
        requires
            old(self).room(2),
        ensures
            final(self).wf(),
            final(self).cycles == old(self).cycles + 2,
            final(self).ram == old(self).ram,
            final(self).cpu_stall_cycles == old(self).cpu_stall_cycles,
            cart_stable(old(self).ppu.cartridge, final(self).ppu.cartridge),
            Self::is_quiet(a) && Self::is_quiet(b) ==> r == old(self).quiet_read(a) as int + 256
                * old(self).quiet_read(b) as int,
            Self::is_quiet(a) && Self::is_quiet(b) ==> final(self).controller == old(self).controller,
    {
        let ghost c0 = self.ppu.cartridge;
        let lo = self.read_byte(a);
        let ghost c1 = self.ppu.cartridge;
        proof {
            if Self::is_quiet(b) {
                match (c0, c1) {
                    (Some(x), Some(y)) => lemma_cart_stable_prg(x, y, b),
                    _ => {},
                }
            }
        }
        let hi = self.read_byte(b);
        proof {
            lemma_cart_stable_trans(c0, c1, self.ppu.cartridge);
        }
        (lo as u16) + (hi as u16) * 256
    }

    /// Little-endian word at `address` and `address + 1` (wrapping).
    pub fn read_word(&mut self, address: u16) -> (r: u16)
        requires
            old(self).room(2),
        ensures
            final(self).wf(),
            final(self).cycles == old(self).cycles + 2,
            final(self).ram == old(self).ram,
            final(self).cpu_stall_cycles == old(self).cpu_stall_cycles,
            cart_stable(old(self).ppu.cartridge, final(self).ppu.cartridge),
            Self::is_quiet(address) && Self::is_quiet(address.wrapping_add(1)) ==> r == old(
                self,
            ).quiet_read(address) as int + 256 * old(self).quiet_read(address.wrapping_add(1)) as int,
    {
        self.read_noncontinuous_word(address, address.wrapping_add(1))
    }

    /// Inserts the cartridge built from a complete iNES image.
    pub fn load_rom_from_memory(&mut self, data: &[u8])
        requires
            old(self).wf(),
            ines_valid(data@),
        ensures
            final(self).wf(),
            final(self).cycles == old(self).cycles,
            final(self).ram == old(self).ram,
            final(self).ppu.cartridge is Some,
    {
        let c = Cartridge::new(data);
        self.ppu.set_cartridge(c);
    }

    /// The bus keeps no state of its own that a reset clears.
    pub fn reset(&mut self)
        ensures
            *final(self) == *old(self),
    {
    }
}

/// OAM holds, from the OAM address `old` had on, the 256 bytes of page `bank`
/// wherever reading them has no side effects.
pub open spec fn dma_copied(old: &Bus, new: &Bus, bank: u8) -> bool {
    forall|i: int|
        0 <= i < 256 && Bus::is_quiet(((bank as int) * 256 + i) as u16) ==> #[trigger] new.ppu.renderer.oam@[(
        old.ppu.registers.oam_addr as int + i) % 256] == old.quiet_read(((bank as int) * 256 + i) as u16)
}

proof fn lemma_distinct_slots(a: int, j: int, i: int)
    requires
        0 <= a,
        0 <= j < i < 256,
    ensures
        (a + j) % 256 != (a + i) % 256,
{
    assert((a + j) % 256 != (a + i) % 256) by (nonlinear_arith)
        requires
            0 <= a,
            0 <= j < i < 256,
    ;
}

/// Reads without side effects see the same byte in two states that share
/// RAM and the CPU side of the cartridge.
pub proof fn lemma_quiet_read_stable(b0: &Bus, b1: &Bus, addr: u16)
    requires
        b0.ram == b1.ram,
        cart_stable(b0.ppu.cartridge, b1.ppu.cartridge),
    ensures
        b0.quiet_read(addr) == b1.quiet_read(addr),
{
    match (b0.ppu.cartridge, b1.ppu.cartridge) {
        (Some(a), Some(b)) => lemma_cart_stable_prg(a, b, addr),
        _ => {},
    }
}

/// The four mirrors of internal RAM read the same byte at any time.
pub proof fn lemma_ram_mirrors(b: &Bus, addr: u16)
    requires
        addr < 0x800,
    ensures
        b.quiet_read(addr) == b.quiet_read((addr + 0x800) as u16),
        b.quiet_read(addr) == b.quiet_read((addr + 0x1000) as u16),
        b.quiet_read(addr) == b.quiet_read((addr + 0x1800) as u16),
{
}


/// Between any two well-formed states the PPU has advanced exactly three
/// dots, and the APU exactly one cycle, per CPU cycle that passed.
pub proof fn lemma_clock_coupling(before: &Bus, after: &Bus)
    requires
        before.wf(),
        after.wf(),
    ensures
        dots(&after.ppu.renderer) - dots(&before.ppu.renderer) == 3 * (after.cycles - before.cycles),
        after.apu.cycles - before.apu.cycles == after.cycles - before.cycles,
{
}


impl Default for Bus {
    fn default() -> (r: Bus)
        ensures
            r.wf(),
            r.cycles == 0,
    {
        Bus::new()
    }
}

} // verus!
