//! Cycle-coupled NES emulation core: CPU, PPU, APU, bus, cartridge mappers
//! and the controller port, with their behaviour stated as contracts.

pub mod controller;
pub mod error;
pub mod cartridge;
pub mod ppu;
pub mod apu;
pub mod bus;
pub mod cpu;

pub mod memory_editor;

pub use error::NesError;

use crate::apu::ChannelLevels;
use crate::bus::{Bus, CYCLE_CEILING};
use crate::cartridge::{ines_image_valid, ines_valid};
use crate::controller::{Button, button_bit};
use crate::cpu::{Cpu, IRQ_DISABLE, Interrupt, step_effect};
use crate::ppu::{cart_stable, lemma_cart_stable_trans};
use crate::memory_editor::{MemoryEditor, as_chars, disassembly, dump_rows, lines_view, row_count};
use crate::ppu::{Ppu, chr_written, palette_written, write_palette_slot};
use vstd::prelude::*;

verus! {

/// CPU cycles in one NTSC frame.
pub const CYCLES_PER_FRAME: u64 = 29781;

/// Cycles one `Nes::step` may take: a pending DMA stall, the instruction,
/// and up to three interrupt entries.
pub const NES_STEP_BUDGET: u64 = 560;

pub struct Nes {
    pub cpu: Cpu,
}

/// RAM addresses (ascending) among the first `n` whose byte equals `value`.
pub open spec fn ram_matches(ram: Seq<u8>, value: u8, n: nat) -> Seq<u16>
    decreases n,
{
    if n == 0 {
        Seq::empty()
    } else {
        let prev = ram_matches(ram, value, (n - 1) as nat);
        if ram[n - 1] == value {
            prev.push((n - 1) as u16)
        } else {
            prev
        }
    }
}

impl Nes {
    pub open spec fn wf(&self) -> bool {
        self.cpu.bus.wf()
    }

    pub open spec fn cycles_spec(&self) -> u64 {
        self.cpu.bus.cycles
    }

    /// Room on the cycle counter for `n` more cycles.
    pub open spec fn room(&self, n: int) -> bool {
        self.cpu.bus.room(n)
    }

    pub open spec fn ram(&self) -> Seq<u8> {
        self.cpu.bus.ram@
    }

    /// What the memory editor sees at a CPU address: RAM (mirrored), 0 for
    /// the I/O registers, and the cartridge (0 without one).
    pub open spec fn peek(&self, address: u16) -> u8 {
        if address < 0x2000 {
            self.ram()[(address % 0x800) as int]
        } else if address < 0x4020 {
            0
        } else {
            match self.cpu.bus.ppu.cartridge {
                Some(c) => c.prg_read(address),
                None => 0,
            }
        }
    }

    /// `length` bytes as `peek` sees them from `start` on, wrapping at $FFFF.
    pub open spec fn peek_range(&self, start: u16, length: usize) -> Seq<u8> {
        Seq::new(length as nat, |i: int| self.peek(((start as int + i) % 0x10000) as u16))
    }

    pub fn new() -> (r: Nes)
        ensures
            r.wf(),
            r.cpu.pc == 0,
            r.cycles_spec() == 0,
            r.cpu.bus.ppu.cartridge is None,
    {
        Nes { cpu: Cpu::new() }
    }

    /// Current master cycle count.
    pub fn cycles(&self) -> (r: u64)
        ensures
            r == self.cycles_spec(),
    {
        self.cpu.bus.cycles
    }

    /// Installs the cartridge of an iNES image and resets the CPU. An image
    /// that is too short, lacks the magic, or is shorter than its header
    /// declares is refused with `InvalidRom`, and nothing changes.
    pub fn load_rom(&mut self, rom_data: &[u8]) -> (r: Result<(), NesError>)
        requires
            old(self).room(7),
        ensures
            final(self).wf(),
            r is Ok <==> ines_valid(rom_data@),
            r is Ok ==> final(self).cpu.bus.ppu.cartridge is Some && final(self).cpu.sp == 0xFD,
            r matches Err(e) ==> e is InvalidRom && *final(self) == *old(self),
    {
        if !ines_image_valid(rom_data) {
            return Err(NesError::InvalidRom("Invalid iNES image".to_string()));
        }
        self.cpu.bus.load_rom_from_memory(rom_data);
        self.cpu.reset();
        Ok(())
    }

    /// Runs `step` until at least one frame's worth of cycles (29781) has
    /// passed in this call, and returns the framebuffer. Each call of `step`
    /// consumes the DMA stall, runs an instruction and services interrupts.
    pub fn step_frame(&mut self) -> (r: Result<&[u8], NesError>)
        requires
            old(self).wf(),
        ensures
            final(self).wf(),
            r matches Ok(fb) ==> fb@ == final(self).cpu.bus.ppu.renderer.frame_buffer@
                && final(self).cycles_spec() >= old(self).cycles_spec() + CYCLES_PER_FRAME,
            r is Err ==> !final(self).can_step(),
            exists|trace: Seq<Nes>|
                trace.len() >= 1 && trace[0] == *old(self) && trace.last() == *final(self) && forall|
                    i: int,
                | 0 <= i < trace.len() - 1 ==> #[trigger] stepped(trace[i], trace[i + 1]),
    {
        let target = self.cpu.bus.cycles + CYCLES_PER_FRAME;
        let ghost mut trace: Seq<Nes> = seq![*self];
        while self.cpu.bus.cycles < target
            invariant
                self.wf(),
                target == old(self).cycles_spec() + CYCLES_PER_FRAME,
                trace.len() >= 1,
                trace[0] == *old(self),
                trace.last() == *self,
                forall|i: int| 0 <= i < trace.len() - 1 ==> #[trigger] stepped(trace[i], trace[i + 1]),
            decreases CYCLE_CEILING - self.cpu.bus.cycles,
        {
            let ghost before = *self;
            match self.step() {
                Ok(_) => {},
                Err(e) => {
                    return Err(e);
                },
            }
            proof {
                let t2 = trace.push(*self);
                assert(stepped(before, *self));
                assert forall|i: int| 0 <= i < t2.len() - 1 implies #[trigger] stepped(t2[i], t2[i + 1]) by {
                    if i < trace.len() - 1 {
                        assert(t2[i] == trace[i] && t2[i + 1] == trace[i + 1]);
                    }
                }
                trace = t2;
            }
        }
        Ok(self.cpu.bus.ppu.frame_buffer())
    }

    /// Re-runs the reset sequence without touching memory.
    pub fn reset(&mut self)
        requires
            old(self).room(7),
        ensures
            final(self).wf(),
            final(self).ram() == old(self).ram(),
            final(self).cpu.sp == 0xFD,
            final(self).cpu.pc == old(self).cpu.vector(0xFFFC),
            final(self).cpu.flag(IRQ_DISABLE),
            final(self).cycles_spec() == old(self).cycles_spec() + 7,
    {
        self.cpu.reset();
    }

    /// Room on the cycle counter for the pending DMA stall and one more
    /// `step`.
    pub open spec fn can_step(&self) -> bool {
        self.cpu.bus.cycles + self.cpu.bus.cpu_stall_cycles + NES_STEP_BUDGET <= CYCLE_CEILING
    }

    /// Runs one instruction: first the CPU idles through any pending DMA
    /// stall, then it executes, then NMI, the mapper IRQ and the APU IRQ are
    /// serviced. Returns the cycles the instruction itself took. Only when
    /// the cycle counter has no room left does it refuse, changing nothing.
    pub fn step(&mut self) -> (r: Result<u32, NesError>)
        requires
            old(self).wf(),
        ensures
            final(self).wf(),
            r is Ok <==> old(self).can_step(),
            r is Err ==> *final(self) == *old(self),
            r is Ok ==> stepped(*old(self), *final(self)),
            r matches Ok(n) ==> 1 <= n <= 8,
    {
        if self.cpu.bus.cycles + self.cpu.bus.cpu_stall_cycles + NES_STEP_BUDGET > CYCLE_CEILING {
            return Err(NesError::Other("cycle counter exhausted".to_string()));
        }
        let ghost pre = self.cpu;
        let stall_cycles = self.cpu.bus.reset_cpu_stall_cycles();
        let mut i: u64 = 0;
        while i < stall_cycles
            invariant
                self.cpu.bus.wf(),
                i <= stall_cycles == pre.bus.cpu_stall_cycles,
                self.cpu.bus.cycles == pre.bus.cycles + i,
                pre.bus.cycles + pre.bus.cpu_stall_cycles + NES_STEP_BUDGET <= CYCLE_CEILING,
                self.cpu.bus.cpu_stall_cycles == 0,
                self.cpu.bus.ram == pre.bus.ram,
                cart_stable(pre.bus.ppu.cartridge, self.cpu.bus.ppu.cartridge),
                (self.cpu.pc, self.cpu.sp, self.cpu.a, self.cpu.x, self.cpu.y, self.cpu.p) == (
                    pre.pc,
                    pre.sp,
                    pre.a,
                    pre.x,
                    pre.y,
                    pre.p,
                ),
            decreases stall_cycles - i,
        {
            let ghost c0 = self.cpu.bus.ppu.cartridge;
            self.cpu.bus.tick();
            proof {
                lemma_cart_stable_trans(pre.bus.ppu.cartridge, c0, self.cpu.bus.ppu.cartridge);
            }
            i = i + 1;
        }
        let ghost a = self.cpu;
        let start = self.cpu.bus.cycles;
        let _ = self.cpu.step();
        let ghost b = self.cpu;
        let elapsed = (self.cpu.bus.cycles - start) as u32;
        self.service_interrupts();
        proof {
            assert(stalled(pre, a));
            assert(serviced(b, self.cpu));
        }
        Ok(elapsed)
    }

    /// NMI first (the latch is consumed), then the mapper's IRQ (acknowledged),
    /// then the APU's IRQ.
    fn service_interrupts(&mut self)
        requires
            old(self).room(21),
        ensures
            final(self).wf(),
            serviced(old(self).cpu, final(self).cpu),
    {
        if self.cpu.bus.ppu.nmi {
            let ghost p0 = self.cpu.p;
            self.cpu.interrupt(Interrupt::Nmi);
            self.cpu.bus.ppu.nmi = false;
            proof {
                assert((p0 | IRQ_DISABLE) & IRQ_DISABLE != 0) by (bit_vector);
            }
        }
        let ghost after_nmi = self.cpu;
        let mapper_irq = match &self.cpu.bus.ppu.cartridge {
            Some(c) => c.irq_pending(),
            None => false,
        };
        if mapper_irq {
            match &mut self.cpu.bus.ppu.cartridge {
                Some(c) => c.acknowledge_irq(),
                None => {},
            }
            self.cpu.interrupt(Interrupt::Irq);
        }
        if self.cpu.bus.apu.irq_pending() {
            self.cpu.interrupt(Interrupt::Irq);
        }
    }
}


proof fn lemma_distinct_cells(s: int, j: int, i: int)
    requires
        0 <= s,
        0 <= j < i < j + 0x800,
    ensures
        (s + j) % 0x800 != (s + i) % 0x800,
{
    assert((s + j) % 0x800 != (s + i) % 0x800) by (nonlinear_arith)
        requires
            0 <= s,
            0 <= j < i < j + 0x800,
    ;
}

/// `a` is `pre` after the CPU idled through its pending DMA stall.
pub open spec fn stalled(pre: Cpu, a: Cpu) -> bool {
    &&& a.bus.wf()
    &&& a.bus.cycles == pre.bus.cycles + pre.bus.cpu_stall_cycles
    &&& a.bus.cpu_stall_cycles == 0
    &&& a.bus.ram == pre.bus.ram
    &&& cart_stable(pre.bus.ppu.cartridge, a.bus.ppu.cartridge)
    &&& (a.pc, a.sp, a.a, a.x, a.y, a.p) == (pre.pc, pre.sp, pre.a, pre.x, pre.y, pre.p)
}

/// The mapper requests an IRQ.
pub open spec fn mapper_irq(c: Cpu) -> bool {
    c.bus.ppu.cartridge matches Some(k) && k.regs.irq_pending
}

/// Interrupt service after an instruction: a latched NMI is entered and its
/// latch cleared (a later IRQ is then masked); with nothing pending nothing
/// changes.
pub open spec fn serviced(b: Cpu, post: Cpu) -> bool {
    &&& post.bus.wf()
    &&& b.bus.cycles <= post.bus.cycles <= b.bus.cycles + 21
    &&& b.bus.ppu.nmi ==> {
        &&& post.pc == b.vector(0xFFFA)
        &&& !post.bus.ppu.nmi
        &&& post.flag(IRQ_DISABLE)
    }
    &&& !b.bus.ppu.nmi && !mapper_irq(b) && !b.bus.apu.frame_counter.irq_pending && !b.bus.apu.dmc.irq_pending
        ==> post == b
}

/// One `Nes::step`: stall, one instruction, interrupt service.
pub open spec fn stepped(pre: Nes, post: Nes) -> bool {
    exists|a: Cpu, b: Cpu|
        #[trigger] stalled(pre.cpu, a) && step_effect(a, b) && #[trigger] serviced(b, post.cpu)
}

/// `after` differs from `before` in the cartridge at most.
pub open spec fn same_but_cart(before: &Nes, after: &Nes) -> bool {
    &&& after.cpu.bus.ram == before.cpu.bus.ram
    &&& after.cpu.bus.ppu.registers == before.cpu.bus.ppu.registers
    &&& after.cpu.bus.ppu.renderer == before.cpu.bus.ppu.renderer
    &&& after.cpu.bus.ppu.nmi == before.cpu.bus.ppu.nmi
    &&& after.cpu.bus.apu == before.cpu.bus.apu
    &&& after.cpu.bus.controller == before.cpu.bus.controller
    &&& after.cpu.bus.cycles == before.cpu.bus.cycles
    &&& after.cpu.bus.cpu_stall_cycles == before.cpu.bus.cpu_stall_cycles
    &&& (after.cpu.pc, after.cpu.sp, after.cpu.a, after.cpu.x, after.cpu.y, after.cpu.p) == (
        before.cpu.pc,
        before.cpu.sp,
        before.cpu.a,
        before.cpu.x,
        before.cpu.y,
        before.cpu.p,
    )
}

/// `after` differs from `before` in internal RAM at most.
pub open spec fn same_but_ram(before: &Nes, after: &Nes) -> bool {
    &&& after.cpu.bus.ppu == before.cpu.bus.ppu
    &&& after.cpu.bus.apu == before.cpu.bus.apu
    &&& after.cpu.bus.controller == before.cpu.bus.controller
    &&& after.cpu.bus.cycles == before.cpu.bus.cycles
    &&& after.cpu.bus.cpu_stall_cycles == before.cpu.bus.cpu_stall_cycles
    &&& (after.cpu.pc, after.cpu.sp, after.cpu.a, after.cpu.x, after.cpu.y, after.cpu.p) == (
        before.cpu.pc,
        before.cpu.sp,
        before.cpu.a,
        before.cpu.x,
        before.cpu.y,
        before.cpu.p,
    )
}

/// `after` is the machine after the memory editor poked `value` at `address`.
pub open spec fn poked(before: &Nes, after: &Nes, address: u16, value: u8) -> bool {
    &&& after.ram() == if address < 0x2000 {
        before.ram().update((address % 0x800) as int, value)
    } else {
        before.ram()
    }
    &&& after.cycles_spec() == before.cycles_spec()
}

/// Poking internal RAM and peeking it back returns the poked byte.
pub proof fn lemma_poke_then_peek(before: &Nes, after: &Nes, address: u16, value: u8)
    requires
        before.wf(),
        address < 0x800,
        poked(before, after, address, value),
    ensures
        after.peek(address) == value,
{
}

impl Nes {
    pub fn cpu_state(&self) -> (r: &Cpu)
        ensures
            *r == self.cpu,
    {
        &self.cpu
    }

    pub fn cpu_state_mut(&mut self) -> (r: &mut Cpu)
        ensures
            *r == old(self).cpu,
            final(self).cpu == *final(r),
    {
        &mut self.cpu
    }

    pub fn ppu_state(&self) -> (r: &Ppu)
        ensures
            *r == self.cpu.bus.ppu,
    {
        &self.cpu.bus.ppu
    }

    /// Presses a controller button.
    pub fn button_down(&mut self, button: Button)
        ensures
            final(self).cpu.bus.controller.buttons == old(self).cpu.bus.controller.buttons
                | button_bit(button),
            final(self).cycles_spec() == old(self).cycles_spec(),
    {
        self.cpu.bus.controller.press(button);
    }

    /// Releases a controller button.
    pub fn button_up(&mut self, button: Button)
        ensures
            final(self).cpu.bus.controller.buttons == old(self).cpu.bus.controller.buttons
                & !button_bit(button),
            final(self).cycles_spec() == old(self).cycles_spec(),
    {
        self.cpu.bus.controller.release(button);
    }

    /// Audio gathered since the last call: one entry of channel levels per
    /// output sample.
    pub fn get_audio_samples(&mut self) -> (r: Vec<ChannelLevels>)
        requires
            old(self).wf(),
        ensures
            final(self).wf(),
            r@ == old(self).cpu.bus.apu.sample_buffer@,
            final(self).cpu.bus.apu.sample_buffer@.len() == 0,
    {
        self.cpu.bus.apu.get_samples()
    }

    /// The 2 KiB of internal RAM.
    pub fn read_ram(&self) -> (r: &[u8])
        ensures
            r@ == self.ram(),
    {
        self.cpu.bus.ram.as_slice()
    }

    pub fn write_ram(&mut self, address: u16, value: u8)
        requires
            old(self).wf(),
        ensures
            final(self).wf(),
            poked(old(self), final(self), address % 0x800, value),
            same_but_ram(old(self), final(self)),
    {
        self.cpu.bus.ram.set((address % 0x800) as usize, value);
    }

    /// Writes `data` into RAM from `start` on, wrapping within the 2 KiB.
    pub fn write_ram_range(&mut self, start: u16, data: &[u8])
        requires
            old(self).wf(),
        ensures
            final(self).wf(),
            final(self).cycles_spec() == old(self).cycles_spec(),
            forall|i: int|
                0 <= i < data@.len() && i + 0x800 >= data@.len() ==> #[trigger] final(self).ram()[(
                start as int + i) % 0x800] == data@[i],
    {
        let mut i: usize = 0;
        while i < data.len()
            invariant
                self.wf(),
                i <= data@.len(),
                self.cycles_spec() == old(self).cycles_spec(),
                forall|j: int|
                    0 <= j < i && j + 0x800 >= i ==> #[trigger] self.ram()[(start as int + j) % 0x800]
                        == data@[j],
            decreases data@.len() - i,
        {
            let addr = (start as usize + i % 0x800) % 0x800;
            proof {
                assert((start as int + i % 0x800) % 0x800 == (start as int + i) % 0x800) by (nonlinear_arith);
            }
            let ghost before = self.ram();
            self.cpu.bus.ram.set(addr, data[i]);
            proof {
                assert forall|j: int| 0 <= j < i + 1 && j + 0x800 >= i + 1 implies #[trigger] self.ram()[(
                start as int + j) % 0x800] == data@[j] by {
                    if j < i {
                        lemma_distinct_cells(start as int, j, i as int);
                        assert(before[(start as int + j) % 0x800] == data@[j]);
                    }
                }
            }
            i = i + 1;
        }
    }

    /// Reads any CPU address without side effects: PPU and I/O registers
    /// read as 0.
    pub fn peek_memory(&self, address: u16) -> (r: u8)
        requires
            self.wf(),
        ensures
            r == self.peek(address),
    {
        if address < 0x2000 {
            self.cpu.bus.ram[(address % 0x800) as usize]
        } else if address < 0x4020 {
            0
        } else {
            match &self.cpu.bus.ppu.cartridge {
                Some(c) => c.read_prg_byte(address),
                None => 0,
            }
        }
    }

    /// Writes RAM, or PRG RAM at `$6000-$7FFF`; other addresses are ignored.
    pub fn poke_memory(&mut self, address: u16, value: u8)
        requires
            old(self).wf(),
        ensures
            final(self).wf(),
            poked(old(self), final(self), address, value),
            address < 0x2000 ==> same_but_ram(old(self), final(self)),
            address >= 0x2000 && !(0x6000 <= address <= 0x7FFF) ==> *final(self) == *old(self),
            0x6000 <= address <= 0x7FFF ==> same_but_cart(old(self), final(self)) && match (
                old(self).cpu.bus.ppu.cartridge,
                final(self).cpu.bus.ppu.cartridge,
            ) {
                (Some(a), Some(b)) => b.prg_ram@ == (if a.writes_prg_ram(address) {
                    a.prg_ram@.update(address - 0x6000, value)
                } else {
                    a.prg_ram@
                }) && b.prg_rom == a.prg_rom && b.chr_rom == a.chr_rom && b.chr_ram == a.chr_ram
                    && b.mapper == a.mapper && b.regs == a.regs,
                (None, None) => true,
                _ => false,
            },
    {
        if address < 0x2000 {
            self.cpu.bus.ram.set((address % 0x800) as usize, value);
        } else if 0x6000 <= address && address <= 0x7FFF {
            match &mut self.cpu.bus.ppu.cartridge {
                Some(c) => c.write_prg_byte(address, value),
                None => {},
            }
        }
    }

    /// `length` bytes peeked from `start` on, the address wrapping at $FFFF.
    pub fn read_memory_range(&self, start: u16, length: usize) -> (r: Vec<u8>)
        requires
            self.wf(),
        ensures
            r@.len() == length,
            forall|i: int| 0 <= i < length ==> #[trigger] r@[i] == self.peek(((start as int + i) % 0x10000) as u16),
    {
        let mut out: Vec<u8> = Vec::new();
        let mut i: usize = 0;
        while i < length
            invariant
                self.wf(),
                i <= length,
                out@.len() == i,
                forall|j: int| 0 <= j < i ==> #[trigger] out@[j] == self.peek(((start as int + j) % 0x10000) as u16),
            decreases length - i,
        {
            let addr = ((start as usize + i % 0x10000) % 0x10000) as u16;
            proof {
                assert((start as int + i % 0x10000) % 0x10000 == (start as int + i) % 0x10000) by (nonlinear_arith);
            }
            out.push(self.peek_memory(addr));
            i = i + 1;
        }
        out
    }

    /// Hex dump of `length` bytes peeked from `start` on.
    pub fn hex_dump(&self, start: u16, length: usize) -> (r: String)
        requires
            self.wf(),
        ensures
            r@ == as_chars(
                dump_rows(self.peek_range(start, length), 0, length as int, row_count(0, length as int)),
            ),
    {
        let memory = self.read_memory_range(start, length);
        proof {
            assert(memory@ =~= self.peek_range(start, length));
        }
        MemoryEditor::hex_dump(memory.as_slice(), 0, memory.len())
    }

    /// Disassembles `count` instructions from CPU address `start`, reading
    /// memory as `peek_memory` does.
    pub fn disassemble(&self, start: u16, count: usize) -> (r: Vec<(u16, String)>)
        requires
            self.wf(),
        ensures
            lines_view(r@) == disassembly(self.peek_range(0, 0x10000), start as nat, count as nat),
    {
        let image = self.read_memory_range(0, 0x10000);
        proof {
            assert(image@ =~= self.peek_range(0, 0x10000));
        }
        MemoryEditor::disassemble(image.as_slice(), start, count)
    }

    /// Disassembles `count` instructions from the current PC.
    pub fn disassemble_at_pc(&self, count: usize) -> (r: Vec<(u16, String)>)
        requires
            self.wf(),
        ensures
            lines_view(r@) == disassembly(self.peek_range(0, 0x10000), self.cpu.pc as nat, count as nat),
    {
        self.disassemble(self.cpu.pc, count)
    }

    /// The 2 KiB of nametable memory.
    pub fn read_vram(&self) -> (r: &[u8])
        ensures
            r@ == self.cpu.bus.ppu.renderer.vram@,
    {
        self.cpu.bus.ppu.renderer.vram.as_slice()
    }

    pub fn write_vram(&mut self, address: u16, value: u8)
        requires
            old(self).wf(),
        ensures
            final(self).wf(),
            final(self).cpu.bus.ppu.renderer.vram@ == old(self).cpu.bus.ppu.renderer.vram@.update(
                (address % 0x800) as int,
                value,
            ),
    {
        self.cpu.bus.ppu.renderer.vram.set((address % 0x800) as usize, value);
    }

    pub fn read_oam(&self) -> (r: &[u8])
        ensures
            r@ == self.cpu.bus.ppu.renderer.oam@,
    {
        self.cpu.bus.ppu.renderer.oam.as_slice()
    }

    pub fn write_oam(&mut self, address: u8, value: u8)
        requires
            old(self).wf(),
        ensures
            final(self).wf(),
            final(self).cpu.bus.ppu.renderer.oam@ == old(self).cpu.bus.ppu.renderer.oam@.update(
                address as int,
                value,
            ),
    {
        self.cpu.bus.ppu.renderer.oam.set(address as usize, value);
    }

    pub fn read_palette(&self) -> (r: &[u8])
        ensures
            r@ == self.cpu.bus.ppu.renderer.palette@,
    {
        self.cpu.bus.ppu.renderer.palette.as_slice()
    }

    pub fn write_palette(&mut self, address: u8, value: u8)
        requires
            old(self).wf(),
        ensures
            final(self).wf(),
            final(self).cpu.bus.ppu.renderer.palette@ == palette_written(
                old(self).cpu.bus.ppu.renderer.palette@,
                (address % 32) as int,
                value,
            ),
            final(self).ram() == old(self).ram(),
    {
        write_palette_slot(&mut self.cpu.bus.ppu.renderer.palette, (address % 32) as usize, value);
    }

    /// Pattern memory as the PPU sees it (0 without a cartridge).
    pub fn read_chr(&self, address: u16) -> (r: u8)
        requires
            self.wf(),
        ensures
            r == match self.cpu.bus.ppu.cartridge {
                Some(c) => c.chr_read(address),
                None => 0,
            },
    {
        match &self.cpu.bus.ppu.cartridge {
            Some(c) => c.read_chr_byte(address),
            None => 0,
        }
    }

    /// Writes pattern memory; only CHR RAM takes it.
    pub fn write_chr(&mut self, address: u16, value: u8)
        requires
            old(self).wf(),
        ensures
            final(self).wf(),
            final(self).ram() == old(self).ram(),
            chr_written(old(self).cpu.bus.ppu.cartridge, final(self).cpu.bus.ppu.cartridge, address, value),
    {
        match &mut self.cpu.bus.ppu.cartridge {
            Some(c) => c.write_chr_byte(address, value),
            None => {},
        }
    }

    /// The 32 KiB the CPU sees at `$8000-$FFFF`, or `None` without a cartridge.
    pub fn read_prg_rom(&self) -> (r: Option<Vec<u8>>)
        requires
            self.wf(),
        ensures
            r is Some <==> self.cpu.bus.ppu.cartridge is Some,
            r matches Some(v) ==> v@.len() == 0x8000 && forall|i: int|
                0 <= i < 0x8000 ==> #[trigger] v@[i] == self.peek((0x8000 + i) as u16),
    {
        match &self.cpu.bus.ppu.cartridge {
            Some(c) => {
                let mut out: Vec<u8> = Vec::new();
                let mut i: u32 = 0;
                while i < 0x8000
                    invariant
                        c.wf(),
                        self.cpu.bus.ppu.cartridge == Some(*c),
                        i <= 0x8000,
                        out@.len() == i,
                        forall|j: int| 0 <= j < i ==> #[trigger] out@[j] == c.prg_read((0x8000 + j) as u16),
                    decreases 0x8000 - i,
                {
                    out.push(c.read_prg_byte((0x8000 + i) as u16));
                    i = i + 1;
                }
                Some(out)
            },
            None => None,
        }
    }

    /// Every RAM address holding `value`, in ascending order.
    pub fn search_memory(&self, value: u8) -> (r: Vec<u16>)
        requires
            self.wf(),
        ensures
            r@ == ram_matches(self.ram(), value, 2048),
    {
        let mut results: Vec<u16> = Vec::new();
        let mut i: usize = 0;
        while i < 2048
            invariant
                self.wf(),
                i <= 2048,
                results@ == ram_matches(self.ram(), value, i as nat),
            decreases 2048 - i,
        {
            if self.cpu.bus.ram[i] == value {
                results.push(i as u16);
            }
            i = i + 1;
        }
        results
    }

    /// Sprite `index` of OAM as (Y, tile, attributes, X).
    pub fn get_sprite_info(&self, index: u8) -> (r: (u8, u8, u8, u8))
        requires
            self.wf(),
            index < 64,
        ensures
            ({
                let oam = self.cpu.bus.ppu.renderer.oam@;
                let b = index as int * 4;
                r == (oam[b], oam[b + 1], oam[b + 2], oam[b + 3])
            }),
    {
        let base = (index as usize) * 4;
        let oam = &self.cpu.bus.ppu.renderer.oam;
        (oam[base], oam[base + 1], oam[base + 2], oam[base + 3])
    }

    /// All 64 sprites as (index, Y, tile, attributes, X).
    pub fn get_all_sprites(&self) -> (r: Vec<(u8, u8, u8, u8, u8)>)
        requires
            self.wf(),
        ensures
            r@.len() == 64,
            forall|i: int| 0 <= i < 64 ==> #[trigger] r@[i].0 == i,
    {
        let mut out: Vec<(u8, u8, u8, u8, u8)> = Vec::new();
        let mut i: u8 = 0;
        while i < 64
            invariant
                self.wf(),
                i <= 64,
                out@.len() == i,
                forall|j: int| 0 <= j < i ==> #[trigger] out@[j].0 == j,
            decreases 64 - i,
        {
            let (y, tile, attr, x) = self.get_sprite_info(i);
            out.push((i, y, tile, attr, x));
            i = i + 1;
        }
        out
    }
}


impl Default for Nes {
    fn default() -> (r: Nes)
        ensures
            r.wf(),
            r.cycles_spec() == 0,
            r.cpu.pc == 0,
    {
        Nes::new()
    }
}

} // verus!
