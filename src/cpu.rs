//! The 2A03's 6502 core: documented instructions plus the common unofficial
//! ones, decimal mode decoded but ignored, every bus access one cycle, and
//! interrupts (Reset, NMI, IRQ, BRK) entered between instructions.

use crate::bus::{Bus, lemma_quiet_read_stable};
use crate::error::NesError;
use crate::ppu::{cart_stable, lemma_cart_stable_prg, lemma_cart_stable_trans};
use vstd::prelude::*;

verus! {

pub const CARRY: u8 = 0x01;

pub const ZERO: u8 = 0x02;

pub const IRQ_DISABLE: u8 = 0x04;

pub const DECIMAL: u8 = 0x08;

pub const BREAK: u8 = 0x10;

/// Always 1 in a pushed status byte.
pub const PUSH: u8 = 0x20;

pub const OVERFLOW: u8 = 0x40;

pub const NEGATIVE: u8 = 0x80;

/// Addressing modes; the `ForceTick` variants always spend the page-cross cycle.
#[derive(Debug, Clone, Copy, PartialEq, Eq, Structural)]
pub enum Mode {
    Immediate,
    ZeroPage,
    ZeroPageX,
    ZeroPageY,
    Absolute,
    AbsoluteX,
    AbsoluteXForceTick,
    AbsoluteY,
    AbsoluteYForceTick,
    Indirect,
    IndirectX,
    IndirectY,
    IndirectYForceTick,
}

#[derive(Debug, Clone, Copy, PartialEq, Eq, Structural)]
pub enum Interrupt {
    Nmi,
    Reset,
    Irq,
    Break,
}

pub struct Cpu {
    pub bus: Bus,
    pub pc: u16,
    pub sp: u8,
    pub a: u8,
    pub x: u8,
    pub y: u8,
    pub p: u8,
}

// ---------------------------------------------------------------------------
// Flag arithmetic
// ---------------------------------------------------------------------------

pub open spec fn with_flag(p: u8, mask: u8, on: bool) -> u8 {
    if on {
        p | mask
    } else {
        p & !mask
    }
}

/// Status with Zero and Negative taken from `v`.
pub open spec fn with_zn(p: u8, v: u8) -> u8 {
    with_flag(with_flag(p, ZERO, v == 0), NEGATIVE, v & 0x80 != 0)
}

pub open spec fn carry_in(p: u8) -> int {
    if p & CARRY != 0 {
        1
    } else {
        0
    }
}

/// ADC: the sum of A, the operand and the carry; C from bit 8, V from the
/// sign of both inputs against the result.
pub open spec fn add_with_carry(a: u8, m: u8, p: u8) -> (u8, u8) {
    let sum = a as int + m as int + carry_in(p);
    let r = (sum % 256) as u8;
    (r, with_zn(with_flag(with_flag(p, CARRY, sum > 255), OVERFLOW, (a ^ r) & (m ^ r) & 0x80 != 0), r))
}

/// SBC is ADC of the operand's complement.
pub open spec fn sub_with_borrow(a: u8, m: u8, p: u8) -> (u8, u8) {
    add_with_carry(a, !m, p)
}

/// CMP/CPX/CPY: Z and N from `reg - m`, C when `reg >= m`.
pub open spec fn compare(reg: u8, m: u8, p: u8) -> u8 {
    with_flag(with_zn(p, reg.wrapping_sub(m)), CARRY, reg >= m)
}

pub open spec fn shift_left(v: u8, p: u8) -> (u8, u8) {
    let r = v << 1u8;
    (r, with_zn(with_flag(p, CARRY, v & 0x80 != 0), r))
}

pub open spec fn shift_right(v: u8, p: u8) -> (u8, u8) {
    let r = v >> 1u8;
    (r, with_zn(with_flag(p, CARRY, v & 0x01 != 0), r))
}

pub open spec fn rotate_left(v: u8, p: u8) -> (u8, u8) {
    let r = (v << 1u8) | (if p & CARRY != 0 { 1u8 } else { 0u8 });
    (r, with_zn(with_flag(p, CARRY, v & 0x80 != 0), r))
}

pub open spec fn rotate_right(v: u8, p: u8) -> (u8, u8) {
    let r = (v >> 1u8) | (if p & CARRY != 0 { 0x80u8 } else { 0u8 });
    (r, with_zn(with_flag(p, CARRY, v & 0x01 != 0), r))
}

/// BIT: Z from `A & m`, V and N copied from the operand.
pub open spec fn bit_test(a: u8, m: u8, p: u8) -> u8 {
    with_flag(with_flag(with_flag(p, ZERO, a & m == 0), OVERFLOW, m & 0x40 != 0), NEGATIVE, m & 0x80 != 0)
}

/// The status byte an interrupt pushes: Push set, Break set only for BRK.
pub open spec fn pushed_status(p: u8, kind: Interrupt) -> u8 {
    if kind == Interrupt::Break {
        (p | PUSH) | BREAK
    } else {
        (p | PUSH) & !BREAK
    }
}

/// Whether adding `offset` to the low byte of `base` carries into the high byte.
pub open spec fn crosses(base: u16, offset: u8) -> bool {
    (base % 256) as int + offset as int > 255
}

/// Address of the high byte of a `JMP (ptr)` vector: the 6502 does not carry
/// into the pointer's high byte, so `($xxFF)` wraps within its page.
pub open spec fn indirect_high(ptr: u16) -> u16 {
    ((ptr / 256) * 256 + (ptr % 256 + 1) % 256) as u16
}

/// Target of a taken branch at `next_pc` (the address after the operand).
pub open spec fn branch_target(next_pc: u16, offset: u8) -> u16 {
    if offset < 128 {
        next_pc.wrapping_add(offset as u16)
    } else {
        next_pc.wrapping_sub((256 - offset as int) as u16)
    }
}

/// Cycles of a branch instruction: two, one more when taken, and one more
/// again when the target lies on another page.
pub open spec fn branch_cost(taken: bool, next_pc: u16, offset: u8) -> int {
    if !taken {
        2
    } else if branch_target(next_pc, offset) / 256 != next_pc / 256 {
        4
    } else {
        3
    }
}

fn set_flag_value(p: u8, mask: u8, on: bool) -> (r: u8)
    ensures
        r == with_flag(p, mask, on),
{
    if on {
        p | mask
    } else {
        p & !mask
    }
}

fn zn(p: u8, v: u8) -> (r: u8)
    ensures
        r == with_zn(p, v),
{
    set_flag_value(set_flag_value(p, ZERO, v == 0), NEGATIVE, v & 0x80 != 0)
}

fn adc_value(a: u8, m: u8, p: u8) -> (r: (u8, u8))
    ensures
        r == add_with_carry(a, m, p),
{
    let c: u16 = if p & CARRY != 0 { 1 } else { 0 };
    let sum: u16 = a as u16 + m as u16 + c;
    let r = (sum % 256) as u8;
    let p1 = set_flag_value(p, CARRY, sum > 255);
    let p2 = set_flag_value(p1, OVERFLOW, (a ^ r) & (m ^ r) & 0x80 != 0);
    (r, zn(p2, r))
}

fn compare_value(reg: u8, m: u8, p: u8) -> (r: u8)
    ensures
        r == compare(reg, m, p),
{
    set_flag_value(zn(p, reg.wrapping_sub(m)), CARRY, reg >= m)
}

fn asl_value(v: u8, p: u8) -> (r: (u8, u8))
    ensures
        r == shift_left(v, p),
{
    let r = v << 1u8;
    (r, zn(set_flag_value(p, CARRY, v & 0x80 != 0), r))
}

fn lsr_value(v: u8, p: u8) -> (r: (u8, u8))
    ensures
        r == shift_right(v, p),
{
    let r = v >> 1u8;
    (r, zn(set_flag_value(p, CARRY, v & 0x01 != 0), r))
}

fn rol_value(v: u8, p: u8) -> (r: (u8, u8))
    ensures
        r == rotate_left(v, p),
{
    let c: u8 = if p & CARRY != 0 { 1 } else { 0 };
    let r = (v << 1u8) | c;
    (r, zn(set_flag_value(p, CARRY, v & 0x80 != 0), r))
}

fn ror_value(v: u8, p: u8) -> (r: (u8, u8))
    ensures
        r == rotate_right(v, p),
{
    let c: u8 = if p & CARRY != 0 { 0x80 } else { 0 };
    let r = (v >> 1u8) | c;
    (r, zn(set_flag_value(p, CARRY, v & 0x01 != 0), r))
}

fn cross(base: u16, offset: u8) -> (r: bool)
    ensures
        r == crosses(base, offset),
{
    (base % 256) + (offset as u16) > 255
}

impl Cpu {
    /// The bus is well formed and between `lo` and `hi` cycles have passed
    /// since `old`.
    pub open spec fn within(&self, old: Cpu, hi: int) -> bool {
        &&& self.bus.wf()
        &&& old.bus.cycles <= self.bus.cycles <= old.bus.cycles + hi
    }

    pub open spec fn flag(&self, mask: u8) -> bool {
        self.p & mask != 0
    }

    /// The interrupt vector at `addr` as the cartridge holds it.
    pub open spec fn vector(&self, addr: u16) -> u16 {
        (self.bus.cart_read(addr) as int + 256 * self.bus.cart_read((addr + 1) as u16) as int) as u16
    }

    pub fn new() -> (r: Cpu)
        ensures
            r.bus.wf(),
            r.bus.cycles == 0,
            r.bus.ppu.cartridge is None,
            r.pc == 0,
            r.sp == 0,
            r.a == 0,
            r.x == 0,
            r.y == 0,
            r.p == 0,
    {
        Cpu { bus: Bus::new(), pc: 0, sp: 0, a: 0, x: 0, y: 0, p: 0 }
    }

    pub fn pc(&self) -> (r: u16)
        ensures
            r == self.pc,
    {
        self.pc
    }

    pub fn set_pc(&mut self, pc: u16)
        ensures
            final(self).pc == pc,
            final(self).bus == old(self).bus,
            final(self).sp == old(self).sp,
            final(self).p == old(self).p,
            final(self).a == old(self).a,
            final(self).x == old(self).x,
            final(self).y == old(self).y,
    {
        self.pc = pc;
    }

    pub fn sp(&self) -> (r: u8)
        ensures
            r == self.sp,
    {
        self.sp
    }

    pub fn status(&self) -> (r: u8)
        ensures
            r == self.p,
    {
        self.p
    }

    /// Power-on/reset: SP = $FD after the reset sequence, P = $34, PC from
    /// the reset vector; memory is left alone.
    pub fn reset(&mut self)
        requires
            old(self).bus.room(7),
        ensures
            final(self).within(*old(self), 7),
            final(self).bus.ram == old(self).bus.ram,
            final(self).sp == 0xFD,
            final(self).pc == old(self).vector(0xFFFC),
            final(self).flag(IRQ_DISABLE),
            final(self).bus.cycles == old(self).bus.cycles + 7,
            cart_stable(old(self).bus.ppu.cartridge, final(self).bus.ppu.cartridge),
    {
        self.sp = 0xFF;
        self.p = 0x34;
        self.interrupt(Interrupt::Reset);
        assert((0x34u8 | IRQ_DISABLE) & IRQ_DISABLE != 0) by (bit_vector);
    }

    fn next_byte(&mut self) -> (r: u8)
        requires
            old(self).bus.room(1),
        ensures
            final(self).bus.wf(),
            final(self).bus.cycles == old(self).bus.cycles + 1,
            final(self).bus.ram == old(self).bus.ram,
            final(self).pc == old(self).pc.wrapping_add(1),
            final(self).bus.cpu_stall_cycles == old(self).bus.cpu_stall_cycles,
            (final(self).a, final(self).x, final(self).y, final(self).p, final(self).sp) == (
                old(self).a,
                old(self).x,
                old(self).y,
                old(self).p,
                old(self).sp,
            ),
            cart_stable(old(self).bus.ppu.cartridge, final(self).bus.ppu.cartridge),
            Bus::is_quiet(old(self).pc) ==> r == old(self).bus.quiet_read(old(self).pc),
    {
        let value = self.bus.read_byte(self.pc);
        self.pc = self.pc.wrapping_add(1);
        value
    }

    fn next_word(&mut self) -> (r: u16)
        requires
            old(self).bus.room(2),
        ensures
            final(self).bus.wf(),
            final(self).bus.cycles == old(self).bus.cycles + 2,
            final(self).bus.ram == old(self).bus.ram,
            final(self).pc == old(self).pc.wrapping_add(1).wrapping_add(1),
            (final(self).a, final(self).x, final(self).y, final(self).p, final(self).sp) == (
                old(self).a,
                old(self).x,
                old(self).y,
                old(self).p,
                old(self).sp,
            ),
            cart_stable(old(self).bus.ppu.cartridge, final(self).bus.ppu.cartridge),
            Bus::is_quiet(old(self).pc) && Bus::is_quiet(old(self).pc.wrapping_add(1)) ==> r
                == old(self).bus.quiet_read(old(self).pc) as int + 256 * old(self).bus.quiet_read(
                old(self).pc.wrapping_add(1),
            ) as int,
    {
        let ghost c0 = self.bus.ppu.cartridge;
        let ghost pc1 = self.pc.wrapping_add(1);
        let lo = self.next_byte();
        let ghost c1 = self.bus.ppu.cartridge;
        proof {
            match (c0, c1) {
                (Some(a), Some(b)) => lemma_cart_stable_prg(a, b, pc1),
                _ => {},
            }
        }
        let hi = self.next_byte();
        proof {
            lemma_cart_stable_trans(c0, c1, self.bus.ppu.cartridge);
        }
        (lo as u16) + (hi as u16) * 256
    }

    fn push_byte(&mut self, value: u8)
        requires
            old(self).bus.room(1),
        ensures
            final(self).bus.wf(),
            final(self).bus.cycles == old(self).bus.cycles + 1,
            final(self).bus.ram@ == old(self).bus.ram@.update(0x100 + old(self).sp as int, value),
            final(self).sp == old(self).sp.wrapping_sub(1),
            (final(self).a, final(self).x, final(self).y, final(self).p, final(self).pc) == (
                old(self).a,
                old(self).x,
                old(self).y,
                old(self).p,
                old(self).pc,
            ),
            cart_stable(old(self).bus.ppu.cartridge, final(self).bus.ppu.cartridge),
    {
        let address = 0x100 + self.sp as u16;
        self.bus.write_byte(address, value);
        self.sp = self.sp.wrapping_sub(1);
    }

    fn pop_byte(&mut self) -> (r: u8)
        requires
            old(self).bus.room(1),
        ensures
            final(self).bus.wf(),
            final(self).bus.cycles == old(self).bus.cycles + 1,
            final(self).bus.ram == old(self).bus.ram,
            final(self).sp == old(self).sp.wrapping_add(1),
            r == old(self).bus.ram@[0x100 + final(self).sp as int],
            (final(self).a, final(self).x, final(self).y, final(self).p, final(self).pc) == (
                old(self).a,
                old(self).x,
                old(self).y,
                old(self).p,
                old(self).pc,
            ),
            cart_stable(old(self).bus.ppu.cartridge, final(self).bus.ppu.cartridge),
    {
        self.sp = self.sp.wrapping_add(1);
        let address = 0x100 + self.sp as u16;
        self.bus.read_byte(address)
    }

    fn push_word(&mut self, value: u16)
        requires
            old(self).bus.room(2),
        ensures
            final(self).bus.wf(),
            final(self).bus.cycles == old(self).bus.cycles + 2,
            final(self).sp == old(self).sp.wrapping_sub(1).wrapping_sub(1),
            final(self).bus.ram@ == old(self).bus.ram@.update(
                0x100 + old(self).sp as int,
                (value / 256) as u8,
            ).update(0x100 + old(self).sp.wrapping_sub(1) as int, (value % 256) as u8),
            (final(self).a, final(self).x, final(self).y, final(self).p, final(self).pc) == (
                old(self).a,
                old(self).x,
                old(self).y,
                old(self).p,
                old(self).pc,
            ),
            cart_stable(old(self).bus.ppu.cartridge, final(self).bus.ppu.cartridge),
    {
        let ghost c0 = self.bus.ppu.cartridge;
        self.push_byte((value / 256) as u8);
        let ghost c1 = self.bus.ppu.cartridge;
        self.push_byte((value % 256) as u8);
        proof {
            lemma_cart_stable_trans(c0, c1, self.bus.ppu.cartridge);
        }
    }

    fn pop_word(&mut self) -> (r: u16)
        requires
            old(self).bus.room(2),
        ensures
            final(self).bus.wf(),
            final(self).bus.cycles == old(self).bus.cycles + 2,
            final(self).bus.ram == old(self).bus.ram,
            final(self).sp == old(self).sp.wrapping_add(1).wrapping_add(1),
            (final(self).a, final(self).x, final(self).y, final(self).p, final(self).pc) == (
                old(self).a,
                old(self).x,
                old(self).y,
                old(self).p,
                old(self).pc,
            ),
            cart_stable(old(self).bus.ppu.cartridge, final(self).bus.ppu.cartridge),
    {
        let ghost c0 = self.bus.ppu.cartridge;
        let lo = self.pop_byte();
        let ghost c1 = self.bus.ppu.cartridge;
        let hi = self.pop_byte();
        proof {
            lemma_cart_stable_trans(c0, c1, self.bus.ppu.cartridge);
        }
        (lo as u16) + (hi as u16) * 256
    }

    /// Resolves the operand address of `mode`, consuming its operand bytes
    /// and the mode's extra cycles (page-cross penalty, forced dummy cycle).
    fn operand_address(&mut self, mode: Mode) -> (r: u16)
        requires
            old(self).bus.room(4),
        ensures
            final(self).within(*old(self), 4),
            final(self).bus.ram == old(self).bus.ram,
            (final(self).a, final(self).x, final(self).y, final(self).p, final(self).sp) == (
                old(self).a,
                old(self).x,
                old(self).y,
                old(self).p,
                old(self).sp,
            ),
            cart_stable(old(self).bus.ppu.cartridge, final(self).bus.ppu.cartridge),
            final(self).pc == operand_end(old(self).pc, mode),
            old(self).address_cost(mode) matches Some(n) ==> final(self).bus.cycles == old(self).bus.cycles + n,
            old(self).operand_target(mode) matches Some(t) ==> r == t,
    {
        let ghost b0 = self.bus;
        let ghost pc = self.pc;
        let ghost pc1 = self.pc.wrapping_add(1);
        match mode {
            Mode::Immediate => {
                let operand_pc = self.pc;
                self.pc = self.pc.wrapping_add(1);
                operand_pc
            },
            Mode::ZeroPage => self.next_byte() as u16,
            Mode::ZeroPageX => {
                self.bus.tick();
                proof {
                    lemma_quiet_read_stable(&b0, &self.bus, pc);
                }
                let b = self.next_byte();
                ((b as u16 + self.x as u16) % 256) as u16
            },
            Mode::ZeroPageY => {
                self.bus.tick();
                proof {
                    lemma_quiet_read_stable(&b0, &self.bus, pc);
                }
                let b = self.next_byte();
                ((b as u16 + self.y as u16) % 256) as u16
            },
            Mode::Absolute => self.next_word(),
            Mode::AbsoluteX => {
                let base = self.next_word();
                let ghost b1 = self.bus;
                if cross(base, self.x) {
                    self.bus.tick();
                    proof {
                        lemma_cart_stable_trans(b0.ppu.cartridge, b1.ppu.cartridge, self.bus.ppu.cartridge);
                    }
                }
                base.wrapping_add(self.x as u16)
            },
            Mode::AbsoluteXForceTick => {
                self.bus.tick();
                let ghost b1 = self.bus;
                proof {
                    lemma_quiet_read_stable(&b0, &self.bus, pc);
                    lemma_quiet_read_stable(&b0, &self.bus, pc1);
                }
                let base = self.next_word();
                proof {
                    lemma_cart_stable_trans(b0.ppu.cartridge, b1.ppu.cartridge, self.bus.ppu.cartridge);
                }
                base.wrapping_add(self.x as u16)
            },
            Mode::AbsoluteY => {
                let base = self.next_word();
                let ghost b1 = self.bus;
                if cross(base, self.y) {
                    self.bus.tick();
                    proof {
                        lemma_cart_stable_trans(b0.ppu.cartridge, b1.ppu.cartridge, self.bus.ppu.cartridge);
                    }
                }
                base.wrapping_add(self.y as u16)
            },
            Mode::AbsoluteYForceTick => {
                self.bus.tick();
                let ghost b1 = self.bus;
                proof {
                    lemma_quiet_read_stable(&b0, &self.bus, pc);
                    lemma_quiet_read_stable(&b0, &self.bus, pc1);
                }
                let base = self.next_word();
                proof {
                    lemma_cart_stable_trans(b0.ppu.cartridge, b1.ppu.cartridge, self.bus.ppu.cartridge);
                }
                base.wrapping_add(self.y as u16)
            },
            Mode::Indirect => {
                let i = self.next_word();
                let high = (i / 256) * 256 + (i % 256 + 1) % 256;
                let ghost b1 = self.bus;
                proof {
                    lemma_quiet_read_stable(&b0, &b1, i);
                    lemma_quiet_read_stable(&b0, &b1, high);
                }
                let r = self.bus.read_noncontinuous_word(i, high);
                proof {
                    lemma_cart_stable_trans(b0.ppu.cartridge, b1.ppu.cartridge, self.bus.ppu.cartridge);
                }
                r
            },
            Mode::IndirectX => {
                self.bus.tick();
                let ghost b1 = self.bus;
                proof {
                    lemma_quiet_read_stable(&b0, &b1, pc);
                }
                let b = self.next_byte();
                let i = (b as u16 + self.x as u16) % 256;
                let ghost b2 = self.bus;
                proof {
                    lemma_cart_stable_trans(b0.ppu.cartridge, b1.ppu.cartridge, b2.ppu.cartridge);
                    lemma_quiet_read_stable(&b0, &b2, i);
                    lemma_quiet_read_stable(&b0, &b2, ((i + 1) % 256) as u16);
                }
                let r = self.bus.read_noncontinuous_word(i, (i + 1) % 256);
                proof {
                    lemma_cart_stable_trans(b0.ppu.cartridge, b2.ppu.cartridge, self.bus.ppu.cartridge);
                }
                r
            },
            Mode::IndirectY => {
                let i = self.next_byte() as u16;
                let ghost b1 = self.bus;
                proof {
                    lemma_quiet_read_stable(&b0, &b1, i);
                    lemma_quiet_read_stable(&b0, &b1, ((i + 1) % 256) as u16);
                }
                let base = self.bus.read_noncontinuous_word(i, (i + 1) % 256);
                let ghost b2 = self.bus;
                proof {
                    lemma_cart_stable_trans(b0.ppu.cartridge, b1.ppu.cartridge, b2.ppu.cartridge);
                }
                if cross(base, self.y) {
                    self.bus.tick();
                    proof {
                        lemma_cart_stable_trans(b0.ppu.cartridge, b2.ppu.cartridge, self.bus.ppu.cartridge);
                    }
                }
                base.wrapping_add(self.y as u16)
            },
            Mode::IndirectYForceTick => {
                let i = self.next_byte() as u16;
                let ghost b1 = self.bus;
                proof {
                    lemma_quiet_read_stable(&b0, &b1, i);
                    lemma_quiet_read_stable(&b0, &b1, ((i + 1) % 256) as u16);
                }
                let base = self.bus.read_noncontinuous_word(i, (i + 1) % 256);
                let ghost b2 = self.bus;
                self.bus.tick();
                proof {
                    lemma_cart_stable_trans(b0.ppu.cartridge, b1.ppu.cartridge, b2.ppu.cartridge);
                    lemma_cart_stable_trans(b0.ppu.cartridge, b2.ppu.cartridge, self.bus.ppu.cartridge);
                }
                base.wrapping_add(self.y as u16)
            },
        }
    }
}


proof fn lemma_stable_cart_read(b0: &Bus, b1: &Bus, addr: u16)
    requires
        cart_stable(b0.ppu.cartridge, b1.ppu.cartridge),
    ensures
        b0.cart_read(addr) == b1.cart_read(addr),
{
    match (b0.ppu.cartridge, b1.ppu.cartridge) {
        (Some(a), Some(b)) => lemma_cart_stable_prg(a, b, addr),
        _ => {},
    }
}

/// Little-endian word from two addresses whose reads have no side effects.
pub open spec fn quiet_word(b: &Bus, lo: u16, hi: u16) -> Option<u16> {
    if Bus::is_quiet(lo) && Bus::is_quiet(hi) {
        Some((b.quiet_read(lo) as int + 256 * b.quiet_read(hi) as int) as u16)
    } else {
        None
    }
}

impl Cpu {
    /// The address an addressing mode resolves to, when every operand and
    /// pointer byte it fetches comes from a side-effect-free address.
    pub open spec fn operand_target(&self, mode: Mode) -> Option<u16> {
        let b = &self.bus;
        let pc = self.pc;
        let pc1 = pc.wrapping_add(1);
        let zp = |i: u16| quiet_word(b, i, ((i + 1) % 256) as u16);
        match mode {
            Mode::Immediate => Some(pc),
            Mode::ZeroPage => if Bus::is_quiet(pc) {
                Some(b.quiet_read(pc) as u16)
            } else {
                None
            },
            Mode::ZeroPageX => if Bus::is_quiet(pc) {
                Some(((b.quiet_read(pc) as int + self.x as int) % 256) as u16)
            } else {
                None
            },
            Mode::ZeroPageY => if Bus::is_quiet(pc) {
                Some(((b.quiet_read(pc) as int + self.y as int) % 256) as u16)
            } else {
                None
            },
            Mode::Absolute => quiet_word(b, pc, pc1),
            Mode::AbsoluteX | Mode::AbsoluteXForceTick => match quiet_word(b, pc, pc1) {
                Some(base) => Some(base.wrapping_add(self.x as u16)),
                None => None,
            },
            Mode::AbsoluteY | Mode::AbsoluteYForceTick => match quiet_word(b, pc, pc1) {
                Some(base) => Some(base.wrapping_add(self.y as u16)),
                None => None,
            },
            Mode::Indirect => match quiet_word(b, pc, pc1) {
                Some(ptr) => quiet_word(b, ptr, indirect_high(ptr)),
                None => None,
            },
            Mode::IndirectX => if Bus::is_quiet(pc) {
                zp(((b.quiet_read(pc) as int + self.x as int) % 256) as u16)
            } else {
                None
            },
            Mode::IndirectY | Mode::IndirectYForceTick => if Bus::is_quiet(pc) {
                match zp(b.quiet_read(pc) as u16) {
                    Some(base) => Some(base.wrapping_add(self.y as u16)),
                    None => None,
                }
            } else {
                None
            },
        }
    }

    /// The operand byte an addressing mode reads, when its address is known
    /// and reading it has no side effects.
    /// Cycles an addressing mode spends after the opcode fetch, when it does
    /// not depend on bytes read with side effects.
    pub open spec fn address_cost(&self, mode: Mode) -> Option<int> {
        let b = &self.bus;
        let pc = self.pc;
        let pc1 = pc.wrapping_add(1);
        match mode {
            Mode::Immediate => Some(0),
            Mode::ZeroPage => Some(1),
            Mode::ZeroPageX | Mode::ZeroPageY | Mode::Absolute => Some(2),
            Mode::AbsoluteXForceTick | Mode::AbsoluteYForceTick => Some(3),
            Mode::Indirect | Mode::IndirectX | Mode::IndirectYForceTick => Some(4),
            Mode::AbsoluteX => match quiet_word(b, pc, pc1) {
                Some(base) => Some(if crosses(base, self.x) { 3int } else { 2int }),
                None => None,
            },
            Mode::AbsoluteY => match quiet_word(b, pc, pc1) {
                Some(base) => Some(if crosses(base, self.y) { 3int } else { 2int }),
                None => None,
            },
            Mode::IndirectY => if Bus::is_quiet(pc) {
                match quiet_word(b, b.quiet_read(pc) as u16, ((b.quiet_read(pc) as int + 1) % 256) as u16) {
                    Some(base) => Some(if crosses(base, self.y) { 4int } else { 3int }),
                    None => None,
                }
            } else {
                None
            },
        }
    }

    pub open spec fn operand_value(&self, mode: Mode) -> Option<u8> {
        match self.operand_target(mode) {
            Some(t) => if Bus::is_quiet(t) {
                Some(self.bus.quiet_read(t))
            } else {
                None
            },
            None => None,
        }
    }
}

/// PC after the operand bytes of `mode`.
pub open spec fn operand_end(pc: u16, mode: Mode) -> u16 {
    match mode {
        Mode::Absolute | Mode::AbsoluteX | Mode::AbsoluteXForceTick | Mode::AbsoluteY
        | Mode::AbsoluteYForceTick | Mode::Indirect => pc.wrapping_add(1).wrapping_add(1),
        _ => pc.wrapping_add(1),
    }
}

/// What `lda` does.
pub open spec fn lda_effect(pre: Cpu, post: Cpu, mode: Mode) -> bool {
    &&& post.within(pre, 7)
    &&& post.p == with_zn(pre.p, post.a)
    &&& (post.x, post.y, post.sp) == (pre.x, pre.y, pre.sp)
    &&& pre.operand_value(mode) matches Some(v) ==> post.a == v
    &&& post.pc == operand_end(pre.pc, mode)
    &&& pre.address_cost(mode) matches Some(n) ==> post.bus.cycles == pre.bus.cycles + n + 1
}

/// What `ldx` does.
pub open spec fn ldx_effect(pre: Cpu, post: Cpu, mode: Mode) -> bool {
    &&& post.within(pre, 7)
    &&& post.p == with_zn(pre.p, post.x)
    &&& (post.a, post.y, post.sp) == (pre.a, pre.y, pre.sp)
    &&& pre.operand_value(mode) matches Some(v) ==> post.x == v
    &&& post.pc == operand_end(pre.pc, mode)
    &&& pre.address_cost(mode) matches Some(n) ==> post.bus.cycles == pre.bus.cycles + n + 1
}

/// What `ldy` does.
pub open spec fn ldy_effect(pre: Cpu, post: Cpu, mode: Mode) -> bool {
    &&& post.within(pre, 7)
    &&& post.p == with_zn(pre.p, post.y)
    &&& (post.a, post.x, post.sp) == (pre.a, pre.x, pre.sp)
    &&& pre.operand_value(mode) matches Some(v) ==> post.y == v
    &&& post.pc == operand_end(pre.pc, mode)
    &&& pre.address_cost(mode) matches Some(n) ==> post.bus.cycles == pre.bus.cycles + n + 1
}

/// LAX (unofficial): load A and X together.
pub open spec fn lax_effect(pre: Cpu, post: Cpu, mode: Mode) -> bool {
    &&& post.within(pre, 7)
    &&& post.a == post.x
    &&& post.p == with_zn(pre.p, post.a)
    &&& (post.y, post.sp) == (pre.y, pre.sp)
    &&& pre.operand_value(mode) matches Some(v) ==> post.a == v
    &&& post.pc == operand_end(pre.pc, mode)
    &&& pre.address_cost(mode) matches Some(n) ==> post.bus.cycles == pre.bus.cycles + n + 1
}

/// What `sta` does.
pub open spec fn sta_effect(pre: Cpu, post: Cpu, mode: Mode) -> bool {
    &&& post.within(pre, 7)
    &&& (post.a, post.x, post.y, post.p, post.sp) == (pre.a, pre.x, pre.y, pre.p, pre.sp)
    &&& pre.operand_target(mode) matches Some(t) ==> (t < 0x2000 ==> post.bus.ram@ == pre.bus.ram@.update((t % 0x800) as int, pre.a))
    &&& post.pc == operand_end(pre.pc, mode)
    &&& pre.address_cost(mode) matches Some(n) ==> post.bus.cycles == pre.bus.cycles + n + 1
}

/// What `stx` does.
pub open spec fn stx_effect(pre: Cpu, post: Cpu, mode: Mode) -> bool {
    &&& post.within(pre, 7)
    &&& (post.a, post.x, post.y, post.p, post.sp) == (pre.a, pre.x, pre.y, pre.p, pre.sp)
    &&& pre.operand_target(mode) matches Some(t) ==> (t < 0x2000 ==> post.bus.ram@ == pre.bus.ram@.update((t % 0x800) as int, pre.x))
    &&& post.pc == operand_end(pre.pc, mode)
    &&& pre.address_cost(mode) matches Some(n) ==> post.bus.cycles == pre.bus.cycles + n + 1
}

/// What `sty` does.
pub open spec fn sty_effect(pre: Cpu, post: Cpu, mode: Mode) -> bool {
    &&& post.within(pre, 7)
    &&& (post.a, post.x, post.y, post.p, post.sp) == (pre.a, pre.x, pre.y, pre.p, pre.sp)
    &&& pre.operand_target(mode) matches Some(t) ==> (t < 0x2000 ==> post.bus.ram@ == pre.bus.ram@.update((t % 0x800) as int, pre.y))
    &&& post.pc == operand_end(pre.pc, mode)
    &&& pre.address_cost(mode) matches Some(n) ==> post.bus.cycles == pre.bus.cycles + n + 1
}

/// SAX (unofficial): store A AND X.
pub open spec fn sax_effect(pre: Cpu, post: Cpu, mode: Mode) -> bool {
    &&& post.within(pre, 7)
    &&& (post.a, post.x, post.y, post.p, post.sp) == (pre.a, pre.x, pre.y, pre.p, pre.sp)
    &&& pre.operand_target(mode) matches Some(t) ==> (t < 0x2000 ==> post.bus.ram@ == pre.bus.ram@.update((t % 0x800) as int, pre.a & pre.x))
    &&& post.pc == operand_end(pre.pc, mode)
    &&& pre.address_cost(mode) matches Some(n) ==> post.bus.cycles == pre.bus.cycles + n + 1
}

/// What `adc` does.
pub open spec fn adc_effect(pre: Cpu, post: Cpu, mode: Mode) -> bool {
    &&& post.within(pre, 7)
    &&& (post.x, post.y, post.sp) == (pre.x, pre.y, pre.sp)
    &&& pre.operand_value(mode) matches Some(v) ==> (post.a, post.p) == add_with_carry(pre.a, v, pre.p)
    &&& post.pc == operand_end(pre.pc, mode)
    &&& pre.address_cost(mode) matches Some(n) ==> post.bus.cycles == pre.bus.cycles + n + 1
}

/// What `sbc` does.
pub open spec fn sbc_effect(pre: Cpu, post: Cpu, mode: Mode) -> bool {
    &&& post.within(pre, 7)
    &&& (post.x, post.y, post.sp) == (pre.x, pre.y, pre.sp)
    &&& pre.operand_value(mode) matches Some(v) ==> (post.a, post.p) == sub_with_borrow(pre.a, v, pre.p)
    &&& post.pc == operand_end(pre.pc, mode)
    &&& pre.address_cost(mode) matches Some(n) ==> post.bus.cycles == pre.bus.cycles + n + 1
}

/// What `cmp` does.
pub open spec fn cmp_effect(pre: Cpu, post: Cpu, mode: Mode) -> bool {
    &&& post.within(pre, 7)
    &&& (post.a, post.x, post.y, post.sp) == (pre.a, pre.x, pre.y, pre.sp)
    &&& pre.operand_value(mode) matches Some(v) ==> post.p == compare(pre.a, v, pre.p)
    &&& post.pc == operand_end(pre.pc, mode)
    &&& pre.address_cost(mode) matches Some(n) ==> post.bus.cycles == pre.bus.cycles + n + 1
}

/// What `cpx` does.
pub open spec fn cpx_effect(pre: Cpu, post: Cpu, mode: Mode) -> bool {
    &&& post.within(pre, 7)
    &&& (post.a, post.x, post.y, post.sp) == (pre.a, pre.x, pre.y, pre.sp)
    &&& pre.operand_value(mode) matches Some(v) ==> post.p == compare(pre.x, v, pre.p)
    &&& post.pc == operand_end(pre.pc, mode)
    &&& pre.address_cost(mode) matches Some(n) ==> post.bus.cycles == pre.bus.cycles + n + 1
}

/// What `cpy` does.
pub open spec fn cpy_effect(pre: Cpu, post: Cpu, mode: Mode) -> bool {
    &&& post.within(pre, 7)
    &&& (post.a, post.x, post.y, post.sp) == (pre.a, pre.x, pre.y, pre.sp)
    &&& pre.operand_value(mode) matches Some(v) ==> post.p == compare(pre.y, v, pre.p)
    &&& post.pc == operand_end(pre.pc, mode)
    &&& pre.address_cost(mode) matches Some(n) ==> post.bus.cycles == pre.bus.cycles + n + 1
}

/// What `and` does.
pub open spec fn and_effect(pre: Cpu, post: Cpu, mode: Mode) -> bool {
    &&& post.within(pre, 7)
    &&& post.p == with_zn(pre.p, post.a)
    &&& (post.x, post.y, post.sp) == (pre.x, pre.y, pre.sp)
    &&& pre.operand_value(mode) matches Some(v) ==> post.a == (pre.a & v)
    &&& post.pc == operand_end(pre.pc, mode)
    &&& pre.address_cost(mode) matches Some(n) ==> post.bus.cycles == pre.bus.cycles + n + 1
}

/// What `ora` does.
pub open spec fn ora_effect(pre: Cpu, post: Cpu, mode: Mode) -> bool {
    &&& post.within(pre, 7)
    &&& post.p == with_zn(pre.p, post.a)
    &&& (post.x, post.y, post.sp) == (pre.x, pre.y, pre.sp)
    &&& pre.operand_value(mode) matches Some(v) ==> post.a == (pre.a | v)
    &&& post.pc == operand_end(pre.pc, mode)
    &&& pre.address_cost(mode) matches Some(n) ==> post.bus.cycles == pre.bus.cycles + n + 1
}

/// What `eor` does.
pub open spec fn eor_effect(pre: Cpu, post: Cpu, mode: Mode) -> bool {
    &&& post.within(pre, 7)
    &&& post.p == with_zn(pre.p, post.a)
    &&& (post.x, post.y, post.sp) == (pre.x, pre.y, pre.sp)
    &&& pre.operand_value(mode) matches Some(v) ==> post.a == (pre.a ^ v)
    &&& post.pc == operand_end(pre.pc, mode)
    &&& pre.address_cost(mode) matches Some(n) ==> post.bus.cycles == pre.bus.cycles + n + 1
}

/// What `bit` does.
pub open spec fn bit_effect(pre: Cpu, post: Cpu, mode: Mode) -> bool {
    &&& post.within(pre, 7)
    &&& (post.a, post.x, post.y, post.sp) == (pre.a, pre.x, pre.y, pre.sp)
    &&& pre.operand_value(mode) matches Some(v) ==> post.p == bit_test(pre.a, v, pre.p)
    &&& post.pc == operand_end(pre.pc, mode)
    &&& pre.address_cost(mode) matches Some(n) ==> post.bus.cycles == pre.bus.cycles + n + 1
}

/// What `asl` does.
pub open spec fn asl_effect(pre: Cpu, post: Cpu, mode: Mode) -> bool {
    &&& post.within(pre, 7)
    &&& (post.a, post.x, post.y, post.sp) == (pre.a, pre.x, pre.y, pre.sp)
    &&& pre.operand_target(mode) matches Some(t) ==> (t < 0x2000 ==> {
            let (r, p) = shift_left(pre.bus.ram@[(t % 0x800) as int], pre.p);
            post.bus.ram@ == pre.bus.ram@.update((t % 0x800) as int, r) && post.p == p
        })
    &&& post.pc == operand_end(pre.pc, mode)
    &&& pre.address_cost(mode) matches Some(n) ==> post.bus.cycles == pre.bus.cycles + n + 3
}

/// What `lsr` does.
pub open spec fn lsr_effect(pre: Cpu, post: Cpu, mode: Mode) -> bool {
    &&& post.within(pre, 7)
    &&& (post.a, post.x, post.y, post.sp) == (pre.a, pre.x, pre.y, pre.sp)
    &&& pre.operand_target(mode) matches Some(t) ==> (t < 0x2000 ==> {
            let (r, p) = shift_right(pre.bus.ram@[(t % 0x800) as int], pre.p);
            post.bus.ram@ == pre.bus.ram@.update((t % 0x800) as int, r) && post.p == p
        })
    &&& post.pc == operand_end(pre.pc, mode)
    &&& pre.address_cost(mode) matches Some(n) ==> post.bus.cycles == pre.bus.cycles + n + 3
}

/// What `rol` does.
pub open spec fn rol_effect(pre: Cpu, post: Cpu, mode: Mode) -> bool {
    &&& post.within(pre, 7)
    &&& (post.a, post.x, post.y, post.sp) == (pre.a, pre.x, pre.y, pre.sp)
    &&& pre.operand_target(mode) matches Some(t) ==> (t < 0x2000 ==> {
            let (r, p) = rotate_left(pre.bus.ram@[(t % 0x800) as int], pre.p);
            post.bus.ram@ == pre.bus.ram@.update((t % 0x800) as int, r) && post.p == p
        })
    &&& post.pc == operand_end(pre.pc, mode)
    &&& pre.address_cost(mode) matches Some(n) ==> post.bus.cycles == pre.bus.cycles + n + 3
}

/// What `ror` does.
pub open spec fn ror_effect(pre: Cpu, post: Cpu, mode: Mode) -> bool {
    &&& post.within(pre, 7)
    &&& (post.a, post.x, post.y, post.sp) == (pre.a, pre.x, pre.y, pre.sp)
    &&& pre.operand_target(mode) matches Some(t) ==> (t < 0x2000 ==> {
            let (r, p) = rotate_right(pre.bus.ram@[(t % 0x800) as int], pre.p);
            post.bus.ram@ == pre.bus.ram@.update((t % 0x800) as int, r) && post.p == p
        })
    &&& post.pc == operand_end(pre.pc, mode)
    &&& pre.address_cost(mode) matches Some(n) ==> post.bus.cycles == pre.bus.cycles + n + 3
}

/// What `asl_a` does.
pub open spec fn asl_a_effect(pre: Cpu, post: Cpu) -> bool {
    &&& post.within(pre, 7)
    &&& (post.a, post.p) == shift_left(pre.a, pre.p)
    &&& post.bus.cycles == pre.bus.cycles + 1
    &&& (post.x, post.y, post.sp, post.pc) == (pre.x, pre.y, pre.sp, pre.pc)
}

/// What `lsr_a` does.
pub open spec fn lsr_a_effect(pre: Cpu, post: Cpu) -> bool {
    &&& post.within(pre, 7)
    &&& (post.a, post.p) == shift_right(pre.a, pre.p)
    &&& post.bus.cycles == pre.bus.cycles + 1
    &&& (post.x, post.y, post.sp, post.pc) == (pre.x, pre.y, pre.sp, pre.pc)
}

/// What `rol_a` does.
pub open spec fn rol_a_effect(pre: Cpu, post: Cpu) -> bool {
    &&& post.within(pre, 7)
    &&& (post.a, post.p) == rotate_left(pre.a, pre.p)
    &&& post.bus.cycles == pre.bus.cycles + 1
    &&& (post.x, post.y, post.sp, post.pc) == (pre.x, pre.y, pre.sp, pre.pc)
}

/// What `ror_a` does.
pub open spec fn ror_a_effect(pre: Cpu, post: Cpu) -> bool {
    &&& post.within(pre, 7)
    &&& (post.a, post.p) == rotate_right(pre.a, pre.p)
    &&& post.bus.cycles == pre.bus.cycles + 1
    &&& (post.x, post.y, post.sp, post.pc) == (pre.x, pre.y, pre.sp, pre.pc)
}

/// What `inc` does.
pub open spec fn inc_effect(pre: Cpu, post: Cpu, mode: Mode) -> bool {
    &&& post.within(pre, 7)
    &&& (post.a, post.x, post.y, post.sp) == (pre.a, pre.x, pre.y, pre.sp)
    &&& pre.operand_target(mode) matches Some(t) ==> (t < 0x2000 ==> {
            let r = pre.bus.ram@[(t % 0x800) as int].wrapping_add(1);
            post.bus.ram@ == pre.bus.ram@.update((t % 0x800) as int, r) && post.p
                == with_zn(pre.p, r)
        })
    &&& post.pc == operand_end(pre.pc, mode)
    &&& pre.address_cost(mode) matches Some(n) ==> post.bus.cycles == pre.bus.cycles + n + 3
}

/// What `dec` does.
pub open spec fn dec_effect(pre: Cpu, post: Cpu, mode: Mode) -> bool {
    &&& post.within(pre, 7)
    &&& (post.a, post.x, post.y, post.sp) == (pre.a, pre.x, pre.y, pre.sp)
    &&& pre.operand_target(mode) matches Some(t) ==> (t < 0x2000 ==> {
            let r = pre.bus.ram@[(t % 0x800) as int].wrapping_sub(1);
            post.bus.ram@ == pre.bus.ram@.update((t % 0x800) as int, r) && post.p
                == with_zn(pre.p, r)
        })
    &&& post.pc == operand_end(pre.pc, mode)
    &&& pre.address_cost(mode) matches Some(n) ==> post.bus.cycles == pre.bus.cycles + n + 3
}

/// What `inx` does.
pub open spec fn inx_effect(pre: Cpu, post: Cpu) -> bool {
    &&& post.within(pre, 7)
    &&& post.x == pre.x.wrapping_add(1)
    &&& post.p == with_zn(pre.p, post.x)
    &&& post.bus.cycles == pre.bus.cycles + 1
    &&& (post.a, post.y, post.sp, post.pc) == (pre.a, pre.y, pre.sp, pre.pc)
}

/// What `dex` does.
pub open spec fn dex_effect(pre: Cpu, post: Cpu) -> bool {
    &&& post.within(pre, 7)
    &&& post.x == pre.x.wrapping_sub(1)
    &&& post.p == with_zn(pre.p, post.x)
    &&& post.bus.cycles == pre.bus.cycles + 1
    &&& (post.a, post.y, post.sp, post.pc) == (pre.a, pre.y, pre.sp, pre.pc)
}

/// What `iny` does.
pub open spec fn iny_effect(pre: Cpu, post: Cpu) -> bool {
    &&& post.within(pre, 7)
    &&& post.y == pre.y.wrapping_add(1)
    &&& post.p == with_zn(pre.p, post.y)
    &&& post.bus.cycles == pre.bus.cycles + 1
    &&& (post.a, post.x, post.sp, post.pc) == (pre.a, pre.x, pre.sp, pre.pc)
}

/// What `dey` does.
pub open spec fn dey_effect(pre: Cpu, post: Cpu) -> bool {
    &&& post.within(pre, 7)
    &&& post.y == pre.y.wrapping_sub(1)
    &&& post.p == with_zn(pre.p, post.y)
    &&& post.bus.cycles == pre.bus.cycles + 1
    &&& (post.a, post.x, post.sp, post.pc) == (pre.a, pre.x, pre.sp, pre.pc)
}

/// What `tax` does.
pub open spec fn tax_effect(pre: Cpu, post: Cpu) -> bool {
    &&& post.within(pre, 7)
    &&& post.x == pre.a
    &&& post.p == with_zn(pre.p, pre.a)
    &&& post.bus.cycles == pre.bus.cycles + 1
    &&& (post.a, post.y, post.sp, post.pc) == (pre.a, pre.y, pre.sp, pre.pc)
}

/// What `tay` does.
pub open spec fn tay_effect(pre: Cpu, post: Cpu) -> bool {
    &&& post.within(pre, 7)
    &&& post.y == pre.a
    &&& post.p == with_zn(pre.p, pre.a)
    &&& post.bus.cycles == pre.bus.cycles + 1
    &&& (post.a, post.x, post.sp, post.pc) == (pre.a, pre.x, pre.sp, pre.pc)
}

/// What `txa` does.
pub open spec fn txa_effect(pre: Cpu, post: Cpu) -> bool {
    &&& post.within(pre, 7)
    &&& post.a == pre.x
    &&& post.p == with_zn(pre.p, pre.x)
    &&& post.bus.cycles == pre.bus.cycles + 1
    &&& (post.x, post.y, post.sp, post.pc) == (pre.x, pre.y, pre.sp, pre.pc)
}

/// What `tya` does.
pub open spec fn tya_effect(pre: Cpu, post: Cpu) -> bool {
    &&& post.within(pre, 7)
    &&& post.a == pre.y
    &&& post.p == with_zn(pre.p, pre.y)
    &&& post.bus.cycles == pre.bus.cycles + 1
    &&& (post.x, post.y, post.sp, post.pc) == (pre.x, pre.y, pre.sp, pre.pc)
}

/// What `tsx` does.
pub open spec fn tsx_effect(pre: Cpu, post: Cpu) -> bool {
    &&& post.within(pre, 7)
    &&& post.x == pre.sp
    &&& post.p == with_zn(pre.p, pre.sp)
    &&& post.bus.cycles == pre.bus.cycles + 1
    &&& (post.a, post.y, post.sp, post.pc) == (pre.a, pre.y, pre.sp, pre.pc)
}

/// What `txs` does.
pub open spec fn txs_effect(pre: Cpu, post: Cpu) -> bool {
    &&& post.within(pre, 7)
    &&& post.sp == pre.x
    &&& post.bus.cycles == pre.bus.cycles + 1
    &&& (post.a, post.x, post.y, post.p, post.pc) == (pre.a, pre.x, pre.y, pre.p, pre.pc)
}

/// What `clc` does.
pub open spec fn clc_effect(pre: Cpu, post: Cpu) -> bool {
    &&& post.within(pre, 7)
    &&& post.p == with_flag(pre.p, CARRY, false)
    &&& post.bus.cycles == pre.bus.cycles + 1
    &&& (post.a, post.x, post.y, post.sp, post.pc) == (pre.a, pre.x, pre.y, pre.sp, pre.pc)
}

/// What `sec` does.
pub open spec fn sec_effect(pre: Cpu, post: Cpu) -> bool {
    &&& post.within(pre, 7)
    &&& post.p == with_flag(pre.p, CARRY, true)
    &&& post.bus.cycles == pre.bus.cycles + 1
    &&& (post.a, post.x, post.y, post.sp, post.pc) == (pre.a, pre.x, pre.y, pre.sp, pre.pc)
}

/// What `cli` does.
pub open spec fn cli_effect(pre: Cpu, post: Cpu) -> bool {
    &&& post.within(pre, 7)
    &&& post.p == with_flag(pre.p, IRQ_DISABLE, false)
    &&& post.bus.cycles == pre.bus.cycles + 1
    &&& (post.a, post.x, post.y, post.sp, post.pc) == (pre.a, pre.x, pre.y, pre.sp, pre.pc)
}

/// What `sei` does.
pub open spec fn sei_effect(pre: Cpu, post: Cpu) -> bool {
    &&& post.within(pre, 7)
    &&& post.p == with_flag(pre.p, IRQ_DISABLE, true)
    &&& post.bus.cycles == pre.bus.cycles + 1
    &&& (post.a, post.x, post.y, post.sp, post.pc) == (pre.a, pre.x, pre.y, pre.sp, pre.pc)
}

/// What `clv` does.
pub open spec fn clv_effect(pre: Cpu, post: Cpu) -> bool {
    &&& post.within(pre, 7)
    &&& post.p == with_flag(pre.p, OVERFLOW, false)
    &&& post.bus.cycles == pre.bus.cycles + 1
    &&& (post.a, post.x, post.y, post.sp, post.pc) == (pre.a, pre.x, pre.y, pre.sp, pre.pc)
}

/// What `cld` does.
pub open spec fn cld_effect(pre: Cpu, post: Cpu) -> bool {
    &&& post.within(pre, 7)
    &&& post.p == with_flag(pre.p, DECIMAL, false)
    &&& post.bus.cycles == pre.bus.cycles + 1
    &&& (post.a, post.x, post.y, post.sp, post.pc) == (pre.a, pre.x, pre.y, pre.sp, pre.pc)
}

/// What `sed` does.
pub open spec fn sed_effect(pre: Cpu, post: Cpu) -> bool {
    &&& post.within(pre, 7)
    &&& post.p == with_flag(pre.p, DECIMAL, true)
    &&& post.bus.cycles == pre.bus.cycles + 1
    &&& (post.a, post.x, post.y, post.sp, post.pc) == (pre.a, pre.x, pre.y, pre.sp, pre.pc)
}

/// DCP (unofficial): decrement memory, then compare with A.
pub open spec fn dcp_effect(pre: Cpu, post: Cpu, mode: Mode) -> bool {
    &&& post.within(pre, 7)
    &&& (post.a, post.x, post.y, post.sp) == (pre.a, pre.x, pre.y, pre.sp)
    &&& post.pc == operand_end(pre.pc, mode)
    &&& pre.address_cost(mode) matches Some(n) ==> post.bus.cycles == pre.bus.cycles + n + 3
}

/// ISB (unofficial): increment memory, then subtract it from A.
pub open spec fn isb_effect(pre: Cpu, post: Cpu, mode: Mode) -> bool {
    &&& post.within(pre, 7)
    &&& (post.x, post.y, post.sp) == (pre.x, pre.y, pre.sp)
    &&& post.pc == operand_end(pre.pc, mode)
    &&& pre.address_cost(mode) matches Some(n) ==> post.bus.cycles == pre.bus.cycles + n + 3
}

/// SLO (unofficial): shift memory left, then OR into A.
pub open spec fn slo_effect(pre: Cpu, post: Cpu, mode: Mode) -> bool {
    &&& post.within(pre, 7)
    &&& (post.x, post.y, post.sp) == (pre.x, pre.y, pre.sp)
    &&& post.pc == operand_end(pre.pc, mode)
    &&& pre.address_cost(mode) matches Some(n) ==> post.bus.cycles == pre.bus.cycles + n + 3
}

/// RLA (unofficial): rotate memory left, then AND into A.
pub open spec fn rla_effect(pre: Cpu, post: Cpu, mode: Mode) -> bool {
    &&& post.within(pre, 7)
    &&& (post.x, post.y, post.sp) == (pre.x, pre.y, pre.sp)
    &&& post.pc == operand_end(pre.pc, mode)
    &&& pre.address_cost(mode) matches Some(n) ==> post.bus.cycles == pre.bus.cycles + n + 3
}

/// SRE (unofficial): shift memory right, then EOR into A.
pub open spec fn sre_effect(pre: Cpu, post: Cpu, mode: Mode) -> bool {
    &&& post.within(pre, 7)
    &&& (post.x, post.y, post.sp) == (pre.x, pre.y, pre.sp)
    &&& post.pc == operand_end(pre.pc, mode)
    &&& pre.address_cost(mode) matches Some(n) ==> post.bus.cycles == pre.bus.cycles + n + 3
}

/// RRA (unofficial): rotate memory right, then add it to A.
pub open spec fn rra_effect(pre: Cpu, post: Cpu, mode: Mode) -> bool {
    &&& post.within(pre, 7)
    &&& (post.x, post.y, post.sp) == (pre.x, pre.y, pre.sp)
    &&& post.pc == operand_end(pre.pc, mode)
    &&& pre.address_cost(mode) matches Some(n) ==> post.bus.cycles == pre.bus.cycles + n + 3
}

/// What `bpl` does.
pub open spec fn bpl_effect(pre: Cpu, post: Cpu) -> bool {
    &&& post.within(pre, 7)
    &&& (post.a, post.x, post.y, post.p, post.sp) == (pre.a, pre.x, pre.y, pre.p, pre.sp)
    &&& Bus::is_quiet(pre.pc) ==> post.bus.cycles == pre.bus.cycles + branch_cost(
            !pre.flag(NEGATIVE),
            pre.pc.wrapping_add(1),
            pre.bus.quiet_read(pre.pc),
        ) - 1
    &&& Bus::is_quiet(pre.pc) ==> post.pc == if !pre.flag(NEGATIVE) {
            branch_target(pre.pc.wrapping_add(1), pre.bus.quiet_read(pre.pc))
        } else {
            pre.pc.wrapping_add(1)
        }
}

/// What `bmi` does.
pub open spec fn bmi_effect(pre: Cpu, post: Cpu) -> bool {
    &&& post.within(pre, 7)
    &&& (post.a, post.x, post.y, post.p, post.sp) == (pre.a, pre.x, pre.y, pre.p, pre.sp)
    &&& Bus::is_quiet(pre.pc) ==> post.bus.cycles == pre.bus.cycles + branch_cost(
            pre.flag(NEGATIVE),
            pre.pc.wrapping_add(1),
            pre.bus.quiet_read(pre.pc),
        ) - 1
    &&& Bus::is_quiet(pre.pc) ==> post.pc == if pre.flag(NEGATIVE) {
            branch_target(pre.pc.wrapping_add(1), pre.bus.quiet_read(pre.pc))
        } else {
            pre.pc.wrapping_add(1)
        }
}

/// What `bvc` does.
pub open spec fn bvc_effect(pre: Cpu, post: Cpu) -> bool {
    &&& post.within(pre, 7)
    &&& (post.a, post.x, post.y, post.p, post.sp) == (pre.a, pre.x, pre.y, pre.p, pre.sp)
    &&& Bus::is_quiet(pre.pc) ==> post.bus.cycles == pre.bus.cycles + branch_cost(
            !pre.flag(OVERFLOW),
            pre.pc.wrapping_add(1),
            pre.bus.quiet_read(pre.pc),
        ) - 1
    &&& Bus::is_quiet(pre.pc) ==> post.pc == if !pre.flag(OVERFLOW) {
            branch_target(pre.pc.wrapping_add(1), pre.bus.quiet_read(pre.pc))
        } else {
            pre.pc.wrapping_add(1)
        }
}

/// What `bvs` does.
pub open spec fn bvs_effect(pre: Cpu, post: Cpu) -> bool {
    &&& post.within(pre, 7)
    &&& (post.a, post.x, post.y, post.p, post.sp) == (pre.a, pre.x, pre.y, pre.p, pre.sp)
    &&& Bus::is_quiet(pre.pc) ==> post.bus.cycles == pre.bus.cycles + branch_cost(
            pre.flag(OVERFLOW),
            pre.pc.wrapping_add(1),
            pre.bus.quiet_read(pre.pc),
        ) - 1
    &&& Bus::is_quiet(pre.pc) ==> post.pc == if pre.flag(OVERFLOW) {
            branch_target(pre.pc.wrapping_add(1), pre.bus.quiet_read(pre.pc))
        } else {
            pre.pc.wrapping_add(1)
        }
}

/// What `bcc` does.
pub open spec fn bcc_effect(pre: Cpu, post: Cpu) -> bool {
    &&& post.within(pre, 7)
    &&& (post.a, post.x, post.y, post.p, post.sp) == (pre.a, pre.x, pre.y, pre.p, pre.sp)
    &&& Bus::is_quiet(pre.pc) ==> post.bus.cycles == pre.bus.cycles + branch_cost(
            !pre.flag(CARRY),
            pre.pc.wrapping_add(1),
            pre.bus.quiet_read(pre.pc),
        ) - 1
    &&& Bus::is_quiet(pre.pc) ==> post.pc == if !pre.flag(CARRY) {
            branch_target(pre.pc.wrapping_add(1), pre.bus.quiet_read(pre.pc))
        } else {
            pre.pc.wrapping_add(1)
        }
}

/// What `bcs` does.
pub open spec fn bcs_effect(pre: Cpu, post: Cpu) -> bool {
    &&& post.within(pre, 7)
    &&& (post.a, post.x, post.y, post.p, post.sp) == (pre.a, pre.x, pre.y, pre.p, pre.sp)
    &&& Bus::is_quiet(pre.pc) ==> post.bus.cycles == pre.bus.cycles + branch_cost(
            pre.flag(CARRY),
            pre.pc.wrapping_add(1),
            pre.bus.quiet_read(pre.pc),
        ) - 1
    &&& Bus::is_quiet(pre.pc) ==> post.pc == if pre.flag(CARRY) {
            branch_target(pre.pc.wrapping_add(1), pre.bus.quiet_read(pre.pc))
        } else {
            pre.pc.wrapping_add(1)
        }
}

/// What `bne` does.
pub open spec fn bne_effect(pre: Cpu, post: Cpu) -> bool {
    &&& post.within(pre, 7)
    &&& (post.a, post.x, post.y, post.p, post.sp) == (pre.a, pre.x, pre.y, pre.p, pre.sp)
    &&& Bus::is_quiet(pre.pc) ==> post.bus.cycles == pre.bus.cycles + branch_cost(
            !pre.flag(ZERO),
            pre.pc.wrapping_add(1),
            pre.bus.quiet_read(pre.pc),
        ) - 1
    &&& Bus::is_quiet(pre.pc) ==> post.pc == if !pre.flag(ZERO) {
            branch_target(pre.pc.wrapping_add(1), pre.bus.quiet_read(pre.pc))
        } else {
            pre.pc.wrapping_add(1)
        }
}

/// What `beq` does.
pub open spec fn beq_effect(pre: Cpu, post: Cpu) -> bool {
    &&& post.within(pre, 7)
    &&& (post.a, post.x, post.y, post.p, post.sp) == (pre.a, pre.x, pre.y, pre.p, pre.sp)
    &&& Bus::is_quiet(pre.pc) ==> post.bus.cycles == pre.bus.cycles + branch_cost(
            pre.flag(ZERO),
            pre.pc.wrapping_add(1),
            pre.bus.quiet_read(pre.pc),
        ) - 1
    &&& Bus::is_quiet(pre.pc) ==> post.pc == if pre.flag(ZERO) {
            branch_target(pre.pc.wrapping_add(1), pre.bus.quiet_read(pre.pc))
        } else {
            pre.pc.wrapping_add(1)
        }
}

/// What `jmp` does.
pub open spec fn jmp_effect(pre: Cpu, post: Cpu, mode: Mode) -> bool {
    &&& post.within(pre, 7)
    &&& (post.a, post.x, post.y, post.p, post.sp) == (pre.a, pre.x, pre.y, pre.p, pre.sp)
    &&& mode == Mode::Indirect ==> {
            let pc = pre.pc;
            let pc1 = pc.wrapping_add(1);
            let ptr = (pre.bus.quiet_read(pc) as int + 256 * pre.bus.quiet_read(
                pc1,
            ) as int) as u16;
            Bus::is_quiet(pc) && Bus::is_quiet(pc1) && Bus::is_quiet(ptr) && Bus::is_quiet(
                indirect_high(ptr),
            ) ==> post.pc == pre.bus.quiet_read(ptr) as int + 256 * pre.bus.quiet_read(indirect_high(ptr)) as int
        }
    &&& pre.address_cost(mode) matches Some(n) ==> post.bus.cycles == pre.bus.cycles + n
    &&& pre.operand_target(mode) matches Some(t) ==> post.pc == t
}

/// What `jsr` does.
pub open spec fn jsr_effect(pre: Cpu, post: Cpu) -> bool {
    &&& post.within(pre, 7)
    &&& (post.a, post.x, post.y, post.p) == (pre.a, pre.x, pre.y, pre.p)
    &&& post.sp == pre.sp.wrapping_sub(1).wrapping_sub(1)
    &&& quiet_word(&pre.bus, pre.pc, pre.pc.wrapping_add(1)) matches Some(t) ==> post.pc == t
    &&& post.bus.cycles == pre.bus.cycles + 5
}

/// What `rts` does.
pub open spec fn rts_effect(pre: Cpu, post: Cpu) -> bool {
    &&& post.within(pre, 7)
    &&& (post.a, post.x, post.y, post.p) == (pre.a, pre.x, pre.y, pre.p)
    &&& post.sp == pre.sp.wrapping_add(1).wrapping_add(1)
    &&& post.bus.cycles == pre.bus.cycles + 5
}

/// What `brk` does.
pub open spec fn brk_effect(pre: Cpu, post: Cpu) -> bool {
    &&& post.within(pre, 7)
    &&& (post.a, post.x, post.y) == (pre.a, pre.x, pre.y)
    &&& post.pc == pre.vector(0xFFFE)
    &&& post.sp == pre.sp.wrapping_sub(1).wrapping_sub(1).wrapping_sub(1)
    &&& post.bus.cycles == pre.bus.cycles + 6
}

/// What `rti` does.
pub open spec fn rti_effect(pre: Cpu, post: Cpu) -> bool {
    &&& post.within(pre, 7)
    &&& (post.a, post.x, post.y) == (pre.a, pre.x, pre.y)
    &&& post.sp == pre.sp.wrapping_add(1).wrapping_add(1).wrapping_add(1)
    &&& post.bus.cycles == pre.bus.cycles + 3
}

/// What `pha` does.
pub open spec fn pha_effect(pre: Cpu, post: Cpu) -> bool {
    &&& post.within(pre, 7)
    &&& (post.a, post.x, post.y, post.p, post.pc) == (pre.a, pre.x, pre.y, pre.p, pre.pc)
    &&& post.bus.ram@ == pre.bus.ram@.update(0x100 + pre.sp as int, pre.a)
    &&& post.sp == pre.sp.wrapping_sub(1)
    &&& post.bus.cycles == pre.bus.cycles + 2
}

/// What `php` does.
pub open spec fn php_effect(pre: Cpu, post: Cpu) -> bool {
    &&& post.within(pre, 7)
    &&& (post.a, post.x, post.y, post.p, post.pc) == (pre.a, pre.x, pre.y, pre.p, pre.pc)
    &&& post.bus.ram@ == pre.bus.ram@.update(0x100 + pre.sp as int, (pre.p | BREAK) | PUSH)
    &&& post.sp == pre.sp.wrapping_sub(1)
    &&& post.bus.cycles == pre.bus.cycles + 2
}

/// What `pla` does.
pub open spec fn pla_effect(pre: Cpu, post: Cpu) -> bool {
    &&& post.within(pre, 7)
    &&& (post.x, post.y, post.pc) == (pre.x, pre.y, pre.pc)
    &&& post.sp == pre.sp.wrapping_add(1)
    &&& post.a == pre.bus.ram@[0x100 + post.sp as int]
    &&& post.p == with_zn(pre.p, post.a)
    &&& post.bus.cycles == pre.bus.cycles + 3
}

/// What `plp` does.
pub open spec fn plp_effect(pre: Cpu, post: Cpu) -> bool {
    &&& post.within(pre, 7)
    &&& (post.a, post.x, post.y, post.pc) == (pre.a, pre.x, pre.y, pre.pc)
    &&& post.sp == pre.sp.wrapping_add(1)
    &&& post.p == (pre.bus.ram@[0x100 + post.sp as int] & !BREAK) | PUSH
    &&& post.bus.cycles == pre.bus.cycles + 3
}

/// What `nop` does.
pub open spec fn nop_effect(pre: Cpu, post: Cpu) -> bool {
    &&& post.within(pre, 7)
    &&& (post.a, post.x, post.y, post.p, post.sp, post.pc) == (pre.a, pre.x, pre.y, pre.p, pre.sp, pre.pc)
    &&& post.bus.cycles == pre.bus.cycles + 1
    &&& post.bus.ram == pre.bus.ram
}

/// Unofficial NOPs: they read their operands and take the matching cycles.
pub open spec fn nop_immediate_effect(pre: Cpu, post: Cpu) -> bool {
    &&& post.within(pre, 7)
    &&& (post.a, post.x, post.y, post.p, post.sp) == (pre.a, pre.x, pre.y, pre.p, pre.sp)
    &&& post.bus.cycles == pre.bus.cycles + 2
}

/// What `nop_zero_page` does.
pub open spec fn nop_zero_page_effect(pre: Cpu, post: Cpu) -> bool {
    &&& post.within(pre, 7)
    &&& (post.a, post.x, post.y, post.p, post.sp) == (pre.a, pre.x, pre.y, pre.p, pre.sp)
    &&& post.bus.cycles == pre.bus.cycles + 3
}

/// What `nop_zero_page_x` does.
pub open spec fn nop_zero_page_x_effect(pre: Cpu, post: Cpu) -> bool {
    &&& post.within(pre, 7)
    &&& (post.a, post.x, post.y, post.p, post.sp) == (pre.a, pre.x, pre.y, pre.p, pre.sp)
    &&& post.bus.cycles == pre.bus.cycles + 4
}

/// What `nop_absolute` does.
pub open spec fn nop_absolute_effect(pre: Cpu, post: Cpu) -> bool {
    &&& post.within(pre, 7)
    &&& (post.a, post.x, post.y, post.p, post.sp) == (pre.a, pre.x, pre.y, pre.p, pre.sp)
    &&& post.bus.cycles == pre.bus.cycles + 5
}

/// What `nop_absolute_x` does.
pub open spec fn nop_absolute_x_effect(pre: Cpu, post: Cpu) -> bool {
    &&& post.within(pre, 7)
    &&& (post.a, post.x, post.y, post.p, post.sp) == (pre.a, pre.x, pre.y, pre.p, pre.sp)
}

/// The effect of one instruction with opcode `opcode`, from the state just
/// after its fetch; opcodes outside the instruction set act as a one-byte NOP.
pub open spec fn opcode_effect(opcode: u8, pre: Cpu, post: Cpu) -> bool {
    match opcode {
        0x29 => and_effect(pre, post, Mode::Immediate),
        0x25 => and_effect(pre, post, Mode::ZeroPage),
        0x35 => and_effect(pre, post, Mode::ZeroPageX),
        0x2d => and_effect(pre, post, Mode::Absolute),
        0x3d => and_effect(pre, post, Mode::AbsoluteX),
        0x39 => and_effect(pre, post, Mode::AbsoluteY),
        0x21 => and_effect(pre, post, Mode::IndirectX),
        0x31 => and_effect(pre, post, Mode::IndirectY),
        0x09 => ora_effect(pre, post, Mode::Immediate),
        0x05 => ora_effect(pre, post, Mode::ZeroPage),
        0x15 => ora_effect(pre, post, Mode::ZeroPageX),
        0x0d => ora_effect(pre, post, Mode::Absolute),
        0x1d => ora_effect(pre, post, Mode::AbsoluteX),
        0x19 => ora_effect(pre, post, Mode::AbsoluteY),
        0x01 => ora_effect(pre, post, Mode::IndirectX),
        0x11 => ora_effect(pre, post, Mode::IndirectY),
        0x24 => bit_effect(pre, post, Mode::ZeroPage),
        0x2c => bit_effect(pre, post, Mode::Absolute),
        0x2a => rol_a_effect(pre, post),
        0x26 => rol_effect(pre, post, Mode::ZeroPage),
        0x36 => rol_effect(pre, post, Mode::ZeroPageX),
        0x2e => rol_effect(pre, post, Mode::Absolute),
        0x3e => rol_effect(pre, post, Mode::AbsoluteXForceTick),
        0x0a => asl_a_effect(pre, post),
        0x06 => asl_effect(pre, post, Mode::ZeroPage),
        0x16 => asl_effect(pre, post, Mode::ZeroPageX),
        0x0e => asl_effect(pre, post, Mode::Absolute),
        0x1e => asl_effect(pre, post, Mode::AbsoluteXForceTick),
        0x18 => clc_effect(pre, post),
        0x38 => sec_effect(pre, post),
        0x10 => bpl_effect(pre, post),
        0x30 => bmi_effect(pre, post),
        0x20 => jsr_effect(pre, post),
        0x00 => brk_effect(pre, post),
        0x08 => php_effect(pre, post),
        0x28 => plp_effect(pre, post),
        0x1a | 0x3a => nop_effect(pre, post),
        0x04 => nop_zero_page_effect(pre, post),
        0x14 | 0x34 => nop_zero_page_x_effect(pre, post),
        0x0c => nop_absolute_effect(pre, post),
        0x1c | 0x3c => nop_absolute_x_effect(pre, post),
        0x07 => slo_effect(pre, post, Mode::ZeroPage),
        0x17 => slo_effect(pre, post, Mode::ZeroPageX),
        0x0f => slo_effect(pre, post, Mode::Absolute),
        0x1f => slo_effect(pre, post, Mode::AbsoluteX),
        0x1b => slo_effect(pre, post, Mode::AbsoluteY),
        0x03 => slo_effect(pre, post, Mode::IndirectX),
        0x13 => slo_effect(pre, post, Mode::IndirectY),
        0x27 => rla_effect(pre, post, Mode::ZeroPage),
        0x37 => rla_effect(pre, post, Mode::ZeroPageX),
        0x2f => rla_effect(pre, post, Mode::Absolute),
        0x3f => rla_effect(pre, post, Mode::AbsoluteX),
        0x3b => rla_effect(pre, post, Mode::AbsoluteY),
        0x23 => rla_effect(pre, post, Mode::IndirectX),
        0x33 => rla_effect(pre, post, Mode::IndirectY),
        0x69 => adc_effect(pre, post, Mode::Immediate),
        0x65 => adc_effect(pre, post, Mode::ZeroPage),
        0x75 => adc_effect(pre, post, Mode::ZeroPageX),
        0x6d => adc_effect(pre, post, Mode::Absolute),
        0x7d => adc_effect(pre, post, Mode::AbsoluteX),
        0x79 => adc_effect(pre, post, Mode::AbsoluteY),
        0x61 => adc_effect(pre, post, Mode::IndirectX),
        0x71 => adc_effect(pre, post, Mode::IndirectY),
        0x49 => eor_effect(pre, post, Mode::Immediate),
        0x45 => eor_effect(pre, post, Mode::ZeroPage),
        0x55 => eor_effect(pre, post, Mode::ZeroPageX),
        0x4d => eor_effect(pre, post, Mode::Absolute),
        0x5d => eor_effect(pre, post, Mode::AbsoluteX),
        0x59 => eor_effect(pre, post, Mode::AbsoluteY),
        0x41 => eor_effect(pre, post, Mode::IndirectX),
        0x51 => eor_effect(pre, post, Mode::IndirectY),
        0x6a => ror_a_effect(pre, post),
        0x66 => ror_effect(pre, post, Mode::ZeroPage),
        0x76 => ror_effect(pre, post, Mode::ZeroPageX),
        0x6e => ror_effect(pre, post, Mode::Absolute),
        0x7e => ror_effect(pre, post, Mode::AbsoluteXForceTick),
        0x4a => lsr_a_effect(pre, post),
        0x46 => lsr_effect(pre, post, Mode::ZeroPage),
        0x56 => lsr_effect(pre, post, Mode::ZeroPageX),
        0x4e => lsr_effect(pre, post, Mode::Absolute),
        0x5e => lsr_effect(pre, post, Mode::AbsoluteXForceTick),
        0x58 => cli_effect(pre, post),
        0x78 => sei_effect(pre, post),
        0x50 => bvc_effect(pre, post),
        0x70 => bvs_effect(pre, post),
        0x4c => jmp_effect(pre, post, Mode::Absolute),
        0x6c => jmp_effect(pre, post, Mode::Indirect),
        0x60 => rts_effect(pre, post),
        0x40 => rti_effect(pre, post),
        0x48 => pha_effect(pre, post),
        0x68 => pla_effect(pre, post),
        0x5a | 0x7a => nop_effect(pre, post),
        0x44 | 0x64 => nop_zero_page_effect(pre, post),
        0x54 | 0x74 => nop_zero_page_x_effect(pre, post),
        0x5c | 0x7c => nop_absolute_x_effect(pre, post),
        0x47 => sre_effect(pre, post, Mode::ZeroPage),
        0x57 => sre_effect(pre, post, Mode::ZeroPageX),
        0x4f => sre_effect(pre, post, Mode::Absolute),
        0x5f => sre_effect(pre, post, Mode::AbsoluteX),
        0x5b => sre_effect(pre, post, Mode::AbsoluteY),
        0x43 => sre_effect(pre, post, Mode::IndirectX),
        0x53 => sre_effect(pre, post, Mode::IndirectY),
        0x67 => rra_effect(pre, post, Mode::ZeroPage),
        0x77 => rra_effect(pre, post, Mode::ZeroPageX),
        0x6f => rra_effect(pre, post, Mode::Absolute),
        0x7f => rra_effect(pre, post, Mode::AbsoluteX),
        0x7b => rra_effect(pre, post, Mode::AbsoluteY),
        0x63 => rra_effect(pre, post, Mode::IndirectX),
        0x73 => rra_effect(pre, post, Mode::IndirectY),
        0xa1 => lda_effect(pre, post, Mode::IndirectX),
        0xa5 => lda_effect(pre, post, Mode::ZeroPage),
        0xa9 => lda_effect(pre, post, Mode::Immediate),
        0xad => lda_effect(pre, post, Mode::Absolute),
        0xb1 => lda_effect(pre, post, Mode::IndirectY),
        0xb5 => lda_effect(pre, post, Mode::ZeroPageX),
        0xb9 => lda_effect(pre, post, Mode::AbsoluteY),
        0xbd => lda_effect(pre, post, Mode::AbsoluteX),
        0xa2 => ldx_effect(pre, post, Mode::Immediate),
        0xa6 => ldx_effect(pre, post, Mode::ZeroPage),
        0xb6 => ldx_effect(pre, post, Mode::ZeroPageY),
        0xae => ldx_effect(pre, post, Mode::Absolute),
        0xbe => ldx_effect(pre, post, Mode::AbsoluteY),
        0xa0 => ldy_effect(pre, post, Mode::Immediate),
        0xa4 => ldy_effect(pre, post, Mode::ZeroPage),
        0xb4 => ldy_effect(pre, post, Mode::ZeroPageX),
        0xac => ldy_effect(pre, post, Mode::Absolute),
        0xbc => ldy_effect(pre, post, Mode::AbsoluteX),
        0x85 => sta_effect(pre, post, Mode::ZeroPage),
        0x95 => sta_effect(pre, post, Mode::ZeroPageX),
        0x8d => sta_effect(pre, post, Mode::Absolute),
        0x9d => sta_effect(pre, post, Mode::AbsoluteXForceTick),
        0x99 => sta_effect(pre, post, Mode::AbsoluteYForceTick),
        0x81 => sta_effect(pre, post, Mode::IndirectX),
        0x91 => sta_effect(pre, post, Mode::IndirectYForceTick),
        0x86 => stx_effect(pre, post, Mode::ZeroPage),
        0x96 => stx_effect(pre, post, Mode::ZeroPageY),
        0x8e => stx_effect(pre, post, Mode::Absolute),
        0x84 => sty_effect(pre, post, Mode::ZeroPage),
        0x94 => sty_effect(pre, post, Mode::ZeroPageX),
        0x8c => sty_effect(pre, post, Mode::Absolute),
        0x88 => dey_effect(pre, post),
        0xaa => tax_effect(pre, post),
        0xa8 => tay_effect(pre, post),
        0x8a => txa_effect(pre, post),
        0x98 => tya_effect(pre, post),
        0x9a => txs_effect(pre, post),
        0xba => tsx_effect(pre, post),
        0xb8 => clv_effect(pre, post),
        0x90 => bcc_effect(pre, post),
        0xb0 => bcs_effect(pre, post),
        0x80 | 0x82 | 0x89 => nop_immediate_effect(pre, post),
        0xa7 => lax_effect(pre, post, Mode::ZeroPage),
        0xb7 => lax_effect(pre, post, Mode::ZeroPageY),
        0xaf => lax_effect(pre, post, Mode::Absolute),
        0xbf => lax_effect(pre, post, Mode::AbsoluteY),
        0xa3 => lax_effect(pre, post, Mode::IndirectX),
        0xb3 => lax_effect(pre, post, Mode::IndirectY),
        0x87 => sax_effect(pre, post, Mode::ZeroPage),
        0x97 => sax_effect(pre, post, Mode::ZeroPageY),
        0x8f => sax_effect(pre, post, Mode::Absolute),
        0x83 => sax_effect(pre, post, Mode::IndirectX),
        0xe9 => sbc_effect(pre, post, Mode::Immediate),
        0xe5 => sbc_effect(pre, post, Mode::ZeroPage),
        0xf5 => sbc_effect(pre, post, Mode::ZeroPageX),
        0xed => sbc_effect(pre, post, Mode::Absolute),
        0xfd => sbc_effect(pre, post, Mode::AbsoluteX),
        0xf9 => sbc_effect(pre, post, Mode::AbsoluteY),
        0xe1 => sbc_effect(pre, post, Mode::IndirectX),
        0xf1 => sbc_effect(pre, post, Mode::IndirectY),
        0xc9 => cmp_effect(pre, post, Mode::Immediate),
        0xc5 => cmp_effect(pre, post, Mode::ZeroPage),
        0xd5 => cmp_effect(pre, post, Mode::ZeroPageX),
        0xcd => cmp_effect(pre, post, Mode::Absolute),
        0xdd => cmp_effect(pre, post, Mode::AbsoluteX),
        0xd9 => cmp_effect(pre, post, Mode::AbsoluteY),
        0xc1 => cmp_effect(pre, post, Mode::IndirectX),
        0xd1 => cmp_effect(pre, post, Mode::IndirectY),
        0xe0 => cpx_effect(pre, post, Mode::Immediate),
        0xe4 => cpx_effect(pre, post, Mode::ZeroPage),
        0xec => cpx_effect(pre, post, Mode::Absolute),
        0xc0 => cpy_effect(pre, post, Mode::Immediate),
        0xc4 => cpy_effect(pre, post, Mode::ZeroPage),
        0xcc => cpy_effect(pre, post, Mode::Absolute),
        0xe6 => inc_effect(pre, post, Mode::ZeroPage),
        0xf6 => inc_effect(pre, post, Mode::ZeroPageX),
        0xee => inc_effect(pre, post, Mode::Absolute),
        0xfe => inc_effect(pre, post, Mode::AbsoluteXForceTick),
        0xc6 => dec_effect(pre, post, Mode::ZeroPage),
        0xd6 => dec_effect(pre, post, Mode::ZeroPageX),
        0xce => dec_effect(pre, post, Mode::Absolute),
        0xde => dec_effect(pre, post, Mode::AbsoluteXForceTick),
        0xe8 => inx_effect(pre, post),
        0xca => dex_effect(pre, post),
        0xc8 => iny_effect(pre, post),
        0xd8 => cld_effect(pre, post),
        0xf8 => sed_effect(pre, post),
        0xd0 => bne_effect(pre, post),
        0xf0 => beq_effect(pre, post),
        0xea => nop_effect(pre, post),
        0xda | 0xfa => nop_effect(pre, post),
        0xc2 | 0xe2 => nop_immediate_effect(pre, post),
        0xd4 | 0xf4 => nop_zero_page_x_effect(pre, post),
        0xdc | 0xfc => nop_absolute_x_effect(pre, post),
        0xeb => sbc_effect(pre, post, Mode::Immediate),
        0xc7 => dcp_effect(pre, post, Mode::ZeroPage),
        0xd7 => dcp_effect(pre, post, Mode::ZeroPageX),
        0xcf => dcp_effect(pre, post, Mode::Absolute),
        0xdf => dcp_effect(pre, post, Mode::AbsoluteX),
        0xdb => dcp_effect(pre, post, Mode::AbsoluteY),
        0xc3 => dcp_effect(pre, post, Mode::IndirectX),
        0xd3 => dcp_effect(pre, post, Mode::IndirectY),
        0xe7 => isb_effect(pre, post, Mode::ZeroPage),
        0xf7 => isb_effect(pre, post, Mode::ZeroPageX),
        0xef => isb_effect(pre, post, Mode::Absolute),
        0xff => isb_effect(pre, post, Mode::AbsoluteX),
        0xfb => isb_effect(pre, post, Mode::AbsoluteY),
        0xe3 => isb_effect(pre, post, Mode::IndirectX),
        0xf3 => isb_effect(pre, post, Mode::IndirectY),
        _ => nop_effect(pre, post),
    }
}

/// `mid` is `pre` right after an opcode fetch: one cycle later, PC advanced,
/// registers, RAM and the CPU side of the cartridge unchanged.
pub open spec fn fetched(pre: Cpu, mid: Cpu) -> bool {
    &&& mid.bus.wf()
    &&& mid.bus.cycles == pre.bus.cycles + 1
    &&& mid.pc == pre.pc.wrapping_add(1)
    &&& (mid.a, mid.x, mid.y, mid.p, mid.sp) == (pre.a, pre.x, pre.y, pre.p, pre.sp)
    &&& mid.bus.ram == pre.bus.ram
    &&& mid.bus.cpu_stall_cycles == pre.bus.cpu_stall_cycles
    &&& cart_stable(pre.bus.ppu.cartridge, mid.bus.ppu.cartridge)
}

/// One fetched and executed instruction.
pub open spec fn step_effect(pre: Cpu, post: Cpu) -> bool {
    exists|mid: Cpu, opcode: u8|
        fetched(pre, mid) && (Bus::is_quiet(pre.pc) ==> opcode == pre.bus.quiet_read(pre.pc))
            && #[trigger] opcode_effect(opcode, mid, post)
}

/// Vector address an interrupt loads PC from.
pub open spec fn vector_address(kind: Interrupt) -> u16 {
    match kind {
        Interrupt::Nmi => 0xFFFA,
        Interrupt::Reset => 0xFFFC,
        _ => 0xFFFE,
    }
}

impl Cpu {
    /// Enters an interrupt. NMI, IRQ and BRK push PC and the status (Break
    /// set only for BRK, Push always set), set I and load PC from their
    /// vector; NMI and IRQ take 7 cycles, BRK 6 after its opcode fetch. An IRQ while
    /// I is set is ignored. Reset pushes nothing: it moves SP down by three
    /// dummy stack cycles' worth of two bytes, sets I and loads the reset
    /// vector.
    pub fn interrupt(&mut self, kind: Interrupt)
        requires
            old(self).bus.room(7),
        ensures
            final(self).within(*old(self), 7),
            cart_stable(old(self).bus.ppu.cartridge, final(self).bus.ppu.cartridge),
            (final(self).a, final(self).x, final(self).y) == (old(self).a, old(self).x, old(self).y),
            kind == Interrupt::Irq && old(self).flag(IRQ_DISABLE) ==> *final(self) == *old(self),
            !(kind == Interrupt::Irq && old(self).flag(IRQ_DISABLE)) ==> {
                &&& final(self).bus.cycles == old(self).bus.cycles + if kind == Interrupt::Break {
                    6int
                } else {
                    7int
                }
                &&& final(self).pc == old(self).vector(vector_address(kind))
                &&& final(self).p == old(self).p | IRQ_DISABLE
                &&& kind == Interrupt::Reset ==> final(self).sp == old(self).sp.wrapping_sub(
                    1,
                ).wrapping_sub(1) && final(self).bus.ram == old(self).bus.ram
                &&& kind != Interrupt::Reset ==> {
                    let sp = old(self).sp;
                    &&& final(self).sp == sp.wrapping_sub(1).wrapping_sub(1).wrapping_sub(1)
                    &&& final(self).bus.ram@ == old(self).bus.ram@.update(
                        0x100 + sp as int,
                        (old(self).pc / 256) as u8,
                    ).update(0x100 + sp.wrapping_sub(1) as int, (old(self).pc % 256) as u8).update(
                        0x100 + sp.wrapping_sub(1).wrapping_sub(1) as int,
                        pushed_status(old(self).p, kind),
                    )
                }
            },
    {
        if kind == Interrupt::Irq && self.p & IRQ_DISABLE != 0 {
            return;
        }
        let ghost b0 = self.bus;
        if kind != Interrupt::Reset {
            self.bus.tick();
            if kind != Interrupt::Break {
                let ghost t = self.bus;
                self.bus.tick();
                proof {
                    lemma_cart_stable_trans(b0.ppu.cartridge, t.ppu.cartridge, self.bus.ppu.cartridge);
                }
            }
        }
        let ghost b1 = self.bus;
        if kind == Interrupt::Reset {
            self.bus.tick();
            let ghost t1 = self.bus;
            self.bus.tick();
            self.sp = self.sp.wrapping_sub(1).wrapping_sub(1);
            let ghost t2 = self.bus;
            self.bus.tick();
            let ghost t3 = self.bus;
            self.bus.tick();
            let ghost t4 = self.bus;
            self.bus.tick();
            proof {
                lemma_cart_stable_trans(b1.ppu.cartridge, t1.ppu.cartridge, t2.ppu.cartridge);
                lemma_cart_stable_trans(b1.ppu.cartridge, t2.ppu.cartridge, t3.ppu.cartridge);
                lemma_cart_stable_trans(b1.ppu.cartridge, t3.ppu.cartridge, t4.ppu.cartridge);
                lemma_cart_stable_trans(b1.ppu.cartridge, t4.ppu.cartridge, self.bus.ppu.cartridge);
            }
        } else {
            let pc = self.pc;
            self.push_word(pc);
            let ghost t1 = self.bus;
            let status = if kind == Interrupt::Break {
                (self.p | PUSH) | BREAK
            } else {
                (self.p | PUSH) & !BREAK
            };
            self.push_byte(status);
            proof {
                lemma_cart_stable_trans(b1.ppu.cartridge, t1.ppu.cartridge, self.bus.ppu.cartridge);
            }
        }
        self.p = self.p | IRQ_DISABLE;
        let vector: u16 = if kind == Interrupt::Nmi {
            0xFFFA
        } else if kind == Interrupt::Reset {
            0xFFFC
        } else {
            0xFFFE
        };
        proof {
            if kind != Interrupt::Reset {
                lemma_cart_stable_trans(b0.ppu.cartridge, b1.ppu.cartridge, self.bus.ppu.cartridge);
            }
            lemma_stable_cart_read(&b0, &self.bus, vector);
            lemma_stable_cart_read(&b0, &self.bus, (vector + 1) as u16);
        }
        let ghost b2 = self.bus;
        self.pc = self.bus.read_word(vector);
        proof {
            lemma_cart_stable_trans(b0.ppu.cartridge, b2.ppu.cartridge, self.bus.ppu.cartridge);
        }
    }
}


impl Cpu {
    /// Decodes and runs one instruction whose opcode has been fetched;
    /// opcodes with no meaning run as a one-byte NOP.
    fn execute_instruction(&mut self, opcode: u8)
        requires
            old(self).bus.room(7),
        ensures
            opcode_effect(opcode, *old(self), *final(self)),
    {
        match opcode / 64 {
            0 => self.execute_low(opcode),
            1 => self.execute_lower_middle(opcode),
            2 => self.execute_upper_middle(opcode),
            _ => self.execute_high(opcode),
        }
    }

    /// Opcodes $00-$3F.
    #[verifier::rlimit(60)]
    fn execute_low(&mut self, opcode: u8)
        requires
            old(self).bus.room(7),
            opcode / 64 == 0,
        ensures
            opcode_effect(opcode, *old(self), *final(self)),
    {
        match opcode {
            0x29 => self.and(Mode::Immediate),
            0x25 => self.and(Mode::ZeroPage),
            0x35 => self.and(Mode::ZeroPageX),
            0x2d => self.and(Mode::Absolute),
            0x3d => self.and(Mode::AbsoluteX),
            0x39 => self.and(Mode::AbsoluteY),
            0x21 => self.and(Mode::IndirectX),
            0x31 => self.and(Mode::IndirectY),
            0x09 => self.ora(Mode::Immediate),
            0x05 => self.ora(Mode::ZeroPage),
            0x15 => self.ora(Mode::ZeroPageX),
            0x0d => self.ora(Mode::Absolute),
            0x1d => self.ora(Mode::AbsoluteX),
            0x19 => self.ora(Mode::AbsoluteY),
            0x01 => self.ora(Mode::IndirectX),
            0x11 => self.ora(Mode::IndirectY),
            0x24 => self.bit(Mode::ZeroPage),
            0x2c => self.bit(Mode::Absolute),
            0x2a => self.rol_a(),
            0x26 => self.rol(Mode::ZeroPage),
            0x36 => self.rol(Mode::ZeroPageX),
            0x2e => self.rol(Mode::Absolute),
            0x3e => self.rol(Mode::AbsoluteXForceTick),
            0x0a => self.asl_a(),
            0x06 => self.asl(Mode::ZeroPage),
            0x16 => self.asl(Mode::ZeroPageX),
            0x0e => self.asl(Mode::Absolute),
            0x1e => self.asl(Mode::AbsoluteXForceTick),
            0x18 => self.clc(),
            0x38 => self.sec(),
            0x10 => self.bpl(),
            0x30 => self.bmi(),
            0x20 => self.jsr(),
            0x00 => self.brk(),
            0x08 => self.php(),
            0x28 => self.plp(),
            0x1a | 0x3a => self.nop(),
            0x04 => self.nop_zero_page(),
            0x14 | 0x34 => self.nop_zero_page_x(),
            0x0c => self.nop_absolute(),
            0x1c | 0x3c => self.nop_absolute_x(),
            0x07 => self.slo(Mode::ZeroPage),
            0x17 => self.slo(Mode::ZeroPageX),
            0x0f => self.slo(Mode::Absolute),
            0x1f => self.slo(Mode::AbsoluteX),
            0x1b => self.slo(Mode::AbsoluteY),
            0x03 => self.slo(Mode::IndirectX),
            0x13 => self.slo(Mode::IndirectY),
            0x27 => self.rla(Mode::ZeroPage),
            0x37 => self.rla(Mode::ZeroPageX),
            0x2f => self.rla(Mode::Absolute),
            0x3f => self.rla(Mode::AbsoluteX),
            0x3b => self.rla(Mode::AbsoluteY),
            0x23 => self.rla(Mode::IndirectX),
            0x33 => self.rla(Mode::IndirectY),
            _ => self.nop(),
        }
    }

    /// Opcodes $40-$7F.
    #[verifier::rlimit(60)]
    fn execute_lower_middle(&mut self, opcode: u8)
        requires
            old(self).bus.room(7),
            opcode / 64 == 1,
        ensures
            opcode_effect(opcode, *old(self), *final(self)),
    {
        match opcode {
            0x69 => self.adc(Mode::Immediate),
            0x65 => self.adc(Mode::ZeroPage),
            0x75 => self.adc(Mode::ZeroPageX),
            0x6d => self.adc(Mode::Absolute),
            0x7d => self.adc(Mode::AbsoluteX),
            0x79 => self.adc(Mode::AbsoluteY),
            0x61 => self.adc(Mode::IndirectX),
            0x71 => self.adc(Mode::IndirectY),
            0x49 => self.eor(Mode::Immediate),
            0x45 => self.eor(Mode::ZeroPage),
            0x55 => self.eor(Mode::ZeroPageX),
            0x4d => self.eor(Mode::Absolute),
            0x5d => self.eor(Mode::AbsoluteX),
            0x59 => self.eor(Mode::AbsoluteY),
            0x41 => self.eor(Mode::IndirectX),
            0x51 => self.eor(Mode::IndirectY),
            0x6a => self.ror_a(),
            0x66 => self.ror(Mode::ZeroPage),
            0x76 => self.ror(Mode::ZeroPageX),
            0x6e => self.ror(Mode::Absolute),
            0x7e => self.ror(Mode::AbsoluteXForceTick),
            0x4a => self.lsr_a(),
            0x46 => self.lsr(Mode::ZeroPage),
            0x56 => self.lsr(Mode::ZeroPageX),
            0x4e => self.lsr(Mode::Absolute),
            0x5e => self.lsr(Mode::AbsoluteXForceTick),
            0x58 => self.cli(),
            0x78 => self.sei(),
            0x50 => self.bvc(),
            0x70 => self.bvs(),
            0x4c => self.jmp(Mode::Absolute),
            0x6c => self.jmp(Mode::Indirect),
            0x60 => self.rts(),
            0x40 => self.rti(),
            0x48 => self.pha(),
            0x68 => self.pla(),
            0x5a | 0x7a => self.nop(),
            0x44 | 0x64 => self.nop_zero_page(),
            0x54 | 0x74 => self.nop_zero_page_x(),
            0x5c | 0x7c => self.nop_absolute_x(),
            0x47 => self.sre(Mode::ZeroPage),
            0x57 => self.sre(Mode::ZeroPageX),
            0x4f => self.sre(Mode::Absolute),
            0x5f => self.sre(Mode::AbsoluteX),
            0x5b => self.sre(Mode::AbsoluteY),
            0x43 => self.sre(Mode::IndirectX),
            0x53 => self.sre(Mode::IndirectY),
            0x67 => self.rra(Mode::ZeroPage),
            0x77 => self.rra(Mode::ZeroPageX),
            0x6f => self.rra(Mode::Absolute),
            0x7f => self.rra(Mode::AbsoluteX),
            0x7b => self.rra(Mode::AbsoluteY),
            0x63 => self.rra(Mode::IndirectX),
            0x73 => self.rra(Mode::IndirectY),
            _ => self.nop(),
        }
    }

    /// Opcodes $80-$BF.
    #[verifier::rlimit(60)]
    fn execute_upper_middle(&mut self, opcode: u8)
        requires
            old(self).bus.room(7),
            opcode / 64 == 2,
        ensures
            opcode_effect(opcode, *old(self), *final(self)),
    {
        match opcode {
            0xa1 => self.lda(Mode::IndirectX),
            0xa5 => self.lda(Mode::ZeroPage),
            0xa9 => self.lda(Mode::Immediate),
            0xad => self.lda(Mode::Absolute),
            0xb1 => self.lda(Mode::IndirectY),
            0xb5 => self.lda(Mode::ZeroPageX),
            0xb9 => self.lda(Mode::AbsoluteY),
            0xbd => self.lda(Mode::AbsoluteX),
            0xa2 => self.ldx(Mode::Immediate),
            0xa6 => self.ldx(Mode::ZeroPage),
            0xb6 => self.ldx(Mode::ZeroPageY),
            0xae => self.ldx(Mode::Absolute),
            0xbe => self.ldx(Mode::AbsoluteY),
            0xa0 => self.ldy(Mode::Immediate),
            0xa4 => self.ldy(Mode::ZeroPage),
            0xb4 => self.ldy(Mode::ZeroPageX),
            0xac => self.ldy(Mode::Absolute),
            0xbc => self.ldy(Mode::AbsoluteX),
            0x85 => self.sta(Mode::ZeroPage),
            0x95 => self.sta(Mode::ZeroPageX),
            0x8d => self.sta(Mode::Absolute),
            0x9d => self.sta(Mode::AbsoluteXForceTick),
            0x99 => self.sta(Mode::AbsoluteYForceTick),
            0x81 => self.sta(Mode::IndirectX),
            0x91 => self.sta(Mode::IndirectYForceTick),
            0x86 => self.stx(Mode::ZeroPage),
            0x96 => self.stx(Mode::ZeroPageY),
            0x8e => self.stx(Mode::Absolute),
            0x84 => self.sty(Mode::ZeroPage),
            0x94 => self.sty(Mode::ZeroPageX),
            0x8c => self.sty(Mode::Absolute),
            0x88 => self.dey(),
            0xaa => self.tax(),
            0xa8 => self.tay(),
            0x8a => self.txa(),
            0x98 => self.tya(),
            0x9a => self.txs(),
            0xba => self.tsx(),
            0xb8 => self.clv(),
            0x90 => self.bcc(),
            0xb0 => self.bcs(),
            0x80 | 0x82 | 0x89 => self.nop_immediate(),
            0xa7 => self.lax(Mode::ZeroPage),
            0xb7 => self.lax(Mode::ZeroPageY),
            0xaf => self.lax(Mode::Absolute),
            0xbf => self.lax(Mode::AbsoluteY),
            0xa3 => self.lax(Mode::IndirectX),
            0xb3 => self.lax(Mode::IndirectY),
            0x87 => self.sax(Mode::ZeroPage),
            0x97 => self.sax(Mode::ZeroPageY),
            0x8f => self.sax(Mode::Absolute),
            0x83 => self.sax(Mode::IndirectX),
            _ => self.nop(),
        }
    }

    /// Opcodes $C0-$FF.
    #[verifier::rlimit(60)]
    fn execute_high(&mut self, opcode: u8)
        requires
            old(self).bus.room(7),
            opcode / 64 == 3,
        ensures
            opcode_effect(opcode, *old(self), *final(self)),
    {
        match opcode {
            0xe9 => self.sbc(Mode::Immediate),
            0xe5 => self.sbc(Mode::ZeroPage),
            0xf5 => self.sbc(Mode::ZeroPageX),
            0xed => self.sbc(Mode::Absolute),
            0xfd => self.sbc(Mode::AbsoluteX),
            0xf9 => self.sbc(Mode::AbsoluteY),
            0xe1 => self.sbc(Mode::IndirectX),
            0xf1 => self.sbc(Mode::IndirectY),
            0xc9 => self.cmp(Mode::Immediate),
            0xc5 => self.cmp(Mode::ZeroPage),
            0xd5 => self.cmp(Mode::ZeroPageX),
            0xcd => self.cmp(Mode::Absolute),
            0xdd => self.cmp(Mode::AbsoluteX),
            0xd9 => self.cmp(Mode::AbsoluteY),
            0xc1 => self.cmp(Mode::IndirectX),
            0xd1 => self.cmp(Mode::IndirectY),
            0xe0 => self.cpx(Mode::Immediate),
            0xe4 => self.cpx(Mode::ZeroPage),
            0xec => self.cpx(Mode::Absolute),
            0xc0 => self.cpy(Mode::Immediate),
            0xc4 => self.cpy(Mode::ZeroPage),
            0xcc => self.cpy(Mode::Absolute),
            0xe6 => self.inc(Mode::ZeroPage),
            0xf6 => self.inc(Mode::ZeroPageX),
            0xee => self.inc(Mode::Absolute),
            0xfe => self.inc(Mode::AbsoluteXForceTick),
            0xc6 => self.dec(Mode::ZeroPage),
            0xd6 => self.dec(Mode::ZeroPageX),
            0xce => self.dec(Mode::Absolute),
            0xde => self.dec(Mode::AbsoluteXForceTick),
            0xe8 => self.inx(),
            0xca => self.dex(),
            0xc8 => self.iny(),
            0xd8 => self.cld(),
            0xf8 => self.sed(),
            0xd0 => self.bne(),
            0xf0 => self.beq(),
            0xea => self.nop(),
            0xda | 0xfa => self.nop(),
            0xc2 | 0xe2 => self.nop_immediate(),
            0xd4 | 0xf4 => self.nop_zero_page_x(),
            0xdc | 0xfc => self.nop_absolute_x(),
            0xeb => self.sbc(Mode::Immediate),
            0xc7 => self.dcp(Mode::ZeroPage),
            0xd7 => self.dcp(Mode::ZeroPageX),
            0xcf => self.dcp(Mode::Absolute),
            0xdf => self.dcp(Mode::AbsoluteX),
            0xdb => self.dcp(Mode::AbsoluteY),
            0xc3 => self.dcp(Mode::IndirectX),
            0xd3 => self.dcp(Mode::IndirectY),
            0xe7 => self.isb(Mode::ZeroPage),
            0xf7 => self.isb(Mode::ZeroPageX),
            0xef => self.isb(Mode::Absolute),
            0xff => self.isb(Mode::AbsoluteX),
            0xfb => self.isb(Mode::AbsoluteY),
            0xe3 => self.isb(Mode::IndirectX),
            0xf3 => self.isb(Mode::IndirectY),
            _ => self.nop(),
        }
    }

    /// Fetches and runs one instruction.
    pub fn step(&mut self) -> (r: Result<(), NesError>)
        requires
            old(self).bus.room(8),
        ensures
            step_effect(*old(self), *final(self)),
            final(self).within(*old(self), 8),
            final(self).bus.cycles > old(self).bus.cycles,
            r is Ok,
    {
        let ghost pre = *self;
        let opcode = self.next_byte();
        let ghost mid = *self;
        self.execute_instruction(opcode);
        proof {
            assert(fetched(pre, mid));
            assert(opcode_effect(opcode, mid, *self));
        }
        Ok(())
    }

    /// Fetches and runs one instruction.
    pub fn execute_next_instruction(&mut self)
        requires
            old(self).bus.room(8),
        ensures
            step_effect(*old(self), *final(self)),
            final(self).within(*old(self), 8),
            final(self).bus.cycles > old(self).bus.cycles,
    {
        let ghost pre = *self;
        let opcode = self.next_byte();
        let ghost mid = *self;
        self.execute_instruction(opcode);
        proof {
            assert(fetched(pre, mid));
            assert(opcode_effect(opcode, mid, *self));
        }
    }

    fn lda(&mut self, mode: Mode)
        requires
            old(self).bus.room(7),
        ensures
            lda_effect(*old(self), *final(self), mode),
    {
        let operand = self.read_operand(mode);
        self.p = zn(self.p, operand);
        self.a = operand;
    }

    fn ldx(&mut self, mode: Mode)
        requires
            old(self).bus.room(7),
        ensures
            ldx_effect(*old(self), *final(self), mode),
    {
        let operand = self.read_operand(mode);
        self.p = zn(self.p, operand);
        self.x = operand;
    }

    fn ldy(&mut self, mode: Mode)
        requires
            old(self).bus.room(7),
        ensures
            ldy_effect(*old(self), *final(self), mode),
    {
        let operand = self.read_operand(mode);
        self.p = zn(self.p, operand);
        self.y = operand;
    }

    /// LAX (unofficial): load A and X together.
    fn lax(&mut self, mode: Mode)
        requires
            old(self).bus.room(7),
        ensures
            lax_effect(*old(self), *final(self), mode),
    {
        let value = self.read_operand(mode);
        self.a = value;
        self.x = value;
        self.p = zn(self.p, value);
    }

    fn sta(&mut self, mode: Mode)
        requires
            old(self).bus.room(7),
        ensures
            sta_effect(*old(self), *final(self), mode),
    {
        let address = self.operand_address(mode);
        let value = self.a;
        self.bus.write_byte(address, value);
    }

    fn stx(&mut self, mode: Mode)
        requires
            old(self).bus.room(7),
        ensures
            stx_effect(*old(self), *final(self), mode),
    {
        let address = self.operand_address(mode);
        let value = self.x;
        self.bus.write_byte(address, value);
    }

    fn sty(&mut self, mode: Mode)
        requires
            old(self).bus.room(7),
        ensures
            sty_effect(*old(self), *final(self), mode),
    {
        let address = self.operand_address(mode);
        let value = self.y;
        self.bus.write_byte(address, value);
    }

    /// SAX (unofficial): store A AND X.
    fn sax(&mut self, mode: Mode)
        requires
            old(self).bus.room(7),
        ensures
            sax_effect(*old(self), *final(self), mode),
    {
        let address = self.operand_address(mode);
        let value = self.a & self.x;
        self.bus.write_byte(address, value);
    }

    fn adc(&mut self, mode: Mode)
        requires
            old(self).bus.room(7),
        ensures
            adc_effect(*old(self), *final(self), mode),
    {
        let operand = self.read_operand(mode);
        let (r, p) = adc_value(self.a, operand, self.p);
        self.a = r;
        self.p = p;
    }

    fn sbc(&mut self, mode: Mode)
        requires
            old(self).bus.room(7),
        ensures
            sbc_effect(*old(self), *final(self), mode),
    {
        let operand = self.read_operand(mode);
        let ghost a0 = self.a;
        let ghost p0 = self.p;
        let (r, p) = adc_value(self.a, !operand, self.p);
        self.a = r;
        self.p = p;
        assert((self.a, self.p) == sub_with_borrow(a0, operand, p0));
    }

    fn cmp(&mut self, mode: Mode)
        requires
            old(self).bus.room(7),
        ensures
            cmp_effect(*old(self), *final(self), mode),
    {
        let operand = self.read_operand(mode);
        self.p = compare_value(self.a, operand, self.p);
    }

    fn cpx(&mut self, mode: Mode)
        requires
            old(self).bus.room(7),
        ensures
            cpx_effect(*old(self), *final(self), mode),
    {
        let operand = self.read_operand(mode);
        self.p = compare_value(self.x, operand, self.p);
    }

    fn cpy(&mut self, mode: Mode)
        requires
            old(self).bus.room(7),
        ensures
            cpy_effect(*old(self), *final(self), mode),
    {
        let operand = self.read_operand(mode);
        self.p = compare_value(self.y, operand, self.p);
    }

    fn and(&mut self, mode: Mode)
        requires
            old(self).bus.room(7),
        ensures
            and_effect(*old(self), *final(self), mode),
    {
        let operand = self.read_operand(mode);
        let result = self.a & operand;
        self.p = zn(self.p, result);
        self.a = result;
    }

    fn ora(&mut self, mode: Mode)
        requires
            old(self).bus.room(7),
        ensures
            ora_effect(*old(self), *final(self), mode),
    {
        let operand = self.read_operand(mode);
        let result = self.a | operand;
        self.p = zn(self.p, result);
        self.a = result;
    }

    fn eor(&mut self, mode: Mode)
        requires
            old(self).bus.room(7),
        ensures
            eor_effect(*old(self), *final(self), mode),
    {
        let operand = self.read_operand(mode);
        let result = self.a ^ operand;
        self.p = zn(self.p, result);
        self.a = result;
    }

    fn bit(&mut self, mode: Mode)
        requires
            old(self).bus.room(7),
        ensures
            bit_effect(*old(self), *final(self), mode),
    {
        let operand = self.read_operand(mode);
        let ghost p0 = self.p;
        let p1 = set_flag_value(self.p, ZERO, self.a & operand == 0);
        let p2 = set_flag_value(p1, OVERFLOW, operand & 0x40 != 0);
        self.p = set_flag_value(p2, NEGATIVE, operand & 0x80 != 0);
        assert(self.p == bit_test(self.a, operand, p0));
    }

    fn asl(&mut self, mode: Mode)
        requires
            old(self).bus.room(7),
        ensures
            asl_effect(*old(self), *final(self), mode),
    {
        let address = self.operand_address(mode);
        let operand = self.bus.read_byte(address);
        let (result, p) = asl_value(operand, self.p);
        self.bus.tick();
        self.p = p;
        self.bus.write_byte(address, result);
    }

    fn lsr(&mut self, mode: Mode)
        requires
            old(self).bus.room(7),
        ensures
            lsr_effect(*old(self), *final(self), mode),
    {
        let address = self.operand_address(mode);
        let operand = self.bus.read_byte(address);
        let (result, p) = lsr_value(operand, self.p);
        self.bus.tick();
        self.p = p;
        self.bus.write_byte(address, result);
    }

    fn rol(&mut self, mode: Mode)
        requires
            old(self).bus.room(7),
        ensures
            rol_effect(*old(self), *final(self), mode),
    {
        let address = self.operand_address(mode);
        let operand = self.bus.read_byte(address);
        let (result, p) = rol_value(operand, self.p);
        self.bus.tick();
        self.p = p;
        self.bus.write_byte(address, result);
    }

    fn ror(&mut self, mode: Mode)
        requires
            old(self).bus.room(7),
        ensures
            ror_effect(*old(self), *final(self), mode),
    {
        let address = self.operand_address(mode);
        let operand = self.bus.read_byte(address);
        let (result, p) = ror_value(operand, self.p);
        self.bus.tick();
        self.p = p;
        self.bus.write_byte(address, result);
    }

    fn asl_a(&mut self)
        requires
            old(self).bus.room(7),
        ensures
            asl_a_effect(*old(self), *final(self)),
    {
        let (result, p) = asl_value(self.a, self.p);
        self.bus.tick();
        self.p = p;
        self.a = result;
    }

    fn lsr_a(&mut self)
        requires
            old(self).bus.room(7),
        ensures
            lsr_a_effect(*old(self), *final(self)),
    {
        let (result, p) = lsr_value(self.a, self.p);
        self.bus.tick();
        self.p = p;
        self.a = result;
    }

    fn rol_a(&mut self)
        requires
            old(self).bus.room(7),
        ensures
            rol_a_effect(*old(self), *final(self)),
    {
        let (result, p) = rol_value(self.a, self.p);
        self.bus.tick();
        self.p = p;
        self.a = result;
    }

    fn ror_a(&mut self)
        requires
            old(self).bus.room(7),
        ensures
            ror_a_effect(*old(self), *final(self)),
    {
        let (result, p) = ror_value(self.a, self.p);
        self.bus.tick();
        self.p = p;
        self.a = result;
    }

    fn inc(&mut self, mode: Mode)
        requires
            old(self).bus.room(7),
        ensures
            inc_effect(*old(self), *final(self), mode),
    {
        let address = self.operand_address(mode);
        let operand = self.bus.read_byte(address);
        let result = operand.wrapping_add(1);
        self.bus.tick();
        self.p = zn(self.p, result);
        self.bus.write_byte(address, result);
    }

    fn dec(&mut self, mode: Mode)
        requires
            old(self).bus.room(7),
        ensures
            dec_effect(*old(self), *final(self), mode),
    {
        let address = self.operand_address(mode);
        let operand = self.bus.read_byte(address);
        let result = operand.wrapping_sub(1);
        self.bus.tick();
        self.p = zn(self.p, result);
        self.bus.write_byte(address, result);
    }

    fn inx(&mut self)
        requires
            old(self).bus.room(7),
        ensures
            inx_effect(*old(self), *final(self)),
    {
        let result = self.x.wrapping_add(1);
        self.bus.tick();
        self.p = zn(self.p, result);
        self.x = result;
    }

    fn dex(&mut self)
        requires
            old(self).bus.room(7),
        ensures
            dex_effect(*old(self), *final(self)),
    {
        let result = self.x.wrapping_sub(1);
        self.bus.tick();
        self.p = zn(self.p, result);
        self.x = result;
    }

    fn iny(&mut self)
        requires
            old(self).bus.room(7),
        ensures
            iny_effect(*old(self), *final(self)),
    {
        let result = self.y.wrapping_add(1);
        self.bus.tick();
        self.p = zn(self.p, result);
        self.y = result;
    }

    fn dey(&mut self)
        requires
            old(self).bus.room(7),
        ensures
            dey_effect(*old(self), *final(self)),
    {
        let result = self.y.wrapping_sub(1);
        self.bus.tick();
        self.p = zn(self.p, result);
        self.y = result;
    }

    fn tax(&mut self)
        requires
            old(self).bus.room(7),
        ensures
            tax_effect(*old(self), *final(self)),
    {
        let result = self.a;
        self.bus.tick();
        self.p = zn(self.p, result);
        self.x = result;
    }

    fn tay(&mut self)
        requires
            old(self).bus.room(7),
        ensures
            tay_effect(*old(self), *final(self)),
    {
        let result = self.a;
        self.bus.tick();
        self.p = zn(self.p, result);
        self.y = result;
    }

    fn txa(&mut self)
        requires
            old(self).bus.room(7),
        ensures
            txa_effect(*old(self), *final(self)),
    {
        let result = self.x;
        self.bus.tick();
        self.p = zn(self.p, result);
        self.a = result;
    }

    fn tya(&mut self)
        requires
            old(self).bus.room(7),
        ensures
            tya_effect(*old(self), *final(self)),
    {
        let result = self.y;
        self.bus.tick();
        self.p = zn(self.p, result);
        self.a = result;
    }

    fn tsx(&mut self)
        requires
            old(self).bus.room(7),
        ensures
            tsx_effect(*old(self), *final(self)),
    {
        let result = self.sp;
        self.bus.tick();
        self.p = zn(self.p, result);
        self.x = result;
    }

    fn txs(&mut self)
        requires
            old(self).bus.room(7),
        ensures
            txs_effect(*old(self), *final(self)),
    {
        self.sp = self.x;
        self.bus.tick();
    }

    fn clc(&mut self)
        requires
            old(self).bus.room(7),
        ensures
            clc_effect(*old(self), *final(self)),
    {
        self.p = set_flag_value(self.p, CARRY, false);
        self.bus.tick();
    }

    fn sec(&mut self)
        requires
            old(self).bus.room(7),
        ensures
            sec_effect(*old(self), *final(self)),
    {
        self.p = set_flag_value(self.p, CARRY, true);
        self.bus.tick();
    }

    fn cli(&mut self)
        requires
            old(self).bus.room(7),
        ensures
            cli_effect(*old(self), *final(self)),
    {
        self.p = set_flag_value(self.p, IRQ_DISABLE, false);
        self.bus.tick();
    }

    fn sei(&mut self)
        requires
            old(self).bus.room(7),
        ensures
            sei_effect(*old(self), *final(self)),
    {
        self.p = set_flag_value(self.p, IRQ_DISABLE, true);
        self.bus.tick();
    }

    fn clv(&mut self)
        requires
            old(self).bus.room(7),
        ensures
            clv_effect(*old(self), *final(self)),
    {
        self.p = set_flag_value(self.p, OVERFLOW, false);
        self.bus.tick();
    }

    fn cld(&mut self)
        requires
            old(self).bus.room(7),
        ensures
            cld_effect(*old(self), *final(self)),
    {
        self.p = set_flag_value(self.p, DECIMAL, false);
        self.bus.tick();
    }

    fn sed(&mut self)
        requires
            old(self).bus.room(7),
        ensures
            sed_effect(*old(self), *final(self)),
    {
        self.p = set_flag_value(self.p, DECIMAL, true);
        self.bus.tick();
    }

    fn read_operand(&mut self, mode: Mode) -> (r: u8)
        requires
            old(self).bus.room(5),
        ensures
            final(self).within(*old(self), 5),
            old(self).operand_value(mode) matches Some(v) ==> r == v,
            final(self).pc == operand_end(old(self).pc, mode),
            old(self).address_cost(mode) matches Some(n) ==> final(self).bus.cycles == old(self).bus.cycles + n + 1,
            final(self).bus.ram == old(self).bus.ram,
            (final(self).a, final(self).x, final(self).y, final(self).p, final(self).sp) == (
                old(self).a,
                old(self).x,
                old(self).y,
                old(self).p,
                old(self).sp,
            ),
    {
        let ghost b0 = self.bus;
        let address = self.operand_address(mode);
        proof {
            lemma_quiet_read_stable(&b0, &self.bus, address);
        }
        self.bus.read_byte(address)
    }

    /// DCP (unofficial): decrement memory, then compare with A.
    fn dcp(&mut self, mode: Mode)
        requires
            old(self).bus.room(7),
        ensures
            dcp_effect(*old(self), *final(self), mode),
    {
        let address = self.operand_address(mode);
        let operand = self.bus.read_byte(address);
        let result = operand.wrapping_sub(1);
        self.bus.tick();
        self.bus.write_byte(address, result);
        self.p = compare_value(self.a, result, self.p);
    }

    /// ISB (unofficial): increment memory, then subtract it from A.
    fn isb(&mut self, mode: Mode)
        requires
            old(self).bus.room(7),
        ensures
            isb_effect(*old(self), *final(self), mode),
    {
        let address = self.operand_address(mode);
        let operand = self.bus.read_byte(address);
        let result = operand.wrapping_add(1);
        self.bus.tick();
        self.bus.write_byte(address, result);
        let (r, p) = adc_value(self.a, !result, self.p);
        self.a = r;
        self.p = p;
    }

    /// SLO (unofficial): shift memory left, then OR into A.
    fn slo(&mut self, mode: Mode)
        requires
            old(self).bus.room(7),
        ensures
            slo_effect(*old(self), *final(self), mode),
    {
        let address = self.operand_address(mode);
        let operand = self.bus.read_byte(address);
        let (shifted, p) = asl_value(operand, self.p);
        self.bus.tick();
        self.p = p;
        self.bus.write_byte(address, shifted);
        let result = self.a | shifted;
        self.p = zn(self.p, result);
        self.a = result;
    }

    /// RLA (unofficial): rotate memory left, then AND into A.
    fn rla(&mut self, mode: Mode)
        requires
            old(self).bus.room(7),
        ensures
            rla_effect(*old(self), *final(self), mode),
    {
        let address = self.operand_address(mode);
        let operand = self.bus.read_byte(address);
        let (shifted, p) = rol_value(operand, self.p);
        self.bus.tick();
        self.p = p;
        self.bus.write_byte(address, shifted);
        let result = self.a & shifted;
        self.p = zn(self.p, result);
        self.a = result;
    }

    /// SRE (unofficial): shift memory right, then EOR into A.
    fn sre(&mut self, mode: Mode)
        requires
            old(self).bus.room(7),
        ensures
            sre_effect(*old(self), *final(self), mode),
    {
        let address = self.operand_address(mode);
        let operand = self.bus.read_byte(address);
        let (shifted, p) = lsr_value(operand, self.p);
        self.bus.tick();
        self.p = p;
        self.bus.write_byte(address, shifted);
        let result = self.a ^ shifted;
        self.p = zn(self.p, result);
        self.a = result;
    }

    /// RRA (unofficial): rotate memory right, then add it to A.
    fn rra(&mut self, mode: Mode)
        requires
            old(self).bus.room(7),
        ensures
            rra_effect(*old(self), *final(self), mode),
    {
        let address = self.operand_address(mode);
        let operand = self.bus.read_byte(address);
        let (shifted, p) = ror_value(operand, self.p);
        self.bus.tick();
        self.p = p;
        self.bus.write_byte(address, shifted);
        let (r, p) = adc_value(self.a, shifted, self.p);
        self.a = r;
        self.p = p;
    }

    /// Relative branch: the offset is always fetched; a taken branch costs
    /// one more cycle, and one more again when it lands on another page.
    fn branch(&mut self, condition: bool)
        requires
            old(self).bus.room(7),
        ensures
            final(self).within(*old(self), 7),
            final(self).bus.ram == old(self).bus.ram,
            (final(self).a, final(self).x, final(self).y, final(self).p, final(self).sp) == (
                old(self).a,
                old(self).x,
                old(self).y,
                old(self).p,
                old(self).sp,
            ),
            Bus::is_quiet(old(self).pc) ==> {
                let offset = old(self).bus.quiet_read(old(self).pc);
                let next = old(self).pc.wrapping_add(1);
                &&& final(self).bus.cycles == old(self).bus.cycles + branch_cost(condition, next, offset) - 1
                &&& final(self).pc == if condition {
                    branch_target(next, offset)
                } else {
                    next
                }
            },
    {
        let offset = self.next_byte();
        if condition {
            self.bus.tick();
            let next = self.pc;
            let target = if offset < 128 {
                next.wrapping_add(offset as u16)
            } else {
                next.wrapping_sub(256 - offset as u16)
            };
            if target / 256 != next / 256 {
                self.bus.tick();
            }
            self.pc = target;
        }
    }

    fn bpl(&mut self)
        requires
            old(self).bus.room(7),
        ensures
            bpl_effect(*old(self), *final(self)),
    {
        let set = self.p & NEGATIVE != 0;
        self.branch(!set);
    }

    fn bmi(&mut self)
        requires
            old(self).bus.room(7),
        ensures
            bmi_effect(*old(self), *final(self)),
    {
        let set = self.p & NEGATIVE != 0;
        self.branch(set);
    }

    fn bvc(&mut self)
        requires
            old(self).bus.room(7),
        ensures
            bvc_effect(*old(self), *final(self)),
    {
        let set = self.p & OVERFLOW != 0;
        self.branch(!set);
    }

    fn bvs(&mut self)
        requires
            old(self).bus.room(7),
        ensures
            bvs_effect(*old(self), *final(self)),
    {
        let set = self.p & OVERFLOW != 0;
        self.branch(set);
    }

    fn bcc(&mut self)
        requires
            old(self).bus.room(7),
        ensures
            bcc_effect(*old(self), *final(self)),
    {
        let set = self.p & CARRY != 0;
        self.branch(!set);
    }

    fn bcs(&mut self)
        requires
            old(self).bus.room(7),
        ensures
            bcs_effect(*old(self), *final(self)),
    {
        let set = self.p & CARRY != 0;
        self.branch(set);
    }

    fn bne(&mut self)
        requires
            old(self).bus.room(7),
        ensures
            bne_effect(*old(self), *final(self)),
    {
        let set = self.p & ZERO != 0;
        self.branch(!set);
    }

    fn beq(&mut self)
        requires
            old(self).bus.room(7),
        ensures
            beq_effect(*old(self), *final(self)),
    {
        let set = self.p & ZERO != 0;
        self.branch(set);
    }

    fn jmp(&mut self, mode: Mode)
        requires
            old(self).bus.room(7),
        ensures
            jmp_effect(*old(self), *final(self), mode),
    {
        self.pc = self.operand_address(mode);
    }

    fn jsr(&mut self)
        requires
            old(self).bus.room(7),
        ensures
            jsr_effect(*old(self), *final(self)),
    {
        let target = self.operand_address(Mode::Absolute);
        let return_address = self.pc.wrapping_sub(1);
        self.bus.tick();
        self.push_word(return_address);
        self.pc = target;
    }

    fn rts(&mut self)
        requires
            old(self).bus.room(7),
        ensures
            rts_effect(*old(self), *final(self)),
    {
        self.bus.tick();
        self.bus.tick();
        let r = self.pop_word();
        self.pc = r.wrapping_add(1);
        self.bus.tick();
    }

    fn brk(&mut self)
        requires
            old(self).bus.room(7),
        ensures
            brk_effect(*old(self), *final(self)),
    {
        self.pc = self.pc.wrapping_add(1);
        self.interrupt(Interrupt::Break);
    }

    fn rti(&mut self)
        requires
            old(self).bus.room(7),
        ensures
            rti_effect(*old(self), *final(self)),
    {
        self.p = self.pop_byte();
        self.pc = self.pop_word();
    }

    fn pha(&mut self)
        requires
            old(self).bus.room(7),
        ensures
            pha_effect(*old(self), *final(self)),
    {
        self.bus.tick();
        let a = self.a;
        self.push_byte(a);
    }

    fn php(&mut self)
        requires
            old(self).bus.room(7),
        ensures
            php_effect(*old(self), *final(self)),
    {
        self.bus.tick();
        let p = (self.p | BREAK) | PUSH;
        self.push_byte(p);
    }

    fn pla(&mut self)
        requires
            old(self).bus.room(7),
        ensures
            pla_effect(*old(self), *final(self)),
    {
        self.bus.tick();
        self.bus.tick();
        let result = self.pop_byte();
        self.p = zn(self.p, result);
        self.a = result;
    }

    fn plp(&mut self)
        requires
            old(self).bus.room(7),
        ensures
            plp_effect(*old(self), *final(self)),
    {
        self.bus.tick();
        self.bus.tick();
        let v = self.pop_byte();
        self.p = (v & !BREAK) | PUSH;
    }

    fn nop(&mut self)
        requires
            old(self).bus.room(7),
        ensures
            nop_effect(*old(self), *final(self)),
    {
        self.bus.tick();
    }

    /// Unofficial NOPs: they read their operands and take the matching cycles.
    fn nop_immediate(&mut self)
        requires
            old(self).bus.room(7),
        ensures
            nop_immediate_effect(*old(self), *final(self)),
    {
        self.next_byte();
        self.bus.tick();
    }

    fn nop_zero_page(&mut self)
        requires
            old(self).bus.room(7),
        ensures
            nop_zero_page_effect(*old(self), *final(self)),
    {
        self.next_byte();
        self.bus.tick();
        self.bus.tick();
    }

    fn nop_zero_page_x(&mut self)
        requires
            old(self).bus.room(7),
        ensures
            nop_zero_page_x_effect(*old(self), *final(self)),
    {
        let addr = self.next_byte();
        self.bus.tick();
        self.bus.tick();
        self.bus.read_byte(((addr as u16 + self.x as u16) % 256) as u16);
    }

    fn nop_absolute(&mut self)
        requires
            old(self).bus.room(7),
        ensures
            nop_absolute_effect(*old(self), *final(self)),
    {
        self.next_word();
        self.bus.tick();
        self.bus.tick();
        self.bus.tick();
    }

    fn nop_absolute_x(&mut self)
        requires
            old(self).bus.room(7),
        ensures
            nop_absolute_x_effect(*old(self), *final(self)),
    {
        let addr = self.next_word();
        let final_addr = addr.wrapping_add(self.x as u16);
        if cross(addr, self.x) {
            self.bus.tick();
        }
        self.bus.read_byte(final_addr);
        self.bus.tick();
        self.bus.tick();
    }
}


/// `JMP ($10FF)` takes its high byte from `$1000`, not `$1100`: the pointer
/// increment does not carry into the page.
pub proof fn lemma_jmp_indirect_wraps_in_page()
    ensures
        indirect_high(0x10FF) == 0x1000,
        forall|ptr: u16| #[trigger] indirect_high(ptr) / 256 == ptr / 256,
{
}

/// A taken branch whose target lies on another page costs exactly one
/// cycle more than a taken branch that stays on its page.
pub proof fn lemma_branch_page_cross(next_pc: u16, offset: u8)
    ensures
        branch_cost(true, next_pc, offset) == 3 + if branch_target(next_pc, offset) / 256 != next_pc / 256 {
            1int
        } else {
            0int
        },
        branch_cost(false, next_pc, offset) == 2,
{
}

} // verus!
