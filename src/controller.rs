//! Standard NES controller: eight buttons behind a latched shift register
//! that the CPU reaches through `$4016`.

use vstd::prelude::*;

verus! {

/// The eight buttons, in the bit order the shift register reports them.
#[derive(Debug, Clone, Copy, PartialEq, Eq, Structural)]
pub enum Button {
    A,
    B,
    Select,
    Start,
    Up,
    Down,
    Left,
    Right,
}

/// Bit index of a button in the button mask.
pub open spec fn button_index(b: Button) -> nat {
    match b {
        Button::A => 0,
        Button::B => 1,
        Button::Select => 2,
        Button::Start => 3,
        Button::Up => 4,
        Button::Down => 5,
        Button::Left => 6,
        Button::Right => 7,
    }
}

/// Mask with only the button's bit set.
pub open spec fn button_bit(b: Button) -> u8 {
    (1u8 << button_index(b)) as u8
}

pub struct Controller {
    /// Bit i is set while the button of index i is held.
    pub buttons: u8,
    pub shift_register: u8,
    pub strobe: bool,
}

/// What a read of the port returns and the register state it leaves.
pub open spec fn read_result(c: Controller) -> (u8, Controller) {
    if c.strobe {
        ((c.buttons & 1) | 0x40, c)
    } else {
        (
            (c.shift_register & 1) | 0x40,
            Controller { shift_register: shift_out(c.shift_register), ..c },
        )
    }
}

/// The shift register after one bit has been read out of it.
pub open spec fn shift_out(s: u8) -> u8 {
    (s >> 1) | 0x80
}

/// Register state after the CPU writes `data` to the port.
pub open spec fn write_result(c: Controller, data: u8) -> Controller {
    let new_strobe = (data & 1) != 0;
    let shift = if new_strobe || c.strobe { c.buttons } else { c.shift_register };
    Controller { strobe: new_strobe, shift_register: shift, ..c }
}

/// The values returned by `n` successive reads starting from `c`.
pub open spec fn read_sequence(c: Controller, n: nat) -> Seq<u8>
    decreases n,
{
    if n == 0 {
        Seq::empty()
    } else {
        let (v, next) = read_result(c);
        seq![v].add(read_sequence(next, (n - 1) as nat))
    }
}

impl Controller {
    pub fn new() -> (r: Controller)
        ensures
            r.buttons == 0,
            r.shift_register == 0,
            !r.strobe,
    {
        Controller { buttons: 0, shift_register: 0, strobe: false }
    }

    /// Current button mask (bit 0 = A ... bit 7 = Right).
    pub fn buttons(&self) -> (r: u8)
        ensures
            r == self.buttons,
    {
        self.buttons
    }

    pub fn press(&mut self, button: Button)
        ensures
            final(self).buttons == old(self).buttons | button_bit(button),
            final(self).shift_register == old(self).shift_register,
            final(self).strobe == old(self).strobe,
    {
        let bit = Self::button_to_bit(button);
        self.buttons = self.buttons | bit;
    }

    pub fn release(&mut self, button: Button)
        ensures
            final(self).buttons == old(self).buttons & !button_bit(button),
            final(self).shift_register == old(self).shift_register,
            final(self).strobe == old(self).strobe,
    {
        let bit = Self::button_to_bit(button);
        self.buttons = self.buttons & !bit;
    }

    pub fn set_button(&mut self, button: Button, pressed: bool)
        ensures
            final(self).buttons == (if pressed {
                old(self).buttons | button_bit(button)
            } else {
                old(self).buttons & !button_bit(button)
            }),
            final(self).shift_register == old(self).shift_register,
            final(self).strobe == old(self).strobe,
    {
        if pressed {
            self.press(button);
        } else {
            self.release(button);
        }
    }

    /// CPU read of `$4016`. While the strobe is high the A button is reported;
    /// otherwise the next bit is shifted out and the register fills with 1s.
    /// Bit 6 is always set (open bus).
    pub fn read(&mut self) -> (r: u8)
        ensures
            (r, *final(self)) == read_result(*old(self)),
    {
        if self.strobe {
            (self.buttons & 0x01) | 0x40
        } else {
            let value = (self.shift_register & 0x01) | 0x40;
            self.shift_register = (self.shift_register >> 1) | 0x80;
            value
        }
    }

    /// CPU write to `$4016`. The button mask is latched on the falling edge of
    /// the strobe and continuously while the strobe stays high.
    pub fn write(&mut self, data: u8)
        ensures
            *final(self) == write_result(*old(self), data),
    {
        let new_strobe = (data & 0x01) != 0;
        if self.strobe && !new_strobe {
            self.shift_register = self.buttons;
        }
        self.strobe = new_strobe;
        if self.strobe {
            self.shift_register = self.buttons;
        }
    }

    fn button_to_bit(button: Button) -> (r: u8)
        ensures
            r == button_bit(button),
    {
        let r: u8 = match button {
            Button::A => 0b0000_0001,
            Button::B => 0b0000_0010,
            Button::Select => 0b0000_0100,
            Button::Start => 0b0000_1000,
            Button::Up => 0b0001_0000,
            Button::Down => 0b0010_0000,
            Button::Left => 0b0100_0000,
            Button::Right => 0b1000_0000,
        };
        proof {
            assert(1u8 << 0u8 == 1u8) by (bit_vector);
            assert(1u8 << 1u8 == 2u8) by (bit_vector);
            assert(1u8 << 2u8 == 4u8) by (bit_vector);
            assert(1u8 << 3u8 == 8u8) by (bit_vector);
            assert(1u8 << 4u8 == 16u8) by (bit_vector);
            assert(1u8 << 5u8 == 32u8) by (bit_vector);
            assert(1u8 << 6u8 == 64u8) by (bit_vector);
            assert(1u8 << 7u8 == 128u8) by (bit_vector);
        }
        r
    }
}

/// The shift register after `k` bits have been read out of it.
pub open spec fn shifted(s: u8, k: nat) -> u8
    decreases k,
{
    if k == 0 {
        s
    } else {
        shift_out(shifted(s, (k - 1) as nat))
    }
}

proof fn lemma_shift_out_bit(s: u8, j: u8)
    by (bit_vector)
    requires
        j < 7,
    ensures
        (shift_out(s) >> j) & 1 == (s >> ((j + 1) as u8)) & 1,
{
}

proof fn lemma_shifted_bit(s: u8, k: nat, j: u8)
    requires
        j as nat + k < 8,
    ensures
        (shifted(s, k) >> j) & 1 == (s >> ((j as nat + k) as u8)) & 1,
    decreases k,
{
    if k > 0 {
        lemma_shift_out_bit(shifted(s, (k - 1) as nat), j);
        lemma_shifted_bit(s, (k - 1) as nat, (j + 1) as u8);
    }
}

proof fn lemma_read_sequence(c: Controller, n: nat, i: int)
    requires
        !c.strobe,
        0 <= i < n,
    ensures
        read_sequence(c, n).len() == n,
        read_sequence(c, n)[i] == (shifted(c.shift_register, i as nat) & 1) | 0x40,
    decreases n,
{
    let next = Controller { shift_register: shift_out(c.shift_register), ..c };
    if n == 1 {
        assert(read_sequence(next, 0).len() == 0);
    } else {
        lemma_read_sequence(next, (n - 1) as nat, 0);
        if i > 0 {
            lemma_read_sequence(next, (n - 1) as nat, i - 1);
            lemma_shifted_front(c.shift_register, (i - 1) as nat);
        }
    }
}

proof fn lemma_shifted_front(s: u8, k: nat)
    ensures
        shifted(shift_out(s), k) == shifted(s, k + 1),
    decreases k,
{
    reveal_with_fuel(shifted, 2);
    if k > 0 {
        lemma_shifted_front(s, (k - 1) as nat);
    }
}

/// Strobing the port high then low and reading it eight times yields the
/// button mask one bit per read, least significant bit first, each with bit 6
/// set.
pub proof fn lemma_strobe_then_eight_reads(c: Controller)
    ensures
        ({
            let latched = write_result(write_result(c, 1), 0);
            let reads = read_sequence(latched, 8);
            reads.len() == 8 && forall|i: int|
                0 <= i < 8 ==> #[trigger] reads[i] == (((c.buttons >> (i as u8)) & 1) | 0x40)
        }),
{
    let b = c.buttons;
    let latched = write_result(write_result(c, 1), 0);
    assert(1u8 & 1u8 != 0u8 && 0u8 & 1u8 == 0u8) by (bit_vector);
    assert(latched.shift_register == b && !latched.strobe);
    lemma_read_sequence(latched, 8, 0);
    assert forall|i: int| 0 <= i < 8 implies #[trigger] read_sequence(latched, 8)[i] == (((b >> (
    i as u8)) & 1) | 0x40) by {
        lemma_read_sequence(latched, 8, i);
        lemma_shifted_bit(b, i as nat, 0);
        let x = shifted(b, i as nat);
        assert(x & 1 == (x >> 0u8) & 1) by (bit_vector);
    }
}


impl Default for Controller {
    fn default() -> (r: Controller)
        ensures
            r.buttons == 0,
            r.shift_register == 0,
            !r.strobe,
    {
        Controller::new()
    }
}

} // verus!
