//! The game controller: a latched shift register that serialises the eight
//! button states, least significant bit first.

use vstd::prelude::*;
use vstd::arithmetic::power2::pow2;

verus! {

/// Button mask: the A button.
pub const BUTTON_A: u8 = 0x01;
/// Button mask: the B button.
pub const BUTTON_B: u8 = 0x02;
/// Button mask: Select.
pub const BUTTON_SELECT: u8 = 0x04;
/// Button mask: Start.
pub const BUTTON_START: u8 = 0x08;
/// Button mask: Up on the directional pad.
pub const BUTTON_UP: u8 = 0x10;
/// Button mask: Down on the directional pad.
pub const BUTTON_DOWN: u8 = 0x20;
/// Button mask: Left on the directional pad.
pub const BUTTON_LEFT: u8 = 0x40;
/// Button mask: Right on the directional pad.
pub const BUTTON_RIGHT: u8 = 0x80;

/// One controller port. While the strobe is high the shift register mirrors
/// the live button states; once the strobe is lowered, each read shifts one
/// button bit out, A first, and a ninth read returns zero.
pub struct Controller {
    /// The strobe line: high reloads the shift register continuously.
    pub strobe: bool,
    /// The live button states, one `BUTTON_*` bit each.
    pub button_status: u8,
    /// The latched shift register that reads drain.
    pub shift_register: u8,
}

/// The byte a read returns: the low bit of the live buttons while strobed,
/// else the low bit of the shift register.
pub open spec fn controller_read_value(c: Controller) -> u8 {
    if c.strobe {
        (c.button_status % 2) as u8
    } else {
        (c.shift_register % 2) as u8
    }
}

/// The controller state after a read: unchanged while strobed, else the
/// shift register moves one bit down, filling with zero.
pub open spec fn controller_after_read(c: Controller) -> Controller {
    if c.strobe {
        c
    } else {
        Controller {
            strobe: c.strobe,
            button_status: c.button_status,
            shift_register: (c.shift_register / 2) as u8,
        }
    }
}

/// The controller state after `k` successive reads.
pub open spec fn controller_after_reads(c: Controller, k: nat) -> Controller
    decreases k,
{
    if k == 0 {
        c
    } else {
        controller_after_read(controller_after_reads(c, (k - 1) as nat))
    }
}

impl Controller {
    /// A controller with the strobe low, nothing pressed, nothing latched.
    pub fn new() -> (r: Controller)
        ensures
            !r.strobe,
            r.button_status == 0,
            r.shift_register == 0,
    {
        Controller { strobe: false, button_status: 0, shift_register: 0 }
    }

    /// Drive the strobe from bit zero of the written byte; raising it latches
    /// the live button states into the shift register.
    pub fn write(&mut self, value: u8)
        ensures
            final(self).strobe == (value % 2 == 1),
            final(self).button_status == old(self).button_status,
            final(self).shift_register == if value % 2 == 1 {
                old(self).button_status
            } else {
                old(self).shift_register
            },
    {
        self.strobe = value % 2 == 1;
        if self.strobe {
            self.shift_register = self.button_status;
        }
    }

    /// Shift one bit out: the next button state in order A, B, Select,
    /// Start, Up, Down, Left, Right; after all eight, zero.
    pub fn read(&mut self) -> (r: u8)
        ensures
            r == controller_read_value(*old(self)),
            *final(self) == controller_after_read(*old(self)),
    {
        if self.strobe {
            return self.button_status % 2;
        }
        let value = self.shift_register % 2;
        self.shift_register = self.shift_register / 2;
        value
    }

    /// Press or release the buttons named by `button`, a mask of
    /// `BUTTON_*` bits.
    pub fn set_button_status(&mut self, button: u8, is_pressed: bool)
        ensures
            final(self).button_status == if is_pressed {
                old(self).button_status | button
            } else {
                old(self).button_status & !button
            },
            final(self).strobe == old(self).strobe,
            final(self).shift_register == old(self).shift_register,
    {
        if is_pressed {
            self.button_status = self.button_status | button;
        } else {
            self.button_status = self.button_status & !button;
        }
    }
}

/// With the strobe low, the shift register only ever moves down: after `k`
/// reads it holds the original bits divided by two to the `k`.
pub proof fn lemma_controller_shift_register(c: Controller, k: nat)
    requires
        !c.strobe,
    ensures
        controller_after_reads(c, k).strobe == c.strobe,
        controller_after_reads(c, k).button_status == c.button_status,
        controller_after_reads(c, k).shift_register == c.shift_register as nat / pow2(k),
    decreases k,
{
    vstd::arithmetic::power2::lemma_pow2_pos(k);
    if k == 0 {
        assert(pow2(0) == 1) by {
            vstd::arithmetic::power2::lemma2_to64();
        }
    } else {
        lemma_controller_shift_register(c, (k - 1) as nat);
        vstd::arithmetic::power2::lemma_pow2_pos((k - 1) as nat);
        assert(pow2(k) == pow2((k - 1) as nat) * 2) by {
            vstd::arithmetic::power2::lemma_pow2_unfold(k);
            vstd::arithmetic::mul::lemma_mul_is_commutative(2, pow2((k - 1) as nat) as int);
        }
        vstd::arithmetic::div_mod::lemma_div_denominator(
            c.shift_register as int,
            pow2((k - 1) as nat) as int,
            2,
        );
    }
}

/// The serial order of a read-out. With the strobe low and the shift
/// register latched from the buttons, the value of read `k` (counting from
/// zero) is bit `k` of the button byte: A, B, Select, Start, Up, Down,
/// Left, Right in turn, and every later read returns zero.
pub proof fn lemma_controller_shift_order(c: Controller, k: nat)
    requires
        !c.strobe,
    ensures
        k < 8 ==> controller_read_value(controller_after_reads(c, k)) == (c.shift_register as nat
            / pow2(k)) % 2,
        k >= 8 ==> controller_read_value(controller_after_reads(c, k)) == 0,
{
    lemma_controller_shift_register(c, k);
    if k >= 8 {
        assert(pow2(8) == 256) by {
            vstd::arithmetic::power2::lemma2_to64();
        }
        if k > 8 {
            vstd::arithmetic::power2::lemma_pow2_strictly_increases(8, k);
        }
        assert(c.shift_register as nat / pow2(k) == 0) by {
            vstd::arithmetic::div_mod::lemma_basic_div(c.shift_register as int, pow2(k) as int);
        }
    }
}

} // verus!
