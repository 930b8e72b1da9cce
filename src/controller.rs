//! Controller button state and the serial port it is read through.
use vstd::prelude::*;

verus! {

/// A set of buttons, one bit each: A, B, Select, Start, Up, Down, Left,
/// Right from bit 0 to bit 7.
#[derive(Clone, Copy, Debug, PartialEq, Eq, Structural)]
pub struct ControllerButton {
    pub bits: u8,
}

impl ControllerButton {
    pub const A: u8 = 0x01;
    pub const B: u8 = 0x02;
    pub const SELECT: u8 = 0x04;
    pub const START: u8 = 0x08;
    pub const UP: u8 = 0x10;
    pub const DOWN: u8 = 0x20;
    pub const LEFT: u8 = 0x40;
    pub const RIGHT: u8 = 0x80;
}

#[derive(Clone, Copy, Debug, PartialEq, Eq, Structural)]
pub struct Controller {
    pub buttons: ControllerButton,
}

impl Controller {
    /// A controller with no button pressed.
    pub fn new() -> (r: Controller)
        ensures
            r.buttons.bits == 0,
    {
        Controller { buttons: ControllerButton { bits: 0 } }
    }

    /// Presses or releases the buttons of mask `button`.
    pub fn set_button(&mut self, button: u8, pressed: bool)
        ensures
            final(self).buttons.bits == if pressed {
                old(self).buttons.bits | button
            } else {
                old(self).buttons.bits & !button
            },
    {
        if pressed {
            self.buttons.bits = self.buttons.bits | button;
        } else {
            self.buttons.bits = self.buttons.bits & !button;
        }
    }

    /// Replaces the whole button state.
    pub fn set_buttons(&mut self, buttons: u8)
        ensures
            final(self).buttons.bits == buttons,
    {
        self.buttons.bits = buttons;
    }

    /// The button state as a byte.
    pub fn get_state(&self) -> (r: u8)
        ensures
            r == self.buttons.bits,
    {
        self.buttons.bits
    }

    /// Whether every button of mask `button` is pressed.
    pub fn is_pressed(&self, button: u8) -> (r: bool)
        ensures
            r == (self.buttons.bits & button == button),
    {
        self.buttons.bits & button == button
    }

    /// Releases every button.
    pub fn clear(&mut self)
        ensures
            final(self).buttons.bits == 0,
    {
        self.buttons.bits = 0;
    }
}

impl Default for Controller {
    fn default() -> (r: Controller)
        ensures
            r.buttons.bits == 0,
    {
        Controller::new()
    }
}

/// The serial port a controller is read through: an 8-bit shift register
/// loaded from the live button state while the strobe is high.
#[derive(Clone, Copy, Debug, PartialEq, Eq, Structural)]
pub struct ControllerPort {
    pub buttons: u8,
    pub shift: u8,
    pub strobe: bool,
}

/// The port after a strobe write of `value`: bit 0 high latches the buttons.
pub open spec fn strobe_spec(p: ControllerPort, value: u8) -> ControllerPort {
    let strobe = value & 1 != 0;
    ControllerPort { strobe: strobe, shift: if strobe { p.buttons } else { p.shift }, ..p }
}

/// A serial read: the low bit of the register, which then shifts right
/// with a 1 coming in at the top.
pub open spec fn serial_read_spec(p: ControllerPort) -> (ControllerPort, u8) {
    let reg = if p.strobe { p.buttons } else { p.shift };
    (ControllerPort { shift: (reg >> 1u8) | 0x80, ..p }, reg & 1)
}

/// The bytes of `n` consecutive serial reads.
pub open spec fn serial_reads(p: ControllerPort, n: nat) -> Seq<u8>
    decreases n,
{
    if n == 0 {
        Seq::empty()
    } else {
        let (p1, b) = serial_read_spec(p);
        seq![b] + serial_reads(p1, (n - 1) as nat)
    }
}

impl ControllerPort {
    /// A port with no button pressed and the strobe low.
    pub fn new() -> (r: ControllerPort)
        ensures
            r == (ControllerPort { buttons: 0, shift: 0, strobe: false }),
    {
        ControllerPort { buttons: 0, shift: 0, strobe: false }
    }

    /// Sets the live button state.
    pub fn set_buttons(&mut self, buttons: u8)
        ensures
            *final(self) == (ControllerPort { buttons: buttons, ..*old(self) }),
    {
        self.buttons = buttons;
    }

    /// A write to the strobe register.
    pub fn write_strobe(&mut self, value: u8)
        ensures
            *final(self) == strobe_spec(*old(self), value),
    {
        self.strobe = value & 1 != 0;
        if self.strobe {
            self.shift = self.buttons;
        }
    }

    /// A read of the serial register.
    pub fn read(&mut self) -> (r: u8)
        ensures
            (*final(self), r) == serial_read_spec(*old(self)),
    {
        if self.strobe {
            self.shift = self.buttons;
        }
        let bit = self.shift & 1;
        self.shift = (self.shift >> 1) | 0x80;
        bit
    }
}

/// Strobing high then low and reading eight times yields the buttons in
/// order A, B, Select, Start, Up, Down, Left, Right, whatever came before;
/// later reads return 1.
pub proof fn lemma_strobe_then_eight_reads(p: ControllerPort)
    ensures
        ({
            let q = strobe_spec(strobe_spec(p, 1), 0);
            let reads = serial_reads(q, 10);
            &&& forall|i: int| 0 <= i < 8 ==> #[trigger] reads[i] == (p.buttons >> (i as u8)) & 1
            &&& reads[8] == 1 && reads[9] == 1
        }),
{
    let b = p.buttons;
    let q = strobe_spec(strobe_spec(p, 1), 0);
    assert(1u8 & 1 != 0 && 0u8 & 1 == 0) by (bit_vector);
    assert(q.shift == b && !q.strobe);
    reveal_with_fuel(serial_reads, 11);
    let r1 = (b >> 1u8) | 0x80;
    let r2 = (r1 >> 1u8) | 0x80;
    let r3 = (r2 >> 1u8) | 0x80;
    let r4 = (r3 >> 1u8) | 0x80;
    let r5 = (r4 >> 1u8) | 0x80;
    let r6 = (r5 >> 1u8) | 0x80;
    let r7 = (r6 >> 1u8) | 0x80;
    let r8 = (r7 >> 1u8) | 0x80;
    let r9 = (r8 >> 1u8) | 0x80;
    assert(r1 & 1 == (b >> 1u8) & 1) by (bit_vector)
        requires r1 == (b >> 1u8) | 0x80;
    assert(r2 & 1 == (b >> 2u8) & 1) by (bit_vector)
        requires r1 == (b >> 1u8) | 0x80, r2 == (r1 >> 1u8) | 0x80;
    assert(r3 & 1 == (b >> 3u8) & 1) by (bit_vector)
        requires r1 == (b >> 1u8) | 0x80, r2 == (r1 >> 1u8) | 0x80, r3 == (r2 >> 1u8) | 0x80;
    assert(r4 & 1 == (b >> 4u8) & 1 && r4 == (b >> 4u8) | 0xF0) by (bit_vector)
        requires
            r1 == (b >> 1u8) | 0x80,
            r2 == (r1 >> 1u8) | 0x80,
            r3 == (r2 >> 1u8) | 0x80,
            r4 == (r3 >> 1u8) | 0x80,
    ;
    assert(r5 & 1 == (b >> 5u8) & 1) by (bit_vector)
        requires r4 == (b >> 4u8) | 0xF0, r5 == (r4 >> 1u8) | 0x80;
    assert(r6 & 1 == (b >> 6u8) & 1) by (bit_vector)
        requires r4 == (b >> 4u8) | 0xF0, r5 == (r4 >> 1u8) | 0x80, r6 == (r5 >> 1u8) | 0x80;
    assert(r7 & 1 == (b >> 7u8) & 1 && r8 & 1 == 1 && r9 & 1 == 1) by (bit_vector)
        requires
            r4 == (b >> 4u8) | 0xF0,
            r5 == (r4 >> 1u8) | 0x80,
            r6 == (r5 >> 1u8) | 0x80,
            r7 == (r6 >> 1u8) | 0x80,
            r8 == (r7 >> 1u8) | 0x80,
            r9 == (r8 >> 1u8) | 0x80,
    ;
    assert(b & 1 == (b >> 0u8) & 1) by (bit_vector);
    let reads = serial_reads(q, 10);
    assert forall|i: int| 0 <= i < 8 implies #[trigger] reads[i] == (b >> (i as u8)) & 1 by {
        if i == 0 {
        } else if i == 1 {
        } else if i == 2 {
        } else if i == 3 {
        } else if i == 4 {
        } else if i == 5 {
        } else if i == 6 {
        } else {
        }
    }
}

} // verus!
