//! The eight buttons, read as two rows of four through one register.

use crate::bitflags::{bit_of, clear_bit, set_bit, BitFlags8};
use crate::interrupt::Interruptible;
use vstd::prelude::*;

verus! {

#[derive(Clone, Copy, Debug, PartialEq, Eq, Structural)]
pub enum Button {
    Right,
    Left,
    Up,
    Down,
    A,
    B,
    Select,
    Start,
}

impl Button {
    /// Whether the button sits in the direction row.
    pub open spec fn is_direction(self) -> bool {
        self is Right || self is Left || self is Up || self is Down
    }

    /// The button's bit within its row.
    pub open spec fn row_bit(self) -> int {
        match self {
            Button::Right | Button::A => 0,
            Button::Left | Button::B => 1,
            Button::Up | Button::Select => 2,
            Button::Down | Button::Start => 3,
        }
    }

    pub fn in_direction_row(self) -> (r: bool)
        ensures
            r == self.is_direction(),
    {
        match self {
            Button::Right | Button::Left | Button::Up | Button::Down => true,
            _ => false,
        }
    }

    pub fn index(self) -> (r: usize)
        ensures
            r == self.row_bit(),
            r < 4,
    {
        match self {
            Button::Right | Button::A => 0,
            Button::Left | Button::B => 1,
            Button::Up | Button::Select => 2,
            Button::Down | Button::Start => 3,
        }
    }
}

/// One row of four buttons. A pressed button is a zero bit.
#[derive(Clone, Copy, Debug, PartialEq, Eq, Structural)]
pub struct KeyRow {
    pub selected: bool,
    pub values: u8,
}

#[derive(Clone, Copy, Debug, PartialEq, Eq, Structural)]
pub struct Keypad {
    pub dpad: KeyRow,
    pub btns: KeyRow,
    pub interrupt_raised: bool,
}

impl Keypad {
    pub open spec fn wf(self) -> bool {
        self.dpad.values < 16 && self.btns.values < 16
    }

    pub open spec fn initial() -> Keypad {
        Keypad {
            dpad: KeyRow { selected: false, values: 0xF },
            btns: KeyRow { selected: false, values: 0xF },
            interrupt_raised: false,
        }
    }

    /// Whether `button` is held down.
    pub open spec fn is_pressed(self, button: Button) -> bool {
        if button.is_direction() {
            !bit_of(self.dpad.values, button.row_bit())
        } else {
            !bit_of(self.btns.values, button.row_bit())
        }
    }

    /// Whether any button is held down.
    pub open spec fn any_pressed(self) -> bool {
        self.dpad.values != 0xF || self.btns.values != 0xF
    }

    /// The keypad after `button` went down or came up. Only a button that goes
    /// down from up raises the request.
    pub open spec fn after_press(self, button: Button, pressed: bool) -> Keypad {
        let row = if button.is_direction() { self.dpad } else { self.btns };
        let values = if pressed {
            clear_bit(row.values, button.row_bit())
        } else {
            set_bit(row.values, button.row_bit())
        };
        let new_row = KeyRow { values, ..row };
        Keypad {
            dpad: if button.is_direction() { new_row } else { self.dpad },
            btns: if button.is_direction() { self.btns } else { new_row },
            interrupt_raised: self.interrupt_raised || (pressed && !self.is_pressed(button)),
        }
    }

    /// The low nibble of the register: the selected rows, a bit being zero
    /// when a button at that place is down in any selected row.
    pub open spec fn selected_nibble(self) -> u8 {
        if self.dpad.selected && self.btns.selected {
            self.dpad.values & self.btns.values
        } else if self.dpad.selected {
            self.dpad.values
        } else if self.btns.selected {
            self.btns.values
        } else {
            0xF
        }
    }

    /// What software reads: the two unused bits set, the two selection bits
    /// (zero selects), the selected rows.
    pub open spec fn register(self) -> int {
        0xC0 + (if self.btns.selected { 0 } else { 0x20int }) + (if self.dpad.selected { 0 } else { 0x10int })
            + self.selected_nibble()
    }

    /// The keypad after software wrote `val`: bit 5 picks the action row and
    /// bit 4 the direction row, each when zero.
    pub open spec fn written(self, val: u8) -> Keypad {
        Keypad {
            dpad: KeyRow { selected: !bit_of(val, 4), ..self.dpad },
            btns: KeyRow { selected: !bit_of(val, 5), ..self.btns },
            ..self
        }
    }

    pub fn new() -> (r: Self)
        ensures
            r == Self::initial(),
            r.wf(),
    {
        Keypad {
            dpad: KeyRow { selected: false, values: 0xF },
            btns: KeyRow { selected: false, values: 0xF },
            interrupt_raised: false,
        }
    }

    pub fn set_pressed(&mut self, button: Button, pressed: bool)
        requires
            old(self).wf(),
        ensures
            final(self).wf(),
            *final(self) == old(self).after_press(button, pressed),
            final(self).is_pressed(button) == pressed,
            forall|other: Button| other != button ==> final(self).is_pressed(other) == old(self).is_pressed(other),
    {
        let index = button.index();
        let direction = button.in_direction_row();
        let values: u8 = if direction { self.dpad.values } else { self.btns.values };
        let mask: u8 = 1u8 << index;
        let was_pressed = values & mask == 0;
        let new_values: u8 = if pressed { values & !mask } else { values | mask };
        proof {
            lemma_row_bit(values, index);
        }
        if direction {
            self.dpad.values = new_values;
        } else {
            self.btns.values = new_values;
        }
        if pressed && !was_pressed {
            self.interrupt_raised = true;
        }
    }

    pub fn read_register(&self, idx: usize) -> (r: u8)
        requires
            idx == 0,
            self.wf(),
        ensures
            r == self.register(),
    {
        let nibble: u8 = if self.dpad.selected && self.btns.selected {
            self.dpad.values & self.btns.values
        } else if self.dpad.selected {
            self.dpad.values
        } else if self.btns.selected {
            self.btns.values
        } else {
            0xF
        };
        proof {
            let a = self.dpad.values;
            let b = self.btns.values;
            assert(a < 16 ==> (a & b) < 16) by (bit_vector);
        }
        let select_btns: u8 = if self.btns.selected { 0 } else { 0x20 };
        let select_dpad: u8 = if self.dpad.selected { 0 } else { 0x10 };
        0xC0 + select_btns + select_dpad + nibble
    }

    pub fn write_register(&mut self, idx: usize, val: u8)
        requires
            idx == 0,
        ensures
            *final(self) == old(self).written(val),
            old(self).wf() ==> final(self).wf(),
    {
        let select = BitFlags8(val);
        self.btns.selected = !select.get(5);
        self.dpad.selected = !select.get(4);
    }

    /// Whether any button is held down.
    pub fn has_input(&self) -> (r: bool)
        ensures
            r == self.any_pressed(),
    {
        self.dpad.values != 0xF || self.btns.values != 0xF
    }

    pub fn set_interrupt(&mut self, pending: bool)
        ensures
            *final(self) == (Keypad { interrupt_raised: pending, ..*old(self) }),
    {
        self.interrupt_raised = pending;
    }
}

/// Clearing and setting one bit of a row, in terms of its bits.
proof fn lemma_row_bit(values: u8, index: usize)
    by (bit_vector)
    requires
        values < 16,
        index < 4,
    ensures
        (values & (1u8 << index) == 0) == !bit_of(values, index as int),
        values & !(1u8 << index) == clear_bit(values, index as int),
        values | (1u8 << index) == set_bit(values, index as int),
        (values & !(1u8 << index)) < 16,
        (values | (1u8 << index)) < 16,
        !bit_of(values & !(1u8 << index), index as int),
        bit_of(values | (1u8 << index), index as int),
        forall|j: u8|
            j < 8 && j != index ==> bit_of(values & !(1u8 << index), j as int) == bit_of(
                values,
                j as int,
            ) && bit_of(values | (1u8 << index), j as int) == bit_of(values, j as int),
{
}

impl Interruptible for Keypad {
    open spec fn interrupt_pending(&self) -> bool {
        self.interrupt_raised
    }

    fn has_interrupt(&self) -> (r: bool) {
        self.interrupt_raised
    }
}

impl Default for Keypad {
    fn default() -> (r: Self)
        ensures
            r == Keypad::initial(),
    {
        Keypad::new()
    }
}

} // verus!
