use vstd::prelude::*;

verus! {

/// A button of the Game Boy.
#[derive(Debug, Clone, Copy, PartialEq, Eq, Structural)]
pub enum JoypadButton {
    Right,
    Left,
    Up,
    Down,
    A,
    B,
    Select,
    Start,
}

/// The row a button is wired to: `false` for the direction keys row (`rows.1`),
/// `true` for the action buttons row (`rows.0`).
pub open spec fn is_action_button(button: JoypadButton) -> bool {
    match button {
        JoypadButton::A | JoypadButton::B | JoypadButton::Select | JoypadButton::Start => true,
        _ => false,
    }
}

/// The bit of its row that a button drives (a cleared bit means pressed).
pub open spec fn button_bit(button: JoypadButton) -> u8 {
    match button {
        JoypadButton::Right | JoypadButton::A => 0x1,
        JoypadButton::Left | JoypadButton::B => 0x2,
        JoypadButton::Up | JoypadButton::Select => 0x4,
        JoypadButton::Down | JoypadButton::Start => 0x8,
    }
}

/// The joypad register (P1, 0xFF00).
pub struct Joypad {
    /// Action buttons (`rows.0`) and direction keys (`rows.1`); a cleared bit is a pressed key.
    pub rows: (u8, u8),
    /// The row selection written by the game (bits 4 and 5).
    pub column: u8,
    pub data: u8,
    pub interrupt: u8,
}

impl Joypad {
    /// What a read of the register returns.
    pub open spec fn spec_read(&self) -> u8 {
        if self.column == 0x10 {
            self.rows.0
        } else if self.column == 0x20 {
            self.rows.1
        } else {
            0
        }
    }

    /// The lower nibble that the rows give under the selection held in `data`.
    pub open spec fn spec_new_values(&self) -> u8 {
        let v0: u8 = if self.data & 0x10 == 0 {
            0xFu8 & self.rows.0
        } else {
            0xFu8
        };
        if self.data & 0x20 == 0 {
            v0 & self.rows.1
        } else {
            v0
        }
    }

    /// The joypad after its data register is brought up to date with the rows.
    pub open spec fn spec_update(self) -> Joypad {
        let new_values = self.spec_new_values();
        Joypad {
            data: (self.data & 0xF0) | new_values,
            interrupt: if self.data & 0xF == 0xF && new_values != 0xF {
                self.interrupt | 0x10
            } else {
                self.interrupt
            },
            ..self
        }
    }

    /// The rows with `button`'s bit cleared (`pressed`) or set.
    pub open spec fn spec_rows_with(rows: (u8, u8), button: JoypadButton, pressed: bool) -> (
        u8,
        u8,
    ) {
        let bit = button_bit(button);
        if is_action_button(button) {
            (if pressed { rows.0 & (0xF & !bit) } else { rows.0 | bit }, rows.1)
        } else {
            (rows.0, if pressed { rows.1 & (0xF & !bit) } else { rows.1 | bit })
        }
    }

    pub fn read(&self) -> (r: u8)
        ensures
            r == self.spec_read(),
    {
        match self.column {
            0x10 => self.rows.0,
            0x20 => self.rows.1,
            _ => 0,
        }
    }

    /// Selects the row that reads return.
    pub fn write(&mut self, value: u8)
        ensures
            *final(self) == (Joypad { column: value & 0x30, ..*old(self) }),
    {
        self.column = value & 0x30;
    }

    pub fn press_button(&mut self, button: JoypadButton)
        ensures
            *final(self) == (Joypad {
                rows: Joypad::spec_rows_with(old(self).rows, button, true),
                ..*old(self)
            }).spec_update(),
    {
        match button {
            JoypadButton::Right => self.rows.1 = self.rows.1 & 0xE,
            JoypadButton::Left => self.rows.1 = self.rows.1 & 0xD,
            JoypadButton::Up => self.rows.1 = self.rows.1 & 0xB,
            JoypadButton::Down => self.rows.1 = self.rows.1 & 0x7,
            JoypadButton::A => self.rows.0 = self.rows.0 & 0xE,
            JoypadButton::B => self.rows.0 = self.rows.0 & 0xD,
            JoypadButton::Select => self.rows.0 = self.rows.0 & 0xB,
            JoypadButton::Start => self.rows.0 = self.rows.0 & 0x7,
        }
        assert(0xFu8 & !1u8 == 0xE && 0xFu8 & !2u8 == 0xD && 0xFu8 & !4u8 == 0xB && 0xFu8 & !8u8
            == 0x7) by (bit_vector);
        self.update();
    }

    pub fn release_button(&mut self, button: JoypadButton)
        ensures
            *final(self) == (Joypad {
                rows: Joypad::spec_rows_with(old(self).rows, button, false),
                ..*old(self)
            }).spec_update(),
    {
        match button {
            JoypadButton::Right => self.rows.1 = self.rows.1 | 0x1,
            JoypadButton::Left => self.rows.1 = self.rows.1 | 0x2,
            JoypadButton::Up => self.rows.1 = self.rows.1 | 0x4,
            JoypadButton::Down => self.rows.1 = self.rows.1 | 0x8,
            JoypadButton::A => self.rows.0 = self.rows.0 | 0x1,
            JoypadButton::B => self.rows.0 = self.rows.0 | 0x2,
            JoypadButton::Select => self.rows.0 = self.rows.0 | 0x4,
            JoypadButton::Start => self.rows.0 = self.rows.0 | 0x8,
        }
        self.update()
    }

    /// Recomputes the lower nibble of the data register and raises the joypad interrupt
    /// when a key goes down while none was down.
    fn update(&mut self)
        ensures
            *final(self) == old(self).spec_update(),
    {
        let old_values = self.data & 0xF;
        let mut new_values: u8 = 0xF;

        if self.data & 0x10 == 0x00 {
            new_values = new_values & self.rows.0;
        }
        if self.data & 0x20 == 0x00 {
            new_values = new_values & self.rows.1;
        }

        if old_values == 0xF && new_values != 0xF {
            self.interrupt = self.interrupt | 0x10;
        }

        self.data = (self.data & 0xF0) | new_values;
    }
}

impl Default for Joypad {
    fn default() -> (r: Joypad)
        ensures
            r.rows == (0x0Fu8, 0x0Fu8),
            r.column == 0,
            r.data == 0xFF,
            r.interrupt == 0,
    {
        Joypad { rows: (0x0F, 0x0F), column: 0, data: 0xFF, interrupt: 0 }
    }
}

/// Pressing a key and releasing it again leaves the rows as they were, when the key was up.
pub proof fn lemma_press_release_rows(rows: (u8, u8), button: JoypadButton)
    requires
        rows.0 <= 0xF,
        rows.1 <= 0xF,
        is_action_button(button) ==> rows.0 & button_bit(button) != 0,
        !is_action_button(button) ==> rows.1 & button_bit(button) != 0,
    ensures
        Joypad::spec_rows_with(Joypad::spec_rows_with(rows, button, true), button, false) == rows,
{
    let (r0, r1) = rows;
    assert(forall|r: u8, b: u8|
        #![trigger r & b]
        r <= 0xF && (b == 1 || b == 2 || b == 4 || b == 8) && r & b != 0 ==> (r & (0xF & !b)) | b
            == r) by (bit_vector);
}

} // verus!
