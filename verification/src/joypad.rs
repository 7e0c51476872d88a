use vstd::prelude::*;

verus! {

/// Which buttons the host currently holds down.
#[derive(Clone, Copy, Debug, Default)]
pub struct InputState {
    pub a_pressed: bool,
    pub b_pressed: bool,
    pub select_pressed: bool,
    pub start_pressed: bool,
    pub right_pressed: bool,
    pub left_pressed: bool,
    pub up_pressed: bool,
    pub down_pressed: bool,
}

/// The joypad register at 0xff00. `input` holds the button matrix as
/// `(actions << 4) | directions` with zero meaning pressed; `selected`
/// keeps the two group-select bits last written.
#[derive(Debug)]
pub struct Joypad {
    pub input: u8,
    pub selected: u8,
}

/// What a read of 0xff00 returns: the fixed high bits, the select
/// bits, and the nibble of the selected group (all ones when no group
/// is selected). Select bit 4 serves the action buttons, bit 5 the
/// directions.
pub open spec fn spec_joypad_read(input: u8, selected: u8) -> u8 {
    if selected / 16 == 1 {
        (0xc0 + selected + input / 16) as u8
    } else if selected / 16 == 2 {
        (0xc0 + selected + input % 16) as u8
    } else {
        (0xc0 + selected + 0xf) as u8
    }
}

impl Joypad {
    pub open spec fn wf(self) -> bool {
        self.selected % 16 == 0 && self.selected < 64
    }

    /// Only the two select bits of a write are kept.
    pub fn write_u8(&mut self, byte: u8)
        ensures
            *final(self) == (Joypad { selected: ((byte / 16) % 4 * 16) as u8, ..*old(self) }),
            final(self).wf(),
    {
        self.selected = (byte / 16) % 4 * 16;
    }

    #[must_use]
    pub fn read_u8(&self) -> (r: u8)
        requires
            self.wf(),
        ensures
            r == spec_joypad_read(self.input, self.selected),
    {
        let key_selection = self.selected / 16;
        if key_selection == 1 {
            0xc0 + self.selected + self.input / 16
        } else if key_selection == 2 {
            0xc0 + self.selected + self.input % 16
        } else {
            0xc0 + self.selected + 0xf
        }
    }

    /// Packs the host's buttons into the matrix byte: action buttons
    /// in the high nibble, directions in the low nibble, a cleared bit
    /// for a held button.
    pub fn set_input_state(&mut self, input_state: &InputState)
        ensures
            final(self).selected == old(self).selected,
            final(self).input == (if input_state.right_pressed {
                0int
            } else {
                1int
            }) + (if input_state.left_pressed {
                0int
            } else {
                2int
            }) + (if input_state.up_pressed {
                0int
            } else {
                4int
            }) + (if input_state.down_pressed {
                0int
            } else {
                8int
            }) + (if input_state.a_pressed {
                0int
            } else {
                16int
            }) + (if input_state.b_pressed {
                0int
            } else {
                32int
            }) + (if input_state.select_pressed {
                0int
            } else {
                64int
            }) + (if input_state.start_pressed {
                0int
            } else {
                128int
            }),
            old(self).wf() ==> final(self).wf(),
    {
        let mut joypad_state: u8 = 0;
        if !input_state.right_pressed {
            joypad_state = joypad_state + 0x1;
        }
        if !input_state.left_pressed {
            joypad_state = joypad_state + 0x2;
        }
        if !input_state.up_pressed {
            joypad_state = joypad_state + 0x4;
        }
        if !input_state.down_pressed {
            joypad_state = joypad_state + 0x8;
        }
        if !input_state.a_pressed {
            joypad_state = joypad_state + 0x10;
        }
        if !input_state.b_pressed {
            joypad_state = joypad_state + 0x20;
        }
        if !input_state.select_pressed {
            joypad_state = joypad_state + 0x40;
        }
        if !input_state.start_pressed {
            joypad_state = joypad_state + 0x80;
        }
        self.input = joypad_state;
    }
}

impl Default for Joypad {
    fn default() -> (r: Self)
        ensures
            r.wf(),
            r.input == 0xff,
            r.selected == 0,
    {
        Joypad { input: 0xff, selected: 0 }
    }
}

} // verus!
