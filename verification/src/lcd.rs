//! The engine of one display: its bus mode, its geometry, and the operations.

use vstd::prelude::*;
use crate::bus::{Line, Step};
use crate::protocol::{
    begin_steps, clear_steps, command_steps, cursor_in_range, data_steps,
    function_set, print_steps, pulse_enable_steps, row_offsets, send_steps, set_cursor_steps, text_steps,
    wake_up_steps, write_bits_steps, write_char_steps, write_nibble_steps, CLEAR_DISPLAY, DISPLAY_ON,
    EIGHT_BIT_ONE_LINE, EIGHT_BIT_TWO_LINES, ENTRY_MODE, FOUR_BIT_NIBBLE, FOUR_BIT_ONE_LINE,
    FOUR_BIT_TWO_LINES, SET_DDRAM_ADDRESS, WAKE_BYTE, WAKE_NIBBLE,
};
use crate::timing::{
    CHARACTER_US, CLEAR_US, COMMAND_US, FUNCTION_SET_US, LATCH_US, POWER_UP_US, READY_US,
    SELECT_US, STROBE_US, WAKE_LONG_US, WAKE_SHORT_US,
};

verus! {

/// The width of the data bus. It is chosen once, when the engine is made.
#[allow(non_camel_case_types)]
#[derive(Clone, Copy, Debug, PartialEq, Eq, Structural)]
pub enum LCD_Mode {
    /// Four data lines; a byte travels as two nibbles.
    FourBit,
    /// Eight data lines; a byte travels at once.
    EightBit,
}

impl LCD_Mode {
    /// The number of data lines the mode needs.
    pub open spec fn lines(self) -> nat {
        match self {
            LCD_Mode::FourBit => 4,
            LCD_Mode::EightBit => 8,
        }
    }

    /// The number of data lines the mode needs.
    pub fn data_lines(&self) -> (count: usize)
        ensures
            count == self.lines(),
    {
        match self {
            LCD_Mode::FourBit => 4,
            LCD_Mode::EightBit => 8,
        }
    }
}

/// What an engine is, as far as its operations depend on it.
pub struct LcdView {
    pub mode: LCD_Mode,
    pub columns: u8,
    pub rows: u8,
}

/// The engine of one display.
#[derive(Debug)]
pub struct LCD {
    data_lines: usize,
    mode: LCD_Mode,
    columns: u8,
    rows: u8,
}

impl View for LCD {
    type V = LcdView;

    closed spec fn view(&self) -> LcdView {
        LcdView { mode: self.mode, columns: self.columns, rows: self.rows }
    }
}

impl LCD {
    /// The number of data lines agrees with the bus mode.
    #[verifier::type_invariant]
    spec fn lines_match_mode(self) -> bool {
        self.data_lines == self.mode.lines()
    }

    /// An engine for a display wired with `data_lines` data lines, with no
    /// geometry yet.
    pub fn new(data_lines: usize, mode: LCD_Mode) -> (lcd: LCD)
        requires
            data_lines == mode.lines(),
        ensures
            lcd@ == (LcdView { mode, columns: 0, rows: 0 }),
    {
        LCD { data_lines, mode, columns: 0, rows: 0 }
    }

    /// Initializes a display of `columns` by `rows` cells and records its
    /// geometry.
    pub fn begin(&mut self, columns: u8, rows: u8) -> (steps: Vec<Step>)
        ensures
            final(self)@ == (LcdView { mode: old(self)@.mode, columns, rows }),
            steps@ == begin_steps(old(self)@.mode, rows),
    {
        proof {
            use_type_invariant(&*self);
        }
        self.columns = columns;
        self.rows = rows;

        let ghost mode = self@.mode;
        let mut steps: Vec<Step> = Vec::new();
        steps.push(Step::Wait(POWER_UP_US));

        steps.push(Step::Drive(Line::RegisterSelect, false));
        steps.push(Step::Drive(Line::Enable, false));
        let ghost prologue = steps@;
        let ghost woken: Seq<Step>;

        match self.mode {
            LCD_Mode::FourBit => {
                steps.append(&mut self.write_nibble(WAKE_NIBBLE));
                steps.push(Step::Wait(WAKE_LONG_US));
                proof {
                    woken = write_nibble_steps(WAKE_NIBBLE) + seq![Step::Wait(WAKE_LONG_US)];
                    assert(steps@ == prologue + woken);
                }

                steps.append(&mut self.write_nibble(WAKE_NIBBLE));
                steps.push(Step::Wait(WAKE_LONG_US));
                proof {
                    woken = woken + write_nibble_steps(WAKE_NIBBLE) + seq![Step::Wait(WAKE_LONG_US)];
                    assert(steps@ == prologue + woken);
                }

                steps.append(&mut self.write_nibble(WAKE_NIBBLE));
                steps.push(Step::Wait(WAKE_SHORT_US));
                proof {
                    woken = woken + write_nibble_steps(WAKE_NIBBLE) + seq![Step::Wait(WAKE_SHORT_US)];
                    assert(steps@ == prologue + woken);
                }

                steps.append(&mut self.write_nibble(FOUR_BIT_NIBBLE));
                steps.push(Step::Wait(WAKE_SHORT_US));
                proof {
                    woken = woken + write_nibble_steps(FOUR_BIT_NIBBLE) + seq![
                        Step::Wait(WAKE_SHORT_US),
                    ];
                    assert(steps@ == prologue + woken);
                }

                let command: u8 = if rows > 1 {
                    FOUR_BIT_TWO_LINES
                } else {
                    FOUR_BIT_ONE_LINE
                };
                steps.append(&mut self.command(command));
            },
            LCD_Mode::EightBit => {
                steps.append(&mut self.write_bits(WAKE_BYTE));
                steps.push(Step::Wait(WAKE_LONG_US));
                proof {
                    woken = write_bits_steps(WAKE_BYTE, 8) + seq![Step::Wait(WAKE_LONG_US)];
                    assert(steps@ == prologue + woken);
                }

                steps.append(&mut self.write_bits(WAKE_BYTE));
                steps.push(Step::Wait(WAKE_SHORT_US));
                proof {
                    woken = woken + write_bits_steps(WAKE_BYTE, 8) + seq![Step::Wait(WAKE_SHORT_US)];
                    assert(steps@ == prologue + woken);
                }

                steps.append(&mut self.write_bits(WAKE_BYTE));
                steps.push(Step::Wait(WAKE_SHORT_US));
                proof {
                    woken = woken + write_bits_steps(WAKE_BYTE, 8) + seq![Step::Wait(WAKE_SHORT_US)];
                    assert(steps@ == prologue + woken);
                }

                let command: u8 = if rows > 1 {
                    EIGHT_BIT_TWO_LINES
                } else {
                    EIGHT_BIT_ONE_LINE
                };
                steps.append(&mut self.command(command));
            },
        }
        assert(woken == wake_up_steps(mode));
        assert(steps@ == prologue + wake_up_steps(mode) + command_steps(mode, function_set(mode, rows)));

        steps.push(Step::Wait(FUNCTION_SET_US));

        steps.append(&mut self.command(DISPLAY_ON));
        steps.push(Step::Wait(COMMAND_US));

        steps.append(&mut self.clear());

        steps.append(&mut self.command(ENTRY_MODE));
        steps.push(Step::Wait(COMMAND_US));

        steps.push(Step::Wait(READY_US));
        steps
    }

    /// Clears the display.
    pub fn clear(&mut self) -> (steps: Vec<Step>)
        ensures
            final(self)@ == old(self)@,
            steps@ == clear_steps(old(self)@.mode),
    {
        let mut steps = self.command(CLEAR_DISPLAY);
        steps.push(Step::Wait(CLEAR_US));
        steps
    }

    /// Whether [`LCD::set_cursor`] accepts `column` and `row`.
    pub fn cursor_in_range(&self, column: u8, row: u8) -> (in_range: bool)
        ensures
            in_range == cursor_in_range(self@.rows, column, row),
    {
        row < self.rows && row < 4 && column <= u8::MAX - Self::row_offset(row)
    }

    /// Moves the cursor to `column` in `row`; both count from zero.
    pub fn set_cursor(&mut self, column: u8, row: u8) -> (steps: Vec<Step>)
        requires
            cursor_in_range(old(self)@.rows, column, row),
        ensures
            final(self)@ == old(self)@,
            steps@ == set_cursor_steps(old(self)@.mode, column, row),
    {
        let address: u8 = column + Self::row_offset(row);
        self.command(SET_DDRAM_ADDRESS | address)
    }

    /// Prints `text` at the cursor, one byte for each character.
    pub fn print(&mut self, text: &str) -> (steps: Vec<Step>)
        ensures
            final(self)@ == old(self)@,
            steps@ == print_steps(old(self)@.mode, text@),
    {
        let mut steps: Vec<Step> = Vec::new();
        for character in characters: text.chars()
            invariant
                characters.seq() == text@,
                self@ == old(self)@,
                steps@ == text_steps(self@.mode, text@.take(characters.index() as int)),
        {
            assert(text@.take(characters.index() + 1).drop_last() == text@.take(
                characters.index() as int,
            ));
            let code: u32 = character as u32;
            assert(code as u8 == code % 256) by (bit_vector);
            steps.append(&mut self.write_char(#[verifier::truncate] (code as u8)));
            steps.push(Step::Wait(CHARACTER_US));
        }
        assert(text@.take(text@.len() as int) == text@);

        steps.push(Step::Wait(CHARACTER_US));
        steps
    }

    /// The number of columns that the last `begin` recorded, or zero.
    pub fn get_columns(self) -> (columns: u8)
        ensures
            columns == self@.columns,
    {
        self.columns
    }

    /// The number of rows that the last `begin` recorded, or zero.
    pub fn get_rows(self) -> (rows: u8)
        ensures
            rows == self@.rows,
    {
        self.rows
    }

    /// The address in display memory at which `row` begins.
    fn row_offset(row: u8) -> (offset: u8)
        requires
            row < row_offsets().len(),
        ensures
            offset == row_offsets()[row as int],
    {
        let row_offsets: [u8; 4] = [0x00, 0x40, 0x14, 0x54];
        row_offsets[row as usize]
    }

    /// Latches what is on the bus into the controller.
    pub fn pulse_enable(&mut self) -> (steps: Vec<Step>)
        ensures
            final(self)@ == old(self)@,
            steps@ == pulse_enable_steps(),
    {
        let mut steps: Vec<Step> = Vec::new();
        steps.push(Step::Drive(Line::Enable, false));
        steps.push(Step::Wait(STROBE_US));
        steps.push(Step::Drive(Line::Enable, true));
        steps.push(Step::Wait(STROBE_US));
        steps.push(Step::Drive(Line::Enable, false));
        steps.push(Step::Wait(LATCH_US));
        steps
    }

    /// Transfers the low four bits of `value` over data lines 0 to 3.
    pub fn write_nibble(&mut self, value: u8) -> (steps: Vec<Step>)
        ensures
            final(self)@ == old(self)@,
            steps@ == write_nibble_steps(value),
    {
        let mut steps: Vec<Step> = Vec::new();
        for index in 0..4usize
            invariant
                steps@ == data_steps(value, index as nat),
        {
            let bit: u8 = (value >> index) & 0x01;
            steps.push(Step::Drive(Line::Data(index), bit != 0));
        }
        steps.append(&mut self.pulse_enable());
        steps
    }

    /// Transfers `value` over all the data lines.
    pub fn write_bits(&mut self, value: u8) -> (steps: Vec<Step>)
        ensures
            final(self)@ == old(self)@,
            steps@ == write_bits_steps(value, old(self)@.mode.lines()),
    {
        proof {
            use_type_invariant(&*self);
        }
        let mut steps: Vec<Step> = Vec::new();
        for index in 0..self.data_lines
            invariant
                self.data_lines <= 8,
                steps@ == data_steps(value, index as nat),
        {
            let bit: u8 = (value >> index) & 0x01;
            steps.push(Step::Drive(Line::Data(index), bit != 0));
        }
        steps.append(&mut self.pulse_enable());
        steps
    }

    /// Sends one byte, to the data register if `is_data`, else to the
    /// instruction register.
    pub fn send(&mut self, value: u8, is_data: bool) -> (steps: Vec<Step>)
        ensures
            final(self)@ == old(self)@,
            steps@ == send_steps(old(self)@.mode, value, is_data),
    {
        let mut steps: Vec<Step> = Vec::new();
        steps.push(Step::Drive(Line::RegisterSelect, is_data));
        steps.push(Step::Wait(SELECT_US));
        match self.mode {
            LCD_Mode::FourBit => {
                steps.append(&mut self.write_nibble(value >> 4));
                steps.append(&mut self.write_nibble(value & 0x0F));
            },
            LCD_Mode::EightBit => {
                steps.append(&mut self.write_bits(value));
            },
        }
        steps
    }

    /// Sends one byte to the data register.
    pub fn write_char(&mut self, value: u8) -> (steps: Vec<Step>)
        ensures
            final(self)@ == old(self)@,
            steps@ == write_char_steps(old(self)@.mode, value),
    {
        self.send(value, true)
    }

    /// Sends one byte to the instruction register.
    pub fn command(&mut self, value: u8) -> (steps: Vec<Step>)
        ensures
            final(self)@ == old(self)@,
            steps@ == command_steps(old(self)@.mode, value),
    {
        self.send(value, false)
    }
}

} // verus!
