//! What each operation puts on the bus, as sequences of steps.
//!
//! Every operation of [`crate::lcd::LCD`] promises to yield exactly the
//! sequence that the function of its name gives here.

use vstd::prelude::*;
use crate::bus::{Line, Step};
use crate::lcd::LCD_Mode;
use crate::timing::{
    CHARACTER_US, CLEAR_US, COMMAND_US, FUNCTION_SET_US, LATCH_US, POWER_UP_US, READY_US,
    SELECT_US, STROBE_US, WAKE_LONG_US, WAKE_SHORT_US,
};

verus! {

/// Clear the display and return the cursor to the first cell.
pub const CLEAR_DISPLAY: u8 = 0x01;

/// Entry mode: the address counts up after each character, the display does not shift.
pub const ENTRY_MODE: u8 = 0x06;

/// Display control: display on, cursor off, blinking off.
pub const DISPLAY_ON: u8 = 0x0C;

/// Function set: 4-bit interface, one display line.
pub const FOUR_BIT_ONE_LINE: u8 = 0x20;

/// Function set: 4-bit interface, two display lines.
pub const FOUR_BIT_TWO_LINES: u8 = 0x28;

/// Function set: 8-bit interface, one display line.
pub const EIGHT_BIT_ONE_LINE: u8 = 0x30;

/// Function set: 8-bit interface, two display lines.
pub const EIGHT_BIT_TWO_LINES: u8 = 0x38;

/// Set the address in display memory; the address fills the low seven bits.
pub const SET_DDRAM_ADDRESS: u8 = 0x80;

/// The nibble that wakes the controller up in 4-bit mode.
pub const WAKE_NIBBLE: u8 = 0x03;

/// The nibble that switches the woken controller to the 4-bit interface.
pub const FOUR_BIT_NIBBLE: u8 = 0x02;

/// The byte that wakes the controller up in 8-bit mode.
pub const WAKE_BYTE: u8 = 0x30;

/// Whether bit `index` of `value` is set; bit 0 is the least significant one.
pub open spec fn bit(value: u8, index: usize) -> bool {
    (value >> index) & 0x01 != 0
}

/// The strobe: enable low, high for the strobe width, low again, then the
/// time the controller takes to latch.
pub open spec fn pulse_enable_steps() -> Seq<Step> {
    seq![
        Step::Drive(Line::Enable, false),
        Step::Wait(STROBE_US),
        Step::Drive(Line::Enable, true),
        Step::Wait(STROBE_US),
        Step::Drive(Line::Enable, false),
        Step::Wait(LATCH_US),
    ]
}

/// Data lines `0..lines` driven to the low bits of `value`, line 0 first.
pub open spec fn data_steps(value: u8, lines: nat) -> Seq<Step> {
    Seq::new(lines, |i: int| Step::Drive(Line::Data(i as usize), bit(value, i as usize)))
}

/// One transfer over `lines` data lines: the levels, then the strobe.
pub open spec fn write_bits_steps(value: u8, lines: nat) -> Seq<Step> {
    data_steps(value, lines) + pulse_enable_steps()
}

/// One transfer of the low four bits of `value`.
pub open spec fn write_nibble_steps(value: u8) -> Seq<Step> {
    write_bits_steps(value, 4)
}

/// One byte sent to the controller: register-select, its settling time, then
/// the byte as two nibbles, high nibble first, or as one transfer of eight bits.
pub open spec fn send_steps(mode: LCD_Mode, value: u8, is_data: bool) -> Seq<Step> {
    seq![Step::Drive(Line::RegisterSelect, is_data), Step::Wait(SELECT_US)] + match mode {
        LCD_Mode::FourBit => write_nibble_steps(value >> 4) + write_nibble_steps(value & 0x0F),
        LCD_Mode::EightBit => write_bits_steps(value, 8),
    }
}

/// A byte sent to the instruction register.
pub open spec fn command_steps(mode: LCD_Mode, value: u8) -> Seq<Step> {
    send_steps(mode, value, false)
}

/// A byte sent to the data register.
pub open spec fn write_char_steps(mode: LCD_Mode, value: u8) -> Seq<Step> {
    send_steps(mode, value, true)
}

/// The clear command and the time the controller takes to carry it out.
pub open spec fn clear_steps(mode: LCD_Mode) -> Seq<Step> {
    command_steps(mode, CLEAR_DISPLAY) + seq![Step::Wait(CLEAR_US)]
}

/// The address in display memory at which each display row begins.
pub open spec fn row_offsets() -> Seq<u8> {
    seq![0x00, 0x40, 0x14, 0x54]
}

/// The address in display memory of the cell at `column` in `row`.
pub open spec fn cursor_address(column: u8, row: u8) -> int {
    column + row_offsets()[row as int]
}

/// Whether the cursor can be set to `column` in `row` on a display of `rows`
/// rows: the row is on the display and has a start address, and the address
/// of the cell fits into a byte.
pub open spec fn cursor_in_range(rows: u8, column: u8, row: u8) -> bool {
    &&& row < rows
    &&& row < row_offsets().len()
    &&& cursor_address(column, row) <= u8::MAX
}

/// A row at or past the number of rows is out of range, whatever the column.
pub proof fn row_past_the_display_is_out_of_range(rows: u8, column: u8, row: u8)
    requires
        row >= rows,
    ensures
        !cursor_in_range(rows, column, row),
{
}

/// The command that moves the cursor to `column` in `row`.
pub open spec fn set_cursor_steps(mode: LCD_Mode, column: u8, row: u8) -> Seq<Step> {
    command_steps(mode, SET_DDRAM_ADDRESS | (cursor_address(column, row) as u8))
}

/// The byte by which a character travels: the low eight bits of its code
/// point.
pub open spec fn char_byte(character: char) -> u8 {
    (character as u32 % 256) as u8
}

/// Every character of `text` sent to the data register, each followed by its
/// settling time.
pub open spec fn text_steps(mode: LCD_Mode, text: Seq<char>) -> Seq<Step>
    decreases text.len(),
{
    if text.len() == 0 {
        Seq::empty()
    } else {
        text_steps(mode, text.drop_last()) + write_char_steps(mode, char_byte(text.last()))
            + seq![Step::Wait(CHARACTER_US)]
    }
}

/// A text printed at the cursor: its characters, then one more settling time.
pub open spec fn print_steps(mode: LCD_Mode, text: Seq<char>) -> Seq<Step> {
    text_steps(mode, text) + seq![Step::Wait(CHARACTER_US)]
}

/// The function-set command for a display of `rows` rows: the interface
/// width of the mode, and two display lines if there is more than one row.
pub open spec fn function_set(mode: LCD_Mode, rows: u8) -> u8 {
    match mode {
        LCD_Mode::FourBit => if rows > 1 {
            FOUR_BIT_TWO_LINES
        } else {
            FOUR_BIT_ONE_LINE
        },
        LCD_Mode::EightBit => if rows > 1 {
            EIGHT_BIT_TWO_LINES
        } else {
            EIGHT_BIT_ONE_LINE
        },
    }
}

/// The transfers that bring the controller, whatever interface width it
/// powered up with, to the width of `mode`.
pub open spec fn wake_up_steps(mode: LCD_Mode) -> Seq<Step> {
    match mode {
        LCD_Mode::FourBit => write_nibble_steps(WAKE_NIBBLE) + seq![Step::Wait(WAKE_LONG_US)]
            + write_nibble_steps(WAKE_NIBBLE) + seq![Step::Wait(WAKE_LONG_US)]
            + write_nibble_steps(WAKE_NIBBLE) + seq![Step::Wait(WAKE_SHORT_US)]
            + write_nibble_steps(FOUR_BIT_NIBBLE) + seq![Step::Wait(WAKE_SHORT_US)],
        LCD_Mode::EightBit => write_bits_steps(WAKE_BYTE, 8) + seq![Step::Wait(WAKE_LONG_US)]
            + write_bits_steps(WAKE_BYTE, 8) + seq![Step::Wait(WAKE_SHORT_US)]
            + write_bits_steps(WAKE_BYTE, 8) + seq![Step::Wait(WAKE_SHORT_US)],
    }
}

/// The whole initialization of a display of `rows` rows.
pub open spec fn begin_steps(mode: LCD_Mode, rows: u8) -> Seq<Step> {
    seq![
        Step::Wait(POWER_UP_US),
        Step::Drive(Line::RegisterSelect, false),
        Step::Drive(Line::Enable, false),
    ] + wake_up_steps(mode)
        + command_steps(mode, function_set(mode, rows)) + seq![Step::Wait(FUNCTION_SET_US)]
        + command_steps(mode, DISPLAY_ON) + seq![Step::Wait(COMMAND_US)]
        + clear_steps(mode)
        + command_steps(mode, ENTRY_MODE) + seq![Step::Wait(COMMAND_US)]
        + seq![Step::Wait(READY_US)]
}

} // verus!
