//! The engine drives no data line that the bus mode does not have.
//!
//! A driver holds as many data lines as the mode needs and finds the line of
//! a step by its index. The laws here show that every index it meets exists.

use vstd::prelude::*;
use crate::bus::{Line, Step};
use crate::lcd::LCD_Mode;
use crate::protocol::{
    begin_steps, char_byte, clear_steps, command_steps, cursor_address, data_steps,
    function_set, print_steps, pulse_enable_steps, send_steps, set_cursor_steps, text_steps,
    wake_up_steps, write_bits_steps, write_char_steps, write_nibble_steps, CLEAR_DISPLAY,
    DISPLAY_ON, ENTRY_MODE, FOUR_BIT_NIBBLE, SET_DDRAM_ADDRESS, WAKE_BYTE, WAKE_NIBBLE,
};
use crate::timing::{
    CHARACTER_US, CLEAR_US, COMMAND_US, FUNCTION_SET_US, POWER_UP_US, READY_US, SELECT_US,
    WAKE_LONG_US, WAKE_SHORT_US,
};

verus! {

/// Whether the step drives no data line but one of lines `0..lines`.
pub open spec fn step_within(step: Step, lines: nat) -> bool {
    step matches Step::Drive(Line::Data(index), _) ==> index < lines
}

/// Whether `steps` drive no data line but lines `0..lines`.
pub open spec fn within(steps: Seq<Step>, lines: nat) -> bool {
    forall|k: int| 0 <= k < steps.len() ==> step_within(#[trigger] steps[k], lines)
}

/// Two sequences that stay within the lines do so one after the other.
pub proof fn both_within(first: Seq<Step>, second: Seq<Step>, lines: nat)
    requires
        within(first, lines),
        within(second, lines),
    ensures
        within(first + second, lines),
{
    assert forall|k: int| 0 <= k < (first + second).len() implies step_within(
        #[trigger] (first + second)[k],
        lines,
    ) by {
        if k < first.len() {
            assert((first + second)[k] == first[k]);
        } else {
            assert((first + second)[k] == second[k - first.len()]);
        }
    }
}

/// A wait after a sequence drives no line.
proof fn lemma_wait_within(steps: Seq<Step>, micros: u64, lines: nat)
    requires
        within(steps, lines),
    ensures
        within(steps + seq![Step::Wait(micros)], lines),
{
    both_within(steps, seq![Step::Wait(micros)], lines);
}

/// A transfer over no more than `lines` data lines stays within them.
pub proof fn write_bits_within(value: u8, count: nat, lines: nat)
    requires
        count <= lines,
        count <= 8,
    ensures
        within(write_bits_steps(value, count), lines),
{
    both_within(data_steps(value, count), pulse_enable_steps(), lines);
}

/// A byte sent in a bus mode drives only data lines of that mode.
pub proof fn send_within(mode: LCD_Mode, value: u8, is_data: bool)
    ensures
        within(send_steps(mode, value, is_data), mode.lines()),
{
    let select = seq![Step::Drive(Line::RegisterSelect, is_data), Step::Wait(SELECT_US)];
    match mode {
        LCD_Mode::FourBit => {
            write_bits_within(value >> 4, 4, 4);
            write_bits_within(value & 0x0F, 4, 4);
            both_within(write_nibble_steps(value >> 4), write_nibble_steps(value & 0x0F), 4);
            both_within(
                select,
                write_nibble_steps(value >> 4) + write_nibble_steps(value & 0x0F),
                4,
            );
        },
        LCD_Mode::EightBit => {
            write_bits_within(value, 8, 8);
            both_within(select, write_bits_steps(value, 8), 8);
        },
    }
}

/// Clearing the display drives only data lines of the bus mode.
pub proof fn clear_within(mode: LCD_Mode)
    ensures
        within(clear_steps(mode), mode.lines()),
{
    send_within(mode, CLEAR_DISPLAY, false);
    lemma_wait_within(command_steps(mode, CLEAR_DISPLAY), CLEAR_US, mode.lines());
}

/// Setting the cursor drives only data lines of the bus mode.
pub proof fn set_cursor_within(mode: LCD_Mode, column: u8, row: u8)
    ensures
        within(set_cursor_steps(mode, column, row), mode.lines()),
{
    send_within(mode, SET_DDRAM_ADDRESS | (cursor_address(column, row) as u8), false);
}

/// The characters of a text drive only data lines of the bus mode.
proof fn lemma_text_within(mode: LCD_Mode, text: Seq<char>)
    ensures
        within(text_steps(mode, text), mode.lines()),
    decreases text.len(),
{
    if text.len() > 0 {
        let earlier = text_steps(mode, text.drop_last());
        let character = write_char_steps(mode, char_byte(text.last()));
        lemma_text_within(mode, text.drop_last());
        send_within(mode, char_byte(text.last()), true);
        both_within(earlier, character, mode.lines());
        lemma_wait_within(earlier + character, CHARACTER_US, mode.lines());
    }
}

/// Printing a text drives only data lines of the bus mode.
pub proof fn print_within(mode: LCD_Mode, text: Seq<char>)
    ensures
        within(print_steps(mode, text), mode.lines()),
{
    lemma_text_within(mode, text);
    lemma_wait_within(text_steps(mode, text), CHARACTER_US, mode.lines());
}

/// A further transfer and the wait after it stay within the lines.
proof fn lemma_transfer_within(
    earlier: Seq<Step>,
    value: u8,
    count: nat,
    micros: u64,
    lines: nat,
)
    requires
        within(earlier, lines),
        count <= lines,
        count <= 8,
    ensures
        within(earlier + write_bits_steps(value, count) + seq![Step::Wait(micros)], lines),
{
    write_bits_within(value, count, lines);
    both_within(earlier, write_bits_steps(value, count), lines);
    lemma_wait_within(earlier + write_bits_steps(value, count), micros, lines);
}

/// A further command and the wait after it stay within the lines of the mode.
proof fn lemma_command_within(earlier: Seq<Step>, mode: LCD_Mode, value: u8, micros: u64)
    requires
        within(earlier, mode.lines()),
    ensures
        within(earlier + command_steps(mode, value) + seq![Step::Wait(micros)], mode.lines()),
{
    send_within(mode, value, false);
    both_within(earlier, command_steps(mode, value), mode.lines());
    lemma_wait_within(earlier + command_steps(mode, value), micros, mode.lines());
}

/// The wake-up drives only data lines of the bus mode.
pub proof fn wake_up_within(mode: LCD_Mode)
    ensures
        within(wake_up_steps(mode), mode.lines()),
{
    let none = Seq::<Step>::empty();
    match mode {
        LCD_Mode::FourBit => {
            let first = write_nibble_steps(WAKE_NIBBLE) + seq![Step::Wait(WAKE_LONG_US)];
            let second = first + write_nibble_steps(WAKE_NIBBLE) + seq![Step::Wait(WAKE_LONG_US)];
            let third = second + write_nibble_steps(WAKE_NIBBLE) + seq![Step::Wait(WAKE_SHORT_US)];
            assert(none + write_nibble_steps(WAKE_NIBBLE) =~= write_nibble_steps(WAKE_NIBBLE));
            lemma_transfer_within(none, WAKE_NIBBLE, 4, WAKE_LONG_US, 4);
            lemma_transfer_within(first, WAKE_NIBBLE, 4, WAKE_LONG_US, 4);
            lemma_transfer_within(second, WAKE_NIBBLE, 4, WAKE_SHORT_US, 4);
            lemma_transfer_within(third, FOUR_BIT_NIBBLE, 4, WAKE_SHORT_US, 4);
        },
        LCD_Mode::EightBit => {
            let first = write_bits_steps(WAKE_BYTE, 8) + seq![Step::Wait(WAKE_LONG_US)];
            let second = first + write_bits_steps(WAKE_BYTE, 8) + seq![Step::Wait(WAKE_SHORT_US)];
            assert(none + write_bits_steps(WAKE_BYTE, 8) =~= write_bits_steps(WAKE_BYTE, 8));
            lemma_transfer_within(none, WAKE_BYTE, 8, WAKE_LONG_US, 8);
            lemma_transfer_within(first, WAKE_BYTE, 8, WAKE_SHORT_US, 8);
            lemma_transfer_within(second, WAKE_BYTE, 8, WAKE_SHORT_US, 8);
        },
    }
}

/// The initialization drives only data lines of the bus mode.
pub proof fn begin_within(mode: LCD_Mode, rows: u8)
    ensures
        within(begin_steps(mode, rows), mode.lines()),
{
    let prologue = seq![
        Step::Wait(POWER_UP_US),
        Step::Drive(Line::RegisterSelect, false),
        Step::Drive(Line::Enable, false),
    ];
    wake_up_within(mode);
    let woken = prologue + wake_up_steps(mode);
    both_within(prologue, wake_up_steps(mode), mode.lines());

    let set = woken + command_steps(mode, function_set(mode, rows)) + seq![
        Step::Wait(FUNCTION_SET_US),
    ];
    lemma_command_within(woken, mode, function_set(mode, rows), FUNCTION_SET_US);

    let on = set + command_steps(mode, DISPLAY_ON) + seq![Step::Wait(COMMAND_US)];
    lemma_command_within(set, mode, DISPLAY_ON, COMMAND_US);

    let cleared = on + clear_steps(mode);
    clear_within(mode);
    both_within(on, clear_steps(mode), mode.lines());

    let entered = cleared + command_steps(mode, ENTRY_MODE) + seq![Step::Wait(COMMAND_US)];
    lemma_command_within(cleared, mode, ENTRY_MODE, COMMAND_US);

    lemma_wait_within(entered, READY_US, mode.lines());
}

} // verus!
