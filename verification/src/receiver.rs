//! The bus as the display controller receives it.
//!
//! The controller reads the bus only at the moment the strobe falls: it then
//! latches the level of register-select and the levels of the data lines.
//! This module states, for a sequence of steps, which transfers the
//! controller latches, and proves that the engine's sequences deliver what
//! they are meant to.

use vstd::prelude::*;
use vstd::arithmetic::power2::{lemma2_to64, pow2};
use crate::bus::{Line, Step};
use crate::lcd::LCD_Mode;
use crate::protocol::{
    begin_steps, bit, char_byte, clear_steps, command_steps, cursor_address, data_steps,
    function_set, print_steps, pulse_enable_steps, send_steps, set_cursor_steps, text_steps,
    wake_up_steps, write_bits_steps, write_char_steps, write_nibble_steps, CLEAR_DISPLAY,
    DISPLAY_ON, ENTRY_MODE, FOUR_BIT_NIBBLE, SET_DDRAM_ADDRESS, WAKE_BYTE, WAKE_NIBBLE,
};
use crate::timing::{
    CHARACTER_US, CLEAR_US, COMMAND_US, FUNCTION_SET_US, POWER_UP_US, READY_US, SELECT_US,
    WAKE_LONG_US, WAKE_SHORT_US,
};

verus! {

/// The levels on the wires of the bus.
pub struct Wires {
    pub register_select: bool,
    pub enable: bool,
    /// The level of each data line, line 0 first.
    pub data: Seq<bool>,
}

/// What the controller latches at one falling edge of the strobe.
pub struct Transfer {
    /// The level of register-select: set for the data register, clear for
    /// the instruction register.
    pub is_data: bool,
    /// The level of each data line, line 0 first.
    pub levels: Seq<bool>,
}

impl Wires {
    /// The bus is at rest: the strobe is low, and there are `lines` data lines.
    pub open spec fn at_rest(self, lines: nat) -> bool {
        !self.enable && self.data.len() == lines
    }

    /// The wires once `line` has been driven to `level`. Driving a data line
    /// that does not exist changes nothing.
    pub open spec fn drive(self, line: Line, level: bool) -> Wires {
        match line {
            Line::RegisterSelect => Wires { register_select: level, ..self },
            Line::Enable => Wires { enable: level, ..self },
            Line::Data(index) => if index < self.data.len() {
                Wires { data: self.data.update(index as int, level), ..self }
            } else {
                self
            },
        }
    }

    /// The wires after one step. Waiting changes no level.
    pub open spec fn step(self, step: Step) -> Wires {
        match step {
            Step::Drive(line, level) => self.drive(line, level),
            Step::Wait(_) => self,
        }
    }

    /// The wires after all of `steps`.
    pub open spec fn run(self, steps: Seq<Step>) -> Wires
        decreases steps.len(),
    {
        if steps.len() == 0 {
            self
        } else {
            self.run(steps.drop_last()).step(steps.last())
        }
    }

    /// Whether `step` makes the strobe fall.
    pub open spec fn falls_at(self, step: Step) -> bool {
        self.enable && step == Step::Drive(Line::Enable, false)
    }

    /// What the controller latches if the strobe falls now.
    pub open spec fn sample(self) -> Transfer {
        Transfer { is_data: self.register_select, levels: self.data }
    }

    /// The transfers that the controller latches while `steps` are carried
    /// out, in order.
    pub open spec fn latched(self, steps: Seq<Step>) -> Seq<Transfer>
        decreases steps.len(),
    {
        if steps.len() == 0 {
            Seq::empty()
        } else {
            let before = self.run(steps.drop_last());
            let earlier = self.latched(steps.drop_last());
            if before.falls_at(steps.last()) {
                earlier.push(before.sample())
            } else {
                earlier
            }
        }
    }
}

/// The levels of data lines `0..lines` that carry the low bits of `value`.
pub open spec fn levels(value: u8, lines: nat) -> Seq<bool> {
    Seq::new(lines, |i: int| bit(value, i as usize))
}

/// The transfers by which one byte reaches the controller: two nibbles, the
/// high one first, or all eight bits at once.
pub open spec fn byte_transfers(mode: LCD_Mode, value: u8, is_data: bool) -> Seq<Transfer> {
    match mode {
        LCD_Mode::FourBit => seq![
            Transfer { is_data, levels: levels(value >> 4, 4) },
            Transfer { is_data, levels: levels(value & 0x0F, 4) },
        ],
        LCD_Mode::EightBit => seq![Transfer { is_data, levels: levels(value, 8) }],
    }
}

/// One more step adds its effect to the wires, and a transfer if it makes the
/// strobe fall.
pub proof fn one_more_step(wires: Wires, steps: Seq<Step>, step: Step)
    ensures
        wires.run(steps.push(step)) == wires.run(steps).step(step),
        wires.latched(steps.push(step)) == if wires.run(steps).falls_at(step) {
            wires.latched(steps).push(wires.run(steps).sample())
        } else {
            wires.latched(steps)
        },
{
    assert(steps.push(step).drop_last() =~= steps);
}

/// Steps carried out one sequence after the other: the second sequence meets
/// the wires as the first left them, and the controller latches the transfers
/// of the first, then those of the second.
pub proof fn one_sequence_after_the_other(wires: Wires, first: Seq<Step>, second: Seq<Step>)
    ensures
        wires.run(first + second) == wires.run(first).run(second),
        wires.latched(first + second) == wires.latched(first) + wires.run(first).latched(second),
    decreases second.len(),
{
    if second.len() == 0 {
        assert(first + second =~= first);
    } else {
        one_sequence_after_the_other(wires, first, second.drop_last());
        assert((first + second).drop_last() =~= first + second.drop_last());
    }
}

/// The strobe on a bus at rest makes the controller latch once, what is on
/// the wires, and leaves the wires as they were.
pub proof fn pulse_latches_once(wires: Wires)
    requires
        !wires.enable,
    ensures
        wires.latched(pulse_enable_steps()) == seq![wires.sample()],
        wires.run(pulse_enable_steps()) == wires,
{
    let steps = pulse_enable_steps();
    let s0 = Seq::<Step>::empty();
    let s1 = s0.push(steps[0]);
    let s2 = s1.push(steps[1]);
    let s3 = s2.push(steps[2]);
    let s4 = s3.push(steps[3]);
    let s5 = s4.push(steps[4]);
    let s6 = s5.push(steps[5]);
    one_more_step(wires, s0, steps[0]);
    one_more_step(wires, s1, steps[1]);
    one_more_step(wires, s2, steps[2]);
    one_more_step(wires, s3, steps[3]);
    one_more_step(wires, s4, steps[4]);
    one_more_step(wires, s5, steps[5]);
    assert(s6 =~= steps);
    assert(wires.run(s2) == wires);
    assert(wires.run(s4) == Wires { enable: true, ..wires });
    assert(wires.run(s6) == wires);
}

/// The levels of the data lines once lines `0..lines` have been driven to the
/// low bits of `value`; the other lines keep their level.
pub open spec fn driven(data: Seq<bool>, value: u8, lines: nat) -> Seq<bool> {
    Seq::new(
        data.len(),
        |i: int|
            if i < lines {
                bit(value, i as usize)
            } else {
                data[i]
            },
    )
}

/// Driving the data lines latches nothing, and sets the lines that were
/// driven to the bits of the value.
pub proof fn data_lines_take_the_bits(wires: Wires, value: u8, lines: nat)
    requires
        lines <= wires.data.len(),
        lines <= 8,
    ensures
        wires.latched(data_steps(value, lines)) == Seq::<Transfer>::empty(),
        wires.run(data_steps(value, lines)) == (Wires {
            data: driven(wires.data, value, lines),
            ..wires
        }),
    decreases lines,
{
    if lines == 0 {
        assert(data_steps(value, lines) =~= Seq::<Step>::empty());
        assert(driven(wires.data, value, lines) =~= wires.data);
    } else {
        let fewer = (lines - 1) as nat;
        let last = Step::Drive(Line::Data(fewer as usize), bit(value, fewer as usize));
        data_lines_take_the_bits(wires, value, fewer);
        assert(data_steps(value, lines) =~= data_steps(value, fewer).push(last));
        one_more_step(wires, data_steps(value, fewer), last);
        assert(driven(wires.data, value, fewer).update(fewer as int, bit(value, fewer as usize))
            =~= driven(wires.data, value, lines));
    }
}

/// One transfer on a bus at rest: the controller latches once, the bits of
/// the value with register-select as it stands, and the bus is at rest again.
pub proof fn write_bits_delivers(wires: Wires, value: u8, lines: nat)
    requires
        wires.at_rest(lines),
        lines <= 8,
    ensures
        wires.latched(write_bits_steps(value, lines)) == seq![
            Transfer { is_data: wires.register_select, levels: levels(value, lines) },
        ],
        wires.run(write_bits_steps(value, lines)) == (Wires {
            data: levels(value, lines),
            ..wires
        }),
{
    data_lines_take_the_bits(wires, value, lines);
    let driven = wires.run(data_steps(value, lines));
    assert(driven.data =~= levels(value, lines));
    pulse_latches_once(driven);
    one_sequence_after_the_other(wires, data_steps(value, lines), pulse_enable_steps());
}

/// A byte sent on a bus at rest reaches the controller as the transfers of
/// the bus mode, with register-select as asked: in 4-bit mode the high
/// nibble, then the low nibble; in 8-bit mode the byte. The bus is at rest
/// again afterwards.
pub proof fn send_delivers(wires: Wires, mode: LCD_Mode, value: u8, is_data: bool)
    requires
        wires.at_rest(mode.lines()),
    ensures
        wires.latched(send_steps(mode, value, is_data)) == byte_transfers(mode, value, is_data),
        wires.run(send_steps(mode, value, is_data)).at_rest(mode.lines()),
        wires.run(send_steps(mode, value, is_data)).register_select == is_data,
{
    let select = seq![Step::Drive(Line::RegisterSelect, is_data), Step::Wait(SELECT_US)];
    let s0 = Seq::<Step>::empty();
    let s1 = s0.push(select[0]);
    let s2 = s1.push(select[1]);
    one_more_step(wires, s0, select[0]);
    one_more_step(wires, s1, select[1]);
    assert(s2 =~= select);
    let selected = wires.run(select);
    assert(selected == Wires { register_select: is_data, ..wires });
    assert(wires.latched(select) =~= Seq::<Transfer>::empty());
    match mode {
        LCD_Mode::FourBit => {
            let high = write_nibble_steps(value >> 4);
            let low = write_nibble_steps(value & 0x0F);
            write_bits_delivers(selected, value >> 4, 4);
            let halfway = selected.run(high);
            write_bits_delivers(halfway, value & 0x0F, 4);
            one_sequence_after_the_other(selected, high, low);
            one_sequence_after_the_other(wires, select, high + low);
        },
        LCD_Mode::EightBit => {
            write_bits_delivers(selected, value, 8);
            one_sequence_after_the_other(wires, select, write_bits_steps(value, 8));
        },
    }
}

/// The two nibbles of a byte carry its eight bits between them: the low
/// nibble bits 0 to 3, the high nibble bits 4 to 7.
pub proof fn nibbles_carry_the_byte(value: u8)
    ensures
        levels(value & 0x0F, 4) + levels(value >> 4, 4) == levels(value, 8),
{
    assert(forall|i: usize| i < 4 ==> bit(value & 0x0F, i) == bit(value, i)) by (bit_vector);
    assert(forall|i: usize| 4 <= i < 8 ==> bit(value >> 4, (i - 4) as usize) == bit(value, i))
        by (bit_vector);
    assert forall|i: int| 0 <= i < 8 implies (levels(value & 0x0F, 4) + levels(value >> 4, 4))[i]
        == levels(value, 8)[i] by {
        if i >= 4 {
            assert(bit(value >> 4, ((i as usize) - 4) as usize) == bit(value, i as usize));
        }
    }
    assert(levels(value & 0x0F, 4) + levels(value >> 4, 4) =~= levels(value, 8));
}

/// The number that the levels of the data lines spell, line 0 as the lowest
/// bit.
pub open spec fn number(levels: Seq<bool>) -> nat
    decreases levels.len(),
{
    if levels.len() == 0 {
        0
    } else {
        number(levels.drop_last()) + if levels.last() {
            pow2((levels.len() - 1) as nat)
        } else {
            0
        }
    }
}

/// The levels of the low bits of a value spell its remainder by the power of
/// two of their count.
proof fn lemma_low_bits(value: u8, lines: nat)
    requires
        lines <= 8,
    ensures
        number(levels(value, lines)) == value as nat % pow2(lines),
    decreases lines,
{
    lemma2_to64();
    if lines > 0 {
        let fewer = (lines - 1) as nat;
        lemma_low_bits(value, fewer);
        assert(levels(value, lines).drop_last() =~= levels(value, fewer));
        assert(levels(value, lines).last() == bit(value, fewer as usize));
        assert(value % 2 == value % 1 + if bit(value, 0) { 1u8 } else { 0u8 }) by (bit_vector);
        assert(value % 4 == value % 2 + if bit(value, 1) { 2u8 } else { 0u8 }) by (bit_vector);
        assert(value % 8 == value % 4 + if bit(value, 2) { 4u8 } else { 0u8 }) by (bit_vector);
        assert(value % 16 == value % 8 + if bit(value, 3) { 8u8 } else { 0u8 }) by (bit_vector);
        assert(value % 32 == value % 16 + if bit(value, 4) { 16u8 } else { 0u8 }) by (bit_vector);
        assert(value % 64 == value % 32 + if bit(value, 5) { 32u8 } else { 0u8 }) by (bit_vector);
        assert(value % 128 == value % 64 + if bit(value, 6) { 64u8 } else { 0u8 }) by (bit_vector);
        assert(value == value % 128 + if bit(value, 7) { 128u8 } else { 0u8 }) by (bit_vector);
        assert(number(levels(value, lines)) == number(levels(value, fewer)) + if bit(
            value,
            fewer as usize,
        ) {
            pow2(fewer)
        } else {
            0
        });
        if fewer == 7 {
            assert(number(levels(value, fewer)) == value as nat % 128);
            assert(value as nat % 256 == value);
        }
    }
}

/// The levels of eight data lines spell the byte; the levels of its two
/// nibbles spell its quotient and its remainder by sixteen.
pub proof fn levels_spell_the_value(value: u8)
    ensures
        number(levels(value, 8)) == value,
        number(levels(value >> 4, 4)) == value / 16,
        number(levels(value & 0x0F, 4)) == value % 16,
{
    lemma2_to64();
    lemma_low_bits(value, 8);
    lemma_low_bits(value >> 4, 4);
    lemma_low_bits(value & 0x0F, 4);
    assert((value >> 4) % 16 == value / 16) by (bit_vector);
    assert((value & 0x0F) % 16 == value % 16) by (bit_vector);
}

/// Waiting after a sequence of steps latches nothing more and changes no level.
pub proof fn waiting_changes_nothing(wires: Wires, steps: Seq<Step>, micros: u64)
    ensures
        wires.latched(steps + seq![Step::Wait(micros)]) == wires.latched(steps),
        wires.run(steps + seq![Step::Wait(micros)]) == wires.run(steps),
{
    assert(steps + seq![Step::Wait(micros)] =~= steps.push(Step::Wait(micros)));
    one_more_step(wires, steps, Step::Wait(micros));
}

/// Clearing the display on a bus at rest delivers the clear command to the
/// instruction register, and nothing else; its last step is the wait that the
/// controller needs to carry the command out, two milliseconds or more.
pub proof fn clear_delivers(wires: Wires, mode: LCD_Mode)
    requires
        wires.at_rest(mode.lines()),
    ensures
        wires.latched(clear_steps(mode)) == byte_transfers(mode, CLEAR_DISPLAY, false),
        wires.run(clear_steps(mode)).at_rest(mode.lines()),
        clear_steps(mode).last() == Step::Wait(CLEAR_US),
        CLEAR_US >= 2_000,
{
    send_delivers(wires, mode, CLEAR_DISPLAY, false);
    waiting_changes_nothing(wires, command_steps(mode, CLEAR_DISPLAY), CLEAR_US);
}

/// Setting the cursor on a bus at rest delivers one command to the
/// instruction register: the opcode with the address of the cell, which is
/// the column added to the start address of the row.
pub proof fn set_cursor_delivers(wires: Wires, mode: LCD_Mode, column: u8, row: u8)
    requires
        wires.at_rest(mode.lines()),
    ensures
        wires.latched(set_cursor_steps(mode, column, row)) == byte_transfers(
            mode,
            SET_DDRAM_ADDRESS | (cursor_address(column, row) as u8),
            false,
        ),
        wires.run(set_cursor_steps(mode, column, row)).at_rest(mode.lines()),
{
    send_delivers(wires, mode, SET_DDRAM_ADDRESS | (cursor_address(column, row) as u8), false);
}

/// The transfers by which a text reaches the controller: the byte of each
/// character, in order, to the data register.
pub open spec fn text_transfers(mode: LCD_Mode, text: Seq<char>) -> Seq<Transfer>
    decreases text.len(),
{
    if text.len() == 0 {
        Seq::empty()
    } else {
        text_transfers(mode, text.drop_last()) + byte_transfers(
            mode,
            char_byte(text.last()),
            true,
        )
    }
}

/// The characters of a text, sent on a bus at rest, reach the data register
/// one byte each, in the order of the text.
pub proof fn text_delivers(wires: Wires, mode: LCD_Mode, text: Seq<char>)
    requires
        wires.at_rest(mode.lines()),
    ensures
        wires.latched(text_steps(mode, text)) == text_transfers(mode, text),
        wires.run(text_steps(mode, text)).at_rest(mode.lines()),
    decreases text.len(),
{
    if text.len() > 0 {
        let earlier = text_steps(mode, text.drop_last());
        let character = write_char_steps(mode, char_byte(text.last()));
        text_delivers(wires, mode, text.drop_last());
        send_delivers(wires.run(earlier), mode, char_byte(text.last()), true);
        one_sequence_after_the_other(wires, earlier, character);
        waiting_changes_nothing(wires, earlier + character, CHARACTER_US);
    }
}

/// Printing a text on a bus at rest delivers the byte of each character to
/// the data register, in the order of the text, and nothing else.
pub proof fn print_delivers(wires: Wires, mode: LCD_Mode, text: Seq<char>)
    requires
        wires.at_rest(mode.lines()),
    ensures
        wires.latched(print_steps(mode, text)) == text_transfers(mode, text),
        wires.run(print_steps(mode, text)).at_rest(mode.lines()),
{
    text_delivers(wires, mode, text);
    waiting_changes_nothing(wires, text_steps(mode, text), CHARACTER_US);
}

/// The transfers that wake the controller up: in 4-bit mode the wake-up
/// nibble three times and the nibble that selects four bits; in 8-bit mode
/// the wake-up byte three times.
pub open spec fn wake_up_transfers(mode: LCD_Mode) -> Seq<Transfer> {
    match mode {
        LCD_Mode::FourBit => seq![
            Transfer { is_data: false, levels: levels(WAKE_NIBBLE, 4) },
            Transfer { is_data: false, levels: levels(WAKE_NIBBLE, 4) },
            Transfer { is_data: false, levels: levels(WAKE_NIBBLE, 4) },
            Transfer { is_data: false, levels: levels(FOUR_BIT_NIBBLE, 4) },
        ],
        LCD_Mode::EightBit => seq![
            Transfer { is_data: false, levels: levels(WAKE_BYTE, 8) },
            Transfer { is_data: false, levels: levels(WAKE_BYTE, 8) },
            Transfer { is_data: false, levels: levels(WAKE_BYTE, 8) },
        ],
    }
}

/// One wake-up transfer and the wait after it, following earlier steps that
/// left the bus at rest with the instruction register selected.
proof fn lemma_wake_up_transfer(
    wires: Wires,
    earlier: Seq<Step>,
    value: u8,
    lines: nat,
    micros: u64,
)
    requires
        wires.run(earlier).at_rest(lines),
        !wires.run(earlier).register_select,
        lines <= 8,
    ensures
        wires.latched(earlier + write_bits_steps(value, lines) + seq![Step::Wait(micros)])
            == wires.latched(earlier).push(
            Transfer { is_data: false, levels: levels(value, lines) },
        ),
        wires.run(earlier + write_bits_steps(value, lines) + seq![Step::Wait(micros)]).at_rest(
            lines,
        ),
        !wires.run(
            earlier + write_bits_steps(value, lines) + seq![Step::Wait(micros)],
        ).register_select,
{
    write_bits_delivers(wires.run(earlier), value, lines);
    one_sequence_after_the_other(wires, earlier, write_bits_steps(value, lines));
    waiting_changes_nothing(wires, earlier + write_bits_steps(value, lines), micros);
    assert(wires.latched(earlier) + seq![Transfer { is_data: false, levels: levels(value, lines) }]
        =~= wires.latched(earlier).push(Transfer { is_data: false, levels: levels(value, lines) }));
}

/// The wake-up on a bus at rest, with the instruction register selected,
/// delivers the wake-up transfers and nothing else.
pub proof fn wake_up_delivers(wires: Wires, mode: LCD_Mode)
    requires
        wires.at_rest(mode.lines()),
        !wires.register_select,
    ensures
        wires.latched(wake_up_steps(mode)) == wake_up_transfers(mode),
        wires.run(wake_up_steps(mode)).at_rest(mode.lines()),
        !wires.run(wake_up_steps(mode)).register_select,
{
    let none = Seq::<Step>::empty();
    match mode {
        LCD_Mode::FourBit => {
            let first = write_nibble_steps(WAKE_NIBBLE) + seq![Step::Wait(WAKE_LONG_US)];
            let second = first + write_nibble_steps(WAKE_NIBBLE) + seq![Step::Wait(WAKE_LONG_US)];
            let third = second + write_nibble_steps(WAKE_NIBBLE) + seq![Step::Wait(WAKE_SHORT_US)];
            assert(none + write_nibble_steps(WAKE_NIBBLE) =~= write_nibble_steps(WAKE_NIBBLE));
            lemma_wake_up_transfer(wires, none, WAKE_NIBBLE, 4, WAKE_LONG_US);
            lemma_wake_up_transfer(wires, first, WAKE_NIBBLE, 4, WAKE_LONG_US);
            lemma_wake_up_transfer(wires, second, WAKE_NIBBLE, 4, WAKE_SHORT_US);
            lemma_wake_up_transfer(wires, third, FOUR_BIT_NIBBLE, 4, WAKE_SHORT_US);
        },
        LCD_Mode::EightBit => {
            let first = write_bits_steps(WAKE_BYTE, 8) + seq![Step::Wait(WAKE_LONG_US)];
            let second = first + write_bits_steps(WAKE_BYTE, 8) + seq![Step::Wait(WAKE_SHORT_US)];
            assert(none + write_bits_steps(WAKE_BYTE, 8) =~= write_bits_steps(WAKE_BYTE, 8));
            lemma_wake_up_transfer(wires, none, WAKE_BYTE, 8, WAKE_LONG_US);
            lemma_wake_up_transfer(wires, first, WAKE_BYTE, 8, WAKE_SHORT_US);
            lemma_wake_up_transfer(wires, second, WAKE_BYTE, 8, WAKE_SHORT_US);
        },
    }
}

/// The transfers of the whole initialization: the wake-up, then four
/// commands: function set, display on, clear, entry mode.
pub open spec fn begin_transfers(mode: LCD_Mode, rows: u8) -> Seq<Transfer> {
    wake_up_transfers(mode) + byte_transfers(mode, function_set(mode, rows), false)
        + byte_transfers(mode, DISPLAY_ON, false) + byte_transfers(mode, CLEAR_DISPLAY, false)
        + byte_transfers(mode, ENTRY_MODE, false)
}

/// One command and the wait after it, following earlier steps that left the
/// bus at rest.
proof fn lemma_command_then_wait(
    wires: Wires,
    earlier: Seq<Step>,
    mode: LCD_Mode,
    value: u8,
    micros: u64,
)
    requires
        wires.run(earlier).at_rest(mode.lines()),
    ensures
        wires.latched(earlier + command_steps(mode, value) + seq![Step::Wait(micros)])
            == wires.latched(earlier) + byte_transfers(mode, value, false),
        wires.run(earlier + command_steps(mode, value) + seq![Step::Wait(micros)]).at_rest(
            mode.lines(),
        ),
{
    send_delivers(wires.run(earlier), mode, value, false);
    one_sequence_after_the_other(wires, earlier, command_steps(mode, value));
    waiting_changes_nothing(wires, earlier + command_steps(mode, value), micros);
}

/// The initialization on a bus at rest delivers the wake-up transfers and
/// then the four commands that set the display up, all to the instruction
/// register, and leaves the bus at rest.
pub proof fn begin_delivers(wires: Wires, mode: LCD_Mode, rows: u8)
    requires
        wires.at_rest(mode.lines()),
    ensures
        wires.latched(begin_steps(mode, rows)) == begin_transfers(mode, rows),
        wires.run(begin_steps(mode, rows)).at_rest(mode.lines()),
{
    let prologue = seq![
        Step::Wait(POWER_UP_US),
        Step::Drive(Line::RegisterSelect, false),
        Step::Drive(Line::Enable, false),
    ];
    let s0 = Seq::<Step>::empty();
    let s1 = s0.push(prologue[0]);
    let s2 = s1.push(prologue[1]);
    let s3 = s2.push(prologue[2]);
    one_more_step(wires, s0, prologue[0]);
    one_more_step(wires, s1, prologue[1]);
    one_more_step(wires, s2, prologue[2]);
    assert(s3 =~= prologue);
    let selected = wires.run(prologue);
    assert(selected == Wires { register_select: false, ..wires });
    assert(wires.latched(prologue) =~= Seq::<Transfer>::empty());

    let woken = prologue + wake_up_steps(mode);
    wake_up_delivers(selected, mode);
    one_sequence_after_the_other(wires, prologue, wake_up_steps(mode));
    assert(wires.latched(woken) =~= wake_up_transfers(mode));

    let set = woken + command_steps(mode, function_set(mode, rows)) + seq![
        Step::Wait(FUNCTION_SET_US),
    ];
    lemma_command_then_wait(wires, woken, mode, function_set(mode, rows), FUNCTION_SET_US);

    let on = set + command_steps(mode, DISPLAY_ON) + seq![Step::Wait(COMMAND_US)];
    lemma_command_then_wait(wires, set, mode, DISPLAY_ON, COMMAND_US);

    let cleared = on + clear_steps(mode);
    clear_delivers(wires.run(on), mode);
    one_sequence_after_the_other(wires, on, clear_steps(mode));

    let entered = cleared + command_steps(mode, ENTRY_MODE) + seq![Step::Wait(COMMAND_US)];
    lemma_command_then_wait(wires, cleared, mode, ENTRY_MODE, COMMAND_US);

    waiting_changes_nothing(wires, entered, READY_US);
}

} // verus!
