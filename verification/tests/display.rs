//! The display operations, seen from the controller's side of the bus.

use lcd_display::bus::{Line, Step};
use lcd_display::lcd::{LCD, LCD_Mode};

/// What the controller latches at one falling edge of the strobe: the level
/// of register-select, and the data lines read as a number, line 0 lowest.
#[derive(Debug, Clone, Copy, PartialEq, Eq)]
struct Latched {
    is_data: bool,
    value: u8,
}

fn instruction(value: u8) -> Latched {
    Latched { is_data: false, value }
}

fn data(value: u8) -> Latched {
    Latched { is_data: true, value }
}

/// Plays the steps on a bus of `lines` data lines that rests with every line
/// low, and collects what the controller latches.
fn latch(lines: usize, steps: &[Step]) -> Vec<Latched> {
    let mut register_select = false;
    let mut enable = false;
    let mut levels = vec![false; lines];
    let mut latched = Vec::new();
    for step in steps {
        match *step {
            Step::Drive(Line::RegisterSelect, level) => register_select = level,
            Step::Drive(Line::Data(index), level) => levels[index] = level,
            Step::Drive(Line::Enable, level) => {
                if enable && !level {
                    let mut value = 0u8;
                    for (index, level) in levels.iter().enumerate() {
                        if *level {
                            value |= 1 << index;
                        }
                    }
                    latched.push(Latched { is_data: register_select, value });
                }
                enable = level;
            }
            Step::Wait(_) => {}
        }
    }
    latched
}

/// The waits among the steps, in order.
fn waits(steps: &[Step]) -> Vec<u64> {
    let mut waits = Vec::new();
    for step in steps {
        if let Step::Wait(micros) = *step {
            waits.push(micros);
        }
    }
    waits
}

fn pulse() -> Vec<Step> {
    vec![
        Step::Drive(Line::Enable, false),
        Step::Wait(2),
        Step::Drive(Line::Enable, true),
        Step::Wait(2),
        Step::Drive(Line::Enable, false),
        Step::Wait(1_000),
    ]
}

/// The steps of one nibble transfer.
fn nibble(value: u8) -> Vec<Step> {
    let mut steps = vec![
        Step::Drive(Line::Data(0), value & 0x01 != 0),
        Step::Drive(Line::Data(1), value & 0x02 != 0),
        Step::Drive(Line::Data(2), value & 0x04 != 0),
        Step::Drive(Line::Data(3), value & 0x08 != 0),
    ];
    steps.extend(pulse());
    steps
}

/// The steps of one transfer of eight bits.
fn byte(value: u8) -> Vec<Step> {
    let mut steps = Vec::new();
    for index in 0..8 {
        steps.push(Step::Drive(Line::Data(index), value & (1 << index) != 0));
    }
    steps.extend(pulse());
    steps
}

/// The highest data line among the steps, if they drive any.
fn highest_data_line(steps: &[Step]) -> Option<usize> {
    let mut highest = None;
    for step in steps {
        if let Step::Drive(Line::Data(index), _) = *step {
            if highest.map_or(true, |seen| index > seen) {
                highest = Some(index);
            }
        }
    }
    highest
}

/// The level of the strobe after the steps, on a bus that rested before.
fn strobe_after(steps: &[Step]) -> bool {
    let mut enable = false;
    for step in steps {
        if let Step::Drive(Line::Enable, level) = *step {
            enable = level;
        }
    }
    enable
}

fn four_bit() -> LCD {
    LCD::new(4, LCD_Mode::FourBit)
}

fn eight_bit() -> LCD {
    LCD::new(8, LCD_Mode::EightBit)
}

#[test]
fn new_engine_has_no_geometry() {
    assert_eq!(four_bit().get_columns(), 0);
    assert_eq!(four_bit().get_rows(), 0);
    assert_eq!(eight_bit().get_columns(), 0);
    assert_eq!(eight_bit().get_rows(), 0);
}

#[test]
fn begin_records_the_geometry() {
    let mut lcd = four_bit();
    lcd.begin(20, 4);
    assert_eq!(lcd.get_columns(), 20);
    let mut lcd = four_bit();
    lcd.begin(20, 4);
    assert_eq!(lcd.get_rows(), 4);
    let mut lcd = eight_bit();
    lcd.begin(16, 2);
    lcd.begin(8, 1);
    assert_eq!(lcd.get_rows(), 1);
}

#[test]
fn clear_is_command_one_then_two_milliseconds() {
    let mut lcd = four_bit();
    let mut expected = vec![Step::Drive(Line::RegisterSelect, false), Step::Wait(100)];
    expected.extend(nibble(0x0));
    expected.extend(nibble(0x1));
    expected.push(Step::Wait(2_000));
    assert_eq!(lcd.clear(), expected);

    let mut lcd = eight_bit();
    let mut expected = vec![Step::Drive(Line::RegisterSelect, false), Step::Wait(100)];
    expected.extend(byte(0x01));
    expected.push(Step::Wait(2_000));
    assert_eq!(lcd.clear(), expected);
}

#[test]
fn clear_latches_exactly_one_command() {
    assert_eq!(latch(4, &four_bit().clear()), vec![instruction(0x0), instruction(0x1)]);
    assert_eq!(latch(8, &eight_bit().clear()), vec![instruction(0x01)]);
    assert_eq!(four_bit().clear().last(), Some(&Step::Wait(2_000)));
    assert_eq!(eight_bit().clear().last(), Some(&Step::Wait(2_000)));
}

#[test]
fn clear_is_the_same_before_and_after_begin() {
    let mut lcd = four_bit();
    let before = lcd.clear();
    lcd.begin(16, 2);
    assert_eq!(lcd.clear(), before);
}

#[test]
fn set_cursor_addresses_each_row_by_its_offset() {
    let offsets = [0x00u8, 0x40, 0x14, 0x54];
    for row in 0..4u8 {
        for column in [0u8, 1, 7, 15, 19, 39] {
            let address = column + offsets[row as usize];
            let mut lcd = eight_bit();
            lcd.begin(40, 4);
            assert!(lcd.cursor_in_range(column, row));
            assert_eq!(latch(8, &lcd.set_cursor(column, row)), vec![instruction(0x80 | address)]);

            let mut lcd = four_bit();
            lcd.begin(40, 4);
            assert!(lcd.cursor_in_range(column, row));
            assert_eq!(
                latch(4, &lcd.set_cursor(column, row)),
                vec![instruction((0x80 | address) >> 4), instruction(address & 0x0F)]
            );
        }
    }
}

#[test]
fn set_cursor_exact_commands() {
    let mut lcd = eight_bit();
    lcd.begin(20, 4);
    assert_eq!(latch(8, &lcd.set_cursor(0, 0)), vec![instruction(0x80)]);
    assert_eq!(latch(8, &lcd.set_cursor(0, 1)), vec![instruction(0xC0)]);
    assert_eq!(latch(8, &lcd.set_cursor(0, 2)), vec![instruction(0x94)]);
    assert_eq!(latch(8, &lcd.set_cursor(0, 3)), vec![instruction(0xD4)]);
    assert_eq!(latch(8, &lcd.set_cursor(5, 1)), vec![instruction(0xC5)]);
    assert_eq!(latch(8, &lcd.set_cursor(19, 3)), vec![instruction(0xE7)]);
}

#[test]
fn set_cursor_is_one_command_and_nothing_else() {
    let mut lcd = four_bit();
    lcd.begin(16, 2);
    let mut expected = vec![Step::Drive(Line::RegisterSelect, false), Step::Wait(100)];
    expected.extend(nibble(0xC));
    expected.extend(nibble(0x3));
    assert_eq!(lcd.set_cursor(3, 1), expected);
    assert_eq!(lcd.set_cursor(3, 1), lcd.command(0xC3));
}

#[test]
fn set_cursor_does_not_check_the_column_against_the_geometry() {
    let mut lcd = eight_bit();
    lcd.begin(16, 2);
    assert!(lcd.cursor_in_range(39, 0));
    assert_eq!(latch(8, &lcd.set_cursor(39, 0)), vec![instruction(0x80 | 39)]);
    // An address beyond seven bits runs into the opcode bit; it is sent as it is.
    assert!(lcd.cursor_in_range(200, 0));
    assert_eq!(latch(8, &lcd.set_cursor(200, 0)), vec![instruction(200)]);
    assert!(lcd.cursor_in_range(191, 1));
    assert_eq!(latch(8, &lcd.set_cursor(191, 1)), vec![instruction(255)]);
}

#[test]
fn cursor_is_out_of_range_from_the_first_row_past_the_display() {
    let mut lcd = four_bit();
    assert!(!lcd.cursor_in_range(0, 0));
    lcd.begin(16, 2);
    assert!(lcd.cursor_in_range(0, 0));
    assert!(lcd.cursor_in_range(0, 1));
    assert!(!lcd.cursor_in_range(0, 2));
    assert!(!lcd.cursor_in_range(0, 3));
    assert!(!lcd.cursor_in_range(0, 255));
    lcd.begin(16, 1);
    assert!(lcd.cursor_in_range(15, 0));
    assert!(!lcd.cursor_in_range(0, 1));
}

#[test]
fn cursor_is_out_of_range_where_no_row_offset_exists() {
    let mut lcd = four_bit();
    lcd.begin(20, 8);
    assert!(lcd.cursor_in_range(0, 3));
    assert!(!lcd.cursor_in_range(0, 4));
    assert!(!lcd.cursor_in_range(0, 7));
}

#[test]
fn cursor_is_out_of_range_where_the_address_leaves_the_byte() {
    let mut lcd = four_bit();
    lcd.begin(20, 4);
    assert!(lcd.cursor_in_range(255, 0));
    assert!(lcd.cursor_in_range(191, 1));
    assert!(!lcd.cursor_in_range(192, 1));
    assert!(lcd.cursor_in_range(235, 2));
    assert!(!lcd.cursor_in_range(236, 2));
    assert!(lcd.cursor_in_range(171, 3));
    assert!(!lcd.cursor_in_range(172, 3));
}

#[test]
fn print_ab_in_four_bit_mode() {
    let mut lcd = four_bit();
    lcd.begin(16, 2);
    let mut expected = Vec::new();
    expected.push(Step::Drive(Line::RegisterSelect, true));
    expected.push(Step::Wait(100));
    expected.extend(nibble(b'A' >> 4));
    expected.extend(nibble(b'A' & 0xF));
    expected.push(Step::Wait(150));
    expected.push(Step::Drive(Line::RegisterSelect, true));
    expected.push(Step::Wait(100));
    expected.extend(nibble(b'B' >> 4));
    expected.extend(nibble(b'B' & 0xF));
    expected.push(Step::Wait(150));
    expected.push(Step::Wait(150));
    let steps = lcd.print("AB");
    assert_eq!(steps, expected);
    assert_eq!(latch(4, &steps), vec![data(0x4), data(0x1), data(0x4), data(0x2)]);
}

#[test]
fn print_in_eight_bit_mode() {
    let mut lcd = eight_bit();
    let mut expected = Vec::new();
    for value in [b'O', b'k'] {
        expected.push(Step::Drive(Line::RegisterSelect, true));
        expected.push(Step::Wait(100));
        expected.extend(byte(value));
        expected.push(Step::Wait(150));
    }
    expected.push(Step::Wait(150));
    let steps = lcd.print("Ok");
    assert_eq!(steps, expected);
    assert_eq!(latch(8, &steps), vec![data(0x4F), data(0x6B)]);
}

#[test]
fn print_of_nothing_is_one_wait() {
    assert_eq!(four_bit().print(""), vec![Step::Wait(150)]);
    assert_eq!(eight_bit().print(""), vec![Step::Wait(150)]);
}

#[test]
fn print_cuts_each_character_to_one_byte() {
    let mut lcd = eight_bit();
    // U+00E9, U+20AC, U+1F600, U+0100
    let steps = lcd.print("\u{e9}\u{20ac}\u{1f600}\u{100}");
    assert_eq!(latch(8, &steps), vec![data(0xE9), data(0xAC), data(0x00), data(0x00)]);
    assert_eq!(waits(&steps).iter().filter(|micros| **micros == 150).count(), 5);
}

#[test]
fn print_sends_every_byte_value() {
    let mut lcd = eight_bit();
    let mut text = String::new();
    for value in 0..=255u8 {
        text.push(char::from(value));
    }
    let expected: Vec<Latched> = (0..=255u8).map(data).collect();
    assert_eq!(latch(8, &lcd.print(&text)), expected);

    let mut lcd = four_bit();
    let mut expected = Vec::new();
    for value in 0..=255u8 {
        expected.push(data(value >> 4));
        expected.push(data(value & 0x0F));
    }
    assert_eq!(latch(4, &lcd.print(&text)), expected);
}

#[test]
fn begin_function_set_tracks_more_than_one_row() {
    // 4-bit mode: three wake-up nibbles, the switch to four bits, then the
    // function set as the first whole byte.
    let function_set = |rows: u8| -> u8 {
        let latched = latch(4, &four_bit().begin(20, rows));
        (latched[4].value << 4) | latched[5].value
    };
    assert_eq!(function_set(0), 0x20);
    assert_eq!(function_set(1), 0x20);
    assert_eq!(function_set(2), 0x28);
    assert_eq!(function_set(4), 0x28);
    assert_eq!(function_set(255), 0x28);

    // 8-bit mode: three wake-up bytes, then the function set.
    let function_set = |rows: u8| -> u8 { latch(8, &eight_bit().begin(20, rows))[3].value };
    assert_eq!(function_set(0), 0x30);
    assert_eq!(function_set(1), 0x30);
    assert_eq!(function_set(2), 0x38);
    assert_eq!(function_set(4), 0x38);
    assert_eq!(function_set(255), 0x38);
}

#[test]
fn begin_does_not_depend_on_the_columns() {
    assert_eq!(four_bit().begin(8, 2), four_bit().begin(40, 2));
    assert_eq!(eight_bit().begin(0, 1), eight_bit().begin(255, 1));
}

#[test]
fn begin_in_four_bit_mode_latches_the_reset_sequence() {
    let steps = four_bit().begin(16, 2);
    assert_eq!(
        latch(4, &steps),
        vec![
            instruction(0x3),
            instruction(0x3),
            instruction(0x3),
            instruction(0x2),
            instruction(0x2),
            instruction(0x8),
            instruction(0x0),
            instruction(0xC),
            instruction(0x0),
            instruction(0x1),
            instruction(0x0),
            instruction(0x6),
        ]
    );
}

#[test]
fn begin_in_eight_bit_mode_latches_the_reset_sequence() {
    let steps = eight_bit().begin(16, 2);
    assert_eq!(
        latch(8, &steps),
        vec![
            instruction(0x30),
            instruction(0x30),
            instruction(0x30),
            instruction(0x38),
            instruction(0x0C),
            instruction(0x01),
            instruction(0x06),
        ]
    );
}

#[test]
fn begin_in_four_bit_mode_step_by_step() {
    let command = |value: u8| -> Vec<Step> {
        let mut steps = vec![Step::Drive(Line::RegisterSelect, false), Step::Wait(100)];
        steps.extend(nibble(value >> 4));
        steps.extend(nibble(value & 0x0F));
        steps
    };
    let mut expected = vec![
        Step::Wait(50_000),
        Step::Drive(Line::RegisterSelect, false),
        Step::Drive(Line::Enable, false),
    ];
    expected.extend(nibble(0x3));
    expected.push(Step::Wait(5_000));
    expected.extend(nibble(0x3));
    expected.push(Step::Wait(5_000));
    expected.extend(nibble(0x3));
    expected.push(Step::Wait(150));
    expected.extend(nibble(0x2));
    expected.push(Step::Wait(150));
    expected.extend(command(0x20));
    expected.push(Step::Wait(1_000));
    expected.extend(command(0x0C));
    expected.push(Step::Wait(50));
    expected.extend(command(0x01));
    expected.push(Step::Wait(2_000));
    expected.extend(command(0x06));
    expected.push(Step::Wait(50));
    expected.push(Step::Wait(100_000));
    assert_eq!(four_bit().begin(20, 1), expected);
}

#[test]
fn begin_in_eight_bit_mode_step_by_step() {
    let command = |value: u8| -> Vec<Step> {
        let mut steps = vec![Step::Drive(Line::RegisterSelect, false), Step::Wait(100)];
        steps.extend(byte(value));
        steps
    };
    let mut expected = vec![
        Step::Wait(50_000),
        Step::Drive(Line::RegisterSelect, false),
        Step::Drive(Line::Enable, false),
    ];
    expected.extend(byte(0x30));
    expected.push(Step::Wait(5_000));
    expected.extend(byte(0x30));
    expected.push(Step::Wait(150));
    expected.extend(byte(0x30));
    expected.push(Step::Wait(150));
    expected.extend(command(0x38));
    expected.push(Step::Wait(1_000));
    expected.extend(command(0x0C));
    expected.push(Step::Wait(50));
    expected.extend(command(0x01));
    expected.push(Step::Wait(2_000));
    expected.extend(command(0x06));
    expected.push(Step::Wait(50));
    expected.push(Step::Wait(100_000));
    assert_eq!(eight_bit().begin(20, 2), expected);
}

#[test]
fn begin_waits_between_the_transfers() {
    let pulse = [2, 2, 1_000];
    let mut expected = vec![50_000];
    for after in [5_000, 5_000, 150, 150] {
        expected.extend(pulse);
        expected.push(after);
    }
    for after in [1_000, 50, 2_000, 50] {
        expected.push(100);
        expected.extend(pulse);
        expected.extend(pulse);
        expected.push(after);
    }
    expected.push(100_000);
    assert_eq!(waits(&four_bit().begin(16, 2)), expected);

    let mut expected = vec![50_000];
    for after in [5_000, 150, 150] {
        expected.extend(pulse);
        expected.push(after);
    }
    for after in [1_000, 50, 2_000, 50] {
        expected.push(100);
        expected.extend(pulse);
        expected.push(after);
    }
    expected.push(100_000);
    assert_eq!(waits(&eight_bit().begin(16, 2)), expected);
}

#[test]
fn four_bit_display_end_to_end() {
    let mut lcd = LCD::new(4, LCD_Mode::FourBit);
    lcd.begin(16, 2);
    assert!(lcd.cursor_in_range(0, 1));
    let mut steps = lcd.set_cursor(0, 1);
    steps.extend(lcd.print("Hi"));
    assert_eq!(
        latch(4, &steps),
        vec![
            instruction(0xC),
            instruction(0x0),
            data(0x4),
            data(0x8),
            data(0x6),
            data(0x9),
        ]
    );
    let mut expected = vec![Step::Drive(Line::RegisterSelect, false), Step::Wait(100)];
    expected.extend(nibble(0xC));
    expected.extend(nibble(0x0));
    for value in [0x48u8, 0x69] {
        expected.push(Step::Drive(Line::RegisterSelect, true));
        expected.push(Step::Wait(100));
        expected.extend(nibble(value >> 4));
        expected.extend(nibble(value & 0x0F));
        expected.push(Step::Wait(150));
    }
    expected.push(Step::Wait(150));
    assert_eq!(steps, expected);
}

#[test]
fn operations_drive_only_the_data_lines_of_the_mode() {
    let mut lcd = four_bit();
    assert_eq!(highest_data_line(&lcd.begin(20, 4)), Some(3));
    assert_eq!(highest_data_line(&lcd.clear()), Some(3));
    assert_eq!(highest_data_line(&lcd.set_cursor(19, 3)), Some(3));
    assert_eq!(highest_data_line(&lcd.print("\u{ff}")), Some(3));
    assert_eq!(highest_data_line(&lcd.print("")), None);

    let mut lcd = eight_bit();
    assert_eq!(highest_data_line(&lcd.begin(20, 4)), Some(7));
    assert_eq!(highest_data_line(&lcd.clear()), Some(7));
    assert_eq!(highest_data_line(&lcd.set_cursor(19, 3)), Some(7));
    assert_eq!(highest_data_line(&lcd.print("\u{ff}")), Some(7));
    assert_eq!(highest_data_line(&lcd.print("")), None);
}

#[test]
fn operations_leave_the_strobe_low() {
    for mut lcd in [four_bit(), eight_bit()] {
        assert!(!strobe_after(&lcd.begin(16, 2)));
        assert!(!strobe_after(&lcd.clear()));
        assert!(!strobe_after(&lcd.set_cursor(0, 1)));
        assert!(!strobe_after(&lcd.print("Hello!")));
    }
}

#[test]
fn operations_count_their_transfers() {
    let strobes = |steps: &[Step]| -> usize {
        steps.iter().filter(|step| **step == Step::Drive(Line::Enable, true)).count()
    };
    let mut lcd = four_bit();
    assert_eq!(strobes(&lcd.begin(16, 2)), 12);
    assert_eq!(strobes(&lcd.clear()), 2);
    assert_eq!(strobes(&lcd.set_cursor(0, 0)), 2);
    assert_eq!(strobes(&lcd.print("Hello!")), 12);

    let mut lcd = eight_bit();
    assert_eq!(strobes(&lcd.begin(16, 2)), 7);
    assert_eq!(strobes(&lcd.clear()), 1);
    assert_eq!(strobes(&lcd.set_cursor(0, 0)), 1);
    assert_eq!(strobes(&lcd.print("Hello!")), 6);
}

#[test]
fn two_nibbles_carry_the_bits_of_the_byte() {
    for value in 0..=255u8 {
        let latched = latch(4, &four_bit().send(value, true));
        assert_eq!(latched.len(), 2);
        assert_eq!((latched[0].value << 4) | latched[1].value, value);
        assert_eq!(latch(8, &eight_bit().send(value, true)), vec![data(value)]);
    }
}
