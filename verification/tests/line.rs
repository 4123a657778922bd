use statusbar::line::{encode_text, DisplayLine};
use statusbar::warning::Warning;

fn line(volume: u16, temperature: u16, battery: &str, cpu: u32, memory: u64, clock: &str) -> DisplayLine {
    DisplayLine {
        volume,
        temperature,
        battery: battery.to_string(),
        cpu,
        memory,
        clock: clock.to_string(),
    }
}

#[test]
fn known_fields_give_the_documented_line() {
    let shown = line(55, 42, "88", 13, 67, "14:03:21 06/01");
    assert_eq!(
        shown.format(),
        " vol: 55%  temp: 42C  bat: 88%  cpu: 13%  mem: 67%  14:03:21 06/01"
    );
    assert_eq!(
        shown.encode().unwrap(),
        b" vol: 55%  temp: 42C  bat: 88%  cpu: 13%  mem: 67%  14:03:21 06/01".to_vec()
    );
}

#[test]
fn short_numbers_are_set_flush_right() {
    let shown = line(5, 0, "88", 9, 1, "00:00:00 01/01");
    assert_eq!(
        shown.format(),
        " vol:  5%  temp:  0C  bat: 88%  cpu:  9%  mem:  1%  00:00:00 01/01"
    );
}

#[test]
fn long_numbers_take_the_room_they_need() {
    let shown = line(100, 105, "100", 100, 100, "23:59:59 12/31");
    assert_eq!(
        shown.format(),
        " vol: 100%  temp: 105C  bat: 100%  cpu: 100%  mem: 100%  23:59:59 12/31"
    );
    let largest = line(u16::MAX, u16::MAX, "x", u32::MAX, u64::MAX, "");
    assert_eq!(
        largest.format(),
        " vol: 65535%  temp: 65535C  bat: x %  cpu: 4294967295%  mem: 18446744073709551615%  "
    );
}

#[test]
fn battery_token_is_set_flush_left() {
    assert_eq!(
        line(1, 2, "5", 3, 4, "t").format(),
        " vol:  1%  temp:  2C  bat: 5 %  cpu:  3%  mem:  4%  t"
    );
    assert_eq!(
        line(1, 2, "", 3, 4, "t").format(),
        " vol:  1%  temp:  2C  bat:   %  cpu:  3%  mem:  4%  t"
    );
    assert_eq!(
        line(1, 2, "(crg) 88", 3, 4, "t").format(),
        " vol:  1%  temp:  2C  bat: (crg) 88%  cpu:  3%  mem:  4%  t"
    );
    assert_eq!(
        line(1, 2, "error", 3, 4, "t").format(),
        " vol:  1%  temp:  2C  bat: error%  cpu:  3%  mem:  4%  t"
    );
}

#[test]
fn battery_token_is_measured_in_characters() {
    assert_eq!(
        line(1, 2, "\u{e9}", 3, 4, "t").format(),
        " vol:  1%  temp:  2C  bat: \u{e9} %  cpu:  3%  mem:  4%  t"
    );
    assert_eq!(
        line(1, 2, "\u{e9}\u{e9}", 3, 4, "t").format(),
        " vol:  1%  temp:  2C  bat: \u{e9}\u{e9}%  cpu:  3%  mem:  4%  t"
    );
}

#[test]
fn line_agrees_with_the_standard_layout() {
    let cases = vec![
        (0u16, 0u16, "", 0u32, 0u64, ""),
        (9, 10, "7", 99, 100, "12:00:00 02/29"),
        (65535, 1, "(crg) 3", 7, 12345, "'X' is not a valid timezone"),
        (10, 99, "ab", 10, 9, "\u{2603}"),
    ];
    for (volume, temperature, battery, cpu, memory, clock) in cases {
        let expected = format!(
            " vol: {:2}%  temp: {:2}C  bat: {:2}%  cpu: {:2}%  mem: {:2}%  {}",
            volume, temperature, battery, cpu, memory, clock
        );
        assert_eq!(line(volume, temperature, battery, cpu, memory, clock).format(), expected);
    }
}

#[test]
fn encoded_line_is_its_text_in_utf8() {
    let shown = line(1, 2, "\u{e9}", 3, 4, "\u{2603} 5");
    assert_eq!(shown.encode().unwrap(), shown.format().into_bytes());
}

#[test]
fn nul_in_the_clock_holds_the_line_back() {
    let shown = line(55, 42, "88", 13, 67, "'a\0b' is not a valid timezone");
    let position = shown.format().bytes().position(|b| b == 0).unwrap();
    assert_eq!(position, 54);
    match shown.encode() {
        Ok(_) => panic!("a line with a NUL was encoded"),
        Err(warning) => assert_eq!(warning, Warning::NulInLine { position: 54 }),
    }
}

#[test]
fn nul_in_the_battery_token_holds_the_line_back() {
    let shown = line(5, 42, "8\08", 13, 67, "14:03:21 06/01\0");
    match shown.encode() {
        Ok(_) => panic!("a line with a NUL was encoded"),
        Err(warning) => assert_eq!(warning, Warning::NulInLine { position: 28 }),
    }
}

#[test]
fn text_without_nul_is_encoded_as_it_is() {
    assert_eq!(encode_text("").unwrap(), Vec::<u8>::new());
    assert_eq!(encode_text("abc").unwrap(), b"abc".to_vec());
    assert_eq!(encode_text("\u{e9}\u{2603}").unwrap(), vec![0xc3, 0xa9, 0xe2, 0x98, 0x83]);
}

#[test]
fn first_nul_of_a_text_is_reported() {
    assert_eq!(encode_text("\0").unwrap_err(), Warning::NulInLine { position: 0 });
    assert_eq!(encode_text("ab\0cd\0").unwrap_err(), Warning::NulInLine { position: 2 });
    assert_eq!(encode_text("\u{e9}\0").unwrap_err(), Warning::NulInLine { position: 2 });
}
