use statusbar::volume::{parse_volume, volume_field};
use statusbar::warning::Warning;

fn as_std_reads_it(output: &[u8]) -> Option<u16> {
    match std::str::from_utf8(output) {
        Ok(text) => text.trim().parse::<u16>().ok(),
        Err(_) => None,
    }
}

#[test]
fn mixer_line_is_read() {
    assert_eq!(parse_volume(b"55\n"), Some(55));
    assert_eq!(parse_volume(b"0\n"), Some(0));
    assert_eq!(parse_volume(b"100\n"), Some(100));
}

#[test]
fn white_space_around_the_number_is_passed_over() {
    assert_eq!(parse_volume(b"  55  "), Some(55));
    assert_eq!(parse_volume(b"\t\r\n55\x0b\x0c\n"), Some(55));
    assert_eq!(parse_volume(b"55"), Some(55));
}

#[test]
fn wide_white_space_is_passed_over_too() {
    assert_eq!(parse_volume("\u{a0}55\u{2029}".as_bytes()), Some(55));
    assert_eq!(parse_volume("\u{85}\u{1680}7\u{3000}\u{205f}".as_bytes()), Some(7));
    assert_eq!(parse_volume("\u{2000}\u{200a}\u{2028}\u{202f}12".as_bytes()), Some(12));
    assert_eq!(parse_volume("\u{200b}12".as_bytes()), None);
}

#[test]
fn plus_sign_and_leading_zeros_are_accepted() {
    assert_eq!(parse_volume(b"+7"), Some(7));
    assert_eq!(parse_volume(b"007"), Some(7));
    assert_eq!(parse_volume(b"+000000000000000000000065535\n"), Some(65535));
}

#[test]
fn volume_must_fit_in_sixteen_bits() {
    assert_eq!(parse_volume(b"65535"), Some(65535));
    assert_eq!(parse_volume(b"65536"), None);
    assert_eq!(parse_volume(b"99999999999999999999999999"), None);
    assert_eq!(parse_volume(b"4294967296"), None);
}

#[test]
fn what_is_no_number_is_refused() {
    assert_eq!(parse_volume(b""), None);
    assert_eq!(parse_volume(b"\n"), None);
    assert_eq!(parse_volume(b"   "), None);
    assert_eq!(parse_volume(b"+"), None);
    assert_eq!(parse_volume(b"-5"), None);
    assert_eq!(parse_volume(b"++5"), None);
    assert_eq!(parse_volume(b"5 5"), None);
    assert_eq!(parse_volume(b"55%"), None);
    assert_eq!(parse_volume(b"[55%]"), None);
    assert_eq!(parse_volume(b"5.5"), None);
    assert_eq!(parse_volume(b"off"), None);
    assert_eq!(parse_volume(b"55\n56\n"), None);
    assert_eq!(parse_volume(b"+ 5"), None);
}

#[test]
fn bytes_that_are_no_text_are_refused() {
    assert_eq!(parse_volume(b"\xff55"), None);
    assert_eq!(parse_volume(b"55\x80"), None);
    assert_eq!(parse_volume(b"\xc255"), None);
    assert_eq!(parse_volume(b"\xa055"), None);
    assert_eq!(parse_volume(b"55\xe2\x80"), None);
    assert_eq!(parse_volume(b"\x0055"), None);
}

#[test]
fn reading_agrees_with_trim_and_parse() {
    let outputs: Vec<&[u8]> = vec![
        b"", b"0", b"9", b"10", b"55\n", b" 55", b"55 ", b"\n\n55\n\n", b"+55", b"-55", b"+-5",
        b"65535", b"65536", b"065535", b"655350", b"5a", b"a5", b"5\x005", b"\x0b5\x0c",
        b"\x1c5", b"\x1f5", b"\x085", b"\xc2\x855", b"\xc2\xa05\xc2\xa0", b"\xc2\xa15",
        b"\xe1\x9a\x805", b"\xe1\x9a\x815", b"\xe2\x80\x805", b"\xe2\x80\x8a5", b"\xe2\x80\x8b5",
        b"5\xe2\x80\xa8", b"5\xe2\x80\xa9", b"5\xe2\x80\xaa", b"5\xe2\x80\xaf", b"5\xe2\x81\x9f",
        b"5\xe2\x81\x9e", b"5\xe3\x80\x80", b"5\xe3\x80\x81", b"\xe2\x805", b"5\x80\xa8",
        b"\xc2", b"\xe2\x80", b"\xc2\xa0", b"\xe3\x80\x80\xe3\x80\x80", b" + ", b"1 2", b"12\t",
        b"\xf0\x9f\x98\x805", b"5\xf0\x9f\x98\x80", b"\xed\xa0\x805", b"\x80",
    ];
    for output in outputs {
        assert_eq!(parse_volume(output), as_std_reads_it(output), "output {:?}", output);
    }
}

#[test]
fn volume_of_a_good_output_has_no_warning() {
    let reading = volume_field(Some(b"55\n"));
    assert_eq!(reading.percent, 55);
    assert_eq!(reading.warning, None);
}

#[test]
fn missing_mixer_gives_zero_and_a_warning() {
    let reading = volume_field(None);
    assert_eq!(reading.percent, 0);
    assert_eq!(reading.warning, Some(Warning::MixerMissing));
}

#[test]
fn unreadable_output_gives_zero_and_a_warning() {
    let reading = volume_field(Some(b"amixer: Unable to find simple control\n"));
    assert_eq!(reading.percent, 0);
    assert_eq!(reading.warning, Some(Warning::VolumeUnreadable));
    let empty = volume_field(Some(b""));
    assert_eq!(empty.percent, 0);
    assert_eq!(empty.warning, Some(Warning::VolumeUnreadable));
}
