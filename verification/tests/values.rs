use remote_tarball::decimal::{append_decimal, parse_decimal};
use remote_tarball::field::{check_text, is_bytes_unit, trim};
use remote_tarball::trailer::unpack_isize;

fn digits_of(number: u64) -> Vec<u8> {
    let mut out = Vec::new();
    append_decimal(&mut out, number);
    out
}

#[test]
fn unpack_isize_reads_least_significant_byte_first() {
    assert_eq!(unpack_isize([0x00, 0x00, 0xC0, 0x02]), 0x02C0_0000);
    assert_eq!(unpack_isize([0x00, 0x00, 0xC0, 0x02]), 46_137_344);
    assert_eq!(unpack_isize([0x01, 0x00, 0x00, 0x00]), 1);
    assert_eq!(unpack_isize([0x00, 0x01, 0x00, 0x00]), 256);
    assert_eq!(unpack_isize([0x00, 0x00, 0x01, 0x00]), 65_536);
    assert_eq!(unpack_isize([0x00, 0x00, 0x00, 0x01]), 16_777_216);
    assert_eq!(unpack_isize([0x78, 0x56, 0x34, 0x12]), 0x1234_5678);
}

#[test]
fn unpack_isize_of_zeros_is_zero() {
    assert_eq!(unpack_isize([0, 0, 0, 0]), 0);
}

#[test]
fn unpack_isize_is_never_sign_extended() {
    assert_eq!(unpack_isize([0xFF, 0xFF, 0xFF, 0xFF]), 4_294_967_295);
    assert_eq!(unpack_isize([0x00, 0x00, 0x00, 0x80]), 2_147_483_648);
    assert_eq!(unpack_isize([0x00, 0x00, 0x00, 0xFF]), 0xFF00_0000);
}

#[test]
fn unpack_isize_matches_the_sum_of_weighted_bytes() {
    let samples: [[u8; 4]; 6] = [
        [0x00, 0x8C, 0xC0, 0x02],
        [0x00, 0xD8, 0x4A, 0x00],
        [0x7F, 0x80, 0x81, 0xFE],
        [0xFF, 0x00, 0xFF, 0x00],
        [0x00, 0xFF, 0x00, 0xFF],
        [0x10, 0x20, 0x30, 0x40],
    ];
    for packed in samples.iter() {
        let sum = packed[0] as u64
            + packed[1] as u64 * 256
            + packed[2] as u64 * 65_536
            + packed[3] as u64 * 16_777_216;
        assert_eq!(unpack_isize(*packed), sum);
        assert_eq!(unpack_isize(*packed), u32::from_le_bytes(*packed) as u64);
    }
}

#[test]
fn parse_decimal_reads_plain_digits() {
    assert_eq!(parse_decimal(b"0"), Some(0));
    assert_eq!(parse_decimal(b"4"), Some(4));
    assert_eq!(parse_decimal(b"12294157"), Some(12_294_157));
    assert_eq!(parse_decimal(b"1166553"), Some(1_166_553));
}

#[test]
fn parse_decimal_takes_leading_zeros_and_one_plus() {
    assert_eq!(parse_decimal(b"007"), Some(7));
    assert_eq!(parse_decimal(b"+5"), Some(5));
    assert_eq!(parse_decimal(b"+0"), Some(0));
    assert_eq!(parse_decimal(b"00000000000000000000000000000000000000012"), Some(12));
}

#[test]
fn parse_decimal_refuses_what_is_no_number() {
    assert_eq!(parse_decimal(b""), None);
    assert_eq!(parse_decimal(b"+"), None);
    assert_eq!(parse_decimal(b"++5"), None);
    assert_eq!(parse_decimal(b"-5"), None);
    assert_eq!(parse_decimal(b"-0"), None);
    assert_eq!(parse_decimal(b"abc"), None);
    assert_eq!(parse_decimal(b" 5"), None);
    assert_eq!(parse_decimal(b"5 "), None);
    assert_eq!(parse_decimal(b"5\t"), None);
    assert_eq!(parse_decimal(b"1_000"), None);
    assert_eq!(parse_decimal(b"12a"), None);
    assert_eq!(parse_decimal(b"1.5"), None);
    assert_eq!(parse_decimal(b"0x10"), None);
    assert_eq!(parse_decimal(b"5+"), None);
    assert_eq!(parse_decimal(b"12\xff"), None);
    assert_eq!(parse_decimal(b"/"), None);
    assert_eq!(parse_decimal(b":"), None);
}

#[test]
fn parse_decimal_stops_at_sixty_four_bits() {
    assert_eq!(parse_decimal(b"18446744073709551615"), Some(u64::MAX));
    assert_eq!(parse_decimal(b"018446744073709551615"), Some(u64::MAX));
    assert_eq!(parse_decimal(b"18446744073709551616"), None);
    assert_eq!(parse_decimal(b"18446744073709551620"), None);
    assert_eq!(parse_decimal(b"99999999999999999999"), None);
    assert_eq!(parse_decimal(b"184467440737095516150"), None);
    assert_eq!(parse_decimal(b"18446744073709551616x"), None);
}

#[test]
fn parse_decimal_agrees_with_the_standard_parser() {
    let samples: [&str; 22] = [
        "", "0", "1", "+1", "-1", "+", "-", "++1", "+-1", "00", "0009", "42", "4 2", " 42", "42 ",
        "18446744073709551615", "18446744073709551616", "+18446744073709551615", "1e3", "\u{661}\u{662}",
        "12294157", "4",
    ];
    for text in samples.iter() {
        assert_eq!(parse_decimal(text.as_bytes()), text.parse::<u64>().ok(), "{:?}", text);
    }
}

#[test]
fn append_decimal_writes_plain_digits() {
    assert_eq!(digits_of(0), b"0".to_vec());
    assert_eq!(digits_of(9), b"9".to_vec());
    assert_eq!(digits_of(10), b"10".to_vec());
    assert_eq!(digits_of(12_294_153), b"12294153".to_vec());
    assert_eq!(digits_of(u64::MAX), b"18446744073709551615".to_vec());
}

#[test]
fn append_decimal_keeps_what_was_there() {
    let mut out = b"bytes=".to_vec();
    append_decimal(&mut out, 1_166_549);
    assert_eq!(out, b"bytes=1166549".to_vec());
    append_decimal(&mut out, 0);
    assert_eq!(out, b"bytes=11665490".to_vec());
}

#[test]
fn digits_written_are_read_back() {
    let samples: [u64; 9] =
        [0, 1, 9, 10, 99, 100, 12_294_157, 4_294_967_296, u64::MAX];
    for number in samples.iter() {
        assert_eq!(parse_decimal(&digits_of(*number)), Some(*number));
        assert_eq!(digits_of(*number), number.to_string().into_bytes());
    }
}

#[test]
fn check_text_takes_printable_ascii_and_tab() {
    assert!(check_text(b""));
    assert!(check_text(b"bytes"));
    assert!(check_text(b" bytes\t"));
    assert!(check_text(b"~ !"));
    assert!(!check_text(b"bytes\n"));
    assert!(!check_text(b"\r"));
    assert!(!check_text(b"\x00"));
    assert!(!check_text(b"\x1f"));
    assert!(!check_text(b"\x7f"));
    assert!(!check_text(b"caf\xc3\xa9"));
    assert!(!check_text(b"\xff"));
}

#[test]
fn trim_cuts_spaces_and_tabs_at_both_ends() {
    assert_eq!(trim(b"bytes"), b"bytes");
    assert_eq!(trim(b"  bytes"), b"bytes");
    assert_eq!(trim(b"bytes \t "), b"bytes");
    assert_eq!(trim(b"\t bytes \t"), b"bytes");
    assert_eq!(trim(b" a b "), b"a b");
    assert_eq!(trim(b""), b"");
    assert_eq!(trim(b" \t "), b"");
    assert_eq!(trim(b"\nbytes\n"), b"\nbytes\n");
}

#[test]
fn is_bytes_unit_wants_the_exact_token() {
    assert!(is_bytes_unit(b"bytes"));
    assert!(is_bytes_unit(b" bytes"));
    assert!(is_bytes_unit(b"bytes  "));
    assert!(is_bytes_unit(b"\tbytes\t"));
    assert!(!is_bytes_unit(b""));
    assert!(!is_bytes_unit(b"   "));
    assert!(!is_bytes_unit(b"none"));
    assert!(!is_bytes_unit(b"Bytes"));
    assert!(!is_bytes_unit(b"BYTES"));
    assert!(!is_bytes_unit(b"byte"));
    assert!(!is_bytes_unit(b"bytess"));
    assert!(!is_bytes_unit(b"by tes"));
    assert!(!is_bytes_unit(b"bytes, none"));
    assert!(!is_bytes_unit(b"bytes\n"));
    assert!(!is_bytes_unit(b"bytes\xff"));
    assert!(!is_bytes_unit(b"\xa0bytes"));
}
