use dbg_rs::numbers::{parse_i32, parse_u32, parse_u64};

fn std_u64(raw: &str) -> Result<u64, String> {
    if let Some(hex) = raw.strip_prefix("0x") {
        u64::from_str_radix(hex, 16).map_err(|e| format!("invalid hex value `{raw}`: {e}"))
    } else if let Some(bin) = raw.strip_prefix("0b") {
        u64::from_str_radix(bin, 2).map_err(|e| format!("invalid binary value `{raw}`: {e}"))
    } else if let Some(oct) = raw.strip_prefix("0o") {
        u64::from_str_radix(oct, 8).map_err(|e| format!("invalid octal value `{raw}`: {e}"))
    } else {
        raw.parse::<u64>()
            .map_err(|e| format!("invalid decimal value `{raw}`: {e}"))
    }
}

const TEXTS: [&str; 62] = [
    "", "0", "1", "9", "10", "007", "42", "+", "-", "+5", "-5", "++5", "+-5", "5+", " 5", "5 ",
    "1_000", "a", "0x", "0xg", "0xff", "0xFF", "0xfF0", "0x+1f", "0x-1", "0x+", "0b", "0b2",
    "0b101", "0b+1", "0o", "0o8", "0o777", "0X1f", "0xffffffffffffffff", "0x10000000000000000",
    "0x10000000000000000g", "0x1000000000000000g", "18446744073709551615",
    "18446744073709551616", "18446744073709551616x", "99999999999999999999x",
    "00000000000000000000000000000001", "4294967295", "4294967296", "2147483647", "2147483648",
    "-2147483648", "-2147483649", "-0", "-x", "--1", "2147483648x", "-2147483649x", "0b1111",
    "\u{661}", "5\u{e9}", "\u{ff11}", "0x\u{e9}", "12345678901234567890123456789", "+0x1", "x0",
];

#[test]
fn numbers_are_parsed_as_the_standard_library_does() {
    for raw in TEXTS {
        assert_eq!(parse_u64(raw), std_u64(raw), "{raw}");
        let signed = raw.parse::<i32>().map_err(|e| format!("invalid i32 value `{raw}`: {e}"));
        assert_eq!(parse_i32(raw), signed, "{raw}");
    }
}

#[test]
fn each_number_error_has_its_message() {
    assert_eq!(
        parse_u64("0x"),
        Err("invalid hex value `0x`: cannot parse integer from empty string".to_string())
    );
    assert_eq!(
        parse_u64("0b2"),
        Err("invalid binary value `0b2`: invalid digit found in string".to_string())
    );
    assert_eq!(
        parse_u64("0o9"),
        Err("invalid octal value `0o9`: invalid digit found in string".to_string())
    );
    assert_eq!(
        parse_u64("18446744073709551616"),
        Err("invalid decimal value `18446744073709551616`: number too large to fit in target type"
            .to_string())
    );
    assert_eq!(
        parse_i32("-2147483649"),
        Err("invalid i32 value `-2147483649`: number too small to fit in target type".to_string())
    );
    assert_eq!(
        parse_i32("0x10"),
        Err("invalid i32 value `0x10`: invalid digit found in string".to_string())
    );
}

#[test]
fn a_u32_must_be_in_range() {
    assert_eq!(parse_u32("4294967295"), Ok(u32::MAX));
    assert_eq!(parse_u32("0x10"), Ok(16));
    assert_eq!(
        parse_u32("4294967296"),
        Err("value out of range for u32: 4294967296".to_string())
    );
    assert_eq!(
        parse_u32("nope"),
        Err("invalid decimal value `nope`: invalid digit found in string".to_string())
    );
}

#[test]
fn what_is_printed_is_parsed_back() {
    for n in [0u64, 1, 15, 16, 255, 4096, 0xdead_beef, u64::MAX - 1, u64::MAX] {
        assert_eq!(parse_u64(&format!("{n}")), Ok(n));
        assert_eq!(parse_u64(&format!("0x{n:x}")), Ok(n));
        assert_eq!(parse_u64(&format!("0x{n:016x}")), Ok(n));
    }
    for n in [0i32, 1, -1, 1234, i32::MIN, i32::MAX] {
        assert_eq!(parse_i32(&format!("{n}")), Ok(n));
    }
}
