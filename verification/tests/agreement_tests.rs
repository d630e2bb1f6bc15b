use dxc::format_bytes;
use dxc::text::{chars_of, parse_u32_chars, parse_u64_chars, trim};

fn float_bytes(bytes: u64) -> String {
    let units = ["B", "KB", "MB", "GB", "TB"];
    let mut size = bytes as f64;
    let mut unit = 0;
    while size >= 1024.0 && unit < units.len() - 1 {
        size /= 1024.0;
        unit += 1;
    }
    format!("{:.2} {}", size, units[unit])
}

#[test]
fn format_bytes_agrees_with_float_formatting() {
    for b in 0u64..5000 {
        assert_eq!(format_bytes(b), float_bytes(b), "bytes = {b}");
    }
    for k in 0..53u32 {
        let p = 1u64 << k;
        for d in [p - 1, p, p + 1, p + p / 2, 3 * p / 8, 5 * p / 8] {
            assert_eq!(format_bytes(d), float_bytes(d), "bytes = {d}");
        }
    }
    let mut x: u64 = 12345;
    for _ in 0..20000 {
        x = x.wrapping_mul(6364136223846793005).wrapping_add(1442695040888963407);
        let b = x >> (x % 40);
        if b < (1u64 << 53) {
            assert_eq!(format_bytes(b), float_bytes(b), "bytes = {b}");
        }
    }
}

#[test]
fn trim_agrees_with_str_trim() {
    for code in 0u32..0x3100 {
        if let Some(c) = char::from_u32(code) {
            let s = format!("{c}{c}a{c}b{c}");
            assert_eq!(trim(&s), s.trim(), "code point {code:#x}");
        }
    }
    for s in ["", " ", "\u{feff}x", "\u{200b}x\u{200b}", "\u{3000}\u{2029}x"] {
        assert_eq!(trim(s), s.trim());
    }
}

#[test]
fn parse_agrees_with_str_parse() {
    let samples = [
        "", "+", "-", "-0", "0", "+0", "00", "+12", "12a", " 1", "1 ", "٣", "4294967295",
        "4294967296", "18446744073709551615", "18446744073709551616", "++1", "0x10",
        "000000000000000000000000000000001",
    ];
    for s in samples {
        let v = chars_of(s);
        assert_eq!(parse_u64_chars(&v), s.parse::<u64>().ok(), "{s:?}");
        assert_eq!(parse_u32_chars(&v), s.parse::<u32>().ok(), "{s:?}");
    }
}
