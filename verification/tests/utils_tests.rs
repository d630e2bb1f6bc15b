use dxc::{file_extension, format_bytes, format_duration, sanitize_filename, strip_extension, url_file_name};

#[test]
fn test_format_bytes() {
    assert_eq!(format_bytes(0), "0.00 B");
    assert_eq!(format_bytes(1023), "1023.00 B");
    assert_eq!(format_bytes(1024), "1.00 KB");
    assert_eq!(format_bytes(1048576), "1.00 MB");
    assert_eq!(format_bytes(1073741824), "1.00 GB");
}

#[test]
fn test_format_duration() {
    assert_eq!(format_duration(0), "0:00");
    assert_eq!(format_duration(59), "0:59");
    assert_eq!(format_duration(60), "1:00");
    assert_eq!(format_duration(3661), "1:01:01");
    assert_eq!(format_duration(86399), "23:59:59");
}

#[test]
fn test_sanitize_filename() {
    assert_eq!(sanitize_filename("hello.txt"), "hello.txt");
    assert_eq!(sanitize_filename("a/b:c"), "a_b_c");
    assert_eq!(sanitize_filename("normal-file_1.mp4"), "normal-file_1.mp4");
}

#[test]
fn test_file_extension() {
    assert_eq!(file_extension("file.mp4"), Some("mp4"));
    assert_eq!(file_extension("file.tar.gz"), Some("gz"));
    assert_eq!(file_extension("no_ext"), None);
}

#[test]
fn test_strip_extension() {
    assert_eq!(strip_extension("video.mp4"), "video");
    assert_eq!(strip_extension("path/to/file.mp3"), "path/to/file");
    assert_eq!(strip_extension("no_ext"), "no_ext");
}

#[test]
fn test_strip_extension_double_dot() {
    assert_eq!(strip_extension("file.tar.gz"), "file.tar");
}

#[test]
fn format_bytes_rounding_and_units() {
    assert_eq!(format_bytes(1536), "1.50 KB");
    assert_eq!(format_bytes(1048575), "1024.00 KB");
    assert_eq!(format_bytes(1099511627776), "1.00 TB");
    assert_eq!(format_bytes(1125899906842624), "1024.00 TB");
    // 1029 / 1024 = 1.0048828125: rounds down to 1.00
    assert_eq!(format_bytes(1029), "1.00 KB");
    // 1034 / 1024 = 1.009765625: rounds up to 1.01
    assert_eq!(format_bytes(1034), "1.01 KB");
    // 1.005 KB exactly is 1029.12 bytes, so exact ties need a power of two:
    // 1025 bytes * 100 / 1024 = 100.09765625
    assert_eq!(format_bytes(1025), "1.00 KB");
    assert_eq!(format_bytes(u64::MAX), "16777216.00 TB");
}

#[test]
fn format_bytes_ties_round_to_even() {
    // 1030.4 is not an integer; use 512 * 2^k style ties:
    // 5 * 1024 + 512 = 5632 bytes = 5.5 KB exactly -> "5.50 KB" (no tie at 2 decimals)
    assert_eq!(format_bytes(5632), "5.50 KB");
    // a tie at the third decimal: 1.125 KB = 1152 bytes -> 112.5 hundredths -> even 112
    assert_eq!(format_bytes(1152), "1.12 KB");
    // 1.375 KB = 1408 bytes -> 137.5 hundredths -> even 138
    assert_eq!(format_bytes(1408), "1.38 KB");
}

#[test]
fn format_duration_long() {
    assert_eq!(format_duration(86400), "24:00:00");
    assert_eq!(format_duration(3600), "1:00:00");
    assert_eq!(format_duration(599), "9:59");
    assert_eq!(format_duration(36005), "10:00:05");
}

#[test]
fn sanitize_non_ascii_and_idempotent() {
    assert_eq!(sanitize_filename("héllo wörld?.mp4"), "h_llo_w_rld_.mp4");
    let once = sanitize_filename("a b/c?d=e&f");
    assert_eq!(once, "a_b_c_d_e_f");
    assert_eq!(sanitize_filename(&once), once);
    assert_eq!(sanitize_filename(""), "");
}

#[test]
fn extension_split_law_on_values() {
    for p in ["a.b.c", "noext", ".hidden", "dir.d/file", "trailing."] {
        match file_extension(p) {
            Some(e) => assert_eq!(format!("{}.{}", strip_extension(p), e), p),
            None => assert_eq!(strip_extension(p), p),
        }
    }
    assert_eq!(file_extension("trailing."), Some(""));
    assert_eq!(file_extension(".hidden"), Some("hidden"));
    assert_eq!(strip_extension(".hidden"), "");
}

#[test]
fn url_file_names() {
    assert_eq!(url_file_name("https://example.com/file.zip"), "file.zip");
    assert_eq!(url_file_name("https://example.com/a/b.mp4?x=1&y=2"), "b.mp4");
    assert_eq!(url_file_name("https://youtube.com/watch?v=123"), "watch");
    assert_eq!(url_file_name("https://example.com/"), "");
    assert_eq!(url_file_name("plain?q/x"), "x");
    assert_eq!(url_file_name("no-slash"), "no-slash");
}
