use lynxocr::bytes::{convert_rgba_to_rgb, detect_image_ext, find_bytes, strip_trailing_crlf};
use lynxocr::text::{i64_to_decimal, trim, u64_to_decimal};

#[test]
fn find_bytes_finds_first_match_at_or_after_start() {
    let hay = b"abc--xyz--end";
    assert_eq!(find_bytes(hay, b"--", 0), Some(3));
    assert_eq!(find_bytes(hay, b"--", 4), Some(8));
    assert_eq!(find_bytes(hay, b"--", 9), None);
    assert_eq!(find_bytes(hay, b"zzz", 0), None);
    assert_eq!(find_bytes(b"ab", b"abc", 0), None);
    assert_eq!(find_bytes(hay, b"end", 13), None);
    assert_eq!(find_bytes(hay, b"end", 10), Some(10));
}

#[test]
fn strip_trailing_crlf_removes_one_line_ending() {
    assert_eq!(strip_trailing_crlf(b"data\r\n"), b"data");
    assert_eq!(strip_trailing_crlf(b"data\n"), b"data");
    assert_eq!(strip_trailing_crlf(b"a\r\n\r\n"), b"a\r\n");
    assert_eq!(strip_trailing_crlf(b"a\n\n"), b"a\n");
    assert_eq!(strip_trailing_crlf(b"data\r"), b"data\r");
    assert_eq!(strip_trailing_crlf(b"da\r\nta"), b"da\r\nta");
    assert_eq!(strip_trailing_crlf(b"\r\n"), b"");
    assert_eq!(strip_trailing_crlf(b"\n"), b"");
    assert_eq!(strip_trailing_crlf(b""), b"");
}

#[test]
fn detect_image_ext_recognises_magic_bytes() {
    assert_eq!(detect_image_ext(b"\x89PNG\r\n\x1a\n"), "png");
    assert_eq!(detect_image_ext(b"\xff\xd8\xff\xe0"), "jpg");
    assert_eq!(detect_image_ext(b"RIFF\0\0\0\0WEBPVP8 "), "webp");
    assert_eq!(detect_image_ext(b"RIFF\0\0\0\0WAVE"), "bin");
    assert_eq!(detect_image_ext(b"BM\0\0\0\0"), "bmp");
    assert_eq!(detect_image_ext(b"%PDF-1.7"), "pdf");
    assert_eq!(detect_image_ext(b"GIF89a"), "bin");
    assert_eq!(detect_image_ext(b"\x89PN"), "bin");
    assert_eq!(detect_image_ext(b""), "bin");
}

#[test]
fn rgba_to_rgb_drops_alpha_and_partial_pixels() {
    let rgba = [1u8, 2, 3, 255, 4, 5, 6, 128, 9, 9];
    assert_eq!(convert_rgba_to_rgb(&rgba), vec![1, 2, 3, 4, 5, 6]);
    assert_eq!(convert_rgba_to_rgb(&[]), Vec::<u8>::new());
}

#[test]
fn trim_uses_unicode_white_space() {
    assert_eq!(trim("  a b \t\n"), "a b");
    assert_eq!(trim("\u{3000}x\u{a0}"), "x");
    assert_eq!(trim("\u{200b}x"), "\u{200b}x");
    assert_eq!(trim("   "), "");
}

#[test]
fn decimal_text_matches_display() {
    assert_eq!(u64_to_decimal(0), "0");
    assert_eq!(u64_to_decimal(404), "404");
    assert_eq!(u64_to_decimal(u64::MAX), u64::MAX.to_string());
    assert_eq!(i64_to_decimal(-17), "-17");
    assert_eq!(i64_to_decimal(i64::MIN), i64::MIN.to_string());
}
