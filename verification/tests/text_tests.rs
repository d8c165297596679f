use markdawn::text::{collect_chars, is_whitespace, str_chars, trim_bounds};
use markdawn::watcher::is_markdown_extension;

#[test]
fn white_space_is_that_of_unicode() {
    for code in 0..=0x10FFFFu32 {
        if let Some(c) = char::from_u32(code) {
            assert_eq!(is_whitespace(c), c.is_whitespace(), "U+{:04X}", code);
        }
    }
}

#[test]
fn only_m_and_d_lowercase_to_md() {
    let mut buffer = [0u8; 4];
    for code in 0..=0x10FFFFu32 {
        if let Some(c) = char::from_u32(code) {
            let text: &str = c.encode_utf8(&mut buffer);
            let lower = text.to_lowercase();
            assert_eq!(lower == "m", c == 'm' || c == 'M', "U+{:04X}", code);
            assert_eq!(lower == "d", c == 'd' || c == 'D', "U+{:04X}", code);
            assert_ne!(lower, "md", "U+{:04X}", code);
            assert!(!lower.is_empty(), "U+{:04X}", code);
            assert!(!is_markdown_extension(Some(text)));
        }
    }
}

#[test]
fn strings_decode_to_their_characters() {
    assert_eq!(str_chars(""), Vec::<char>::new());
    assert_eq!(str_chars("aé☃𝄞"), vec!['a', 'é', '☃', '𝄞']);
}

#[test]
fn characters_collect_to_a_string() {
    let chars = vec!['a', 'é', '☃', '𝄞', 'z'];
    assert_eq!(collect_chars(&chars, 0, 5), "aé☃𝄞z");
    assert_eq!(collect_chars(&chars, 1, 4), "é☃𝄞");
    assert_eq!(collect_chars(&chars, 2, 2), "");
    assert_eq!(collect_chars(&chars, 5, 5), "");
}

#[test]
fn trim_bounds_agree_with_std_trim() {
    for text in ["", " ", "a", "  a", "a  ", " a b ", "\t\n x \r\n", "\u{3000}x\u{a0}y\u{2009}", "   "] {
        let chars = str_chars(text);
        let (from, to) = trim_bounds(&chars);
        assert!(from <= to && to <= chars.len());
        assert_eq!(collect_chars(&chars, from, to), text.trim(), "{:?}", text);
    }
    assert_eq!(trim_bounds(&str_chars("  ab ")), (2, 4));
    assert_eq!(trim_bounds(&str_chars("    ")), (4, 4));
    assert_eq!(trim_bounds(&[]), (0, 0));
}
