use kode::text::{chars_of, push_decimal, trim_chars, white_space};

#[test]
fn white_space_agrees_with_std() {
    for n in 0u32..=0x10FFFF {
        if let Some(c) = char::from_u32(n) {
            assert_eq!(white_space(c), c.is_whitespace(), "U+{:04X}", n);
        }
    }
}

#[test]
fn trim_agrees_with_std() {
    for s in ["", "  ", " a ", "\u{2003}x y\u{85}", "abc", "\tq\n", "\u{200B}z"] {
        let trimmed: String = trim_chars(&chars_of(s)).into_iter().collect();
        assert_eq!(trimmed, s.trim());
    }
}

#[test]
fn decimal_rendering_of_boundaries() {
    for n in [0u64, 7, 10, 8787, 65535, u64::MAX] {
        let mut s = String::new();
        push_decimal(&mut s, n);
        assert_eq!(s, n.to_string());
    }
}
