use process_stream::text::{decimal_text, is_white_space, trim};

#[test]
fn decimal_text_of_small_codes() {
    assert_eq!(decimal_text(0), "0");
    assert_eq!(decimal_text(1), "1");
    assert_eq!(decimal_text(9), "9");
    assert_eq!(decimal_text(10), "10");
    assert_eq!(decimal_text(127), "127");
    assert_eq!(decimal_text(255), "255");
    assert_eq!(decimal_text(1009), "1009");
}

#[test]
fn decimal_text_of_negative_codes() {
    assert_eq!(decimal_text(-1), "-1");
    assert_eq!(decimal_text(-10), "-10");
    assert_eq!(decimal_text(-1073741819), "-1073741819");
}

#[test]
fn decimal_text_at_the_ends_of_the_range() {
    assert_eq!(decimal_text(i32::MAX), "2147483647");
    assert_eq!(decimal_text(i32::MIN), "-2147483648");
}

#[test]
fn decimal_text_agrees_with_the_standard_library() {
    let mut code: i64 = i32::MIN as i64;
    while code <= i32::MAX as i64 {
        assert_eq!(decimal_text(code as i32), (code as i32).to_string());
        code += 7_654_321;
    }
    for code in -1000..=1000 {
        assert_eq!(decimal_text(code), code.to_string());
    }
}

#[test]
fn white_space_is_what_the_standard_library_calls_so() {
    let mut count = 0;
    for code in 0..=0x10FFFFu32 {
        if let Some(c) = char::from_u32(code) {
            assert_eq!(is_white_space(c), c.is_whitespace(), "U+{code:04X}");
            if is_white_space(c) {
                count += 1;
            }
        }
    }
    assert_eq!(count, 25);
}

#[test]
fn trim_drops_white_space_at_both_ends_only() {
    assert_eq!(trim("  a b  "), "a b");
    assert_eq!(trim("\t\r\nx"), "x");
    assert_eq!(trim("x\n"), "x");
    assert_eq!(trim("x"), "x");
    assert_eq!(trim(""), "");
    assert_eq!(trim(" \u{2028}\u{3000} "), "");
    assert_eq!(trim("\u{a0}\u{e9} \u{fc}\u{205f}"), "\u{e9} \u{fc}");
}

#[test]
fn trim_agrees_with_the_standard_library() {
    let samples = [
        "", " ", "a", " a", "a ", " a ", "\n\na\tb\n\n", "\u{1680}x\u{2000}y\u{200a}",
        "\u{200b}x\u{200b}", "  \u{65e5}\u{672c}\u{8a9e}  ", "\u{85}\u{85}", "a\u{0}", "\u{b}\u{c}z",
    ];
    for text in samples {
        assert_eq!(trim(text), text.trim(), "{text:?}");
    }
}
