use objdump_att::text::{
    chars_of, same_text, scan, slice, split, split_whitespace, starts_with, whitespace, Stop,
};

fn chars(text: &str) -> Vec<char> {
    text.chars().collect()
}

#[test]
fn the_characters_of_a_text() {
    assert_eq!(chars_of(""), chars(""));
    assert_eq!(chars_of("mov %rax"), chars("mov %rax"));
    assert_eq!(chars_of("é日本\u{1f600}"), vec!['é', '日', '本', '\u{1f600}']);
}

#[test]
fn texts_are_the_same_letter_for_letter() {
    assert!(same_text("", ""));
    assert!(same_text("movq", "movq"));
    assert!(same_text("é日本", "é日本"));
    assert!(!same_text("movq", "movl"));
    assert!(!same_text("mov", "movq"));
    assert!(!same_text("movq", "mov"));
    assert!(!same_text("movq", "MOVQ"));
    assert!(!same_text("e", "é"));
}

#[test]
fn whitespace_is_what_unicode_says() {
    let spaces = [
        '\t', '\n', '\u{b}', '\u{c}', '\r', ' ', '\u{85}', '\u{a0}', '\u{1680}', '\u{2000}',
        '\u{2001}', '\u{2002}', '\u{2003}', '\u{2004}', '\u{2005}', '\u{2006}', '\u{2007}',
        '\u{2008}', '\u{2009}', '\u{200a}', '\u{2028}', '\u{2029}', '\u{202f}', '\u{205f}',
        '\u{3000}',
    ];
    for c in spaces {
        assert!(whitespace(c), "{c:?}");
    }
    for c in ['a', '0', ':', '\u{8}', '\u{e}', '\u{1f}', '!', '\u{200b}', '\u{180e}', '\u{feff}'] {
        assert!(!whitespace(c), "{c:?}");
    }
}

#[test]
fn whitespace_agrees_with_the_standard_library() {
    for code in 0..=0x3100_u32 {
        if let Some(c) = char::from_u32(code) {
            assert_eq!(whitespace(c), c.is_whitespace(), "{code:#x}");
        }
    }
}

#[test]
fn a_scan_halts_at_its_stop() {
    let text = chars("ab cd#e");
    assert_eq!(scan(&text, 0, Stop::At('#')), 5);
    assert_eq!(scan(&text, 5, Stop::At('#')), 5);
    assert_eq!(scan(&text, 6, Stop::At('#')), 7);
    assert_eq!(scan(&text, 0, Stop::At('x')), 7);
    assert_eq!(scan(&text, 0, Stop::Space), 2);
    assert_eq!(scan(&text, 2, Stop::NonSpace), 3);
    assert_eq!(scan(&text, 3, Stop::Space), 7);
    assert_eq!(scan(&text, 7, Stop::Space), 7);
    assert!(Stop::At('a').test('a'));
    assert!(!Stop::At('a').test('b'));
    assert!(Stop::Space.test(' '));
    assert!(Stop::NonSpace.test('x'));
}

#[test]
fn fields_lie_between_separators() {
    assert_eq!(split("", '\t'), vec![""]);
    assert_eq!(split("abc", '\t'), vec!["abc"]);
    assert_eq!(split("a\tbc", '\t'), vec!["a", "bc"]);
    assert_eq!(split("\t", '\t'), vec!["", ""]);
    assert_eq!(split("\ta\t\tb\t", '\t'), vec!["", "a", "", "b", ""]);
    assert_eq!(split("%rax,%rbx,4", ','), vec!["%rax", "%rbx", "4"]);
}

#[test]
fn fields_are_those_of_the_standard_library() {
    for text in ["", ",", "a", "a,b", ",a,,b,", "é,日本,", ",,,", "a,b,a,b"] {
        let expected: Vec<&str> = text.split(',').collect();
        assert_eq!(split(text, ','), expected, "{text:?}");
    }
}

#[test]
fn words_lie_between_whitespace() {
    assert_eq!(split_whitespace(""), Vec::<&str>::new());
    assert_eq!(split_whitespace("   "), Vec::<&str>::new());
    assert_eq!(split_whitespace("mov"), vec!["mov"]);
    assert_eq!(split_whitespace("  mov   %rax "), vec!["mov", "%rax"]);
    assert_eq!(split_whitespace("a\tb\u{a0}c\u{3000}"), vec!["a", "b", "c"]);
}

#[test]
fn words_are_those_of_the_standard_library() {
    for text in ["", " ", "a", " a  b ", "mov  %rax,\t%rbx", "é 日本\u{2003}x", "\n\ra\u{85}b"] {
        let expected: Vec<&str> = text.split_whitespace().collect();
        assert_eq!(split_whitespace(text), expected, "{text:?}");
    }
}

#[test]
fn a_slice_counts_characters() {
    assert_eq!(slice("movq", 0, 3), "mov");
    assert_eq!(slice("movq", 1, 1), "");
    assert_eq!(slice("movq", 4, 4), "");
    assert_eq!(slice("é日本x", 1, 3), "日本");
    assert_eq!(slice("é日本x", 0, 4), "é日本x");
}

#[test]
fn the_first_character_of_a_text() {
    assert!(starts_with("%rax", '%'));
    assert!(!starts_with("rax", '%'));
    assert!(!starts_with("", '%'));
    assert!(starts_with("é", 'é'));
}
