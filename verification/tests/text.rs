//! Whitespace, words and trimming, held against what `std` does.

use task_warrior_mcp::text::{
    chars_of, is_whitespace, joined, split_whitespace, strip_trailing_char, trim,
};

const SAMPLES: [&str; 16] = [
    "",
    " ",
    "a",
    "a b",
    "  a  b  ",
    "\tpriority:H\n+urgent\r\n",
    "due: priority:",
    "one\u{a0}two\u{3000}three",
    "\u{2003}x\u{2028}y\u{2029}",
    "\u{85}\u{1680}\u{202f}\u{205f}",
    "zero\u{200b}width",
    "mongolian\u{180e}separator",
    "+OVERDUE project:Work.Backend /re gex/",
    "é \u{1f600}  ü",
    "trailing...",
    "   \n\t  ",
];

#[test]
fn whitespace_is_what_std_calls_whitespace() {
    for code in 0u32..=0x10ffff {
        if let Some(c) = char::from_u32(code) {
            assert_eq!(is_whitespace(c), c.is_whitespace(), "U+{code:04X}");
        }
    }
}

#[test]
fn the_named_whitespace_characters() {
    for c in [' ', '\t', '\n', '\u{b}', '\u{c}', '\r', '\u{85}', '\u{a0}', '\u{3000}'] {
        assert!(is_whitespace(c));
    }
    for c in ['a', '0', ':', '+', '/', '.', '\u{8}', '\u{e}', '\u{200b}', '\u{feff}'] {
        assert!(!is_whitespace(c));
    }
}

#[test]
fn words_are_what_std_splits() {
    for sample in SAMPLES {
        let expected: Vec<String> = sample.split_whitespace().map(str::to_string).collect();
        assert_eq!(split_whitespace(sample), expected, "{sample:?}");
    }
}

#[test]
fn words_of_a_filter() {
    assert_eq!(
        split_whitespace("  +urgent\tpriority:H \n due:  "),
        vec!["+urgent".to_string(), "priority:H".to_string(), "due:".to_string()]
    );
}

#[test]
fn no_words_in_nothing_or_in_whitespace() {
    assert_eq!(split_whitespace(""), Vec::<String>::new());
    assert_eq!(split_whitespace(" \t\r\n"), Vec::<String>::new());
}

#[test]
fn one_word_is_its_own_word() {
    assert_eq!(split_whitespace("project:Work"), vec!["project:Work".to_string()]);
}

#[test]
fn whitespace_between_two_texts_separates_their_words() {
    let (a, b) = ("x  y", " z w ");
    let mut expected = split_whitespace(a);
    expected.extend(split_whitespace(b));
    assert_eq!(split_whitespace(&format!("{a}\t{b}")), expected);
    assert_eq!(expected, vec!["x", "y", "z", "w"]);
}

#[test]
fn trimming_is_what_std_trims() {
    for sample in SAMPLES {
        assert_eq!(trim(sample), sample.trim(), "{sample:?}");
    }
}

#[test]
fn trimming_keeps_the_whitespace_inside() {
    assert_eq!(trim("\n  Created task 5.\n  Run it.  \n"), "Created task 5.\n  Run it.");
    assert_eq!(trim("   "), "");
    assert_eq!(trim(""), "");
    assert_eq!(trim("x"), "x");
}

#[test]
fn stripping_a_trailing_character_is_what_std_strips() {
    for sample in SAMPLES {
        assert_eq!(strip_trailing_char(sample, '.'), sample.trim_end_matches('.'), "{sample:?}");
    }
    assert_eq!(strip_trailing_char("5.", '.'), "5");
    assert_eq!(strip_trailing_char("5...", '.'), "5");
    assert_eq!(strip_trailing_char(".5", '.'), ".5");
    assert_eq!(strip_trailing_char("...", '.'), "");
    assert_eq!(strip_trailing_char("5.x", '.'), "5.x");
}

#[test]
fn characters_in_order() {
    assert_eq!(chars_of("aé\u{1f600}"), vec!['a', 'é', '\u{1f600}']);
    assert_eq!(chars_of(""), Vec::<char>::new());
}

#[test]
fn joining_two_texts() {
    assert_eq!(joined("project:", "Work.Backend"), "project:Work.Backend");
    assert_eq!(joined("", ""), "");
    assert_eq!(joined("due:", ""), "due:");
}
