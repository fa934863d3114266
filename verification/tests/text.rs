//! Trimming, whitespace and the clean-up of indented blocks.

use honcho::text::{cleandoc, is_whitespace, trim};

#[test]
fn whitespace_is_the_unicode_property() {
    for c in '\u{0}'..=char::MAX {
        assert_eq!(is_whitespace(c), c.is_whitespace());
    }
}

#[test]
fn trim_cuts_both_ends() {
    for text in [
        "", " ", "a", " a", "a ", "  a b  ", "\t\n\r\u{b}\u{c}x\u{85}\u{a0}", "\u{2003}é\u{3000}",
        "\u{200b}a\u{200b}", " \n ",
    ] {
        assert_eq!(trim(text), text.trim());
        assert_eq!(trim(trim(text)), trim(text));
    }
}

#[test]
fn cleandoc_cuts_the_shared_margin() {
    assert_eq!(cleandoc("a\n    b\n      c\n    d"), "a\nb\n  c\nd");
    assert_eq!(cleandoc("   a\n  b\n c"), "a\n b\nc");
    assert_eq!(cleandoc("a\n  b\nc"), "a\n  b\nc");
}

#[test]
fn cleandoc_drops_empty_lines_at_the_ends() {
    assert_eq!(cleandoc("\n\n  a\n\n  b\n  \n\n"), "a\n\nb");
    assert_eq!(cleandoc("  \n  a"), "a");
    assert_eq!(cleandoc(""), "");
    assert_eq!(cleandoc("\n\n"), "");
    assert_eq!(cleandoc("   "), "");
}

#[test]
fn cleandoc_keeps_blank_lines_when_there_is_no_margin() {
    assert_eq!(cleandoc("a\n  \n"), "a\n  ");
    assert_eq!(cleandoc("\nb\n   "), "b\n   ");
}

#[test]
fn cleandoc_cuts_short_blank_lines_to_nothing() {
    assert_eq!(cleandoc("a\n    b\n  \n    c"), "a\nb\n\nc");
    assert_eq!(cleandoc("a\n  b\n    \n  c"), "a\nb\n  \nc");
}

#[test]
fn cleandoc_expands_tabs() {
    assert_eq!(cleandoc("a\tb"), "a       b");
    assert_eq!(cleandoc("1234567\tb"), "1234567 b");
    assert_eq!(cleandoc("12345678\tb"), "12345678        b");
    assert_eq!(cleandoc("x\n\ta\n        b"), "x\na\nb");
    assert_eq!(cleandoc("x\n\t\ta\n\tb"), "x\n        a\nb");
    assert_eq!(cleandoc("12\r\tb"), "12\r        b");
}

#[test]
fn cleandoc_keeps_a_clean_text() {
    for text in ["a", "a\nb", "é\nü\n  ä\nö"] {
        assert_eq!(cleandoc(text), text);
    }
}
