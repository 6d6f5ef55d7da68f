use weixin_ui::text::{is_whitespace_char, normalize_shortcut_text};

#[test]
fn normalize_collapses_inner_runs_and_trims() {
    assert_eq!(normalize_shortcut_text("  Ctrl   +  Alt + A  "), "Ctrl + Alt + A");
    assert_eq!(normalize_shortcut_text("Ctrl\t+\nShift"), "Ctrl + Shift");
}

#[test]
fn normalize_blank_input_is_empty() {
    assert_eq!(normalize_shortcut_text(""), "");
    assert_eq!(normalize_shortcut_text("   \t \n"), "");
    assert_eq!(normalize_shortcut_text("\u{3000}\u{00A0}"), "");
}

#[test]
fn normalize_keeps_clean_text() {
    assert_eq!(normalize_shortcut_text("Ctrl + Alt + A"), "Ctrl + Alt + A");
    assert_eq!(normalize_shortcut_text("按下快捷键"), "按下快捷键");
}

#[test]
fn normalize_treats_unicode_spaces_as_separators() {
    assert_eq!(normalize_shortcut_text("Ctrl\u{00A0}+\u{00A0}Enter"), "Ctrl + Enter");
    assert_eq!(normalize_shortcut_text("a\u{2003}\u{2003}b"), "a b");
}

#[test]
fn normalize_is_idempotent_on_examples() {
    for s in ["  x  y ", "a\u{00A0} b", "", "   ", "Ctrl + Enter", "\tq\tw\te\t"] {
        let once = normalize_shortcut_text(s);
        assert_eq!(normalize_shortcut_text(&once), once);
    }
}

#[test]
fn normalize_agrees_with_std_split_whitespace() {
    for s in ["  a b  c ", "x\u{85}y", "\u{1680}z\u{205F}", "one", " \u{202F} "] {
        let expected = s.split_whitespace().collect::<Vec<_>>().join(" ");
        assert_eq!(normalize_shortcut_text(s), expected);
    }
}

#[test]
fn whitespace_set_matches_std_for_every_char() {
    for code in 0u32..=0x10FFFF {
        if let Some(c) = char::from_u32(code) {
            assert_eq!(is_whitespace_char(c), c.is_whitespace(), "U+{:04X}", code);
        }
    }
}
