use weixin_ui::settings::{
    default_shortcut_text, settings_tab_icon, settings_tab_id, shortcut_text_is_set,
    InputFocusEvent, LanguageHover, SettingsTab, SettingsWindow, ShortcutInputField,
    ShortcutSendHover, ThemeHover, TranslateLanguageHover, SHORTCUT_INPUT_PLACEHOLDER,
    SHORTCUT_UNSET_TEXT, SliderPointerEvent,
};

const FIELDS: [ShortcutInputField; 3] = [
    ShortcutInputField::Screenshot,
    ShortcutInputField::Lock,
    ShortcutInputField::ToggleWindow,
];

#[test]
fn new_window_defaults() {
    let s = SettingsWindow::new();
    assert_eq!(s.active_tab_ix(), 1);
    assert_eq!(s.get_active_tab(), SettingsTab::General);
    assert_eq!(s.shortcut_send_selection_label(), "Enter");
    assert_eq!(s.translate_language_selection_label(), "简体中文");
    assert_eq!(s.shortcut_send_hover_state(), ShortcutSendHover::Nothing);
    assert_eq!(s.translate_language_hover_state(), TranslateLanguageHover::Nothing);
    assert_eq!(s.theme_hover_state(), ThemeHover::Nothing);
    assert_eq!(s.language_hover_state(), LanguageHover::Nothing);
    assert!(!s.is_auto_download_input_focused());
    assert!(!s.is_font_slider_dragging());
    assert_eq!(s.shortcut_field_text(ShortcutInputField::Screenshot), "Ctrl + Alt + A");
    assert_eq!(s.shortcut_field_text(ShortcutInputField::Lock), "Ctrl + Alt + L");
    assert_eq!(s.shortcut_field_text(ShortcutInputField::ToggleWindow), "Ctrl + Alt + W");
    for f in FIELDS {
        assert!(!s.is_shortcut_input_focused(f));
        assert_eq!(s.shortcut_field_text(f), default_shortcut_text(f));
    }
}

#[test]
fn tabs_by_index() {
    let mut s = SettingsWindow::new();
    let expected = [
        SettingsTab::AccountAndStorage,
        SettingsTab::General,
        SettingsTab::Shortcuts,
        SettingsTab::Notifications,
        SettingsTab::Plugins,
        SettingsTab::About,
    ];
    for (ix, tab) in expected.iter().enumerate() {
        s.set_active_tab(ix);
        assert_eq!(s.get_active_tab(), *tab);
        assert!(s.is_tab_active(ix));
        assert!(!s.is_tab_active(ix + 1));
    }
    s.set_active_tab(17);
    assert_eq!(s.get_active_tab(), SettingsTab::General);
    assert!(s.is_tab_active(17));
}

#[test]
fn tab_ids_and_icons() {
    assert_eq!(settings_tab_id(0), "tab-0");
    assert_eq!(settings_tab_id(5), "tab-5");
    assert_eq!(settings_tab_id(6), "tab-unknown");
    assert_eq!(settings_tab_icon(0), "setting/user.svg");
    assert_eq!(settings_tab_icon(1), "setting/setting.svg");
    assert_eq!(settings_tab_icon(2), "setting/arrow-up9.svg");
    assert_eq!(settings_tab_icon(3), "setting/notifications.svg");
    assert_eq!(settings_tab_icon(4), "setting/risk.svg");
    assert_eq!(settings_tab_icon(5), "setting/about.svg");
    assert_eq!(settings_tab_icon(9), "setting/setting.svg");
}

#[test]
fn send_shortcut_menu() {
    let mut s = SettingsWindow::new();
    s.set_shortcut_send_hover(ShortcutSendHover::CtrlEnter);
    s.clear_shortcut_send_hover(ShortcutSendHover::Enter);
    assert_eq!(s.shortcut_send_hover_state(), ShortcutSendHover::CtrlEnter);
    s.set_shortcut_send_selection("Ctrl + Enter");
    s.clear_shortcut_send_hover(ShortcutSendHover::CtrlEnter);
    assert_eq!(s.shortcut_send_hover_state(), ShortcutSendHover::Nothing);
    assert_eq!(s.shortcut_send_selection_label(), "Ctrl + Enter");
}

#[test]
fn translate_language_menu() {
    let mut s = SettingsWindow::new();
    s.set_translate_language_hover(TranslateLanguageHover::TraditionalChinese);
    s.clear_translate_language_hover(TranslateLanguageHover::SimplifiedChinese);
    assert_eq!(s.translate_language_hover_state(), TranslateLanguageHover::TraditionalChinese);
    s.set_translate_language_selection("繁体中文");
    s.clear_translate_language_hover(TranslateLanguageHover::TraditionalChinese);
    assert_eq!(s.translate_language_hover_state(), TranslateLanguageHover::Nothing);
    assert_eq!(s.translate_language_selection_label(), "繁体中文");
}

#[test]
fn theme_and_language_hover() {
    let mut s = SettingsWindow::new();
    s.update_theme_hover(ThemeHover::Dark, true);
    s.update_theme_hover(ThemeHover::Light, false);
    assert_eq!(s.theme_hover_state(), ThemeHover::Dark);
    s.update_theme_hover(ThemeHover::Dark, false);
    assert_eq!(s.theme_hover_state(), ThemeHover::Nothing);
    s.update_theme_hover(ThemeHover::Light, true);
    s.reset_theme_hover();
    assert_eq!(s.theme_hover_state(), ThemeHover::Nothing);

    s.update_language_hover(LanguageHover::English, true);
    assert_eq!(s.language_hover_state(), LanguageHover::English);
    s.update_language_hover(LanguageHover::ChineseTraditional, true);
    s.update_language_hover(LanguageHover::English, false);
    assert_eq!(s.language_hover_state(), LanguageHover::ChineseTraditional);
    s.reset_language_hover();
    assert_eq!(s.language_hover_state(), LanguageHover::Nothing);
}

#[test]
fn font_slider_drag() {
    let mut s = SettingsWindow::new();
    s.begin_font_slider_drag();
    assert!(s.is_font_slider_dragging());
    s.end_font_slider_drag();
    assert!(!s.is_font_slider_dragging());
}

#[test]
fn auto_download_focus_redraws_only_on_change() {
    let mut s = SettingsWindow::new();
    assert!(s.handle_auto_download_input_focus(InputFocusEvent::Focus));
    assert!(s.is_auto_download_input_focused());
    assert!(!s.handle_auto_download_input_focus(InputFocusEvent::Focus));
    assert!(!s.handle_auto_download_input_focus(InputFocusEvent::PressEnter));
    assert!(s.handle_auto_download_input_focus(InputFocusEvent::Blur));
    assert!(!s.is_auto_download_input_focused());
    assert!(!s.handle_auto_download_input_focus(InputFocusEvent::Blur));
    assert!(!s.handle_auto_download_input_focus(InputFocusEvent::Other));
}

#[test]
fn set_field_text_normalizes() {
    let mut s = SettingsWindow::new();
    let shown = s.set_shortcut_field_text(ShortcutInputField::Lock, "  Ctrl   +  K ");
    assert_eq!(shown, "Ctrl + K");
    assert_eq!(s.shortcut_field_text(ShortcutInputField::Lock), "Ctrl + K");
    assert_eq!(s.shortcut_field_text(ShortcutInputField::Screenshot), "Ctrl + Alt + A");
    let shown = s.set_shortcut_field_text(ShortcutInputField::Lock, SHORTCUT_UNSET_TEXT);
    assert_eq!(shown, "点击设置");
}

#[test]
fn reset_restores_defaults() {
    let mut s = SettingsWindow::new();
    s.set_shortcut_field_text(ShortcutInputField::Screenshot, "F1");
    s.set_shortcut_field_text(ShortcutInputField::Lock, "");
    s.set_shortcut_field_text(ShortcutInputField::ToggleWindow, "F3");
    s.reset_shortcut_fields();
    assert_eq!(s.shortcut_field_text(ShortcutInputField::Screenshot), "Ctrl + Alt + A");
    assert_eq!(s.shortcut_field_text(ShortcutInputField::Lock), "Ctrl + Alt + L");
    assert_eq!(s.shortcut_field_text(ShortcutInputField::ToggleWindow), "Ctrl + Alt + W");
}

#[test]
fn display_text_of_fields() {
    let mut s = SettingsWindow::new();
    let f = ShortcutInputField::Screenshot;
    assert_eq!(s.shortcut_display_text(f, "ignored"), "Ctrl + Alt + A");
    s.set_shortcut_field_text(f, "   ");
    assert_eq!(s.shortcut_display_text(f, ""), SHORTCUT_INPUT_PLACEHOLDER);
    s.handle_shortcut_input_focus(f, InputFocusEvent::Focus, "");
    assert_eq!(s.shortcut_display_text(f, ""), SHORTCUT_INPUT_PLACEHOLDER);
    assert_eq!(s.shortcut_display_text(f, "Ctrl + Q"), "Ctrl + Q");
}

#[test]
fn clear_icon_visibility() {
    let mut s = SettingsWindow::new();
    let f = ShortcutInputField::Lock;
    assert!(shortcut_text_is_set("Ctrl + Alt + L"));
    assert!(!shortcut_text_is_set(SHORTCUT_INPUT_PLACEHOLDER));
    assert!(!shortcut_text_is_set("点击设置"));
    assert!(s.shortcut_row_shows_clear_icon(f, "Ctrl + Alt + L"));
    assert!(!s.shortcut_row_shows_clear_icon(f, "点击设置"));
    s.handle_shortcut_input_focus(f, InputFocusEvent::Focus, "");
    assert!(!s.shortcut_row_shows_clear_icon(f, "Ctrl + Alt + L"));
    assert!(s.shortcut_row_shows_clear_icon(ShortcutInputField::Screenshot, "Ctrl + Alt + A"));
}

#[test]
fn focus_then_blur_commits_typed_shortcut() {
    let mut s = SettingsWindow::new();
    let f = ShortcutInputField::ToggleWindow;
    let out = s.handle_shortcut_input_focus(f, InputFocusEvent::Focus, "Ctrl + Alt + W");
    assert!(out.focus_changed);
    assert_eq!(out.input_value.as_deref(), Some(""));
    assert!(s.is_shortcut_input_focused(f));
    let out = s.handle_shortcut_input_focus(f, InputFocusEvent::Focus, "");
    assert!(!out.focus_changed);
    let out = s.handle_shortcut_input_focus(f, InputFocusEvent::Blur, " Ctrl +  Shift + W ");
    assert!(out.focus_changed);
    assert_eq!(out.input_value.as_deref(), Some("Ctrl + Shift + W"));
    assert!(!s.is_shortcut_input_focused(f));
    assert_eq!(s.shortcut_field_text(f), "Ctrl + Shift + W");
}

#[test]
fn blank_commit_keeps_previous_text() {
    let mut s = SettingsWindow::new();
    let f = ShortcutInputField::Screenshot;
    s.handle_shortcut_input_focus(f, InputFocusEvent::Focus, "");
    let out = s.handle_shortcut_input_focus(f, InputFocusEvent::Blur, "  \t ");
    assert_eq!(out.input_value.as_deref(), Some("Ctrl + Alt + A"));
    assert_eq!(s.shortcut_field_text(f), "Ctrl + Alt + A");
}

#[test]
fn enter_commits_without_changing_focus() {
    let mut s = SettingsWindow::new();
    let f = ShortcutInputField::Lock;
    s.handle_shortcut_input_focus(f, InputFocusEvent::Focus, "");
    let out = s.handle_shortcut_input_focus(f, InputFocusEvent::PressEnter, "Alt+X");
    assert!(!out.focus_changed);
    assert_eq!(out.input_value.as_deref(), Some("Alt+X"));
    assert!(s.is_shortcut_input_focused(f));
    assert_eq!(s.shortcut_field_text(f), "Alt+X");
}

#[test]
fn blur_of_other_field_keeps_focus() {
    let mut s = SettingsWindow::new();
    s.handle_shortcut_input_focus(ShortcutInputField::Lock, InputFocusEvent::Focus, "");
    let out = s.handle_shortcut_input_focus(ShortcutInputField::Screenshot, InputFocusEvent::Blur, "");
    assert!(!out.focus_changed);
    assert!(s.is_shortcut_input_focused(ShortcutInputField::Lock));
    assert_eq!(out.input_value.as_deref(), Some("Ctrl + Alt + A"));
}

#[test]
fn other_events_change_nothing() {
    let mut s = SettingsWindow::new();
    let out = s.handle_shortcut_input_focus(ShortcutInputField::Lock, InputFocusEvent::Other, "zzz");
    assert!(!out.focus_changed);
    assert!(out.input_value.is_none());
    assert_eq!(s.shortcut_field_text(ShortcutInputField::Lock), "Ctrl + Alt + L");
}

#[test]
fn commit_again_is_stable() {
    let mut s = SettingsWindow::new();
    let f = ShortcutInputField::Lock;
    let kept = s.commit_shortcut_input_text(f, "  Win  +  L ");
    assert_eq!(kept, "Win + L");
    let again = s.commit_shortcut_input_text(f, &kept);
    assert_eq!(again, kept);
    assert_eq!(s.shortcut_field_text(f), "Win + L");
}

#[test]
fn slider_pointer_moves_only_while_dragging() {
    let mut s = SettingsWindow::new();
    assert_eq!(s.handle_font_slider_pointer(SliderPointerEvent::Move, 4), None);
    assert!(!s.is_font_slider_dragging());
    assert_eq!(s.handle_font_slider_pointer(SliderPointerEvent::LeftDown, 2), Some(17));
    assert!(s.is_font_slider_dragging());
    assert_eq!(s.handle_font_slider_pointer(SliderPointerEvent::Move, 6), Some(21));
    assert_eq!(s.handle_font_slider_pointer(SliderPointerEvent::Move, 12), Some(23));
    assert_eq!(s.handle_font_slider_pointer(SliderPointerEvent::LeftUp, 3), None);
    assert!(!s.is_font_slider_dragging());
    assert_eq!(s.handle_font_slider_pointer(SliderPointerEvent::Move, 1), None);
}
