//! State of the settings window: the selected tab, which item of each
//! popover menu the pointer is over, the selections, the text of the three
//! shortcut fields, and how focus events change them.
use vstd::prelude::*;
use crate::font::{chosen_step_size, font_size_for_step};
use crate::text::{is_space, is_word, join_words, normalize_shortcut_text, normalized};

verus! {

/// Shown in a shortcut field that holds no shortcut.
pub const SHORTCUT_INPUT_PLACEHOLDER: &'static str = "按下快捷键";

/// Shown in a shortcut field after its shortcut was cleared.
pub const SHORTCUT_UNSET_TEXT: &'static str = "点击设置";

pub const SHORTCUT_SCREENSHOT_DEFAULT: &'static str = "Ctrl + Alt + A";

pub const SHORTCUT_LOCK_DEFAULT: &'static str = "Ctrl + Alt + L";

pub const SHORTCUT_TOGGLE_DEFAULT: &'static str = "Ctrl + Alt + W";

/// The pages of the settings window, in the order of the tab list.
#[derive(Clone, Copy, Debug, PartialEq, Eq, Structural)]
pub enum SettingsTab {
    AccountAndStorage,
    General,
    Shortcuts,
    Notifications,
    Plugins,
    About,
}

/// The item of the appearance menu under the pointer.
#[derive(Clone, Copy, Debug, PartialEq, Eq, Structural)]
pub enum ThemeHover {
    Nothing,
    Light,
    Dark,
}

/// The item of the language menu under the pointer.
#[derive(Clone, Copy, Debug, PartialEq, Eq, Structural)]
pub enum LanguageHover {
    Nothing,
    ChineseSimplified,
    ChineseTraditional,
    English,
}

/// The item of the translation-language menu under the pointer.
#[derive(Clone, Copy, Debug, PartialEq, Eq, Structural)]
pub enum TranslateLanguageHover {
    Nothing,
    SimplifiedChinese,
    TraditionalChinese,
}

/// The item of the send-shortcut menu under the pointer.
#[derive(Clone, Copy, Debug, PartialEq, Eq, Structural)]
pub enum ShortcutSendHover {
    Nothing,
    Enter,
    CtrlEnter,
}

/// The three editable shortcuts.
#[derive(Clone, Copy, Debug, PartialEq, Eq, Hash, Structural)]
pub enum ShortcutInputField {
    Screenshot,
    Lock,
    ToggleWindow,
}

/// What a text input reports.
#[derive(Clone, Copy, Debug, PartialEq, Eq, Structural)]
pub enum InputFocusEvent {
    Focus,
    Blur,
    PressEnter,
    Other,
}

/// What the pointer does on the font-size slider.
#[derive(Clone, Copy, Debug, PartialEq, Eq, Structural)]
pub enum SliderPointerEvent {
    /// The left button went down on the slider.
    LeftDown,
    /// The pointer moved over the slider.
    Move,
    /// The left button was released.
    LeftUp,
}

/// The font size in pixels that a pointer event on the slider sets, over
/// step `pointed_step`: a press always chooses the pointed step, a move
/// chooses it only during a drag, a release chooses nothing.
pub open spec fn slider_font_size(dragging: bool, event: SliderPointerEvent, pointed_step: int) -> Option<
    int,
> {
    match event {
        SliderPointerEvent::LeftDown => Some(chosen_step_size(pointed_step)),
        SliderPointerEvent::Move => if dragging {
            Some(chosen_step_size(pointed_step))
        } else {
            None
        },
        SliderPointerEvent::LeftUp => None,
    }
}

/// The page shown for a tab index; an unknown index shows the general page.
pub open spec fn tab_for_index(ix: usize) -> SettingsTab {
    if ix == 0 {
        SettingsTab::AccountAndStorage
    } else if ix == 1 {
        SettingsTab::General
    } else if ix == 2 {
        SettingsTab::Shortcuts
    } else if ix == 3 {
        SettingsTab::Notifications
    } else if ix == 4 {
        SettingsTab::Plugins
    } else if ix == 5 {
        SettingsTab::About
    } else {
        SettingsTab::General
    }
}

/// Entering an item makes it the hovered one; leaving it clears the hover
/// only if that item was the hovered one.
pub open spec fn theme_hover_after(current: ThemeHover, item: ThemeHover, entering: bool) -> ThemeHover {
    if entering {
        item
    } else if current == item {
        ThemeHover::Nothing
    } else {
        current
    }
}

pub open spec fn language_hover_after(
    current: LanguageHover,
    item: LanguageHover,
    entering: bool,
) -> LanguageHover {
    if entering {
        item
    } else if current == item {
        LanguageHover::Nothing
    } else {
        current
    }
}

pub open spec fn translate_hover_after(
    current: TranslateLanguageHover,
    item: TranslateLanguageHover,
    entering: bool,
) -> TranslateLanguageHover {
    if entering {
        item
    } else if current == item {
        TranslateLanguageHover::Nothing
    } else {
        current
    }
}

pub open spec fn send_hover_after(
    current: ShortcutSendHover,
    item: ShortcutSendHover,
    entering: bool,
) -> ShortcutSendHover {
    if entering {
        item
    } else if current == item {
        ShortcutSendHover::Nothing
    } else {
        current
    }
}

/// The default text of a shortcut field.
pub open spec fn default_shortcut(field: ShortcutInputField) -> Seq<char> {
    match field {
        ShortcutInputField::Screenshot => SHORTCUT_SCREENSHOT_DEFAULT@,
        ShortcutInputField::Lock => SHORTCUT_LOCK_DEFAULT@,
        ShortcutInputField::ToggleWindow => SHORTCUT_TOGGLE_DEFAULT@,
    }
}

/// The text shown for `text`: the placeholder when it is empty.
pub open spec fn or_placeholder(text: Seq<char>) -> Seq<char> {
    if text.len() == 0 {
        SHORTCUT_INPUT_PLACEHOLDER@
    } else {
        text
    }
}

/// Whether a shown shortcut text is an actual shortcut, not the placeholder
/// nor the cleared marker.
pub open spec fn is_set_shortcut(display: Seq<char>) -> bool {
    display != SHORTCUT_INPUT_PLACEHOLDER@ && display != SHORTCUT_UNSET_TEXT@
}

/// The abstract state of the settings window.
pub struct SettingsWindowView {
    pub active_tab_ix: usize,
    pub font_slider_dragging: bool,
    pub theme_hover: ThemeHover,
    pub language_hover: LanguageHover,
    pub translate_language_selection: Seq<char>,
    pub translate_language_hover: TranslateLanguageHover,
    pub auto_download_input_focused: bool,
    pub shortcut_send_selection: Seq<char>,
    pub shortcut_send_hover: ShortcutSendHover,
    pub screenshot_text: Seq<char>,
    pub lock_text: Seq<char>,
    pub toggle_text: Seq<char>,
    pub focused_shortcut_input: Option<ShortcutInputField>,
}

impl SettingsWindowView {
    /// The state of a newly opened settings window.
    pub open spec fn initial() -> SettingsWindowView {
        SettingsWindowView {
            active_tab_ix: 1,
            font_slider_dragging: false,
            theme_hover: ThemeHover::Nothing,
            language_hover: LanguageHover::Nothing,
            translate_language_selection: "简体中文"@,
            translate_language_hover: TranslateLanguageHover::Nothing,
            auto_download_input_focused: false,
            shortcut_send_selection: "Enter"@,
            shortcut_send_hover: ShortcutSendHover::Nothing,
            screenshot_text: SHORTCUT_SCREENSHOT_DEFAULT@,
            lock_text: SHORTCUT_LOCK_DEFAULT@,
            toggle_text: SHORTCUT_TOGGLE_DEFAULT@,
            focused_shortcut_input: None,
        }
    }

    /// The stored text of a shortcut field.
    pub open spec fn shortcut_text(self, field: ShortcutInputField) -> Seq<char> {
        match field {
            ShortcutInputField::Screenshot => self.screenshot_text,
            ShortcutInputField::Lock => self.lock_text,
            ShortcutInputField::ToggleWindow => self.toggle_text,
        }
    }

    /// The state with the stored text of `field` replaced.
    pub open spec fn with_shortcut_text(self, field: ShortcutInputField, t: Seq<char>) -> Self {
        match field {
            ShortcutInputField::Screenshot => SettingsWindowView { screenshot_text: t, ..self },
            ShortcutInputField::Lock => SettingsWindowView { lock_text: t, ..self },
            ShortcutInputField::ToggleWindow => SettingsWindowView { toggle_text: t, ..self },
        }
    }

    /// Every stored shortcut text is in normal form.
    pub open spec fn shortcuts_in_normal_form(self) -> bool {
        &&& normalized(self.screenshot_text) == self.screenshot_text
        &&& normalized(self.lock_text) == self.lock_text
        &&& normalized(self.toggle_text) == self.toggle_text
    }

    pub open spec fn is_focused(self, field: ShortcutInputField) -> bool {
        self.focused_shortcut_input == Some(field)
    }

    /// The text a shortcut field shows: while it has focus, what is typed
    /// into it; otherwise its stored text; the placeholder if that is empty.
    pub open spec fn display_text(self, field: ShortcutInputField, live: Seq<char>) -> Seq<char> {
        if self.is_focused(field) {
            or_placeholder(live)
        } else {
            or_placeholder(self.shortcut_text(field))
        }
    }

    /// The text a field keeps when typing ends with `raw` in it: `raw`
    /// normalized, or the previous text if `raw` holds no visible character.
    pub open spec fn committed_text(self, field: ShortcutInputField, raw: Seq<char>) -> Seq<char> {
        if normalized(raw).len() == 0 {
            self.shortcut_text(field)
        } else {
            normalized(raw)
        }
    }

    /// The state after the shortcut field `field` reported `event` with
    /// `raw` typed into it.
    pub open spec fn after_shortcut_event(
        self,
        field: ShortcutInputField,
        event: InputFocusEvent,
        raw: Seq<char>,
    ) -> Self {
        match event {
            InputFocusEvent::Focus => SettingsWindowView {
                focused_shortcut_input: Some(field),
                ..self
            },
            InputFocusEvent::Blur => {
                let kept = self.with_shortcut_text(field, self.committed_text(field, raw));
                if self.is_focused(field) {
                    SettingsWindowView { focused_shortcut_input: None, ..kept }
                } else {
                    kept
                }
            },
            InputFocusEvent::PressEnter => self.with_shortcut_text(
                field,
                self.committed_text(field, raw),
            ),
            InputFocusEvent::Other => self,
        }
    }

    /// The state after a pointer event on the font-size slider: a press
    /// starts a drag, a release ends it, a move leaves it.
    pub open spec fn after_slider_pointer(self, event: SliderPointerEvent) -> Self {
        match event {
            SliderPointerEvent::LeftDown => SettingsWindowView { font_slider_dragging: true, ..self },
            SliderPointerEvent::Move => self,
            SliderPointerEvent::LeftUp => SettingsWindowView { font_slider_dragging: false, ..self },
        }
    }

    /// The text put into the field after `event`: nothing when it gains
    /// focus, otherwise its stored text.
    pub open spec fn input_text_after(self, field: ShortcutInputField, event: InputFocusEvent) -> Seq<char> {
        if event == InputFocusEvent::Focus {
            Seq::empty()
        } else {
            self.shortcut_text(field)
        }
    }
}

/// What the settings window must do after a shortcut field reported an
/// input event.
pub struct ShortcutFocusOutcome {
    /// The field that has focus changed, so the window must redraw.
    pub focus_changed: bool,
    /// The text to put into the field, after which its width is measured
    /// anew; `None` when the field is left as it is.
    pub input_value: Option<String>,
}

/// The settings window's own state.
pub struct SettingsWindow {
    active_tab_ix: usize,
    font_slider_dragging: bool,
    theme_hover: ThemeHover,
    language_hover: LanguageHover,
    translate_language_selection: String,
    translate_language_hover: TranslateLanguageHover,
    auto_download_input_focused: bool,
    shortcut_send_selection: String,
    shortcut_send_hover: ShortcutSendHover,
    screenshot_text: String,
    lock_text: String,
    toggle_text: String,
    focused_shortcut_input: Option<ShortcutInputField>,
}

impl View for SettingsWindow {
    type V = SettingsWindowView;

    closed spec fn view(&self) -> SettingsWindowView {
        SettingsWindowView {
            active_tab_ix: self.active_tab_ix,
            font_slider_dragging: self.font_slider_dragging,
            theme_hover: self.theme_hover,
            language_hover: self.language_hover,
            translate_language_selection: self.translate_language_selection@,
            translate_language_hover: self.translate_language_hover,
            auto_download_input_focused: self.auto_download_input_focused,
            shortcut_send_selection: self.shortcut_send_selection@,
            shortcut_send_hover: self.shortcut_send_hover,
            screenshot_text: self.screenshot_text@,
            lock_text: self.lock_text@,
            toggle_text: self.toggle_text@,
            focused_shortcut_input: self.focused_shortcut_input,
        }
    }
}

/// The default text of a shortcut field.
pub fn default_shortcut_text(field: ShortcutInputField) -> (s: &'static str)
    ensures
        s@ == default_shortcut(field),
{
    match field {
        ShortcutInputField::Screenshot => SHORTCUT_SCREENSHOT_DEFAULT,
        ShortcutInputField::Lock => SHORTCUT_LOCK_DEFAULT,
        ShortcutInputField::ToggleWindow => SHORTCUT_TOGGLE_DEFAULT,
    }
}

/// Whether a shown shortcut text is an actual shortcut; the field then
/// offers a button that clears it, and is at least its minimum width.
pub fn shortcut_text_is_set(display_text: &str) -> (r: bool)
    ensures
        r == is_set_shortcut(display_text@),
{
    let shown = display_text.to_owned();
    let placeholder = SHORTCUT_INPUT_PLACEHOLDER.to_owned();
    let unset = SHORTCUT_UNSET_TEXT.to_owned();
    !(shown == placeholder) && !(shown == unset)
}

/// The identifier of the tab at `ix` in the tab list.
pub fn settings_tab_id(ix: usize) -> (s: &'static str)
    ensures
        s@ == (if ix == 0 {
            "tab-0"@
        } else if ix == 1 {
            "tab-1"@
        } else if ix == 2 {
            "tab-2"@
        } else if ix == 3 {
            "tab-3"@
        } else if ix == 4 {
            "tab-4"@
        } else if ix == 5 {
            "tab-5"@
        } else {
            "tab-unknown"@
        }),
{
    match ix {
        0 => "tab-0",
        1 => "tab-1",
        2 => "tab-2",
        3 => "tab-3",
        4 => "tab-4",
        5 => "tab-5",
        _ => "tab-unknown",
    }
}

/// The icon of the tab at `ix` in the tab list.
pub fn settings_tab_icon(ix: usize) -> (s: &'static str)
    ensures
        s@ == (if ix == 0 {
            "setting/user.svg"@
        } else if ix == 2 {
            "setting/arrow-up9.svg"@
        } else if ix == 3 {
            "setting/notifications.svg"@
        } else if ix == 4 {
            "setting/risk.svg"@
        } else if ix == 5 {
            "setting/about.svg"@
        } else {
            "setting/setting.svg"@
        }),
{
    match ix {
        0 => "setting/user.svg",
        1 => "setting/setting.svg",
        2 => "setting/arrow-up9.svg",
        3 => "setting/notifications.svg",
        4 => "setting/risk.svg",
        5 => "setting/about.svg",
        _ => "setting/setting.svg",
    }
}

impl SettingsWindow {
    #[verifier::type_invariant]
    closed spec fn shortcuts_kept_normal(self) -> bool {
        self@.shortcuts_in_normal_form()
    }

    /// A newly opened settings window: the general page, nothing hovered or
    /// focused, and the default selections and shortcuts.
    pub fn new() -> (s: Self)
        ensures
            s@ == SettingsWindowView::initial(),
            s@.shortcuts_in_normal_form(),
    {
        proof {
            lemma_defaults_are_normal(ShortcutInputField::Screenshot);
            lemma_defaults_are_normal(ShortcutInputField::Lock);
            lemma_defaults_are_normal(ShortcutInputField::ToggleWindow);
        }
        SettingsWindow {
            active_tab_ix: 1,
            font_slider_dragging: false,
            theme_hover: ThemeHover::Nothing,
            language_hover: LanguageHover::Nothing,
            translate_language_selection: "简体中文".to_owned(),
            translate_language_hover: TranslateLanguageHover::Nothing,
            auto_download_input_focused: false,
            shortcut_send_selection: "Enter".to_owned(),
            shortcut_send_hover: ShortcutSendHover::Nothing,
            screenshot_text: SHORTCUT_SCREENSHOT_DEFAULT.to_owned(),
            lock_text: SHORTCUT_LOCK_DEFAULT.to_owned(),
            toggle_text: SHORTCUT_TOGGLE_DEFAULT.to_owned(),
            focused_shortcut_input: None,
        }
    }

    pub fn active_tab_ix(&self) -> (ix: usize)
        ensures
            ix == self@.active_tab_ix,
    {
        self.active_tab_ix
    }

    /// The page that the window shows.
    pub fn get_active_tab(&self) -> (t: SettingsTab)
        ensures
            t == tab_for_index(self@.active_tab_ix),
    {
        match self.active_tab_ix {
            0 => SettingsTab::AccountAndStorage,
            1 => SettingsTab::General,
            2 => SettingsTab::Shortcuts,
            3 => SettingsTab::Notifications,
            4 => SettingsTab::Plugins,
            5 => SettingsTab::About,
            _ => SettingsTab::General,
        }
    }

    /// Selects the tab at `ix`.
    pub fn set_active_tab(&mut self, ix: usize)
        ensures
            final(self)@ == (SettingsWindowView { active_tab_ix: ix, ..old(self)@ }),
    {
        proof {
            use_type_invariant(&*self);
        }
        self.active_tab_ix = ix;
    }

    /// Whether the tab at `ix` is the selected one.
    pub fn is_tab_active(&self, ix: usize) -> (r: bool)
        ensures
            r == (self@.active_tab_ix == ix),
    {
        self.active_tab_ix == ix
    }

    pub fn is_auto_download_input_focused(&self) -> (r: bool)
        ensures
            r == self@.auto_download_input_focused,
    {
        self.auto_download_input_focused
    }

    pub fn shortcut_send_selection_label(&self) -> (s: String)
        ensures
            s@ == self@.shortcut_send_selection,
    {
        self.shortcut_send_selection.clone()
    }

    pub fn shortcut_send_hover_state(&self) -> (h: ShortcutSendHover)
        ensures
            h == self@.shortcut_send_hover,
    {
        self.shortcut_send_hover
    }

    pub fn translate_language_selection_label(&self) -> (s: String)
        ensures
            s@ == self@.translate_language_selection,
    {
        self.translate_language_selection.clone()
    }

    pub fn translate_language_hover_state(&self) -> (h: TranslateLanguageHover)
        ensures
            h == self@.translate_language_hover,
    {
        self.translate_language_hover
    }

    pub fn theme_hover_state(&self) -> (h: ThemeHover)
        ensures
            h == self@.theme_hover,
    {
        self.theme_hover
    }

    pub fn language_hover_state(&self) -> (h: LanguageHover)
        ensures
            h == self@.language_hover,
    {
        self.language_hover
    }

    /// The pointer entered the send-shortcut item `hover`.
    pub fn set_shortcut_send_hover(&mut self, hover: ShortcutSendHover)
        ensures
            final(self)@ == (SettingsWindowView { shortcut_send_hover: hover, ..old(self)@ }),
    {
        proof {
            use_type_invariant(&*self);
        }
        self.shortcut_send_hover = hover;
    }

    /// The pointer left the send-shortcut item `hover`.
    pub fn clear_shortcut_send_hover(&mut self, hover: ShortcutSendHover)
        ensures
            final(self)@ == (SettingsWindowView {
                shortcut_send_hover: send_hover_after(old(self)@.shortcut_send_hover, hover, false),
                ..old(self)@
            }),
    {
        proof {
            use_type_invariant(&*self);
        }
        if self.shortcut_send_hover == hover {
            self.shortcut_send_hover = ShortcutSendHover::Nothing;
        }
    }

    pub fn set_shortcut_send_selection(&mut self, value: &str)
        ensures
            final(self)@ == (SettingsWindowView { shortcut_send_selection: value@, ..old(self)@ }),
    {
        proof {
            use_type_invariant(&*self);
        }
        self.shortcut_send_selection = value.to_owned();
    }

    pub fn set_translate_language_selection(&mut self, value: &str)
        ensures
            final(self)@ == (SettingsWindowView {
                translate_language_selection: value@,
                ..old(self)@
            }),
    {
        proof {
            use_type_invariant(&*self);
        }
        self.translate_language_selection = value.to_owned();
    }

    /// The pointer entered the translation-language item `hover`.
    pub fn set_translate_language_hover(&mut self, hover: TranslateLanguageHover)
        ensures
            final(self)@ == (SettingsWindowView { translate_language_hover: hover, ..old(self)@ }),
    {
        proof {
            use_type_invariant(&*self);
        }
        self.translate_language_hover = hover;
    }

    /// The pointer left the translation-language item `hover`.
    pub fn clear_translate_language_hover(&mut self, hover: TranslateLanguageHover)
        ensures
            final(self)@ == (SettingsWindowView {
                translate_language_hover: translate_hover_after(
                    old(self)@.translate_language_hover,
                    hover,
                    false,
                ),
                ..old(self)@
            }),
    {
        proof {
            use_type_invariant(&*self);
        }
        if self.translate_language_hover == hover {
            self.translate_language_hover = TranslateLanguageHover::Nothing;
        }
    }

    /// The pointer entered (`entering`) or left the appearance item `item`.
    pub fn update_theme_hover(&mut self, item: ThemeHover, entering: bool)
        ensures
            final(self)@ == (SettingsWindowView {
                theme_hover: theme_hover_after(old(self)@.theme_hover, item, entering),
                ..old(self)@
            }),
    {
        proof {
            use_type_invariant(&*self);
        }
        self.theme_hover = if entering {
            item
        } else if self.theme_hover == item {
            ThemeHover::Nothing
        } else {
            self.theme_hover
        };
    }

    /// An appearance item was chosen and the menu closes.
    pub fn reset_theme_hover(&mut self)
        ensures
            final(self)@ == (SettingsWindowView { theme_hover: ThemeHover::Nothing, ..old(self)@ }),
    {
        proof {
            use_type_invariant(&*self);
        }
        self.theme_hover = ThemeHover::Nothing;
    }

    /// The pointer entered (`entering`) or left the language item `item`.
    pub fn update_language_hover(&mut self, item: LanguageHover, entering: bool)
        ensures
            final(self)@ == (SettingsWindowView {
                language_hover: language_hover_after(old(self)@.language_hover, item, entering),
                ..old(self)@
            }),
    {
        proof {
            use_type_invariant(&*self);
        }
        self.language_hover = if entering {
            item
        } else if self.language_hover == item {
            LanguageHover::Nothing
        } else {
            self.language_hover
        };
    }

    /// A language item was chosen and the menu closes.
    pub fn reset_language_hover(&mut self)
        ensures
            final(self)@ == (SettingsWindowView {
                language_hover: LanguageHover::Nothing,
                ..old(self)@
            }),
    {
        proof {
            use_type_invariant(&*self);
        }
        self.language_hover = LanguageHover::Nothing;
    }

    /// The pointer went down on the font-size slider.
    pub fn begin_font_slider_drag(&mut self)
        ensures
            final(self)@ == (SettingsWindowView { font_slider_dragging: true, ..old(self)@ }),
    {
        proof {
            use_type_invariant(&*self);
        }
        self.font_slider_dragging = true;
    }

    /// The pointer was released.
    pub fn end_font_slider_drag(&mut self)
        ensures
            final(self)@ == (SettingsWindowView { font_slider_dragging: false, ..old(self)@ }),
    {
        proof {
            use_type_invariant(&*self);
        }
        self.font_slider_dragging = false;
    }

    /// The pointer did `event` on the font-size slider while over step
    /// `pointed_step`; returns the font size in pixels to apply, if any.
    pub fn handle_font_slider_pointer(&mut self, event: SliderPointerEvent, pointed_step: usize) -> (size:
        Option<u32>)
        ensures
            final(self)@ == old(self)@.after_slider_pointer(event),
            size is Some == slider_font_size(
                old(self)@.font_slider_dragging,
                event,
                pointed_step as int,
            ) is Some,
            size matches Some(v) ==> Some(v as int) == slider_font_size(
                old(self)@.font_slider_dragging,
                event,
                pointed_step as int,
            ),
    {
        proof {
            use_type_invariant(&*self);
        }
        match event {
            SliderPointerEvent::LeftDown => {
                self.font_slider_dragging = true;
                Some(font_size_for_step(pointed_step))
            },
            SliderPointerEvent::Move => {
                if self.font_slider_dragging {
                    Some(font_size_for_step(pointed_step))
                } else {
                    None
                }
            },
            SliderPointerEvent::LeftUp => {
                self.font_slider_dragging = false;
                None
            },
        }
    }

    /// Whether pointer moves choose a font size.
    pub fn is_font_slider_dragging(&self) -> (r: bool)
        ensures
            r == self@.font_slider_dragging,
    {
        self.font_slider_dragging
    }

    /// Whether the shortcut field `field` has focus.
    pub fn is_shortcut_input_focused(&self, field: ShortcutInputField) -> (r: bool)
        ensures
            r == self@.is_focused(field),
    {
        match self.focused_shortcut_input {
            Some(f) => f == field,
            None => false,
        }
    }

    /// The stored text of a shortcut field.
    pub fn shortcut_field_text(&self, field: ShortcutInputField) -> (s: String)
        ensures
            s@ == self@.shortcut_text(field),
    {
        match field {
            ShortcutInputField::Screenshot => self.screenshot_text.clone(),
            ShortcutInputField::Lock => self.lock_text.clone(),
            ShortcutInputField::ToggleWindow => self.toggle_text.clone(),
        }
    }

    fn store_shortcut_text(&mut self, field: ShortcutInputField, text: String)
        requires
            normalized(text@) == text@,
        ensures
            final(self)@ == old(self)@.with_shortcut_text(field, text@),
    {
        proof {
            use_type_invariant(&*self);
        }
        match field {
            ShortcutInputField::Screenshot => self.screenshot_text = text,
            ShortcutInputField::Lock => self.lock_text = text,
            ShortcutInputField::ToggleWindow => self.toggle_text = text,
        }
    }

    /// Stores `value`, normalized, as the text of `field`, and returns the
    /// stored text, which the field then shows.
    pub fn set_shortcut_field_text(&mut self, field: ShortcutInputField, value: &str) -> (s: String)
        ensures
            final(self)@.shortcuts_in_normal_form(),
            s@ == normalized(value@),
            final(self)@ == old(self)@.with_shortcut_text(field, normalized(value@)),
    {
        proof {
            use_type_invariant(&*self);
        }
        let owned = normalize_shortcut_text(value);
        proof {
            crate::text::law_normalize_idempotent(value@);
        }
        let shown = owned.clone();
        self.store_shortcut_text(field, owned);
        shown
    }

    /// Restores the default text of all three shortcut fields.
    pub fn reset_shortcut_fields(&mut self)
        ensures
            final(self)@.shortcuts_in_normal_form(),
            final(self)@ == (SettingsWindowView {
                screenshot_text: SHORTCUT_SCREENSHOT_DEFAULT@,
                lock_text: SHORTCUT_LOCK_DEFAULT@,
                toggle_text: SHORTCUT_TOGGLE_DEFAULT@,
                ..old(self)@
            }),
    {
        proof {
            use_type_invariant(&*self);
        }
        proof {
            lemma_defaults_are_normal(ShortcutInputField::Screenshot);
            lemma_defaults_are_normal(ShortcutInputField::Lock);
            lemma_defaults_are_normal(ShortcutInputField::ToggleWindow);
        }
        self.set_shortcut_field_text(ShortcutInputField::Screenshot, SHORTCUT_SCREENSHOT_DEFAULT);
        self.set_shortcut_field_text(ShortcutInputField::Lock, SHORTCUT_LOCK_DEFAULT);
        self.set_shortcut_field_text(ShortcutInputField::ToggleWindow, SHORTCUT_TOGGLE_DEFAULT);
    }

    /// The text that the shortcut field shows, given `live_text`, what is
    /// typed into it now.
    pub fn shortcut_display_text(&self, field: ShortcutInputField, live_text: &str) -> (s: String)
        ensures
            s@ == self@.display_text(field, live_text@),
    {
        if self.is_shortcut_input_focused(field) {
            if live_text.is_empty() {
                SHORTCUT_INPUT_PLACEHOLDER.to_owned()
            } else {
                live_text.to_owned()
            }
        } else {
            let text = self.shortcut_field_text(field);
            if text.as_str().is_empty() {
                SHORTCUT_INPUT_PLACEHOLDER.to_owned()
            } else {
                text
            }
        }
    }

    /// Whether the row of `field` offers the button that clears the
    /// shortcut, given the text the field shows.
    pub fn shortcut_row_shows_clear_icon(&self, field: ShortcutInputField, display_text: &str) -> (r:
        bool)
        ensures
            r == (!self@.is_focused(field) && is_set_shortcut(display_text@)),
    {
        !self.is_shortcut_input_focused(field) && shortcut_text_is_set(display_text)
    }

    /// Typing into `field` ended with `raw` in it: keeps `raw` normalized,
    /// or the previous text if `raw` is blank, and returns the kept text,
    /// which the field then shows.
    pub fn commit_shortcut_input_text(&mut self, field: ShortcutInputField, raw: &str) -> (s: String)
        ensures
            final(self)@.shortcuts_in_normal_form(),
            s@ == old(self)@.committed_text(field, raw@),
            final(self)@ == old(self)@.with_shortcut_text(field, s@),
    {
        proof {
            use_type_invariant(&*self);
        }
        proof {
            crate::text::law_normalize_idempotent(raw@);
        }
        let normalized_text = normalize_shortcut_text(raw);
        let final_text = if normalized_text.as_str().is_empty() {
            self.shortcut_field_text(field)
        } else {
            normalized_text
        };
        let shown = final_text.clone();
        self.store_shortcut_text(field, final_text);
        shown
    }

    /// The auto-download size field gained or lost focus; returns whether
    /// the window must redraw.
    pub fn handle_auto_download_input_focus(&mut self, event: InputFocusEvent) -> (redraw: bool)
        ensures
            final(self)@ == (SettingsWindowView {
                auto_download_input_focused: match event {
                    InputFocusEvent::Focus => true,
                    InputFocusEvent::Blur => false,
                    _ => old(self)@.auto_download_input_focused,
                },
                ..old(self)@
            }),
            redraw == (final(self)@.auto_download_input_focused
                != old(self)@.auto_download_input_focused),
    {
        proof {
            use_type_invariant(&*self);
        }
        match event {
            InputFocusEvent::Focus => {
                if !self.auto_download_input_focused {
                    self.auto_download_input_focused = true;
                    true
                } else {
                    false
                }
            },
            InputFocusEvent::Blur => {
                if self.auto_download_input_focused {
                    self.auto_download_input_focused = false;
                    true
                } else {
                    false
                }
            },
            _ => false,
        }
    }

    /// The shortcut field `field` reported `event`; `raw_text` is what is
    /// typed into it. Focusing a field empties it for a new shortcut;
    /// leaving it or pressing Enter keeps what was typed.
    pub fn handle_shortcut_input_focus(
        &mut self,
        field: ShortcutInputField,
        event: InputFocusEvent,
        raw_text: &str,
    ) -> (out: ShortcutFocusOutcome)
        ensures
            final(self)@.shortcuts_in_normal_form(),
            final(self)@ == old(self)@.after_shortcut_event(field, event, raw_text@),
            out.focus_changed == (final(self)@.focused_shortcut_input
                != old(self)@.focused_shortcut_input),
            out.input_value matches Some(v) ==> v@ == final(self)@.input_text_after(field, event),
            out.input_value is Some <==> event != InputFocusEvent::Other,
    {
        proof {
            use_type_invariant(&*self);
        }
        match event {
            InputFocusEvent::Focus => {
                let changed = !self.is_shortcut_input_focused(field);
                self.focused_shortcut_input = Some(field);
                ShortcutFocusOutcome { focus_changed: changed, input_value: Some(String::new()) }
            },
            InputFocusEvent::Blur => {
                let changed = self.is_shortcut_input_focused(field);
                if changed {
                    self.focused_shortcut_input = None;
                }
                let kept = self.commit_shortcut_input_text(field, raw_text);
                ShortcutFocusOutcome { focus_changed: changed, input_value: Some(kept) }
            },
            InputFocusEvent::PressEnter => {
                let kept = self.commit_shortcut_input_text(field, raw_text);
                ShortcutFocusOutcome { focus_changed: false, input_value: Some(kept) }
            },
            InputFocusEvent::Other => ShortcutFocusOutcome {
                focus_changed: false,
                input_value: None,
            },
        }
    }
}

/// Entering an item of a popover menu and leaving it again leaves no item
/// hovered; leaving an item that is not the hovered one changes nothing.
pub proof fn law_hover_enter_then_leave(
    theme: ThemeHover,
    lang: LanguageHover,
    translate: TranslateLanguageHover,
    send: ShortcutSendHover,
)
    ensures
        theme_hover_after(theme_hover_after(theme, theme, true), theme, false) == ThemeHover::Nothing,
        language_hover_after(language_hover_after(lang, lang, true), lang, false)
            == LanguageHover::Nothing,
        translate_hover_after(translate_hover_after(translate, translate, true), translate, false)
            == TranslateLanguageHover::Nothing,
        send_hover_after(send_hover_after(send, send, true), send, false)
            == ShortcutSendHover::Nothing,
        forall|cur: ThemeHover, item: ThemeHover|
            cur != item ==> #[trigger] theme_hover_after(cur, item, false) == cur,
        forall|cur: LanguageHover, item: LanguageHover|
            cur != item ==> #[trigger] language_hover_after(cur, item, false) == cur,
        forall|cur: TranslateLanguageHover, item: TranslateLanguageHover|
            cur != item ==> #[trigger] translate_hover_after(cur, item, false) == cur,
        forall|cur: ShortcutSendHover, item: ShortcutSendHover|
            cur != item ==> #[trigger] send_hover_after(cur, item, false) == cur,
{
}

/// Focusing a shortcut field and then leaving it leaves no field focused,
/// and the field keeps what was typed, normalized, or its previous text
/// when nothing visible was typed; the other fields keep theirs.
pub proof fn law_focus_then_blur(
    v: SettingsWindowView,
    field: ShortcutInputField,
    first: Seq<char>,
    typed: Seq<char>,
)
    ensures
        ({
            let after = v.after_shortcut_event(field, InputFocusEvent::Focus, first)
                .after_shortcut_event(field, InputFocusEvent::Blur, typed);
            &&& after.focused_shortcut_input is None
            &&& after.shortcut_text(field) == v.committed_text(field, typed)
            &&& forall|other: ShortcutInputField|
                other != field ==> #[trigger] after.shortcut_text(other) == v.shortcut_text(other)
        }),
{
}

/// Confirming a shortcut field again with the text it now shows changes
/// nothing, as long as its text was in normal form before.
pub proof fn law_commit_is_stable(v: SettingsWindowView, field: ShortcutInputField, raw: Seq<char>)
    requires
        normalized(v.shortcut_text(field)) == v.shortcut_text(field),
    ensures
        ({
            let w = v.after_shortcut_event(field, InputFocusEvent::PressEnter, raw);
            w.after_shortcut_event(field, InputFocusEvent::PressEnter, w.shortcut_text(field)) == w
        }),
{
    crate::text::law_normalize_idempotent(raw);
    let w = v.after_shortcut_event(field, InputFocusEvent::PressEnter, raw);
    let t = w.shortcut_text(field);
    assert(normalized(t) == t);
    assert(w.with_shortcut_text(field, w.committed_text(field, t)) == w);
}

/// On the font-size slider, a pointer move changes the font size only
/// during a drag; only a press starts a drag and a release ends it, and a
/// chosen size is always one of the nine steps from 15 to 23 pixels.
pub proof fn law_slider_moves_only_while_dragging(
    v: SettingsWindowView,
    event: SliderPointerEvent,
    step: int,
)
    ensures
        !v.font_slider_dragging ==> slider_font_size(v.font_slider_dragging, SliderPointerEvent::Move, step)
            is None,
        v.after_slider_pointer(SliderPointerEvent::Move) == v,
        v.after_slider_pointer(SliderPointerEvent::LeftUp).font_slider_dragging == false,
        slider_font_size(v.font_slider_dragging, SliderPointerEvent::LeftUp, step) is None,
        v.after_slider_pointer(event).font_slider_dragging ==> (event == SliderPointerEvent::LeftDown
            || v.font_slider_dragging),
        slider_font_size(v.font_slider_dragging, event, step) matches Some(size) ==> 15 <= size <= 23,
{
}

/// The default shortcuts are in normal form.
proof fn lemma_defaults_are_normal(field: ShortcutInputField)
    ensures
        normalized(default_shortcut(field)) == default_shortcut(field),
{
    reveal_strlit("Ctrl + Alt + A");
    reveal_strlit("Ctrl + Alt + L");
    reveal_strlit("Ctrl + Alt + W");
    let last = match field {
        ShortcutInputField::Screenshot => 'A',
        ShortcutInputField::Lock => 'L',
        ShortcutInputField::ToggleWindow => 'W',
    };
    let ws = seq![seq!['C', 't', 'r', 'l'], seq!['+'], seq!['A', 'l', 't'], seq!['+'], seq![last]];
    assert forall|i: int| 0 <= i < ws.len() implies is_word(#[trigger] ws[i]) by {
        assert forall|k: int| 0 <= k < ws[i].len() implies !is_space(#[trigger] ws[i][k]) by {}
    }
    reveal_with_fuel(join_words, 6);
    assert(join_words(ws) =~= default_shortcut(field));
    crate::text::lemma_joined_words_are_normal(ws);
}


/// Typing ends (the field loses focus or Enter is pressed): if nothing
/// visible was typed, the field keeps exactly the text it had before;
/// otherwise it keeps what was typed, normalized. No other field changes.
pub proof fn law_commit_keeps_previous_on_blank(
    v: SettingsWindowView,
    field: ShortcutInputField,
    raw: Seq<char>,
    event: InputFocusEvent,
)
    requires
        event == InputFocusEvent::Blur || event == InputFocusEvent::PressEnter,
    ensures
        (forall|i: int| 0 <= i < raw.len() ==> is_space(#[trigger] raw[i])) ==> v.after_shortcut_event(
            field,
            event,
            raw,
        ).shortcut_text(field) == v.shortcut_text(field),
        (exists|i: int| 0 <= i < raw.len() && !is_space(#[trigger] raw[i])) ==> v.after_shortcut_event(
            field,
            event,
            raw,
        ).shortcut_text(field) == normalized(raw),
        forall|other: ShortcutInputField|
            other != field ==> #[trigger] v.after_shortcut_event(field, event, raw).shortcut_text(other)
                == v.shortcut_text(other),
{
    crate::text::law_normalized_empty_iff_blank(raw);
}

/// While a field has focus it shows what is typed into it, or the
/// placeholder when nothing is, whatever shortcut it stored; without focus
/// it shows its stored shortcut, or the placeholder when that is empty.
pub proof fn law_display_follows_focus(v: SettingsWindowView, field: ShortcutInputField, live: Seq<char>)
    ensures
        v.is_focused(field) && live.len() == 0 ==> v.display_text(field, live)
            == SHORTCUT_INPUT_PLACEHOLDER@,
        v.is_focused(field) && live.len() > 0 ==> v.display_text(field, live) == live,
        v.is_focused(field) ==> forall|t: Seq<char>|
            #[trigger] v.with_shortcut_text(field, t).display_text(field, live) == v.display_text(
                field,
                live,
            ),
        !v.is_focused(field) && v.shortcut_text(field).len() == 0 ==> v.display_text(field, live)
            == SHORTCUT_INPUT_PLACEHOLDER@,
        !v.is_focused(field) && v.shortcut_text(field).len() > 0 ==> v.display_text(field, live)
            == v.shortcut_text(field),
{
    assert forall|t: Seq<char>| v.is_focused(field) implies #[trigger] v.with_shortcut_text(
        field,
        t,
    ).display_text(field, live) == v.display_text(field, live) by {
        assert(v.with_shortcut_text(field, t).focused_shortcut_input == v.focused_shortcut_input);
    }
}

} // verus!
