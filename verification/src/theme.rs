//! The client's colour palettes for the light and the dark mode, and the
//! values that switching the mode writes into the app-wide theme.
use vstd::prelude::*;

verus! {

/// Light or dark appearance.
#[derive(Clone, Copy, Debug, PartialEq, Eq, Structural)]
pub enum ThemeMode {
    Light,
    Dark,
}

/// A 24-bit RGB colour (`0xRRGGBB`) drawn with an opacity given in percent.
#[derive(Clone, Copy, Debug, PartialEq, Eq, Structural)]
pub struct ColorSpec {
    pub hex: u32,
    pub opacity_pct: u32,
}

pub open spec fn opaque(hex: u32) -> ColorSpec {
    ColorSpec { hex, opacity_pct: 100 }
}

pub open spec fn translucent(hex: u32, opacity_pct: u32) -> ColorSpec {
    ColorSpec { hex, opacity_pct }
}

impl ColorSpec {
    /// A fully opaque colour.
    pub fn opaque(hex: u32) -> (c: ColorSpec)
        ensures
            c == opaque(hex),
    {
        ColorSpec { hex, opacity_pct: 100 }
    }

    /// A colour with the given opacity in percent.
    pub fn translucent(hex: u32, opacity_pct: u32) -> (c: ColorSpec)
        ensures
            c == translucent(hex, opacity_pct),
    {
        ColorSpec { hex, opacity_pct }
    }
}

/// The named colours of the client's own surfaces.
#[derive(Clone, Copy, Debug, PartialEq, Eq, Structural)]
pub struct WeixinThemeColors {
    pub toolbar_bg: ColorSpec,
    pub toolbar_button_hover: ColorSpec,
    pub toolbar_button_active: ColorSpec,
    pub session_list_bg: ColorSpec,
    pub chat_area_bg: ColorSpec,
    pub search_bar_bg: ColorSpec,
    pub item_hover: ColorSpec,
    pub item_selected: ColorSpec,
    pub settings_button_bg: ColorSpec,
    pub settings_button_hover: ColorSpec,
    pub settings_button_active: ColorSpec,
    pub message_bubble_self: ColorSpec,
    pub message_bubble_other: ColorSpec,
    pub message_text_self: ColorSpec,
    pub message_text_other: ColorSpec,
    pub weixin_green: ColorSpec,
    pub unread_badge: ColorSpec,
    pub caret: ColorSpec,
    pub storage_path_text: ColorSpec,
    pub input_field_bg: ColorSpec,
    pub input_field_focus: ColorSpec,
    pub send_button_disabled_bg: ColorSpec,
    pub send_button_disabled_text: ColorSpec,
    pub window_button_hover: ColorSpec,
    pub popover_bg: ColorSpec,
    pub chat_button_hover: ColorSpec,
}

/// The light palette.
pub open spec fn light_colors() -> WeixinThemeColors {
    WeixinThemeColors {
        toolbar_bg: opaque(0xE6E6E6),
        toolbar_button_hover: translucent(0x000000, 6),
        toolbar_button_active: translucent(0x000000, 10),
        session_list_bg: opaque(0xF7F7F7),
        chat_area_bg: opaque(0xEDEDED),
        search_bar_bg: opaque(0xEDEDED),
        item_hover: opaque(0xEAEAEA),
        item_selected: opaque(0xDEDEDE),
        settings_button_bg: opaque(0xEAEAEA),
        settings_button_hover: opaque(0xE4E4E4),
        settings_button_active: opaque(0xE4E4E4),
        message_bubble_self: opaque(0x95EC69),
        message_bubble_other: opaque(0xFFFFFF),
        message_text_self: opaque(0x000000),
        message_text_other: opaque(0x333333),
        weixin_green: opaque(0x07C160),
        unread_badge: opaque(0xFA5151),
        caret: opaque(0x07C160),
        storage_path_text: opaque(0x576B95),
        input_field_bg: opaque(0xFFFFFF),
        input_field_focus: opaque(0x44D087),
        send_button_disabled_bg: opaque(0xE1E1E1),
        send_button_disabled_text: opaque(0x9D9D9D),
        window_button_hover: opaque(0xE0E0E0),
        popover_bg: opaque(0xFFFFFF),
        chat_button_hover: opaque(0xE0E0E0),
    }
}

/// The dark palette.
pub open spec fn dark_colors() -> WeixinThemeColors {
    WeixinThemeColors {
        toolbar_bg: opaque(0x2C2C2C),
        toolbar_button_hover: translucent(0xFFFFFF, 7),
        toolbar_button_active: translucent(0xFFFFFF, 11),
        session_list_bg: opaque(0x242424),
        chat_area_bg: opaque(0x191919),
        search_bar_bg: opaque(0x2F2F2F),
        item_hover: opaque(0x2F2F2F),
        item_selected: opaque(0x3A3A3A),
        settings_button_bg: opaque(0x2F2F2F),
        settings_button_hover: opaque(0x353535),
        settings_button_active: opaque(0x353535),
        message_bubble_self: opaque(0x95EC69),
        message_bubble_other: opaque(0x3A3A3A),
        message_text_self: opaque(0x000000),
        message_text_other: opaque(0xE6E6E6),
        weixin_green: opaque(0x07C160),
        unread_badge: opaque(0xFA5151),
        caret: opaque(0x07C160),
        storage_path_text: opaque(0x7D90A9),
        input_field_bg: opaque(0x2E2E2E),
        input_field_focus: opaque(0x0E9A51),
        send_button_disabled_bg: opaque(0x252525),
        send_button_disabled_text: opaque(0x575757),
        window_button_hover: opaque(0x242424),
        popover_bg: opaque(0x242424),
        chat_button_hover: opaque(0x242424),
    }
}

/// The palette of a mode.
pub open spec fn colors_for(mode: ThemeMode) -> WeixinThemeColors {
    match mode {
        ThemeMode::Light => light_colors(),
        ThemeMode::Dark => dark_colors(),
    }
}

impl WeixinThemeColors {
    pub fn light() -> (c: Self)
        ensures
            c == light_colors(),
    {
        WeixinThemeColors {
            toolbar_bg: ColorSpec::opaque(0xE6E6E6),
            toolbar_button_hover: ColorSpec::translucent(0x000000, 6),
            toolbar_button_active: ColorSpec::translucent(0x000000, 10),
            session_list_bg: ColorSpec::opaque(0xF7F7F7),
            chat_area_bg: ColorSpec::opaque(0xEDEDED),
            search_bar_bg: ColorSpec::opaque(0xEDEDED),
            item_hover: ColorSpec::opaque(0xEAEAEA),
            item_selected: ColorSpec::opaque(0xDEDEDE),
            settings_button_bg: ColorSpec::opaque(0xEAEAEA),
            settings_button_hover: ColorSpec::opaque(0xE4E4E4),
            settings_button_active: ColorSpec::opaque(0xE4E4E4),
            message_bubble_self: ColorSpec::opaque(0x95EC69),
            message_bubble_other: ColorSpec::opaque(0xFFFFFF),
            message_text_self: ColorSpec::opaque(0x000000),
            message_text_other: ColorSpec::opaque(0x333333),
            weixin_green: ColorSpec::opaque(0x07C160),
            unread_badge: ColorSpec::opaque(0xFA5151),
            caret: ColorSpec::opaque(0x07C160),
            storage_path_text: ColorSpec::opaque(0x576B95),
            input_field_bg: ColorSpec::opaque(0xFFFFFF),
            input_field_focus: ColorSpec::opaque(0x44D087),
            send_button_disabled_bg: ColorSpec::opaque(0xE1E1E1),
            send_button_disabled_text: ColorSpec::opaque(0x9D9D9D),
            window_button_hover: ColorSpec::opaque(0xE0E0E0),
            popover_bg: ColorSpec::opaque(0xFFFFFF),
            chat_button_hover: ColorSpec::opaque(0xE0E0E0),
        }
    }

    pub fn dark() -> (c: Self)
        ensures
            c == dark_colors(),
    {
        WeixinThemeColors {
            toolbar_bg: ColorSpec::opaque(0x2C2C2C),
            toolbar_button_hover: ColorSpec::translucent(0xFFFFFF, 7),
            toolbar_button_active: ColorSpec::translucent(0xFFFFFF, 11),
            session_list_bg: ColorSpec::opaque(0x242424),
            chat_area_bg: ColorSpec::opaque(0x191919),
            search_bar_bg: ColorSpec::opaque(0x2F2F2F),
            item_hover: ColorSpec::opaque(0x2F2F2F),
            item_selected: ColorSpec::opaque(0x3A3A3A),
            settings_button_bg: ColorSpec::opaque(0x2F2F2F),
            settings_button_hover: ColorSpec::opaque(0x353535),
            settings_button_active: ColorSpec::opaque(0x353535),
            message_bubble_self: ColorSpec::opaque(0x95EC69),
            message_bubble_other: ColorSpec::opaque(0x3A3A3A),
            message_text_self: ColorSpec::opaque(0x000000),
            message_text_other: ColorSpec::opaque(0xE6E6E6),
            weixin_green: ColorSpec::opaque(0x07C160),
            unread_badge: ColorSpec::opaque(0xFA5151),
            caret: ColorSpec::opaque(0x07C160),
            storage_path_text: ColorSpec::opaque(0x7D90A9),
            input_field_bg: ColorSpec::opaque(0x2E2E2E),
            input_field_focus: ColorSpec::opaque(0x0E9A51),
            send_button_disabled_bg: ColorSpec::opaque(0x252525),
            send_button_disabled_text: ColorSpec::opaque(0x575757),
            window_button_hover: ColorSpec::opaque(0x242424),
            popover_bg: ColorSpec::opaque(0x242424),
            chat_button_hover: ColorSpec::opaque(0x242424),
        }
    }
}

/// A change of lightness applied to a colour, in percent.
#[derive(Clone, Copy, Debug, PartialEq, Eq, Structural)]
pub enum LightnessShift {
    Lighten(u32),
    Darken(u32),
}

/// A colour derived from a base colour: its lightness shifted, then drawn
/// with the given opacity in percent.
#[derive(Clone, Copy, Debug, PartialEq, Eq, Structural)]
pub struct DerivedColor {
    pub base: ColorSpec,
    pub shift: LightnessShift,
    pub opacity_pct: u32,
}

/// The values of the app-wide theme that switching the mode writes.
#[derive(Clone, Copy, Debug, PartialEq, Eq, Structural)]
pub struct ThemeOverrides {
    pub mode: ThemeMode,
    pub background: DerivedColor,
    pub caret: ColorSpec,
    pub ring: ColorSpec,
    pub primary: ColorSpec,
    pub primary_hover: ColorSpec,
    pub primary_active: ColorSpec,
    pub switch: ColorSpec,
    pub switch_thumb: ColorSpec,
}

/// What switching to `mode` writes into the app-wide theme.
pub open spec fn overrides_for(mode: ThemeMode) -> ThemeOverrides {
    let colors = colors_for(mode);
    ThemeOverrides {
        mode,
        background: match mode {
            ThemeMode::Light => DerivedColor {
                base: colors.toolbar_bg,
                shift: LightnessShift::Lighten(7),
                opacity_pct: 70,
            },
            ThemeMode::Dark => DerivedColor {
                base: colors.toolbar_bg,
                shift: LightnessShift::Darken(45),
                opacity_pct: 85,
            },
        },
        caret: colors.caret,
        ring: colors.input_field_focus,
        primary: opaque(0x07C160),
        primary_hover: match mode {
            ThemeMode::Light => opaque(0x06B75B),
            ThemeMode::Dark => opaque(0x13C468),
        },
        primary_active: colors.weixin_green,
        switch: opaque(0xcccccc),
        switch_thumb: opaque(0xffffff),
    }
}

/// The colours of the select buttons of the general settings page:
/// background, hover, pressed and border.
pub open spec fn select_button_colors(mode: ThemeMode) -> (ColorSpec, ColorSpec, ColorSpec, ColorSpec) {
    match mode {
        ThemeMode::Light => (opaque(0xFFFFFF), opaque(0xF2F2F2), opaque(0xF2F2F2), opaque(0xEBEBEB)),
        ThemeMode::Dark => {
            let c = dark_colors();
            (c.search_bar_bg, c.item_hover, c.item_hover, c.item_selected)
        },
    }
}

/// The label of the appearance selector for a mode.
pub open spec fn mode_label(mode: ThemeMode) -> Seq<char> {
    match mode {
        ThemeMode::Light => "浅色模式"@,
        ThemeMode::Dark => "深色模式"@,
    }
}

/// The client's theme, keyed by the appearance mode.
pub struct Theme;

impl Theme {
    /// The palette of the given mode.
    pub fn weixin_colors(mode: ThemeMode) -> (c: WeixinThemeColors)
        ensures
            c == colors_for(mode),
    {
        match mode {
            ThemeMode::Light => WeixinThemeColors::light(),
            ThemeMode::Dark => WeixinThemeColors::dark(),
        }
    }

    /// The theme values that switching to the light mode writes.
    pub fn set_light() -> (o: ThemeOverrides)
        ensures
            o == overrides_for(ThemeMode::Light),
    {
        let colors = WeixinThemeColors::light();
        ThemeOverrides {
            mode: ThemeMode::Light,
            background: DerivedColor {
                base: colors.toolbar_bg,
                shift: LightnessShift::Lighten(7),
                opacity_pct: 70,
            },
            caret: colors.caret,
            ring: colors.input_field_focus,
            primary: ColorSpec::opaque(0x07C160),
            primary_hover: ColorSpec::opaque(0x06B75B),
            primary_active: colors.weixin_green,
            switch: ColorSpec::opaque(0xcccccc),
            switch_thumb: ColorSpec::opaque(0xffffff),
        }
    }

    /// The theme values that switching to the dark mode writes.
    pub fn set_dark() -> (o: ThemeOverrides)
        ensures
            o == overrides_for(ThemeMode::Dark),
    {
        let colors = WeixinThemeColors::dark();
        ThemeOverrides {
            mode: ThemeMode::Dark,
            background: DerivedColor {
                base: colors.toolbar_bg,
                shift: LightnessShift::Darken(45),
                opacity_pct: 85,
            },
            caret: colors.caret,
            ring: colors.input_field_focus,
            primary: ColorSpec::opaque(0x07C160),
            primary_hover: ColorSpec::opaque(0x13C468),
            primary_active: colors.weixin_green,
            switch: ColorSpec::opaque(0xcccccc),
            switch_thumb: ColorSpec::opaque(0xffffff),
        }
    }

    /// Background, hover, pressed and border colours of the select buttons.
    pub fn general_select_button_colors(mode: ThemeMode) -> (r: (
        ColorSpec,
        ColorSpec,
        ColorSpec,
        ColorSpec,
    ))
        ensures
            r == select_button_colors(mode),
    {
        let colors = Self::weixin_colors(mode);
        match mode {
            ThemeMode::Light => (
                ColorSpec::opaque(0xFFFFFF),
                ColorSpec::opaque(0xF2F2F2),
                ColorSpec::opaque(0xF2F2F2),
                ColorSpec::opaque(0xEBEBEB),
            ),
            ThemeMode::Dark => (
                colors.search_bar_bg,
                colors.item_hover,
                colors.item_hover,
                colors.item_selected,
            ),
        }
    }

    /// The label of the appearance selector.
    pub fn mode_label(mode: ThemeMode) -> (s: &'static str)
        ensures
            s@ == mode_label(mode),
    {
        match mode {
            ThemeMode::Light => "浅色模式",
            ThemeMode::Dark => "深色模式",
        }
    }
}


/// Switching to a mode writes that mode, the mode's own caret colour (not
/// the input background, so the cursor stays visible), its input-focus
/// colour as the focus ring and its green as the pressed primary colour;
/// the background is the mode's toolbar colour, lightened in the light mode
/// and darkened in the dark mode.
pub proof fn law_mode_switch_uses_the_palette(mode: ThemeMode)
    ensures
        overrides_for(mode).mode == mode,
        overrides_for(mode).caret == colors_for(mode).caret,
        overrides_for(mode).caret != colors_for(mode).input_field_bg,
        overrides_for(mode).ring == colors_for(mode).input_field_focus,
        overrides_for(mode).primary_active == colors_for(mode).weixin_green,
        overrides_for(mode).background.base == colors_for(mode).toolbar_bg,
        mode == ThemeMode::Light ==> overrides_for(mode).background.shift is Lighten,
        mode == ThemeMode::Dark ==> overrides_for(mode).background.shift is Darken,
{
}

} // verus!
