# weixin_ui

The state and rules behind the settings window, the toolbar and the colour
themes of a desktop chat client, verified with Verus.

- `src/text.rs` – whitespace normalisation of typed shortcuts.
- `src/settings.rs` – the settings window's state: tabs, popover-menu hover,
  selections, the three shortcut fields and their focus events.
- `src/font.rs` – font-size steps and the drawing of the font-size slider.
- `src/theme.rs` – light and dark palettes and the values a mode switch writes.
- `src/sidebar.rs` – the toolbar's selected page and menu hover.
- `src/button.rs` – the settings button builder.
- `app/` – the gpui views that draw this state and feed it events.
