//! Settings, theme and toolbar state of a desktop chat client, with
//! the rules that decide what the views show and how they react to input.

pub mod text;
pub mod theme;
pub mod font;
pub mod settings;
pub mod sidebar;
pub mod button;
