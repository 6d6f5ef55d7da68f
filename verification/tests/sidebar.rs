use weixin_ui::sidebar::{MenuPopoverHover, PhonePopoverHover, ToolBar, ToolbarItem};

#[test]
fn new_toolbar_shows_chat() {
    let t = ToolBar::new();
    assert_eq!(t.active_item, ToolbarItem::Chat);
    assert!(t.is_item_active(ToolbarItem::Chat));
    assert!(!t.is_item_active(ToolbarItem::Search));
    assert_eq!(t.phone_hover, PhonePopoverHover::Nothing);
    assert_eq!(t.menu_hover, MenuPopoverHover::Nothing);
}

#[test]
fn selecting_a_page() {
    let mut t = ToolBar::new();
    t.set_active_item(ToolbarItem::Moments);
    assert!(t.is_item_active(ToolbarItem::Moments));
    assert!(!t.is_item_active(ToolbarItem::Chat));
}

#[test]
fn phone_menu_hover() {
    let mut t = ToolBar::new();
    t.update_phone_hover(PhonePopoverHover::Video, true);
    assert_eq!(t.phone_hover, PhonePopoverHover::Video);
    t.update_phone_hover(PhonePopoverHover::Voice, false);
    assert_eq!(t.phone_hover, PhonePopoverHover::Video);
    t.update_phone_hover(PhonePopoverHover::Video, false);
    assert_eq!(t.phone_hover, PhonePopoverHover::Nothing);
    t.update_phone_hover(PhonePopoverHover::Voice, true);
    t.reset_phone_hover();
    assert_eq!(t.phone_hover, PhonePopoverHover::Nothing);
}

#[test]
fn main_menu_hover() {
    let mut t = ToolBar::new();
    t.update_menu_hover(MenuPopoverHover::Lock, true);
    t.update_menu_hover(MenuPopoverHover::Settings, true);
    assert_eq!(t.menu_hover, MenuPopoverHover::Settings);
    t.update_menu_hover(MenuPopoverHover::Lock, false);
    assert_eq!(t.menu_hover, MenuPopoverHover::Settings);
    t.update_menu_hover(MenuPopoverHover::Settings, false);
    assert_eq!(t.menu_hover, MenuPopoverHover::Nothing);
    t.update_menu_hover(MenuPopoverHover::Feedback, true);
    t.reset_menu_hover();
    assert_eq!(t.menu_hover, MenuPopoverHover::Nothing);
}
