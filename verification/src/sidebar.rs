//! State of the toolbar on the left edge of the main window: the selected
//! page and the item of each popover menu under the pointer.
use vstd::prelude::*;

verus! {

/// The pages that the toolbar switches between.
#[derive(Clone, Copy, Debug, PartialEq, Eq, Structural)]
pub enum ToolbarItem {
    Chat,
    Contacts,
    Favorites,
    Moments,
    Channels,
    Search,
    MiniProgram,
}

/// The item of the call menu under the pointer.
#[derive(Clone, Copy, Debug, PartialEq, Eq, Structural)]
pub enum PhonePopoverHover {
    Nothing,
    Video,
    Voice,
}

/// The item of the main menu under the pointer.
#[derive(Clone, Copy, Debug, PartialEq, Eq, Structural)]
pub enum MenuPopoverHover {
    Nothing,
    VideoLive,
    ChatFiles,
    ChatHistory,
    Lock,
    Feedback,
    Settings,
}

/// Entering an item makes it the hovered one; leaving it clears the hover
/// only if that item was the hovered one.
pub open spec fn phone_hover_after(
    current: PhonePopoverHover,
    item: PhonePopoverHover,
    entering: bool,
) -> PhonePopoverHover {
    if entering {
        item
    } else if current == item {
        PhonePopoverHover::Nothing
    } else {
        current
    }
}

pub open spec fn menu_hover_after(
    current: MenuPopoverHover,
    item: MenuPopoverHover,
    entering: bool,
) -> MenuPopoverHover {
    if entering {
        item
    } else if current == item {
        MenuPopoverHover::Nothing
    } else {
        current
    }
}

/// The toolbar's state.
#[derive(Clone, Copy, Debug, PartialEq, Eq, Structural)]
pub struct ToolBar {
    pub active_item: ToolbarItem,
    pub phone_hover: PhonePopoverHover,
    pub menu_hover: MenuPopoverHover,
}

impl ToolBar {
    /// The toolbar of a new main window: the chat page, nothing hovered.
    pub fn new() -> (t: Self)
        ensures
            t == (ToolBar {
                active_item: ToolbarItem::Chat,
                phone_hover: PhonePopoverHover::Nothing,
                menu_hover: MenuPopoverHover::Nothing,
            }),
    {
        ToolBar {
            active_item: ToolbarItem::Chat,
            phone_hover: PhonePopoverHover::Nothing,
            menu_hover: MenuPopoverHover::Nothing,
        }
    }

    /// Selects the page `item`.
    pub fn set_active_item(&mut self, item: ToolbarItem)
        ensures
            *final(self) == (ToolBar { active_item: item, ..*old(self) }),
    {
        self.active_item = item;
    }

    /// Whether `item` is the selected page.
    pub fn is_item_active(&self, item: ToolbarItem) -> (r: bool)
        ensures
            r == (self.active_item == item),
    {
        self.active_item == item
    }

    /// The pointer entered (`entering`) or left the call-menu item `item`.
    pub fn update_phone_hover(&mut self, item: PhonePopoverHover, entering: bool)
        ensures
            *final(self) == (ToolBar {
                phone_hover: phone_hover_after(old(self).phone_hover, item, entering),
                ..*old(self)
            }),
    {
        self.phone_hover = if entering {
            item
        } else if self.phone_hover == item {
            PhonePopoverHover::Nothing
        } else {
            self.phone_hover
        };
    }

    /// A call-menu item was chosen and the menu closes.
    pub fn reset_phone_hover(&mut self)
        ensures
            *final(self) == (ToolBar { phone_hover: PhonePopoverHover::Nothing, ..*old(self) }),
    {
        self.phone_hover = PhonePopoverHover::Nothing;
    }

    /// The pointer entered (`entering`) or left the main-menu item `item`.
    pub fn update_menu_hover(&mut self, item: MenuPopoverHover, entering: bool)
        ensures
            *final(self) == (ToolBar {
                menu_hover: menu_hover_after(old(self).menu_hover, item, entering),
                ..*old(self)
            }),
    {
        self.menu_hover = if entering {
            item
        } else if self.menu_hover == item {
            MenuPopoverHover::Nothing
        } else {
            self.menu_hover
        };
    }

    /// A main-menu item was chosen and the menu closes.
    pub fn reset_menu_hover(&mut self)
        ensures
            *final(self) == (ToolBar { menu_hover: MenuPopoverHover::Nothing, ..*old(self) }),
    {
        self.menu_hover = MenuPopoverHover::Nothing;
    }
}

/// Entering a toolbar menu item and leaving it again leaves no item
/// hovered; leaving an item that is not the hovered one changes nothing.
pub proof fn law_toolbar_hover_enter_then_leave(phone: PhonePopoverHover, menu: MenuPopoverHover)
    ensures
        phone_hover_after(phone_hover_after(phone, phone, true), phone, false)
            == PhonePopoverHover::Nothing,
        menu_hover_after(menu_hover_after(menu, menu, true), menu, false)
            == MenuPopoverHover::Nothing,
        forall|cur: PhonePopoverHover, item: PhonePopoverHover|
            cur != item ==> #[trigger] phone_hover_after(cur, item, false) == cur,
        forall|cur: MenuPopoverHover, item: MenuPopoverHover|
            cur != item ==> #[trigger] menu_hover_after(cur, item, false) == cur,
{
}

} // verus!
