//! The tray's decisions: which entries the menu shows, what an entry or a
//! click does, and the wording of the toggle entry.
use vstd::prelude::*;

verus! {

/// An entry of the tray menu, top to bottom.
#[derive(Debug, Clone, Copy, PartialEq, Eq, Structural)]
pub enum MenuEntry {
    ToggleUi,
    OpenSettings,
    DevTools,
    Separator,
    Quit,
}

/// What the application does when a menu entry is chosen.
#[derive(Debug, Clone, Copy, PartialEq, Eq, Structural)]
pub enum MenuCommand {
    /// Flip the minimal (buttons hidden) mode and tell the interface.
    ToggleMinimal,
    OpenSettings,
    OpenDevTools,
    Quit,
}

pub const TOGGLE_UI_ID: &'static str = "toggle-ui";

pub const OPEN_SETTINGS_ID: &'static str = "open-settings";

pub const DEV_TOOLS_ID: &'static str = "dev-tools";

pub const HIDE_BUTTONS_LABEL: &'static str = "隐藏界面按钮";

pub const SHOW_BUTTONS_LABEL: &'static str = "显示界面按钮";

pub open spec fn menu_layout_spec(dev_mode: bool) -> Seq<MenuEntry> {
    if dev_mode {
        seq![
            MenuEntry::ToggleUi,
            MenuEntry::OpenSettings,
            MenuEntry::DevTools,
            MenuEntry::Separator,
            MenuEntry::Quit,
        ]
    } else {
        seq![MenuEntry::ToggleUi, MenuEntry::OpenSettings, MenuEntry::Separator, MenuEntry::Quit]
    }
}

/// The menu, with the developer-tools entry only in developer mode.
pub fn menu_layout(dev_mode: bool) -> (r: Vec<MenuEntry>)
    ensures
        r@ == menu_layout_spec(dev_mode),
{
    let mut r: Vec<MenuEntry> = Vec::new();
    r.push(MenuEntry::ToggleUi);
    r.push(MenuEntry::OpenSettings);
    if dev_mode {
        r.push(MenuEntry::DevTools);
    }
    r.push(MenuEntry::Separator);
    r.push(MenuEntry::Quit);
    assert(r@ =~= menu_layout_spec(dev_mode));
    r
}

/// What choosing `entry` does; developer tools open only in developer mode.
pub fn menu_command(entry: MenuEntry, dev_mode: bool) -> (r: Option<MenuCommand>)
    ensures
        r == match entry {
            MenuEntry::ToggleUi => Some(MenuCommand::ToggleMinimal),
            MenuEntry::OpenSettings => Some(MenuCommand::OpenSettings),
            MenuEntry::DevTools => if dev_mode {
                Some(MenuCommand::OpenDevTools)
            } else {
                None
            },
            MenuEntry::Separator => None,
            MenuEntry::Quit => Some(MenuCommand::Quit),
        },
{
    match entry {
        MenuEntry::ToggleUi => Some(MenuCommand::ToggleMinimal),
        MenuEntry::OpenSettings => Some(MenuCommand::OpenSettings),
        MenuEntry::DevTools => if dev_mode {
            Some(MenuCommand::OpenDevTools)
        } else {
            None
        },
        MenuEntry::Separator => None,
        MenuEntry::Quit => Some(MenuCommand::Quit),
    }
}

/// The toggle entry offers the opposite of the current mode.
pub fn toggle_label(minimal_mode: bool) -> (r: &'static str)
    ensures
        minimal_mode ==> r == SHOW_BUTTONS_LABEL,
        !minimal_mode ==> r == HIDE_BUTTONS_LABEL,
{
    if minimal_mode {
        SHOW_BUTTONS_LABEL
    } else {
        HIDE_BUTTONS_LABEL
    }
}

/// The minimal mode after the interface reports its own (if it does).
pub fn minimal_after_sync(current: bool, reported: Option<bool>) -> (r: bool)
    ensures
        r == match reported {
            Some(m) => m,
            None => current,
        },
{
    match reported {
        Some(m) => m,
        None => current,
    }
}

/// A left click on the tray icon hides the window when it is known to be
/// visible and shows it otherwise (also when visibility is unknown).
pub fn click_hides_window(visible: Option<bool>) -> (r: bool)
    ensures
        r == (visible == Some(true)),
{
    match visible {
        Some(v) => v,
        None => false,
    }
}

} // verus!
