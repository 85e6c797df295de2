use moyu_reader::tray::{
    click_hides_window, menu_command, menu_layout, minimal_after_sync, toggle_label, MenuCommand,
    MenuEntry, HIDE_BUTTONS_LABEL, SHOW_BUTTONS_LABEL,
};

#[test]
fn dev_tools_entry_only_in_dev_mode() {
    assert_eq!(
        menu_layout(false),
        vec![MenuEntry::ToggleUi, MenuEntry::OpenSettings, MenuEntry::Separator, MenuEntry::Quit]
    );
    assert_eq!(
        menu_layout(true),
        vec![
            MenuEntry::ToggleUi,
            MenuEntry::OpenSettings,
            MenuEntry::DevTools,
            MenuEntry::Separator,
            MenuEntry::Quit
        ]
    );
}

#[test]
fn menu_entries_dispatch() {
    assert_eq!(menu_command(MenuEntry::ToggleUi, false), Some(MenuCommand::ToggleMinimal));
    assert_eq!(menu_command(MenuEntry::OpenSettings, false), Some(MenuCommand::OpenSettings));
    assert_eq!(menu_command(MenuEntry::Quit, true), Some(MenuCommand::Quit));
    assert_eq!(menu_command(MenuEntry::DevTools, true), Some(MenuCommand::OpenDevTools));
    assert_eq!(menu_command(MenuEntry::DevTools, false), None);
    assert_eq!(menu_command(MenuEntry::Separator, true), None);
}

#[test]
fn toggle_label_offers_the_other_mode() {
    assert_eq!(toggle_label(false), HIDE_BUTTONS_LABEL);
    assert_eq!(toggle_label(true), SHOW_BUTTONS_LABEL);
    assert_eq!(toggle_label(true), "显示界面按钮");
}

#[test]
fn sync_takes_reported_mode() {
    assert!(minimal_after_sync(false, Some(true)));
    assert!(!minimal_after_sync(true, Some(false)));
    assert!(minimal_after_sync(true, None));
    assert!(!minimal_after_sync(false, None));
}

#[test]
fn click_toggles_visibility() {
    assert!(click_hides_window(Some(true)));
    assert!(!click_hides_window(Some(false)));
    assert!(!click_hides_window(None));
}
