use moyu_reader::commands::{is_unset, shortcut_bindings};
use moyu_reader::settings::AppConfig;

fn pair(a: &str, b: &str) -> (String, String) {
    (a.to_string(), b.to_string())
}

#[test]
fn default_shortcuts_all_registered() {
    assert_eq!(
        shortcut_bindings(&AppConfig::default()),
        vec![
            pair("Ctrl+Alt+Space", "boss-key"),
            pair("PageUp", "prev-page"),
            pair("PageDown", "next-page"),
            pair("Ctrl+F", "search"),
        ]
    );
}

#[test]
fn unset_shortcuts_are_skipped() {
    let mut config = AppConfig::default();
    config.keybindings.prev_page = String::new();
    config.keybindings.search = "None".to_string();
    assert_eq!(
        shortcut_bindings(&config),
        vec![pair("Ctrl+Alt+Space", "boss-key"), pair("PageDown", "next-page")]
    );
}

#[test]
fn unset_words() {
    assert!(is_unset(&String::new()));
    assert!(is_unset(&"None".to_string()));
    assert!(!is_unset(&"none".to_string()));
    assert!(!is_unset(&"F1".to_string()));
}
