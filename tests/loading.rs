use moyu_reader::novel::{decode_outcome, decode_text, LoadError};
use moyu_reader::settings::{default_boss_key, default_config_path, AppConfig};

#[test]
fn load_text_reads_utf8() {
    let text = decode_text("123\n456".as_bytes()).unwrap();
    assert_eq!(text.trim(), "123\n456");
}

#[test]
fn utf8_round_trips_unchanged() {
    for sample in ["", "plain ascii\r\n  with spaces  \n", "摸鱼阅读器：第一章\n你好，世界！", "émoji 🐟 mix"] {
        assert_eq!(decode_text(sample.as_bytes()), Ok(sample.to_string()));
    }
}

#[test]
fn malformed_input_is_a_decode_error() {
    // A UTF-16LE byte order mark followed by a lone trailing byte.
    assert_eq!(decode_text(&[0xFF, 0xFE, 0x41]), Err(LoadError::Decode));
}

#[test]
fn utf8_bom_is_removed() {
    assert_eq!(decode_text(&[0xEF, 0xBB, 0xBF, b'h', b'i']), Ok("hi".to_string()));
}

#[test]
fn legacy_encoding_is_decoded() {
    // "你好世界，这是一个测试。" repeated, in GBK.
    let gbk: [u8; 24] = [
        0xC4, 0xE3, 0xBA, 0xC3, 0xCA, 0xC0, 0xBD, 0xE7, 0xA3, 0xAC, 0xD5, 0xE2, 0xCA, 0xC7,
        0xD2, 0xBB, 0xB8, 0xF6, 0xB2, 0xE2, 0xCA, 0xD4, 0xA1, 0xA3,
    ];
    let mut bytes = Vec::new();
    for _ in 0..8 {
        bytes.extend_from_slice(&gbk);
    }
    let text = decode_text(&bytes).unwrap();
    assert_eq!(text, "你好世界，这是一个测试。".repeat(8));
}

#[test]
fn decode_outcome_refuses_errors() {
    assert_eq!(decode_outcome("x\u{FFFD}".to_string(), true), Err(LoadError::Decode));
    assert_eq!(decode_outcome("fine".to_string(), false), Ok("fine".to_string()));
}

#[test]
fn config_path_joins_file_name() {
    assert_eq!(
        default_config_path("/home/u/.config/reader".to_string()),
        "/home/u/.config/reader/moyu-reader-config.json"
    );
    assert_eq!(
        default_config_path("/home/u/.config/reader/".to_string()),
        "/home/u/.config/reader/moyu-reader-config.json"
    );
}

#[test]
fn defaults_are_complete() {
    let c = AppConfig::default();
    assert_eq!(c.last_file, None);
    assert_eq!(c.last_page, 0);
    assert_eq!(c.last_offset, 0);
    assert_eq!(c.boss_key, default_boss_key());
    assert_eq!(c.boss_key, "Ctrl+Alt+Space");
    assert_eq!(c.max_chars_per_page, 900);
    assert_eq!(c.appearance.window_opacity, 90);
    assert_eq!(c.appearance.text_opacity, 100);
    assert!(c.appearance.always_on_top);
    assert!(!c.appearance.show_in_taskbar);
    assert_eq!(c.appearance.font_size, 16);
    assert_eq!(c.appearance.line_height, 18);
    assert_eq!(c.appearance.background_color, "#1b1f24");
    assert_eq!(c.appearance.text_color, "#d7dce2");
    assert!(c.reading.smart_break);
    assert_eq!(c.reading.auto_save_interval, "instant");
    assert_eq!(c.privacy.boss_action, "disguise");
    assert!(!c.privacy.auto_fade);
    assert_eq!(c.privacy.fade_delay, 5);
    assert_eq!(c.keybindings.prev_page, "PageUp");
    assert_eq!(c.keybindings.next_page, "PageDown");
    assert_eq!(c.keybindings.search, "Ctrl+F");
    assert!(!c.system.auto_start);
    assert!(c.system.restore_reading);
    assert!(!c.system.dev_mode);
}
