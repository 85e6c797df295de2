//! The configuration tree and its defaults.
use vstd::prelude::*;

verus! {

/// Name of the configuration file inside the per-application directory.
pub const CONFIG_FILE_NAME: &'static str = "moyu-reader-config.json";

/// Page size used when none is configured.
pub const DEFAULT_MAX_CHARS_PER_PAGE: usize = 900;

/// Window and text appearance.
#[derive(Debug, PartialEq, Eq)]
pub struct AppearanceConfig {
    pub window_opacity: u8,
    pub text_opacity: u8,
    pub always_on_top: bool,
    pub show_in_taskbar: bool,
    pub font_size: u32,
    pub line_height: u32,
    pub background_color: String,
    pub text_color: String,
}

/// Reading behaviour.
#[derive(Debug, PartialEq, Eq)]
pub struct ReadingConfig {
    pub smart_break: bool,
    pub auto_save_interval: String,
}

/// What the boss key does and whether the window fades on its own.
#[derive(Debug, PartialEq, Eq)]
pub struct PrivacyConfig {
    pub boss_action: String,
    pub auto_fade: bool,
    pub fade_delay: u32,
}

/// In-window hotkeys.
#[derive(Debug, PartialEq, Eq)]
pub struct KeybindingsConfig {
    pub prev_page: String,
    pub next_page: String,
    pub search: String,
}

/// Start-up and developer switches.
#[derive(Debug, PartialEq, Eq)]
pub struct SystemConfig {
    pub auto_start: bool,
    pub restore_reading: bool,
    pub dev_mode: bool,
}

/// The whole configuration: session-resume fields (`last_file`,
/// `last_page`, `last_offset`) and the user-facing settings groups.
#[derive(Debug, PartialEq, Eq)]
pub struct AppConfig {
    pub last_file: Option<String>,
    pub last_page: usize,
    pub last_offset: usize,
    pub boss_key: String,
    pub max_chars_per_page: usize,
    pub appearance: AppearanceConfig,
    pub reading: ReadingConfig,
    pub privacy: PrivacyConfig,
    pub keybindings: KeybindingsConfig,
    pub system: SystemConfig,
}

pub open spec fn default_boss_key_spec() -> Seq<char> {
    "Ctrl+Alt+Space"@
}

impl AppearanceConfig {
    pub open spec fn is_default(&self) -> bool {
        &&& self.window_opacity == 90
        &&& self.text_opacity == 100
        &&& self.always_on_top
        &&& !self.show_in_taskbar
        &&& self.font_size == 16
        &&& self.line_height == 18
        &&& self.background_color@ == "#1b1f24"@
        &&& self.text_color@ == "#d7dce2"@
    }

    pub fn duplicate(&self) -> (r: Self)
        ensures
            r == *self,
    {
        AppearanceConfig {
            window_opacity: self.window_opacity,
            text_opacity: self.text_opacity,
            always_on_top: self.always_on_top,
            show_in_taskbar: self.show_in_taskbar,
            font_size: self.font_size,
            line_height: self.line_height,
            background_color: self.background_color.clone(),
            text_color: self.text_color.clone(),
        }
    }
}

impl Default for AppearanceConfig {
    fn default() -> (r: Self)
        ensures
            r.is_default(),
    {
        AppearanceConfig {
            window_opacity: 90,
            text_opacity: 100,
            always_on_top: true,
            show_in_taskbar: false,
            font_size: 16,
            line_height: 18,
            background_color: String::from_str("#1b1f24"),
            text_color: String::from_str("#d7dce2"),
        }
    }
}

impl ReadingConfig {
    pub open spec fn is_default(&self) -> bool {
        &&& self.smart_break
        &&& self.auto_save_interval@ == "instant"@
    }

    pub fn duplicate(&self) -> (r: Self)
        ensures
            r == *self,
    {
        ReadingConfig {
            smart_break: self.smart_break,
            auto_save_interval: self.auto_save_interval.clone(),
        }
    }
}

impl Default for ReadingConfig {
    fn default() -> (r: Self)
        ensures
            r.is_default(),
    {
        ReadingConfig { smart_break: true, auto_save_interval: String::from_str("instant") }
    }
}

impl PrivacyConfig {
    pub open spec fn is_default(&self) -> bool {
        &&& self.boss_action@ == "disguise"@
        &&& !self.auto_fade
        &&& self.fade_delay == 5
    }

    pub fn duplicate(&self) -> (r: Self)
        ensures
            r == *self,
    {
        PrivacyConfig {
            boss_action: self.boss_action.clone(),
            auto_fade: self.auto_fade,
            fade_delay: self.fade_delay,
        }
    }
}

impl Default for PrivacyConfig {
    fn default() -> (r: Self)
        ensures
            r.is_default(),
    {
        PrivacyConfig { boss_action: String::from_str("disguise"), auto_fade: false, fade_delay: 5 }
    }
}

impl KeybindingsConfig {
    pub open spec fn is_default(&self) -> bool {
        &&& self.prev_page@ == "PageUp"@
        &&& self.next_page@ == "PageDown"@
        &&& self.search@ == "Ctrl+F"@
    }

    pub fn duplicate(&self) -> (r: Self)
        ensures
            r == *self,
    {
        KeybindingsConfig {
            prev_page: self.prev_page.clone(),
            next_page: self.next_page.clone(),
            search: self.search.clone(),
        }
    }
}

impl Default for KeybindingsConfig {
    fn default() -> (r: Self)
        ensures
            r.is_default(),
    {
        KeybindingsConfig {
            prev_page: String::from_str("PageUp"),
            next_page: String::from_str("PageDown"),
            search: String::from_str("Ctrl+F"),
        }
    }
}

impl SystemConfig {
    pub open spec fn is_default(&self) -> bool {
        &&& !self.auto_start
        &&& self.restore_reading
        &&& !self.dev_mode
    }

    pub fn duplicate(&self) -> (r: Self)
        ensures
            r == *self,
    {
        SystemConfig {
            auto_start: self.auto_start,
            restore_reading: self.restore_reading,
            dev_mode: self.dev_mode,
        }
    }
}

impl Default for SystemConfig {
    fn default() -> (r: Self)
        ensures
            r.is_default(),
    {
        SystemConfig { auto_start: false, restore_reading: true, dev_mode: false }
    }
}

impl AppConfig {
    /// Every user-facing field holds its default value.
    pub open spec fn settings_are_default(&self) -> bool {
        &&& self.boss_key@ == default_boss_key_spec()
        &&& self.max_chars_per_page == DEFAULT_MAX_CHARS_PER_PAGE
        &&& self.appearance.is_default()
        &&& self.reading.is_default()
        &&& self.privacy.is_default()
        &&& self.keybindings.is_default()
        &&& self.system.is_default()
    }

    /// No document remembered, and every setting at its default.
    pub open spec fn is_default(&self) -> bool {
        &&& self.last_file is None
        &&& self.last_page == 0
        &&& self.last_offset == 0
        &&& self.settings_are_default()
    }

    /// The user-facing fields of `self` and `other` agree.
    pub open spec fn same_settings(&self, other: &AppConfig) -> bool {
        &&& self.boss_key == other.boss_key
        &&& self.max_chars_per_page == other.max_chars_per_page
        &&& self.appearance == other.appearance
        &&& self.reading == other.reading
        &&& self.privacy == other.privacy
        &&& self.keybindings == other.keybindings
        &&& self.system == other.system
    }

    /// The session-resume fields of `self` and `other` agree.
    pub open spec fn same_resume_state(&self, other: &AppConfig) -> bool {
        &&& self.last_file == other.last_file
        &&& self.last_page == other.last_page
        &&& self.last_offset == other.last_offset
    }

    pub fn duplicate(&self) -> (r: Self)
        ensures
            r == *self,
    {
        let last_file = match &self.last_file {
            Some(p) => Some(p.clone()),
            None => None,
        };
        AppConfig {
            last_file,
            last_page: self.last_page,
            last_offset: self.last_offset,
            boss_key: self.boss_key.clone(),
            max_chars_per_page: self.max_chars_per_page,
            appearance: self.appearance.duplicate(),
            reading: self.reading.duplicate(),
            privacy: self.privacy.duplicate(),
            keybindings: self.keybindings.duplicate(),
            system: self.system.duplicate(),
        }
    }
}

impl Default for AppConfig {
    fn default() -> (r: Self)
        ensures
            r.is_default(),
    {
        AppConfig {
            last_file: None,
            last_page: 0,
            last_offset: 0,
            boss_key: default_boss_key(),
            max_chars_per_page: DEFAULT_MAX_CHARS_PER_PAGE,
            appearance: AppearanceConfig::default(),
            reading: ReadingConfig::default(),
            privacy: PrivacyConfig::default(),
            keybindings: KeybindingsConfig::default(),
            system: SystemConfig::default(),
        }
    }
}

/// The hotkey that hides the reader.
pub fn default_boss_key() -> (r: String)
    ensures
        r@ == default_boss_key_spec(),
{
    String::from_str("Ctrl+Alt+Space")
}

} // verus!

verus! {

/// What `std::path::Path::join` yields for a directory and a relative name.
pub uninterp spec fn joined_path(dir: Seq<char>, name: Seq<char>) -> Seq<char>;

/// Relies on `std::path::Path::join`: appends `name` to `dir` as a path
/// component; the result depends on the two strings alone.
#[verifier::external_body]
fn join_path(dir: &str, name: &str) -> (r: String)
    ensures
        r@ == joined_path(dir@, name@),
{
    std::path::Path::new(dir).join(name).to_string_lossy().into_owned()
}

/// The configuration file's path inside `config_dir`.
pub fn default_config_path(config_dir: String) -> (r: String)
    ensures
        r@ == joined_path(config_dir@, CONFIG_FILE_NAME@),
{
    join_path(config_dir.as_str(), CONFIG_FILE_NAME)
}

} // verus!
