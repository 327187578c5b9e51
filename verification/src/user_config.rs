//! The user's saved preferences.
use vstd::prelude::*;

verus! {

/// The user's saved preferences.
pub struct UserConfig {
    /// Preferred language (e.g. "en-US", "zh-CN", "uk-UA").
    pub language: Option<String>,
    /// Preferred theme (e.g. "indigo", "scarlet", "emerald").
    pub theme: Option<String>,
}

impl Default for UserConfig {
    /// Preferences with nothing chosen, as when no configuration file exists.
    fn default() -> (r: Self)
        ensures
            r.language is None,
            r.theme is None,
    {
        UserConfig { language: None, theme: None }
    }
}

impl UserConfig {
    /// Whether this is the first run: no configuration file exists yet.
    pub fn is_first_run(config_file_exists: bool) -> (r: bool)
        ensures
            r == !config_file_exists,
    {
        !config_file_exists
    }
}

} // verus!
