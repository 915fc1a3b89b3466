use vstd::prelude::*;

verus! {

/// What a settings record means: the stored API key, if any.
pub ghost struct SettingsModel {
    pub api_key: Option<Seq<char>>,
}

/// The view of an optional owned string.
pub open spec fn opt_view(o: Option<String>) -> Option<Seq<char>> {
    match o {
        Some(s) => Some(s@),
        None => None,
    }
}

/// The application's settings record.
#[derive(Debug, Clone)]
pub struct Config {
    pub api_key: Option<String>,
}

impl View for Config {
    type V = SettingsModel;

    open spec fn view(&self) -> SettingsModel {
        SettingsModel { api_key: opt_view(self.api_key) }
    }
}

/// The settings of a first run: every optional field absent.
pub open spec fn default_model() -> SettingsModel {
    SettingsModel { api_key: None }
}

impl Default for Config {
    fn default() -> (r: Config)
        ensures
            r@ == default_model(),
    {
        Config { api_key: None }
    }
}

/// Why an operation on the stored settings failed.
#[derive(Debug, Clone, PartialEq, Eq)]
pub enum ConfigError {
    /// The platform directory could not be determined.
    PathResolution,
    /// Creating the directory, or reading or writing the file, failed.
    Io(String),
    /// The stored text is not TOML, or does not have the expected shape.
    Parse(String),
    /// The settings could not be written as TOML.
    Serialization(String),
}

} // verus!
