//! Persistence of the application's settings: a small TOML document under the
//! platform's configuration directory, read with defaults on first run and
//! written back whole.
pub mod settings;
pub mod toml_doc;
pub mod document;
pub mod location;
pub mod load;
pub mod shortcut;
