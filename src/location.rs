//! Where the settings live: `<configuration directory>/<application>/config.toml`,
//! and the application's directory under the local data directory.
use vstd::prelude::*;
use std::path::PathBuf;
use crate::settings::ConfigError;

verus! {

#[verifier::external_type_specification]
#[verifier::external_body]
pub struct ExPathBuf(std::path::PathBuf);

/// The directory segment that holds the application's files.
pub const APP_NAME: &'static str = "anki-creator";

/// The name of the settings file.
pub const CONFIG_FILE_NAME: &'static str = "config.toml";

/// Relies on dirs::config_dir: the platform's configuration directory, or
/// `None` where it cannot be determined.
#[verifier::external_body]
fn os_config_dir() -> Option<PathBuf> {
    dirs::config_dir()
}

/// Relies on dirs::data_local_dir: the platform's local data directory, or
/// `None` where it cannot be determined.
#[verifier::external_body]
fn os_data_local_dir() -> Option<PathBuf> {
    dirs::data_local_dir()
}

/// The path that Path::join makes of a base path and one more segment.
pub uninterp spec fn joined(base: PathBuf, segment: Seq<char>) -> PathBuf;

/// Relies on Path::join: the path with one more segment appended, which
/// depends on the two arguments alone.
#[verifier::external_body]
fn join_segment(base: &PathBuf, segment: &str) -> (r: PathBuf)
    ensures
        r == joined(*base, segment@),
{
    base.join(segment)
}

/// The application's directory under a base directory; a base that could not
/// be determined is a path resolution error.
pub fn app_dir_under(base: Option<PathBuf>) -> (r: Result<PathBuf, ConfigError>)
    ensures
        r is Err <==> base is None,
        r is Err ==> r->Err_0 == ConfigError::PathResolution,
        r is Ok ==> r->Ok_0 == joined(base->Some_0, APP_NAME@),
{
    match base {
        Some(dir) => Ok(join_segment(&dir, APP_NAME)),
        None => Err(ConfigError::PathResolution),
    }
}

/// The settings file under a base configuration directory; a base that could
/// not be determined is a path resolution error.
pub fn config_file_under(base: Option<PathBuf>) -> (r: Result<PathBuf, ConfigError>)
    ensures
        r is Err <==> base is None,
        r is Err ==> r->Err_0 == ConfigError::PathResolution,
        r is Ok ==> r->Ok_0 == joined(joined(base->Some_0, APP_NAME@), CONFIG_FILE_NAME@),
{
    match app_dir_under(base) {
        Ok(dir) => Ok(join_segment(&dir, CONFIG_FILE_NAME)),
        Err(e) => Err(e),
    }
}

/// The path of the settings file, resolved anew from the environment.
pub fn get_config_path() -> (r: Result<PathBuf, ConfigError>)
    ensures
        r is Err ==> r->Err_0 == ConfigError::PathResolution,
{
    config_file_under(os_config_dir())
}

/// The application's configuration directory, not yet canonicalized.
pub fn app_config_dir() -> (r: Result<PathBuf, ConfigError>)
    ensures
        r is Err ==> r->Err_0 == ConfigError::PathResolution,
{
    app_dir_under(os_config_dir())
}

/// The application's local data directory, not yet canonicalized.
pub fn app_data_dir() -> (r: Result<PathBuf, ConfigError>)
    ensures
        r is Err ==> r->Err_0 == ConfigError::PathResolution,
{
    app_dir_under(os_data_local_dir())
}

} // verus!
