//! The decisions of loading the settings. The caller performs each action on
//! the file system and reports what happened as the next event; the first
//! action is always to check whether the directory exists.
use vstd::prelude::*;
use crate::settings::{Config, ConfigError, default_model};
use crate::document::{Decoded, decode_entries, decode_text, entries_of, parse_config, render_config, api_key_label};
use crate::toml_doc::{pretty_toml, toml_document};

verus! {

/// What the caller observed after performing an action.
#[derive(Debug, Clone)]
pub enum LoadEvent {
    /// Whether the settings directory exists.
    DirChecked(bool),
    /// The settings directory and its missing ancestors were created.
    DirCreated,
    /// Whether the settings file exists.
    FileChecked(bool),
    /// The default document was written to the settings file.
    DefaultWritten,
    /// The whole text of the settings file.
    ContentRead(String),
}

/// What the caller is to do next.
#[derive(Debug, Clone)]
pub enum LoadAction {
    /// Create the settings directory with its missing ancestors.
    CreateDir,
    /// Check whether the settings file exists.
    CheckFile,
    /// Write this text as the settings file, replacing what is there.
    WriteDefault(String),
    /// Read the whole settings file.
    ReadFile,
    /// Loading is over: these are the settings.
    Finish(Config),
    /// Loading failed.
    Fail(ConfigError),
}

/// `r` finishes or fails as reading a document as `d` calls for.
pub open spec fn finishes_as(r: LoadAction, d: Decoded) -> bool {
    match d {
        Decoded::Settings(m) => r is Finish && r->Finish_0@ == m,
        _ => r is Fail && r->Fail_0 is Parse,
    }
}

/// `r` writes the default document, which is empty and reads back as the
/// default settings.
pub open spec fn writes_default(r: LoadAction) -> bool {
    &&& r is WriteDefault
    &&& r->WriteDefault_0@ == pretty_toml(entries_of(default_model()))
    &&& r->WriteDefault_0@.len() == 0
    &&& decode_text(r->WriteDefault_0@) == Decoded::Settings(default_model())
}

/// `r` is the action that follows `event`.
pub open spec fn load_reply(event: LoadEvent, r: LoadAction) -> bool {
    match event {
        LoadEvent::DirChecked(exists) => if exists { r is CheckFile } else { r is CreateDir },
        LoadEvent::DirCreated => r is CheckFile,
        LoadEvent::FileChecked(exists) => if exists { r is ReadFile } else { writes_default(r) },
        LoadEvent::DefaultWritten => r is Finish && r->Finish_0@ == default_model(),
        LoadEvent::ContentRead(text) => finishes_as(r, decode_text(text@)),
    }
}

/// Decides what loading does after `event`: a missing directory is created, a
/// missing file is written with the default settings, which are returned, and
/// an existing file is read and parsed.
pub fn next_load_action(event: LoadEvent) -> (r: LoadAction)
    ensures
        load_reply(event, r),
{
    match event {
        LoadEvent::DirChecked(exists) => if exists {
            LoadAction::CheckFile
        } else {
            LoadAction::CreateDir
        },
        LoadEvent::DirCreated => LoadAction::CheckFile,
        LoadEvent::FileChecked(exists) => if exists {
            LoadAction::ReadFile
        } else {
            match render_config(&Config::default()) {
                Ok(text) => LoadAction::WriteDefault(text),
                Err(e) => LoadAction::Fail(e),
            }
        },
        LoadEvent::DefaultWritten => LoadAction::Finish(Config::default()),
        LoadEvent::ContentRead(text) => match parse_config(text.as_str()) {
            Ok(config) => LoadAction::Finish(config),
            Err(e) => LoadAction::Fail(e),
        },
    }
}

/// On a first run, with neither the directory nor the file present, loading
/// creates the directory, writes a file that reads back as the default
/// settings, and returns the default settings.
pub proof fn lemma_first_run(
    on_dir: LoadAction,
    on_created: LoadAction,
    on_file: LoadAction,
    on_written: LoadAction,
)
    requires
        load_reply(LoadEvent::DirChecked(false), on_dir),
        load_reply(LoadEvent::DirCreated, on_created),
        load_reply(LoadEvent::FileChecked(false), on_file),
        load_reply(LoadEvent::DefaultWritten, on_written),
    ensures
        on_dir is CreateDir,
        on_created is CheckFile,
        on_file is WriteDefault,
        decode_text(on_file->WriteDefault_0@) == Decoded::Settings(default_model()),
        on_written is Finish && on_written->Finish_0@ == default_model(),
{
}

/// Loading twice with no save in between gives equal settings: after a first
/// run, the file that was written loads as the default that was returned; and
/// the same text always loads as the same settings.
pub proof fn lemma_reload_stable(
    written: LoadAction,
    reread: LoadAction,
    text: String,
    first: LoadAction,
    second: LoadAction,
)
    requires
        load_reply(LoadEvent::FileChecked(false), written),
        load_reply(LoadEvent::ContentRead(written->WriteDefault_0), reread),
        load_reply(LoadEvent::ContentRead(text), first),
        load_reply(LoadEvent::ContentRead(text), second),
    ensures
        reread is Finish && reread->Finish_0@ == default_model(),
        first is Finish <==> second is Finish,
        first is Finish ==> first->Finish_0@ == second->Finish_0@,
{
}

/// A key other than `api_key` changes nothing of what a document reads as.
pub proof fn lemma_unknown_key_ignored(
    m: Map<Seq<char>, Option<Seq<char>>>,
    key: Seq<char>,
    value: Option<Seq<char>>,
)
    requires
        key != api_key_label(),
    ensures
        decode_entries(m.insert(key, value)) == decode_entries(m),
{
    assert(m.insert(key, value).contains_key(api_key_label()) == m.contains_key(api_key_label()));
}

/// A stored text that is not a TOML document makes loading fail with a parse
/// error: no default, no empty settings.
pub proof fn lemma_malformed_fails(text: String, r: LoadAction)
    requires
        toml_document(text@) is None,
        load_reply(LoadEvent::ContentRead(text), r),
    ensures
        r is Fail && r->Fail_0 is Parse,
{
}

} // verus!
