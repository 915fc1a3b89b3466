//! The settings record as a TOML document: reading it from text and writing it
//! as text.
use vstd::prelude::*;
use vstd::string::*;
use crate::settings::{Config, ConfigError, SettingsModel, default_model, opt_view};
use crate::toml_doc::{
    TomlTable, new_table, no_entries, parse_error_message, parse_table,
    pretty_toml, render_error_message, render_table, table_entries, table_insert_string,
    table_take_string, toml_document,
};

verus! {

/// The key under which the API key is stored.
pub open spec fn api_key_label() -> Seq<char> {
    "api_key"@
}

/// What a stored document reads as.
pub ghost enum Decoded {
    /// A settings record.
    Settings(SettingsModel),
    /// The text is not a TOML document.
    Malformed,
    /// The document is TOML, but `api_key` holds something other than a string.
    Misshapen,
}

/// What a parsed table reads as. Keys other than `api_key` are ignored.
pub open spec fn decode_entries(m: Map<Seq<char>, Option<Seq<char>>>) -> Decoded {
    if !m.contains_key(api_key_label()) {
        Decoded::Settings(SettingsModel { api_key: None })
    } else {
        match m[api_key_label()] {
            Some(k) => Decoded::Settings(SettingsModel { api_key: Some(k) }),
            None => Decoded::Misshapen,
        }
    }
}

/// What a stored text reads as.
pub open spec fn decode_text(text: Seq<char>) -> Decoded {
    match toml_document(text) {
        Some(m) => decode_entries(m),
        None => Decoded::Malformed,
    }
}

/// The table that a settings record is written as: an absent key is left out.
pub open spec fn entries_of(s: SettingsModel) -> Map<Seq<char>, Option<Seq<char>>> {
    match s.api_key {
        Some(k) => no_entries().insert(api_key_label(), Some(k)),
        None => no_entries(),
    }
}

/// `r` is the outcome that reading a document as `d` calls for.
pub open spec fn read_as(r: Result<Config, ConfigError>, d: Decoded) -> bool {
    match d {
        Decoded::Settings(m) => r is Ok && r->Ok_0@ == m,
        _ => r is Err && r->Err_0 is Parse,
    }
}

/// `r` is a text that toml's serializer writes for the record's table and
/// that reads back as the same record, or a serialization error.
pub open spec fn rendered(m: SettingsModel, r: Result<String, ConfigError>) -> bool {
    match r {
        Ok(text) => text@ == pretty_toml(entries_of(m)) && decode_text(text@) == Decoded::Settings(m),
        Err(e) => e is Serialization,
    }
}

/// Reads a settings record from a parsed TOML table.
pub fn config_from_table(table: TomlTable) -> (r: Result<Config, ConfigError>)
    ensures
        read_as(r, decode_entries(table_entries(table))),
{
    let mut table = table;
    match table_take_string(&mut table, "api_key") {
        None => Ok(Config { api_key: None }),
        Some(Some(k)) => Ok(Config { api_key: Some(k) }),
        Some(None) => Err(ConfigError::Parse(String::from_str("api_key: expected a string"))),
    }
}

/// Reads a settings record from the text of a stored document.
pub fn parse_config(text: &str) -> (r: Result<Config, ConfigError>)
    ensures
        read_as(r, decode_text(text@)),
        text@.len() == 0 ==> r is Ok && r->Ok_0@ == default_model(),
{
    match parse_table(text) {
        Ok(table) => config_from_table(table),
        Err(e) => Err(ConfigError::Parse(parse_error_message(&e))),
    }
}

/// The TOML table that a settings record is written as.
pub fn config_to_table(config: &Config) -> (r: TomlTable)
    ensures
        table_entries(r) == entries_of(config@),
{
    let mut table = new_table();
    match &config.api_key {
        Some(k) => table_insert_string(&mut table, String::from_str("api_key"), k.clone()),
        None => {},
    }
    table
}

/// Whether two optional keys are equal.
fn same_key(a: &Option<String>, b: &Option<String>) -> (r: bool)
    ensures
        r == (opt_view(*a) == opt_view(*b)),
{
    match a {
        None => b.is_none(),
        Some(x) => match b {
            Some(y) => *x == *y,
            None => false,
        },
    }
}

/// Writes a settings record as the text of a TOML document. The text is read
/// back before it is handed out: a text that would not load as the same
/// record is refused. A record without a key is written as an empty document.
pub fn render_config(config: &Config) -> (r: Result<String, ConfigError>)
    ensures
        rendered(config@, r),
        r is Ok <==> decode_text(pretty_toml(entries_of(config@))) == Decoded::Settings(config@),
        config@.api_key is None ==> r is Ok && r->Ok_0@.len() == 0,
{
    let table = config_to_table(config);
    match render_table(&table) {
        Err(e) => Err(ConfigError::Serialization(render_error_message(&e))),
        Ok(text) => {
            let same = match parse_config(text.as_str()) {
                Ok(back) => same_key(&back.api_key, &config.api_key),
                Err(_) => false,
            };
            if same {
                Ok(text)
            } else {
                Err(ConfigError::Serialization(String::from_str("the written text does not read back")))
            }
        },
    }
}

/// Reading back the text that a record was written as gives the same record.
pub proof fn lemma_round_trip(config: Config, text: String, back: Result<Config, ConfigError>)
    requires
        rendered(config@, Ok(text)),
        read_as(back, decode_text(text@)),
    ensures
        back is Ok && back->Ok_0@ == config@,
{
}

} // verus!
