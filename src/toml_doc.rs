//! The calls into the `toml` crate, and the names for what they return.
use vstd::prelude::*;

verus! {

#[verifier::external_type_specification]
#[verifier::external_body]
#[verifier::reject_recursive_types(K)]
#[verifier::reject_recursive_types(V)]
pub struct ExTomlMap<K, V>(toml::map::Map<K, V>);

#[verifier::external_type_specification]
#[verifier::external_body]
pub struct ExTomlValue(toml::Value);

#[verifier::external_type_specification]
#[verifier::external_body]
pub struct ExTomlDeError(toml::de::Error);

#[verifier::external_type_specification]
#[verifier::external_body]
pub struct ExTomlSerError(toml::ser::Error);

/// A TOML table: keys and their values.
pub type TomlTable = toml::map::Map<String, toml::Value>;

/// What toml's parser returns.
pub type ParseResult = Result<TomlTable, toml::de::Error>;

/// What toml's serializer returns.
pub type RenderResult = Result<String, toml::ser::Error>;

/// What a TOML table holds, as far as the settings read it: each key maps to
/// `Some(text)` when its value is a string, and to `None` when it is anything else.
pub uninterp spec fn table_entries(t: TomlTable) -> Map<Seq<char>, Option<Seq<char>>>;

/// The table that toml's parser reads from a text, or `None` where the text is
/// not a TOML document.
pub uninterp spec fn toml_document(text: Seq<char>) -> Option<Map<Seq<char>, Option<Seq<char>>>>;

/// The text that toml's pretty serializer writes for a table of string values.
pub uninterp spec fn pretty_toml(entries: Map<Seq<char>, Option<Seq<char>>>) -> Seq<char>;

/// The entries of an empty table.
pub open spec fn no_entries() -> Map<Seq<char>, Option<Seq<char>>> {
    Map::empty()
}

/// Every value of the table is a string.
pub open spec fn all_strings(entries: Map<Seq<char>, Option<Seq<char>>>) -> bool {
    forall|k: Seq<char>| #[trigger] entries.contains_key(k) ==> entries[k] is Some
}

/// Relies on toml::map::Map::new: a new table is empty.
#[verifier::external_body]
pub(crate) fn new_table() -> (r: TomlTable)
    ensures
        table_entries(r) == no_entries(),
{
    toml::map::Map::new()
}

/// Relies on toml::map::Map::insert: the key now maps to the given string,
/// the other keys are untouched.
#[verifier::external_body]
pub(crate) fn table_insert_string(
    t: &mut TomlTable,
    key: String,
    value: String,
)
    ensures
        table_entries(*final(t)) == table_entries(*old(t)).insert(key@, Some(value@)),
{
    t.insert(key, toml::Value::String(value));
}

/// Relies on toml::map::Map::remove: takes the key's value out of the table.
/// The result is `None` where the key was absent, `Some(Some(text))` where its
/// value was a string, and `Some(None)` where it was any other kind of value.
#[verifier::external_body]
pub(crate) fn table_take_string(
    t: &mut TomlTable,
    key: &str,
) -> (r: Option<Option<String>>)
    ensures
        table_entries(*final(t)) == table_entries(*old(t)).remove(key@),
        r is None <==> !table_entries(*old(t)).contains_key(key@),
        r matches Some(v) ==> table_entries(*old(t))[key@] == match v {
            Some(s) => Some(s@),
            None => None::<Seq<char>>,
        },
{
    match t.remove(key) {
        None => None,
        Some(toml::Value::String(s)) => Some(Some(s)),
        Some(_) => Some(None),
    }
}

/// Relies on toml::from_str into a table: whether the text parses, and to what
/// table, depends on the text alone; an empty text is an empty document.
#[verifier::external_body]
pub(crate) fn parse_table(text: &str) -> (r: ParseResult)
    ensures
        r is Ok <==> toml_document(text@) is Some,
        r is Ok ==> table_entries(r->Ok_0) == toml_document(text@)->Some_0,
        text@.len() == 0 ==> r is Ok && table_entries(r->Ok_0) == no_entries(),
{
    toml::from_str(text)
}

/// Relies on toml::to_string_pretty on a table: a table of strings always
/// serializes (the serializer fails only on a value it cannot write or a root
/// that is not a table), the text depends on the keys and values alone (the
/// table keeps its keys sorted), and an empty table writes an empty document.
#[verifier::external_body]
pub(crate) fn render_table(t: &TomlTable) -> (r: RenderResult)
    requires
        all_strings(table_entries(*t)),
    ensures
        r is Ok,
        r is Ok ==> r->Ok_0@ == pretty_toml(table_entries(*t)),
        table_entries(*t) == no_entries() ==> r is Ok && r->Ok_0@.len() == 0,
{
    toml::to_string_pretty(t)
}

/// Relies on the Display impl of toml::de::Error: the parser's message.
#[verifier::external_body]
pub(crate) fn parse_error_message(e: &toml::de::Error) -> String {
    e.to_string()
}

/// Relies on the Display impl of toml::ser::Error: the serializer's message.
#[verifier::external_body]
pub(crate) fn render_error_message(e: &toml::ser::Error) -> String {
    e.to_string()
}

} // verus!
