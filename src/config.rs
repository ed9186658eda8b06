use vstd::prelude::*;

verus! {

#[verifier::external_type_specification]
#[verifier::external_body]
pub struct ExValue(toml::Value);

#[verifier::external_type_specification]
#[verifier::external_body]
#[verifier::reject_recursive_types(K)]
#[verifier::reject_recursive_types(V)]
pub struct ExTomlMap<K, V>(toml::map::Map<K, V>);

/// The entries of a table whose value is a TOML string: key to text.
pub uninterp spec fn table_strings(t: toml::Table) -> Map<Seq<char>, Seq<char>>;

/// The string entries of the top-level table of a TOML document, or `None`
/// where the text is not a TOML document.
pub uninterp spec fn parsed_strings(text: Seq<char>) -> Option<Map<Seq<char>, Seq<char>>>;

/// Relies on `FromStr` for `toml::Table` (toml's `from_str`): a document
/// parses into its top-level table, and the outcome depends on the text alone.
#[verifier::external_body]
fn parse_table(text: &str) -> (r: Option<toml::Table>)
    ensures
        r is Some <==> parsed_strings(text@) is Some,
        r is Some ==> parsed_strings(text@) == Some(table_strings(r->0)),
{
    text.parse::<toml::Table>().ok()
}

/// Relies on `toml::map::Map::new`: a table with no entries.
#[verifier::external_body]
fn empty_table() -> (r: toml::Table)
    ensures
        table_strings(r).dom() == Set::<Seq<char>>::empty(),
{
    toml::Table::new()
}

/// Relies on `toml::map::Map::get`: the value under `key`, kept only where
/// it is a TOML string.
#[verifier::external_body]
fn table_str(t: &toml::Table, key: &str) -> (r: Option<String>)
    ensures
        r is Some <==> table_strings(*t).contains_key(key@),
        r is Some ==> r->0@ == table_strings(*t)[key@],
{
    match t.get(key) {
        Some(toml::Value::String(s)) => Some(s.clone()),
        _ => None,
    }
}

/// The configuration written where none exists yet.
pub const DEFAULT_CONFIG: &'static str = "\n    editor = \"nvim\"\n    multiplexer = \"tmux\"\n    ";

/// The editor used where the configuration names none.
pub const DEFAULT_EDITOR: &'static str = "nvim";

/// The string entries of a parse outcome, with none for a failed parse.
pub open spec fn strings_or_empty(m: Option<Map<Seq<char>, Seq<char>>>) -> Map<
    Seq<char>,
    Seq<char>,
> {
    match m {
        Some(m) => m,
        None => Map::empty(),
    }
}

/// The editor a configuration with these string entries names.
pub open spec fn editor_in(m: Map<Seq<char>, Seq<char>>) -> Seq<char> {
    if m.contains_key("editor"@) {
        m["editor"@]
    } else {
        DEFAULT_EDITOR@
    }
}

/// A configuration as loaded, and whether the default has to be written out.
pub struct LoadedConfig {
    pub table: toml::Table,
    pub write_default: bool,
}

/// The configuration file's table, if `text` is a TOML document.
pub fn parse_config(text: &str) -> (r: Option<toml::Table>)
    ensures
        r is Some <==> parsed_strings(text@) is Some,
        r is Some ==> parsed_strings(text@) == Some(table_strings(r->0)),
{
    parse_table(text)
}

/// The configuration from the file's content `existing` (`None` where the
/// file does not exist). A readable TOML document is taken as it is;
/// otherwise the default configuration is used and has to be written out.
pub fn load_or_create_default_config(existing: Option<&str>) -> (r: LoadedConfig)
    ensures
        match existing {
            Some(text) if parsed_strings(text@) is Some => {
                &&& !r.write_default
                &&& table_strings(r.table) == parsed_strings(text@)->0
            },
            _ => {
                &&& r.write_default
                &&& table_strings(r.table) == strings_or_empty(parsed_strings(DEFAULT_CONFIG@))
            },
        },
{
    if let Some(text) = existing {
        if let Some(table) = parse_config(text) {
            return LoadedConfig { table, write_default: false };
        }
    }
    let table = match parse_config(DEFAULT_CONFIG) {
        Some(table) => table,
        None => empty_table(),
    };
    LoadedConfig { table, write_default: true }
}

/// The editor that the configuration names under `editor`, or `nvim`
/// where it names none as a string.
pub fn editor_of(config: &toml::Table) -> (r: String)
    ensures
        r@ == editor_in(table_strings(*config)),
{
    match table_str(config, "editor") {
        Some(e) => e,
        None => String::from_str(DEFAULT_EDITOR),
    }
}

/// Where the configuration file lives under the home directory `home`.
pub fn config_path(home: &str) -> (r: String)
    ensures
        r@ == home@ + "/.config/txr/config.toml"@,
{
    let mut r = String::from_str(home);
    r.append("/.config/txr/config.toml");
    r
}

} // verus!
