use vstd::prelude::*;

use crate::report::ErrorKind;

verus! {

/// One configuration node: which files are exposed as symlinks elsewhere
/// (`links`, target path to link path) and which subdirectories hold their
/// own node (`dependencies`, label to subdirectory path).  An absent table in
/// the document is an empty map here; the order of entries carries no
/// meaning.
#[derive(Clone, Debug, PartialEq, Eq)]
pub struct Config {
    pub dependencies: Vec<(String, String)>,
    pub links: Vec<(String, String)>,
}

/// The mathematical value of a configuration node.
pub struct ConfigV {
    pub dependencies: Seq<(Seq<char>, Seq<char>)>,
    pub links: Seq<(Seq<char>, Seq<char>)>,
}

impl View for Config {
    type V = ConfigV;

    open spec fn view(&self) -> ConfigV {
        ConfigV { dependencies: self.dependencies.deep_view(), links: self.links.deep_view() }
    }
}

/// The string entries of one top-level table of a TOML document: `None` when
/// the document does not parse or the table holds anything but strings, the
/// empty sequence when the document parses but has no such table.  The result
/// is a function of the text alone.
pub uninterp spec fn toml_section(text: Seq<char>, key: Seq<char>) -> Option<
    Seq<(Seq<char>, Seq<char>)>,
>;

/// A TOML document with a `dependencies` and a `links` table holding the
/// given string entries; a function of the entries alone.
pub uninterp spec fn toml_document(
    dependencies: Seq<(Seq<char>, Seq<char>)>,
    links: Seq<(Seq<char>, Seq<char>)>,
) -> Option<Seq<char>>;

/// Relies on toml::from_str and toml::Table::get: the string entries of the
/// top-level table named `key`, in the document's deterministic table order.
#[verifier::external_body]
fn toml_string_entries(text: &str, key: &str) -> (r: Option<Vec<(String, String)>>)
    ensures
        match r {
            Some(v) => toml_section(text@, key@) == Some(v.deep_view()),
            None => toml_section(text@, key@) is None,
        },
{
    let doc: toml::Table = match toml::from_str(text) { Ok(d) => d, Err(_) => return None };
    match doc.get(key) {
        None => Some(Vec::new()),
        Some(toml::Value::Table(section)) => {
            let mut out: Vec<(String, String)> = Vec::new();
            for (k, v) in section.iter() {
                match v { toml::Value::String(s) => out.push((k.clone(), s.clone())), _ => return None }
            }
            Some(out)
        },
        Some(_) => None,
    }
}

/// Relies on toml::to_string: the serialized document of a `dependencies`
/// and a `links` table of string entries.
#[verifier::external_body]
fn toml_two_tables(dependencies: &Vec<(String, String)>, links: &Vec<(String, String)>) -> (r:
    Option<String>)
    ensures
        match r {
            Some(s) => toml_document(dependencies.deep_view(), links.deep_view()) == Some(s@),
            None => toml_document(dependencies.deep_view(), links.deep_view()) is None,
        },
{
    let mut deps = toml::Table::new();
    for p in dependencies.iter() {
        deps.insert(p.0.clone(), toml::Value::String(p.1.clone()));
    }
    let mut lnks = toml::Table::new();
    for p in links.iter() {
        lnks.insert(p.0.clone(), toml::Value::String(p.1.clone()));
    }
    let mut doc = toml::Table::new();
    doc.insert("dependencies".to_owned(), toml::Value::Table(deps));
    doc.insert("links".to_owned(), toml::Value::Table(lnks));
    toml::to_string(&doc).ok()
}

/// The configuration that a document's text declares: its `links` and
/// `dependencies` tables, or nothing when the document is malformed.
pub open spec fn spec_parse_config(text: Seq<char>) -> Option<ConfigV> {
    match (toml_section(text, "dependencies"@), toml_section(text, "links"@)) {
        (Some(dependencies), Some(links)) => Some(ConfigV { dependencies, links }),
        _ => None,
    }
}

/// Parses a configuration document.  A document that does not parse, or
/// whose `links` or `dependencies` table holds anything but strings, is
/// malformed; a missing table is an empty map.
pub fn parse_config(text: &str) -> (r: Result<Config, ErrorKind>)
    ensures
        match r {
            Ok(c) => spec_parse_config(text@) == Some(c@),
            Err(k) => spec_parse_config(text@) is None && k == ErrorKind::ConfigMalformed,
        },
{
    let dependencies = toml_string_entries(text, "dependencies");
    let links = toml_string_entries(text, "links");
    match (dependencies, links) {
        (Some(dependencies), Some(links)) => Ok(Config { dependencies, links }),
        _ => Err(ErrorKind::ConfigMalformed),
    }
}

/// Serializes a configuration node back into a document.
pub fn config_document(c: &Config) -> (r: Option<String>)
    ensures
        match r {
            Some(s) => toml_document(c@.dependencies, c@.links) == Some(s@),
            None => toml_document(c@.dependencies, c@.links) is None,
        },
{
    toml_two_tables(&c.dependencies, &c.links)
}

/// The example node that a fresh setup starts from: one dependency and one
/// link.
pub fn default_config() -> (c: Config)
    ensures
        c@.dependencies == seq![("go"@, "testdata/go"@)],
        c@.links == seq![("testdata/mm"@, "~/.cache/mm"@)],
{
    let mut dependencies: Vec<(String, String)> = Vec::new();
    dependencies.push((String::from_str("go"), String::from_str("testdata/go")));
    let mut links: Vec<(String, String)> = Vec::new();
    links.push((String::from_str("testdata/mm"), String::from_str("~/.cache/mm")));
    let c = Config { dependencies, links };
    proof {
        assert(c@.dependencies =~= seq![("go"@, "testdata/go"@)]);
        assert(c@.links =~= seq![("testdata/mm"@, "~/.cache/mm"@)]);
    }
    c
}

} // verus!
