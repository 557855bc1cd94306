//! The project manifest and its text form.

use crate::eval::{mismatch, missing};
use crate::stamp::{
    hyphenated, id_text, instant_text, parse_id, parse_instant, parsed_id, parsed_instant,
    render_instant, Timestamp,
};
use vstd::prelude::*;
use vstd::string::*;

verus! {

/// The record that identifies a project. It is written once, when the
/// project is created.
#[derive(Clone, Debug)]
pub struct ProjectManifest {
    pub id: u128,
    pub name: String,
    pub created_at: Timestamp,
    pub version: String,
}

/// The mathematical form of [`ProjectManifest`].
pub struct ProjectManifestView {
    pub id: u128,
    pub name: Seq<char>,
    pub created_at: Timestamp,
    pub version: Seq<char>,
}

impl DeepView for ProjectManifest {
    type V = ProjectManifestView;

    open spec fn deep_view(&self) -> ProjectManifestView {
        ProjectManifestView {
            id: self.id,
            name: self.name@,
            created_at: self.created_at,
            version: self.version@,
        }
    }
}

/// The text that `toml::to_string_pretty` writes for a table that holds
/// the given keys, each with a string value, or the message of its error.
pub uninterp spec fn toml_text(pairs: Seq<(Seq<char>, Seq<char>)>) -> Result<Seq<char>, Seq<char>>;

/// What `toml::from_str` reads from a text as a table: its top-level keys
/// in document order, each with its value where that is a string, or the
/// message of the parser's error.
pub uninterp spec fn toml_entries(text: Seq<char>) -> Result<
    Seq<(Seq<char>, Option<Seq<char>>)>,
    Seq<char>,
>;

/// The texts of a vector of pairs.
pub open spec fn pair_views(pairs: Seq<(String, String)>) -> Seq<(Seq<char>, Seq<char>)> {
    Seq::new(pairs.len(), |i: int| (pairs[i].0@, pairs[i].1@))
}

/// The texts of a vector of entries.
pub open spec fn entry_views(entries: Seq<(String, Option<String>)>) -> Seq<
    (Seq<char>, Option<Seq<char>>),
> {
    Seq::new(
        entries.len(),
        |i: int|
            (
                entries[i].0@,
                match entries[i].1 {
                    Some(s) => Some(s@),
                    None => None,
                },
            ),
    )
}

/// Fills a `toml::Table` with the pairs, each value as a TOML string, and
/// calls `toml::to_string_pretty` on it; an error is turned into its
/// message.
#[verifier::external_body]
pub(crate) fn write_toml(pairs: &Vec<(String, String)>) -> (r: Result<String, String>)
    ensures
        match r {
            Ok(text) => toml_text(pair_views(pairs@)) == Ok::<Seq<char>, Seq<char>>(text@),
            Err(m) => toml_text(pair_views(pairs@)) == Err::<Seq<char>, Seq<char>>(m@),
        },
{
    let mut table = toml::Table::new();
    for (key, value) in pairs {
        table.insert(key.clone(), toml::Value::String(value.clone()));
    }
    toml::to_string_pretty(&table).map_err(|e| e.to_string())
}

/// Calls `toml::from_str` for a `toml::Table` and hands out its keys, each
/// with what `toml::Value::as_str` gives for its value; an error is turned
/// into its message.
#[verifier::external_body]
pub(crate) fn read_toml(text: &str) -> (r: Result<Vec<(String, Option<String>)>, String>)
    ensures
        match r {
            Ok(entries) => toml_entries(text@) == Ok::<
                Seq<(Seq<char>, Option<Seq<char>>)>,
                Seq<char>,
            >(entry_views(entries@)),
            Err(m) => toml_entries(text@) == Err::<Seq<(Seq<char>, Option<Seq<char>>)>, Seq<char>>(
                m@,
            ),
        },
{
    match toml::from_str::<toml::Table>(text) {
        Ok(table) => Ok(
            table.iter().map(|(k, v)| (k.clone(), v.as_str().map(String::from))).collect(),
        ),
        Err(e) => Err(e.to_string()),
    }
}

/// The message for an instant that has no text form.
pub open spec fn unwritable_instant() -> Seq<char> {
    "created_at is out of range"@
}

/// The text of a manifest: its four fields in the order `id`, `name`,
/// `created_at`, `version`, each as a string.
pub open spec fn manifest_text(m: ProjectManifestView) -> Result<Seq<char>, Seq<char>> {
    match instant_text(m.created_at.secs as int, m.created_at.nanos as int) {
        None => Err(unwritable_instant()),
        Some(at) => toml_text(
            seq![
                ("id"@, hyphenated(m.id)),
                ("name"@, m.name),
                ("created_at"@, at),
                ("version"@, m.version),
            ],
        ),
    }
}

/// Writes a manifest as text.
pub fn render_manifest(m: &ProjectManifest) -> (r: Result<String, String>)
    ensures
        match r {
            Ok(text) => manifest_text(m.deep_view()) == Ok::<Seq<char>, Seq<char>>(text@),
            Err(d) => manifest_text(m.deep_view()) == Err::<Seq<char>, Seq<char>>(d@),
        },
{
    let at = match render_instant(m.created_at) {
        Some(at) => at,
        None => return Err(String::from_str("created_at is out of range")),
    };
    let mut pairs: Vec<(String, String)> = Vec::new();
    pairs.push((String::from_str("id"), id_text(m.id)));
    pairs.push((String::from_str("name"), m.name.clone()));
    pairs.push((String::from_str("created_at"), at));
    pairs.push((String::from_str("version"), m.version.clone()));
    assert(pair_views(pairs@) =~= seq![
        ("id"@, hyphenated(m.id)),
        ("name"@, m.name@),
        ("created_at"@, at@),
        ("version"@, m.version@),
    ]);
    write_toml(&pairs)
}

/// What stands under the first entry with the key `key`.
pub open spec fn entry(entries: Seq<(Seq<char>, Option<Seq<char>>)>, key: Seq<char>) -> Option<
    Option<Seq<char>>,
>
    decreases entries.len(),
{
    if entries.len() == 0 {
        None
    } else if entries[0].0 == key {
        Some(entries[0].1)
    } else {
        entry(entries.drop_first(), key)
    }
}

/// The string under `key`, which must be there.
pub open spec fn entry_text(entries: Seq<(Seq<char>, Option<Seq<char>>)>, key: Seq<char>) -> Result<
    Seq<char>,
    Seq<char>,
> {
    match entry(entries, key) {
        None => Err(missing(key)),
        Some(None) => Err(mismatch(key)),
        Some(Some(s)) => Ok(s),
    }
}

/// The message for a string that does not write a value of its field.
pub open spec fn unreadable(key: Seq<char>) -> Seq<char> {
    "invalid value for field `"@ + key + "`"@
}

/// The manifest that a record of entries holds, or the message for the
/// first field, in the order `id`, `name`, `created_at`, `version`, that is
/// missing, is no string, or does not write a value. Other entries are
/// passed over.
pub open spec fn manifest_of_entries(entries: Seq<(Seq<char>, Option<Seq<char>>)>) -> Result<
    ProjectManifestView,
    Seq<char>,
> {
    match entry_text(entries, "id"@) {
        Err(m) => Err(m),
        Ok(id) => match parsed_id(id) {
            None => Err(unreadable("id"@)),
            Some(id) => match entry_text(entries, "name"@) {
                Err(m) => Err(m),
                Ok(name) => match entry_text(entries, "created_at"@) {
                    Err(m) => Err(m),
                    Ok(at) => match parsed_instant(at) {
                        None => Err(unreadable("created_at"@)),
                        Some(created_at) => match entry_text(entries, "version"@) {
                            Err(m) => Err(m),
                            Ok(version) => Ok(
                                ProjectManifestView { id, name, created_at, version },
                            ),
                        },
                    },
                },
            },
        },
    }
}

/// The manifest that a text holds.
pub open spec fn manifest_of(text: Seq<char>) -> Result<ProjectManifestView, Seq<char>> {
    match toml_entries(text) {
        Err(m) => Err(m),
        Ok(entries) => manifest_of_entries(entries),
    }
}

/// Finds the string under `key`.
pub fn find_entry(entries: &Vec<(String, Option<String>)>, key: &str) -> (r: Result<String, String>)
    ensures
        match r {
            Ok(s) => entry_text(entry_views(entries@), key@) == Ok::<Seq<char>, Seq<char>>(s@),
            Err(m) => entry_text(entry_views(entries@), key@) == Err::<Seq<char>, Seq<char>>(m@),
        },
{
    let ghost all = entry_views(entries@);
    let wanted = String::from_str(key);
    let mut i: usize = 0;
    assert(all.subrange(0, all.len() as int) =~= all);
    while i < entries.len()
        invariant
            i <= entries@.len(),
            all == entry_views(entries@),
            wanted@ == key@,
            entry(all, key@) == entry(all.subrange(i as int, all.len() as int), key@),
        decreases entries@.len() - i,
    {
        let ghost here = all.subrange(i as int, all.len() as int);
        assert(here[0] == all[i as int]);
        assert(here.drop_first() =~= all.subrange(i + 1, all.len() as int));
        if entries[i].0 == wanted {
            return match &entries[i].1 {
                Some(s) => Ok(s.clone()),
                None => Err(
                    String::from_str("invalid type for field `").concat(key).concat("`"),
                ),
            };
        }
        i = i + 1;
    }
    assert(all.subrange(i as int, all.len() as int).len() == 0);
    Err(String::from_str("missing field `").concat(key).concat("`"))
}

/// Reads a manifest from the entries of its text.
pub fn manifest_from_entries(entries: &Vec<(String, Option<String>)>) -> (r: Result<
    ProjectManifest,
    String,
>)
    ensures
        match r {
            Ok(m) => manifest_of_entries(entry_views(entries@)) == Ok::<
                ProjectManifestView,
                Seq<char>,
            >(m.deep_view()),
            Err(d) => manifest_of_entries(entry_views(entries@)) == Err::<
                ProjectManifestView,
                Seq<char>,
            >(d@),
        },
{
    let id = match find_entry(entries, "id") {
        Ok(text) => match parse_id(text.as_str()) {
            Some(id) => id,
            None => return Err(
                String::from_str("invalid value for field `").concat("id").concat("`"),
            ),
        },
        Err(m) => return Err(m),
    };
    let name = match find_entry(entries, "name") {
        Ok(v) => v,
        Err(m) => return Err(m),
    };
    let created_at = match find_entry(entries, "created_at") {
        Ok(text) => match parse_instant(text.as_str()) {
            Some(at) => at,
            None => return Err(
                String::from_str("invalid value for field `").concat("created_at").concat("`"),
            ),
        },
        Err(m) => return Err(m),
    };
    let version = match find_entry(entries, "version") {
        Ok(v) => v,
        Err(m) => return Err(m),
    };
    Ok(ProjectManifest { id, name, created_at, version })
}

/// Reads a manifest from its text.
pub fn parse_manifest(text: &str) -> (r: Result<ProjectManifest, String>)
    ensures
        match r {
            Ok(m) => manifest_of(text@) == Ok::<ProjectManifestView, Seq<char>>(m.deep_view()),
            Err(d) => manifest_of(text@) == Err::<ProjectManifestView, Seq<char>>(d@),
        },
{
    match read_toml(text) {
        Ok(entries) => manifest_from_entries(&entries),
        Err(m) => Err(m),
    }
}

} // verus!
