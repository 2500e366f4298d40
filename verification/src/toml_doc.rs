//! A TOML configuration document as the settings logic reads it: the top-level
//! keys, each with a table of scalar values or a scalar of its own.
use vstd::prelude::*;
use toml::Table;
use toml::Value;

verus! {

/// A TOML value below the top level, by what configuration reading tells apart.
#[derive(Clone, Copy, Debug, PartialEq, Eq, Structural)]
pub enum TomlScalar {
    Boolean(bool),
    Integer(i64),
    /// A float, by the bits of its `f64`.
    Float(u64),
    /// A string, date, array or table.
    Other,
}

/// A top-level TOML value: a table (a configuration section) or anything else.
pub enum TomlItem {
    Table(Vec<(String, TomlScalar)>),
    Scalar(TomlScalar),
}

/// A parsed TOML document: its top-level keys in the order the `toml` crate
/// iterates them.
pub struct TomlDoc {
    pub entries: Vec<(String, TomlItem)>,
}

/// The document that the `toml` crate parses from `text`, or `None` where it
/// reports a syntax error.
pub uninterp spec fn toml_document(text: Seq<char>) -> Option<TomlDoc>;

/// Parses `text` with `toml::Table::from_str` (the same document parser as
/// `str::parse::<toml::Value>`), and converts the table into the library's
/// model: each value by its variant, nested tables one level deep. The contract
/// only names the result; what document a text denotes is the `toml` crate's.
#[verifier::external_body]
pub(crate) fn parse_toml_document(text: &str) -> (r: Option<TomlDoc>)
    ensures
        r == toml_document(text@),
{
    let sc = |v: &Value| match v {
        Value::Boolean(b) => TomlScalar::Boolean(*b),
        Value::Integer(i) => TomlScalar::Integer(*i),
        Value::Float(x) => TomlScalar::Float(x.to_bits()),
        _ => TomlScalar::Other,
    };
    let it = |v: &Value| match v.as_table() {
        Some(t) => TomlItem::Table(t.iter().map(|(k, x)| (k.clone(), sc(x))).collect()),
        None => TomlItem::Scalar(sc(v)),
    };
    let t = text.parse::<Table>().ok()?;
    Some(TomlDoc { entries: t.iter().map(|(k, v)| (k.clone(), it(v))).collect() })
}

/// The value of the first entry whose key is `key`.
pub open spec fn find_entry<V>(entries: Seq<(String, V)>, key: Seq<char>) -> Option<V>
    decreases entries.len(),
{
    if entries.len() == 0 {
        None
    } else if entries[0].0@ == key {
        Some(entries[0].1)
    } else {
        find_entry(entries.drop_first(), key)
    }
}

/// The scalar stored under `key` in a section.
pub fn section_get(entries: &Vec<(String, TomlScalar)>, key: &str) -> (r: Option<TomlScalar>)
    ensures
        r == find_entry(entries@, key@),
{
    let k = key.to_owned();
    let mut i: usize = 0;
    assert(entries@.skip(0) =~= entries@);
    while i < entries.len()
        invariant
            k@ == key@,
            i <= entries.len(),
            find_entry(entries@, key@) == find_entry(entries@.skip(i as int), key@),
        decreases entries.len() - i,
    {
        assert(entries@.skip(i as int).drop_first() =~= entries@.skip(i + 1));
        if entries[i].0 == k {
            return Some(entries[i].1);
        }
        i = i + 1;
    }
    None
}

} // verus!
