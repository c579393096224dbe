//! TOML documents as trees of plain values: what `toml_edit` parses, with
//! the byte span of every key and value.

use vstd::prelude::*;
use crate::configuration::Span;

verus! {

#[verifier::external_type_specification]
#[verifier::external_body]
pub struct ExTable(toml_edit::Table);

#[verifier::external_type_specification]
#[verifier::external_body]
pub struct ExInlineTable(toml_edit::InlineTable);

#[verifier::external_type_specification]
#[verifier::external_body]
pub struct ExItem(toml_edit::Item);

#[verifier::external_type_specification]
#[verifier::external_body]
pub struct ExValue(toml_edit::Value);

/// A TOML value. Floating-point numbers and date-times are kept as their
/// kind alone.
#[derive(Debug)]
pub enum TomlValue {
    Text(String),
    Integer(i64),
    Float,
    Boolean(bool),
    Datetime,
    Array(Vec<TomlNode>),
    /// A table, standard or inline, with its entries in order.
    Table(Vec<TomlEntry>),
    Nothing,
}

/// A value and the place where it stands in the text.
#[derive(Debug)]
pub struct TomlNode {
    pub value: TomlValue,
    pub span: Option<Span>,
}

/// A key of a table, where it stands, and its value.
#[derive(Debug)]
pub struct TomlEntry {
    pub key: String,
    pub key_span: Option<Span>,
    pub node: TomlNode,
}

/// Why a text is not TOML: the parser's message and where it stopped.
#[derive(Debug)]
pub struct TomlFailure {
    pub message: String,
    pub span: Option<Span>,
}

/// The tree of the TOML text `text`, or why it is not TOML.
pub uninterp spec fn toml_parsed(text: Seq<char>) -> Result<TomlNode, TomlFailure>;

/// Relies on `toml_edit::ImDocument::parse`: parses TOML text, keeping the
/// span of every key and value; the root is the document's table.
#[verifier::external_body]
pub fn parse_tree(text: &str) -> (r: Result<TomlNode, TomlFailure>)
    ensures
        r == toml_parsed(text@),
{
    match toml_edit::ImDocument::parse(text.to_owned()) {
        Ok(d) => Ok(TomlNode { value: TomlValue::Table(table_entries(d.as_table())), span: None }),
        Err(e) => Err(TomlFailure { message: e.message().to_owned(), span: span_of(e.span()) }),
    }
}

/// Relies on `std::ops::Range`: a byte range as a span.
#[verifier::external_body]
fn span_of(r: Option<std::ops::Range<usize>>) -> (s: Option<Span>) {
    r.map(|x| Span { start: x.start, end: x.end })
}

/// Relies on `toml_edit::Table::iter`, `Table::key` and `Key::span`: the
/// entries of a table, in order.
#[verifier::external_body]
fn table_entries(t: &toml_edit::Table) -> (r: Vec<TomlEntry>) {
    t.iter()
        .map(|(k, i)| TomlEntry {
            key: k.to_owned(),
            key_span: span_of(t.key(k).and_then(|x| x.span())),
            node: item_node(i),
        })
        .collect()
}

/// Relies on `toml_edit::InlineTable::iter`, `InlineTable::key` and
/// `Key::span`: the entries of an inline table, in order.
#[verifier::external_body]
fn inline_entries(t: &toml_edit::InlineTable) -> (r: Vec<TomlEntry>) {
    t.iter()
        .map(|(k, v)| TomlEntry {
            key: k.to_owned(),
            key_span: span_of(t.key(k).and_then(|x| x.span())),
            node: value_node(v),
        })
        .collect()
}

/// Relies on the variants of `toml_edit::Item` and on `Item::span`.
#[verifier::external_body]
fn item_node(i: &toml_edit::Item) -> (r: TomlNode) {
    let value = match i {
        toml_edit::Item::Value(v) => return value_node(v),
        toml_edit::Item::Table(t) => TomlValue::Table(table_entries(t)),
        toml_edit::Item::ArrayOfTables(a) => TomlValue::Array(
            a.iter().map(|t| TomlNode { value: TomlValue::Table(table_entries(t)), span: span_of(t.span()) }).collect(),
        ),
        toml_edit::Item::None => TomlValue::Nothing,
    };
    TomlNode { value, span: span_of(i.span()) }
}

/// Relies on the variants of `toml_edit::Value` and on `Value::span`.
#[verifier::external_body]
fn value_node(v: &toml_edit::Value) -> (r: TomlNode) {
    let value = match v {
        toml_edit::Value::String(s) => TomlValue::Text(s.value().clone()),
        toml_edit::Value::Integer(n) => TomlValue::Integer(*n.value()),
        toml_edit::Value::Float(_) => TomlValue::Float,
        toml_edit::Value::Boolean(b) => TomlValue::Boolean(*b.value()),
        toml_edit::Value::Datetime(_) => TomlValue::Datetime,
        toml_edit::Value::Array(a) => TomlValue::Array(a.iter().map(value_node).collect()),
        toml_edit::Value::InlineTable(t) => TomlValue::Table(inline_entries(t)),
    };
    TomlNode { value, span: span_of(v.span()) }
}

} // verus!
