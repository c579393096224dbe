//! Reading a configuration document: the TOML tree that `toml_edit` parses
//! is read into the configuration model. Unknown keys, values of the wrong
//! type and a missing `environment` table fail with the place of the
//! offending key or value.

use vstd::prelude::*;
use crate::configuration::{Fields, Span, TomlConfiguration, TomlEnvironment, TomlPreset, byte_len};
use crate::diagnostics::{ConfigError, ConfigErrorView};
use crate::text::{contains_text, decimal, decimal_text, has_infix, same_text};
use crate::toml_tree::{TomlEntry, TomlFailure, TomlNode, TomlValue, parse_tree, toml_parsed};

verus! {

/// A string as Rust's `Debug` shows it: in double quotes, with quotes,
/// backslashes and control characters escaped.
pub uninterp spec fn debug_quoted(s: Seq<char>) -> Seq<char>;

/// Relies on the `Debug` implementation of `str`.
#[verifier::external_body]
fn debug_text(s: &str) -> (r: String)
    ensures
        r@ == debug_quoted(s@),
{
    format!("{:?}", s)
}

/// The label shown for a parse failure, chosen by what its message says:
/// missing fields, invalid types and duplicate keys are shown as they are,
/// an unknown field briefly, and anything else as unexpected.
pub open spec fn parse_label(m: Seq<char>) -> Seq<char> {
    if has_infix(m, "missing field"@) {
        m
    } else if has_infix(m, "unknown field"@) {
        "Unknown field"@
    } else if has_infix(m, "invalid type"@) {
        m
    } else if has_infix(m, "duplicate key"@) {
        m
    } else {
        "Unexpected TOML Error "@ + debug_quoted(m)
    }
}

/// The label `parse_label` gives the message `m`.
pub fn parse_error_label(m: &str) -> (r: String)
    ensures
        r@ == parse_label(m@),
{
    if contains_text(m, "missing field") {
        m.to_owned()
    } else if contains_text(m, "unknown field") {
        String::from_str("Unknown field")
    } else if contains_text(m, "invalid type") {
        m.to_owned()
    } else if contains_text(m, "duplicate key") {
        m.to_owned()
    } else {
        String::from_str("Unexpected TOML Error ").concat(debug_text(m).as_str())
    }
}

/// The parse failure with the message `m` at `span`.
pub open spec fn parse_failure(m: Seq<char>, span: Span) -> ConfigErrorView {
    ConfigErrorView::TomlParse { msg: parse_label(m), span }
}

/// A parse failure with the message `raw`, labelled as `parse_label` says.
pub fn parse_error(raw: &str, span: Span) -> (r: ConfigError)
    ensures
        r@ == parse_failure(raw@, span),
{
    ConfigError::TomlParse { msg: parse_error_label(raw), span }
}

pub open spec fn span_or_zero(s: Option<Span>) -> Span {
    match s {
        Some(x) => x,
        None => Span { start: 0, end: 0 },
    }
}

pub fn span_or_start(s: Option<Span>) -> (r: Span)
    ensures
        r == span_or_zero(s),
{
    match s {
        Some(x) => x,
        None => Span { start: 0, end: 0 },
    }
}

/// The decimal representation of a signed integer.
pub open spec fn integer_text(n: i64) -> Seq<char> {
    if n < 0 {
        "-"@ + decimal_text((-n) as nat)
    } else {
        decimal_text(n as nat)
    }
}

/// How an unexpected value is named in a message.
pub open spec fn unexpected_words(v: TomlValue) -> Seq<char> {
    match v {
        TomlValue::Text(s) => "string \""@ + s@ + "\""@,
        TomlValue::Integer(n) => "integer `"@ + integer_text(n) + "`"@,
        TomlValue::Float => "floating point"@,
        TomlValue::Boolean(b) => if b {
            "boolean `true`"@
        } else {
            "boolean `false`"@
        },
        TomlValue::Datetime => "datetime"@,
        TomlValue::Array(_) => "sequence"@,
        TomlValue::Table(_) => "map"@,
        TomlValue::Nothing => "nothing"@,
    }
}

/// The failure for a value that is not of the `expected` kind, at the value.
pub open spec fn invalid_type_error(n: TomlNode, expected: Seq<char>) -> ConfigErrorView {
    parse_failure("invalid type: "@ + unexpected_words(n.value) + ", expected "@ + expected, span_or_zero(n.span))
}

/// The failure for a key that is not known, at the key.
pub open spec fn unknown_field_error(key: Seq<char>, span: Span) -> ConfigErrorView {
    parse_failure("unknown field `"@ + key + "`"@, span)
}

fn unexpected_text(v: &TomlValue) -> (r: String)
    ensures
        r@ == unexpected_words(*v),
{
    match v {
        TomlValue::Text(s) => String::from_str("string \"").concat(s.as_str()).concat("\""),
        TomlValue::Integer(n) => {
            let digits = if *n < 0 {
                String::from_str("-").concat(decimal((0 - (*n as i128)) as u64).as_str())
            } else {
                decimal(*n as u64)
            };
            String::from_str("integer `").concat(digits.as_str()).concat("`")
        },
        TomlValue::Float => String::from_str("floating point"),
        TomlValue::Boolean(b) => if *b {
            String::from_str("boolean `true`")
        } else {
            String::from_str("boolean `false`")
        },
        TomlValue::Datetime => String::from_str("datetime"),
        TomlValue::Array(_) => String::from_str("sequence"),
        TomlValue::Table(_) => String::from_str("map"),
        TomlValue::Nothing => String::from_str("nothing"),
    }
}

fn invalid_type(n: &TomlNode, expected: &str) -> (r: ConfigError)
    ensures
        r@ == invalid_type_error(*n, expected@),
{
    let raw = String::from_str("invalid type: ").concat(unexpected_text(&n.value).as_str()).concat(
        ", expected ",
    ).concat(expected);
    parse_error(raw.as_str(), span_or_start(n.span))
}

fn unknown_field(key: &str, span: Span) -> (r: ConfigError)
    ensures
        r@ == unknown_field_error(key@, span),
{
    let raw = String::from_str("unknown field `").concat(key).concat("`");
    parse_error(raw.as_str(), span)
}

// ---- values ----

/// A string value.
pub open spec fn string_of(n: TomlNode) -> Result<Seq<char>, ConfigErrorView> {
    match n.value {
        TomlValue::Text(s) => Ok(s@),
        _ => Err(invalid_type_error(n, "a string"@)),
    }
}

/// The first `k` elements of an array, each a string, with their spans.
pub open spec fn strings_upto(items: Seq<TomlNode>, k: nat) -> Result<(Seq<Seq<char>>, Seq<Span>), ConfigErrorView>
    decreases k,
{
    if k == 0 || k > items.len() {
        Ok((Seq::empty(), Seq::empty()))
    } else {
        match strings_upto(items, (k - 1) as nat) {
            Err(e) => Err(e),
            Ok((v, s)) => match string_of(items[k - 1]) {
                Ok(x) => Ok((v.push(x), s.push(span_or_zero(items[k - 1].span)))),
                Err(e) => Err(e),
            },
        }
    }
}

/// An array of strings, with the span of each element.
pub open spec fn strings_of(n: TomlNode) -> Result<(Seq<Seq<char>>, Seq<Span>), ConfigErrorView> {
    match n.value {
        TomlValue::Array(items) => strings_upto(items@, items@.len()),
        _ => Err(invalid_type_error(n, "a sequence"@)),
    }
}

fn read_string(n: &TomlNode) -> (r: Result<String, ConfigError>)
    ensures
        match r {
            Ok(s) => string_of(*n) == Ok::<Seq<char>, ConfigErrorView>(s@),
            Err(e) => string_of(*n) == Err::<Seq<char>, ConfigErrorView>(e@),
        },
{
    match &n.value {
        TomlValue::Text(s) => Ok(s.clone()),
        _ => Err(invalid_type(n, "a string")),
    }
}

fn read_strings(n: &TomlNode) -> (r: Result<(Vec<String>, Vec<Span>), ConfigError>)
    ensures
        match r {
            Ok((v, s)) => strings_of(*n) == Ok::<(Seq<Seq<char>>, Seq<Span>), ConfigErrorView>(
                (v.deep_view(), s@),
            ),
            Err(e) => strings_of(*n) == Err::<(Seq<Seq<char>>, Seq<Span>), ConfigErrorView>(e@),
        },
{
    let items = match &n.value {
        TomlValue::Array(items) => items,
        _ => {
            return Err(invalid_type(n, "a sequence"));
        },
    };
    let mut values: Vec<String> = Vec::new();
    let mut spans: Vec<Span> = Vec::new();
    let mut k: usize = 0;
    proof {
        assert(values.deep_view() =~= Seq::<Seq<char>>::empty());
    }
    while k < items.len()
        invariant
            0 <= k <= items@.len(),
            n.value == TomlValue::Array(*items),
            strings_upto(items@, k as nat) == Ok::<(Seq<Seq<char>>, Seq<Span>), ConfigErrorView>(
                (values.deep_view(), spans@),
            ),
        decreases items@.len() - k,
    {
        let item = &items[k];
        match &item.value {
            TomlValue::Text(s) => {
                let ghost before = values.deep_view();
                let c = s.clone();
                values.push(c);
                spans.push(span_or_start(item.span));
                proof {
                    assert(values.deep_view() =~= before.push(s@));
                }
            },
            _ => {
                let e = invalid_type(item, "a string");
                proof {
                    assert(string_of(items@[k as int]) == Err::<Seq<char>, ConfigErrorView>(e@));
                    assert(strings_upto(items@, (k + 1) as nat) == Err::<(Seq<Seq<char>>, Seq<Span>), ConfigErrorView>(e@));
                    lemma_strings_fail(items@, (k + 1) as nat, items@.len(), e@);
                    assert(strings_of(*n) == strings_upto(items@, items@.len()));
                }
                return Err(e);
            },
        }
        k = k + 1;
    }
    Ok((values, spans))
}

proof fn lemma_strings_fail(items: Seq<TomlNode>, k: nat, n: nat, e: ConfigErrorView)
    requires
        0 < k <= n <= items.len(),
        strings_upto(items, k) == Err::<(Seq<Seq<char>>, Seq<Span>), ConfigErrorView>(e),
    ensures
        strings_upto(items, n) == Err::<(Seq<Seq<char>>, Seq<Span>), ConfigErrorView>(e),
    decreases n - k,
{
    if k < n {
        lemma_strings_fail(items, k, (n - 1) as nat, e);
    }
}

// ---- one declared environment or preset ----

/// An environment or preset as declared: its fields, its presets, and the
/// places where its parts stand.
pub ghost struct Declared {
    pub fields: Fields,
    pub presets: Seq<Seq<char>>,
    pub table_span: Span,
    pub entry_cmd_span: Span,
    pub image_span: Span,
    pub dockerfile_span: Span,
    pub dockerfile_value_span: Span,
    pub presets_span: Span,
    pub preset_spans: Seq<Span>,
}

pub open spec fn declared(e: TomlEnvironment) -> Declared {
    Declared {
        fields: e.fields(),
        presets: e.presets.deep_view(),
        table_span: e.table_span,
        entry_cmd_span: e.entry_cmd_span,
        image_span: e.image_span,
        dockerfile_span: e.dockerfile_span,
        dockerfile_value_span: e.dockerfile_value_span,
        presets_span: e.presets_span,
        preset_spans: e.preset_spans@,
    }
}

/// A table with no keys.
pub open spec fn blank(table_span: Span) -> Declared {
    Declared {
        fields: Fields {
            entry_cmd: Seq::empty(),
            image: Seq::empty(),
            dockerfile: Seq::empty(),
            build_context: Seq::empty(),
            entry_options: Seq::empty(),
            cp_cmds: Seq::empty(),
            exec_cmds: Seq::empty(),
            exec_options: Seq::empty(),
            create_options: Seq::empty(),
        },
        presets: Seq::empty(),
        table_span,
        entry_cmd_span: Span { start: 0, end: 0 },
        image_span: Span { start: 0, end: 0 },
        dockerfile_span: Span { start: 0, end: 0 },
        dockerfile_value_span: Span { start: 0, end: 0 },
        presets_span: Span { start: 0, end: 0 },
        preset_spans: Seq::empty(),
    }
}

/// `d` with one more key of its table read: each known key sets its field,
/// `presets` is known only in an environment, and any other key fails.
pub open spec fn apply_entry(d: Declared, en: TomlEntry, is_environment: bool) -> Result<Declared, ConfigErrorView> {
    let key = en.key@;
    let whole = Span { start: span_or_zero(en.key_span).start, end: span_or_zero(en.node.span).end };
    let f = d.fields;
    if key == "entry_cmd"@ {
        match string_of(en.node) {
            Ok(s) => Ok(Declared { fields: Fields { entry_cmd: s, ..f }, entry_cmd_span: whole, ..d }),
            Err(e) => Err(e),
        }
    } else if key == "image"@ {
        match string_of(en.node) {
            Ok(s) => Ok(Declared { fields: Fields { image: s, ..f }, image_span: whole, ..d }),
            Err(e) => Err(e),
        }
    } else if key == "dockerfile"@ {
        match string_of(en.node) {
            Ok(s) => Ok(
                Declared {
                    fields: Fields { dockerfile: s, ..f },
                    dockerfile_span: whole,
                    dockerfile_value_span: span_or_zero(en.node.span),
                    ..d
                },
            ),
            Err(e) => Err(e),
        }
    } else if key == "build_context"@ {
        match string_of(en.node) {
            Ok(s) => Ok(Declared { fields: Fields { build_context: s, ..f }, ..d }),
            Err(e) => Err(e),
        }
    } else if key == "entry_options"@ {
        match strings_of(en.node) {
            Ok((v, _)) => Ok(Declared { fields: Fields { entry_options: v, ..f }, ..d }),
            Err(e) => Err(e),
        }
    } else if key == "cp_cmds"@ {
        match strings_of(en.node) {
            Ok((v, _)) => Ok(Declared { fields: Fields { cp_cmds: v, ..f }, ..d }),
            Err(e) => Err(e),
        }
    } else if key == "exec_cmds"@ {
        match strings_of(en.node) {
            Ok((v, _)) => Ok(Declared { fields: Fields { exec_cmds: v, ..f }, ..d }),
            Err(e) => Err(e),
        }
    } else if key == "exec_options"@ {
        match strings_of(en.node) {
            Ok((v, _)) => Ok(Declared { fields: Fields { exec_options: v, ..f }, ..d }),
            Err(e) => Err(e),
        }
    } else if key == "create_options"@ {
        match strings_of(en.node) {
            Ok((v, _)) => Ok(Declared { fields: Fields { create_options: v, ..f }, ..d }),
            Err(e) => Err(e),
        }
    } else if is_environment && key == "presets"@ {
        match strings_of(en.node) {
            Ok((v, s)) => Ok(
                Declared { presets: v, preset_spans: s, presets_span: span_or_zero(en.node.span), ..d },
            ),
            Err(e) => Err(e),
        }
    } else {
        Err(unknown_field_error(key, span_or_zero(en.key_span)))
    }
}

/// The table after its first `k` keys are read.
pub open spec fn entry_upto(entries: Seq<TomlEntry>, k: nat, is_environment: bool, table_span: Span) -> Result<
    Declared,
    ConfigErrorView,
>
    decreases k,
{
    if k == 0 || k > entries.len() {
        Ok(blank(table_span))
    } else {
        match entry_upto(entries, (k - 1) as nat, is_environment, table_span) {
            Err(e) => Err(e),
            Ok(d) => apply_entry(d, entries[k - 1], is_environment),
        }
    }
}

proof fn lemma_entry_fail(entries: Seq<TomlEntry>, k: nat, n: nat, is_environment: bool, table_span: Span, e: ConfigErrorView)
    requires
        0 < k <= n <= entries.len(),
        entry_upto(entries, k, is_environment, table_span) == Err::<Declared, ConfigErrorView>(e),
    ensures
        entry_upto(entries, n, is_environment, table_span) == Err::<Declared, ConfigErrorView>(e),
    decreases n - k,
{
    if k < n {
        lemma_entry_fail(entries, k, (n - 1) as nat, is_environment, table_span, e);
    }
}

fn blank_environment(table_span: Span) -> (r: TomlEnvironment)
    ensures
        declared(r) == blank(table_span),
{
    let r = TomlEnvironment {
        entry_cmd: String::new(),
        provided_image: String::new(),
        dockerfile: String::new(),
        build_context: String::new(),
        entry_options: Vec::new(),
        cp_cmds: Vec::new(),
        exec_cmds: Vec::new(),
        exec_options: Vec::new(),
        create_options: Vec::new(),
        presets: Vec::new(),
        table_span,
        entry_cmd_span: Span { start: 0, end: 0 },
        image_span: Span { start: 0, end: 0 },
        dockerfile_span: Span { start: 0, end: 0 },
        dockerfile_value_span: Span { start: 0, end: 0 },
        presets_span: Span { start: 0, end: 0 },
        preset_spans: Vec::new(),
    };
    proof {
        assert(r.entry_options.deep_view() =~= Seq::<Seq<char>>::empty());
        assert(r.cp_cmds.deep_view() =~= Seq::<Seq<char>>::empty());
        assert(r.exec_cmds.deep_view() =~= Seq::<Seq<char>>::empty());
        assert(r.exec_options.deep_view() =~= Seq::<Seq<char>>::empty());
        assert(r.create_options.deep_view() =~= Seq::<Seq<char>>::empty());
        assert(r.presets.deep_view() =~= Seq::<Seq<char>>::empty());
        assert(declared(r) =~= blank(table_span));
    }
    r
}

/// The fields of one `[environment.<name>]` or `[preset.<name>]` table.
fn read_entry(entries: &Vec<TomlEntry>, table_span: Span, is_environment: bool) -> (r: Result<TomlEnvironment, ConfigError>)
    ensures
        match r {
            Ok(e) => entry_upto(entries@, entries@.len(), is_environment, table_span) == Ok::<
                Declared,
                ConfigErrorView,
            >(declared(e)),
            Err(x) => entry_upto(entries@, entries@.len(), is_environment, table_span) == Err::<
                Declared,
                ConfigErrorView,
            >(x@),
        },
{
    let mut e = blank_environment(table_span);
    let mut k: usize = 0;
    while k < entries.len()
        invariant
            0 <= k <= entries@.len(),
            entry_upto(entries@, k as nat, is_environment, table_span) == Ok::<Declared, ConfigErrorView>(
                declared(e),
            ),
        decreases entries@.len() - k,
    {
        let en = &entries[k];
        let key = en.key.as_str();
        let whole = Span { start: span_or_start(en.key_span).start, end: span_or_start(en.node.span).end };
        let ghost d = declared(e);
        let failure: Option<ConfigError> = if same_text(key, "entry_cmd") {
            match read_string(&en.node) {
                Ok(s) => {
                    e.entry_cmd = s;
                    e.entry_cmd_span = whole;
                    None
                },
                Err(x) => Some(x),
            }
        } else if same_text(key, "image") {
            match read_string(&en.node) {
                Ok(s) => {
                    e.provided_image = s;
                    e.image_span = whole;
                    None
                },
                Err(x) => Some(x),
            }
        } else if same_text(key, "dockerfile") {
            match read_string(&en.node) {
                Ok(s) => {
                    e.dockerfile = s;
                    e.dockerfile_span = whole;
                    e.dockerfile_value_span = span_or_start(en.node.span);
                    None
                },
                Err(x) => Some(x),
            }
        } else if same_text(key, "build_context") {
            match read_string(&en.node) {
                Ok(s) => {
                    e.build_context = s;
                    None
                },
                Err(x) => Some(x),
            }
        } else if same_text(key, "entry_options") {
            match read_strings(&en.node) {
                Ok((v, _)) => {
                    e.entry_options = v;
                    None
                },
                Err(x) => Some(x),
            }
        } else if same_text(key, "cp_cmds") {
            match read_strings(&en.node) {
                Ok((v, _)) => {
                    e.cp_cmds = v;
                    None
                },
                Err(x) => Some(x),
            }
        } else if same_text(key, "exec_cmds") {
            match read_strings(&en.node) {
                Ok((v, _)) => {
                    e.exec_cmds = v;
                    None
                },
                Err(x) => Some(x),
            }
        } else if same_text(key, "exec_options") {
            match read_strings(&en.node) {
                Ok((v, _)) => {
                    e.exec_options = v;
                    None
                },
                Err(x) => Some(x),
            }
        } else if same_text(key, "create_options") {
            match read_strings(&en.node) {
                Ok((v, _)) => {
                    e.create_options = v;
                    None
                },
                Err(x) => Some(x),
            }
        } else if is_environment && same_text(key, "presets") {
            match read_strings(&en.node) {
                Ok((v, s)) => {
                    e.presets = v;
                    e.preset_spans = s;
                    e.presets_span = span_or_start(en.node.span);
                    None
                },
                Err(x) => Some(x),
            }
        } else {
            Some(unknown_field(key, span_or_start(en.key_span)))
        };
        proof {
            assert(entries@.subrange(0, 0).len() == 0);
        }
        match failure {
            Some(x) => {
                proof {
                    assert(entry_upto(entries@, (k + 1) as nat, is_environment, table_span) == apply_entry(
                        d,
                        entries@[k as int],
                        is_environment,
                    ));
                    lemma_entry_fail(entries@, (k + 1) as nat, entries@.len(), is_environment, table_span, x@);
                }
                return Err(x);
            },
            None => {
                proof {
                    assert(entry_upto(entries@, (k + 1) as nat, is_environment, table_span) == apply_entry(
                        d,
                        entries@[k as int],
                        is_environment,
                    ));
                    assert(apply_entry(d, entries@[k as int], is_environment) == Ok::<Declared, ConfigErrorView>(
                        declared(e),
                    ));
                }
            },
        }
        k = k + 1;
    }
    Ok(e)
}

// ---- sections and the document ----

/// The named tables of the first `k` entries of an `environment` or
/// `preset` table, each read as one environment or preset.
pub open spec fn section_upto(entries: Seq<TomlEntry>, k: nat, is_environment: bool) -> Result<
    Seq<(Seq<char>, Declared)>,
    ConfigErrorView,
>
    decreases k,
{
    if k == 0 || k > entries.len() {
        Ok(Seq::empty())
    } else {
        match section_upto(entries, (k - 1) as nat, is_environment) {
            Err(e) => Err(e),
            Ok(s) => {
                let en = entries[k - 1];
                match en.node.value {
                    TomlValue::Table(sub) => match entry_upto(sub@, sub@.len(), is_environment, span_or_zero(en.node.span)) {
                        Ok(d) => Ok(s.push((en.key@, d))),
                        Err(e) => Err(e),
                    },
                    _ => Err(invalid_type_error(en.node, "a map"@)),
                }
            },
        }
    }
}

/// The entries of an `environment` or `preset` table, which must be a table.
pub open spec fn section_of(n: TomlNode, is_environment: bool) -> Result<Seq<(Seq<char>, Declared)>, ConfigErrorView> {
    match n.value {
        TomlValue::Table(entries) => section_upto(entries@, entries@.len(), is_environment),
        _ => Err(invalid_type_error(n, "a map"@)),
    }
}

proof fn lemma_section_fail(entries: Seq<TomlEntry>, k: nat, n: nat, is_environment: bool, e: ConfigErrorView)
    requires
        0 < k <= n <= entries.len(),
        section_upto(entries, k, is_environment) == Err::<Seq<(Seq<char>, Declared)>, ConfigErrorView>(e),
    ensures
        section_upto(entries, n, is_environment) == Err::<Seq<(Seq<char>, Declared)>, ConfigErrorView>(e),
    decreases n - k,
{
    if k < n {
        lemma_section_fail(entries, k, (n - 1) as nat, is_environment, e);
    }
}

/// Named environments as declared.
pub open spec fn named_view(v: Seq<(String, TomlEnvironment)>) -> Seq<(Seq<char>, Declared)> {
    v.map_values(|p: (String, TomlEnvironment)| (p.0@, declared(p.1)))
}

fn read_section(n: &TomlNode, is_environment: bool) -> (r: Result<Vec<(String, TomlEnvironment)>, ConfigError>)
    ensures
        match r {
            Ok(v) => section_of(*n, is_environment) == Ok::<Seq<(Seq<char>, Declared)>, ConfigErrorView>(
                named_view(v@),
            ),
            Err(x) => section_of(*n, is_environment) == Err::<Seq<(Seq<char>, Declared)>, ConfigErrorView>(x@),
        },
{
    let entries = match &n.value {
        TomlValue::Table(entries) => entries,
        _ => {
            return Err(invalid_type(n, "a map"));
        },
    };
    let mut out: Vec<(String, TomlEnvironment)> = Vec::new();
    let mut k: usize = 0;
    proof {
        assert(named_view(out@) =~= Seq::<(Seq<char>, Declared)>::empty());
    }
    while k < entries.len()
        invariant
            0 <= k <= entries@.len(),
            n.value == TomlValue::Table(*entries),
            section_upto(entries@, k as nat, is_environment) == Ok::<Seq<(Seq<char>, Declared)>, ConfigErrorView>(
                named_view(out@),
            ),
        decreases entries@.len() - k,
    {
        let en = &entries[k];
        let span = span_or_start(en.node.span);
        match &en.node.value {
            TomlValue::Table(sub) => {
                match read_entry(sub, span, is_environment) {
                    Ok(e) => {
                        let ghost before = out@;
                        let name = en.key.clone();
                        out.push((name, e));
                        proof {
                            assert(named_view(out@) =~= named_view(before).push((en.key@, declared(e))));
                        }
                    },
                    Err(x) => {
                        proof {
                            lemma_section_fail(entries@, (k + 1) as nat, entries@.len(), is_environment, x@);
                        }
                        return Err(x);
                    },
                }
            },
            _ => {
                let x = invalid_type(&en.node, "a map");
                proof {
                    lemma_section_fail(entries@, (k + 1) as nat, entries@.len(), is_environment, x@);
                }
                return Err(x);
            },
        }
        k = k + 1;
    }
    Ok(out)
}

/// The sections read so far: the environments, once an `environment` table
/// was read, and the presets.
pub ghost struct Sections {
    pub environments: Option<Seq<(Seq<char>, Declared)>>,
    pub presets: Seq<(Seq<char>, Declared)>,
}

/// The document's first `k` keys read: `environment` and `preset` are
/// sections, any other key fails.
pub open spec fn root_upto(entries: Seq<TomlEntry>, k: nat) -> Result<Sections, ConfigErrorView>
    decreases k,
{
    if k == 0 || k > entries.len() {
        Ok(Sections { environments: None, presets: Seq::empty() })
    } else {
        match root_upto(entries, (k - 1) as nat) {
            Err(e) => Err(e),
            Ok(s) => {
                let en = entries[k - 1];
                if en.key@ == "environment"@ {
                    match section_of(en.node, true) {
                        Ok(v) => Ok(Sections { environments: Some(v), ..s }),
                        Err(e) => Err(e),
                    }
                } else if en.key@ == "preset"@ {
                    match section_of(en.node, false) {
                        Ok(v) => Ok(Sections { presets: v, ..s }),
                        Err(e) => Err(e),
                    }
                } else {
                    Err(unknown_field_error(en.key@, span_or_zero(en.key_span)))
                }
            },
        }
    }
}

proof fn lemma_root_fail(entries: Seq<TomlEntry>, k: nat, n: nat, e: ConfigErrorView)
    requires
        0 < k <= n <= entries.len(),
        root_upto(entries, k) == Err::<Sections, ConfigErrorView>(e),
    ensures
        root_upto(entries, n) == Err::<Sections, ConfigErrorView>(e),
    decreases n - k,
{
    if k < n {
        lemma_root_fail(entries, k, (n - 1) as nat, e);
    }
}

/// The environments and presets, by name in the order of the text, that
/// the parsed document declares, or the first failure: the text is not
/// TOML, a key is unknown, a value has the wrong type, or the required
/// `environment` table is missing. `len` is the length of the text in bytes.
pub open spec fn config_from(parsed: Result<TomlNode, TomlFailure>, len: nat) -> Result<
    (Seq<(Seq<char>, Declared)>, Seq<(Seq<char>, Declared)>),
    ConfigErrorView,
> {
    match parsed {
        Err(f) => Err(parse_failure(f.message@, span_or_zero(f.span))),
        Ok(root) => match root.value {
            TomlValue::Table(entries) => match root_upto(entries@, entries@.len()) {
                Err(e) => Err(e),
                Ok(s) => match s.environments {
                    Some(v) => Ok((v, s.presets)),
                    None => Err(parse_failure("missing field `environment`"@, Span { start: 0, end: len as usize })),
                },
            },
            _ => Err(invalid_type_error(root, "a map"@)),
        },
    }
}

/// The parts of a declared preset that a preset keeps.
pub open spec fn preset_part(d: Declared) -> (Fields, Span, Span, Span) {
    (d.fields, d.entry_cmd_span, d.image_span, d.dockerfile_span)
}

pub open spec fn preset_decl(p: TomlPreset) -> (Fields, Span, Span, Span) {
    (p.fields(), p.entry_cmd_span, p.image_span, p.dockerfile_span)
}

/// The configuration `c` holds the environments and presets of `v`.
pub open spec fn reads_as(c: TomlConfiguration, v: (Seq<(Seq<char>, Declared)>, Seq<(Seq<char>, Declared)>)) -> bool {
    &&& named_view(c.environments@) == v.0
    &&& c.presets@.map_values(|p: (String, TomlPreset)| (p.0@, preset_decl(p.1))) == v.1.map_values(
        |p: (Seq<char>, Declared)| (p.0, preset_part(p.1)),
    )
}

fn into_preset(e: TomlEnvironment) -> (r: TomlPreset)
    ensures
        preset_decl(r) == preset_part(declared(e)),
{
    TomlPreset {
        entry_cmd: e.entry_cmd,
        provided_image: e.provided_image,
        dockerfile: e.dockerfile,
        build_context: e.build_context,
        entry_options: e.entry_options,
        cp_cmds: e.cp_cmds,
        exec_cmds: e.exec_cmds,
        exec_options: e.exec_options,
        create_options: e.create_options,
        entry_cmd_span: e.entry_cmd_span,
        image_span: e.image_span,
        dockerfile_span: e.dockerfile_span,
    }
}

fn into_presets(read: Vec<(String, TomlEnvironment)>) -> (r: Vec<(String, TomlPreset)>)
    ensures
        r@.map_values(|p: (String, TomlPreset)| (p.0@, preset_decl(p.1))) == named_view(read@).map_values(
            |p: (Seq<char>, Declared)| (p.0, preset_part(p.1)),
        ),
{
    let ghost all = read@;
    let mut read = read;
    let mut out: Vec<(String, TomlPreset)> = Vec::new();
    let mut k: usize = 0;
    let n = read.len();
    while k < n
        invariant
            n == all.len(),
            0 <= k <= n,
            read@.len() == n - k,
            forall|j: int| 0 <= j < n - k ==> read@[j] == all[k + j],
            out@.len() == k,
            forall|j: int|
                0 <= j < k ==> ((#[trigger] out@[j]).0@, preset_decl(out@[j].1)) == (all[j].0@, preset_part(
                    declared(all[j].1),
                )),
        decreases n - k,
    {
        let ghost before = read@;
        let (name, e) = read.remove(0);
        proof {
            assert(before[0] == all[k as int]);
            assert forall|j: int| 0 <= j < n - k - 1 implies read@[j] == all[k + 1 + j] by {
                assert(read@[j] == before[j + 1]);
            }
        }
        out.push((name, into_preset(e)));
        k = k + 1;
    }
    proof {
        assert(out@.map_values(|p: (String, TomlPreset)| (p.0@, preset_decl(p.1))) =~= named_view(all).map_values(
            |p: (Seq<char>, Declared)| (p.0, preset_part(p.1)),
        ));
    }
    out
}

/// The configuration that the TOML text declares, as `config_from` reads
/// the document that `toml_edit` parses from it.
pub fn parse_toml(text: &str) -> (r: Result<TomlConfiguration, ConfigError>)
    ensures
        match r {
            Ok(c) => (config_from(toml_parsed(text@), byte_len(text@)) matches Ok(v) && reads_as(c, v)),
            Err(e) => config_from(toml_parsed(text@), byte_len(text@)) == Err::<
                (Seq<(Seq<char>, Declared)>, Seq<(Seq<char>, Declared)>),
                ConfigErrorView,
            >(e@),
        },
{
    let root = match parse_tree(text) {
        Ok(root) => root,
        Err(f) => {
            return Err(parse_error(f.message.as_str(), span_or_start(f.span)));
        },
    };
    let entries = match &root.value {
        TomlValue::Table(entries) => entries,
        _ => {
            return Err(invalid_type(&root, "a map"));
        },
    };
    let mut environments: Option<Vec<(String, TomlEnvironment)>> = None;
    let mut presets: Vec<(String, TomlEnvironment)> = Vec::new();
    let mut k: usize = 0;
    proof {
        assert(named_view(presets@) =~= Seq::<(Seq<char>, Declared)>::empty());
    }
    while k < entries.len()
        invariant
            0 <= k <= entries@.len(),
            toml_parsed(text@) == Ok::<TomlNode, TomlFailure>(root),
            root.value == TomlValue::Table(*entries),
            root_upto(entries@, k as nat) == Ok::<Sections, ConfigErrorView>(
                Sections {
                    environments: match environments {
                        Some(v) => Some(named_view(v@)),
                        None => None,
                    },
                    presets: named_view(presets@),
                },
            ),
        decreases entries@.len() - k,
    {
        let en = &entries[k];
        let key = en.key.as_str();
        if same_text(key, "environment") {
            match read_section(&en.node, true) {
                Ok(v) => {
                    environments = Some(v);
                },
                Err(x) => {
                    proof {
                        lemma_root_fail(entries@, (k + 1) as nat, entries@.len(), x@);
                    }
                    return Err(x);
                },
            }
        } else if same_text(key, "preset") {
            match read_section(&en.node, false) {
                Ok(v) => {
                    presets = v;
                },
                Err(x) => {
                    proof {
                        lemma_root_fail(entries@, (k + 1) as nat, entries@.len(), x@);
                    }
                    return Err(x);
                },
            }
        } else {
            let x = unknown_field(key, span_or_start(en.key_span));
            proof {
                lemma_root_fail(entries@, (k + 1) as nat, entries@.len(), x@);
            }
            return Err(x);
        }
        k = k + 1;
    }
    match environments {
        Some(environments) => {
            let presets = into_presets(presets);
            Ok(TomlConfiguration { environments, presets })
        },
        None => Err(parse_error("missing field `environment`", Span { start: 0, end: text.len() })),
    }
}

} // verus!
