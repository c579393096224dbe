//! Preset files: named environments under `[env.<name>]`, each with an
//! image and an entry command, whose option lists have their variables
//! expanded.

use vstd::prelude::*;
use crate::configuration::{Span, copy_strings};
use crate::environment::{expand_all, expanded_from};
use crate::text::{decimal, decimal_text, same_text};
use crate::toml_reader::{span_or_start, span_or_zero};
use crate::toml_tree::{TomlEntry, TomlFailure, TomlNode, TomlValue, parse_tree, toml_parsed};

verus! {

/// Why a preset file could not be read.
#[derive(Debug)]
pub enum PresetError {
    TomlParse { message: String },
}

impl PresetError {
    pub open spec fn message(&self) -> String {
        match self {
            PresetError::TomlParse { message } => *message,
        }
    }
}

/// One environment of a preset file.
#[derive(Debug)]
pub struct Env {
    pub name: String,
    pub image: String,
    pub entry_cmd: String,
    pub entry_options: Option<Vec<String>>,
    pub exec_cmds: Option<Vec<String>>,
    pub exec_options: Option<Vec<String>>,
    pub create_options: Option<Vec<String>>,
}

/// The environments of a preset file, by name, in order.
#[derive(Debug)]
pub struct Preset {
    pub envs: Vec<(String, Env)>,
}

/// One more, unless the count is at its largest.
pub open spec fn sat_succ(n: nat) -> nat {
    if n < u64::MAX {
        n + 1
    } else {
        n
    }
}

/// The line and the column, counted from one, reached after the first `k`
/// bytes of `b`: a newline starts the next line, and every byte that starts
/// a character moves one column on.
pub open spec fn place(b: Seq<u8>, k: nat) -> (nat, nat)
    decreases k,
{
    if k == 0 || k > b.len() {
        (1, 1)
    } else {
        let (l, c) = place(b, (k - 1) as nat);
        if b[k - 1] == 10u8 {
            (sat_succ(l), 1)
        } else if b[k - 1] & 0xC0u8 != 0x80u8 {
            (l, sat_succ(c))
        } else {
            (l, c)
        }
    }
}

/// The place of the byte at `offset` in the UTF-8 encoding of `text`.
pub open spec fn text_place(text: Seq<char>, offset: nat) -> (nat, nat) {
    let b = vstd::utf8::encode_utf8(text);
    place(b, if offset < b.len() { offset } else { b.len() })
}

/// The text of a failure at byte `offset` of `text` with the message `m`.
pub open spec fn error_text_at(text: Seq<char>, offset: nat, m: Seq<char>) -> Seq<char> {
    let (line, column) = text_place(text, offset);
    "TOML parse error at line "@ + decimal_text(line) + ", column "@ + decimal_text(column) + "\n"@ + m
        + "\n"@
}

/// The line and column, counted from one, of the byte at `offset`.
fn position(text: &str, offset: usize) -> (r: (u64, u64))
    ensures
        (r.0 as nat, r.1 as nat) == text_place(text@, offset as nat),
{
    let b = text.as_bytes();
    let mut line: u64 = 1;
    let mut column: u64 = 1;
    let mut i: usize = 0;
    while i < offset && i < b.len()
        invariant
            b@ == vstd::utf8::encode_utf8(text@),
            i <= b@.len(),
            i <= offset,
            (line as nat, column as nat) == place(b@, i as nat),
        decreases offset - i,
    {
        if b[i] == 10u8 {
            line = line.saturating_add(1);
            column = 1;
        } else if b[i] & 0xC0 != 0x80 {
            column = column.saturating_add(1);
        }
        i = i + 1;
    }
    (line, column)
}

/// A failure at `span` of `text`, with its place in the text and its message.
fn error_at(text: &str, span: Span, message: &str) -> (r: PresetError)
    ensures
        r.message()@ == error_text_at(text@, span.start as nat, message@),
{
    let (line, column) = position(text, span.start);
    let message = String::from_str("TOML parse error at line ").concat(decimal(line).as_str()).concat(
        ", column ",
    ).concat(decimal(column).as_str()).concat("\n").concat(message).concat("\n");
    PresetError::TomlParse { message }
}

fn optional_list(v: &Option<Vec<String>>) -> (r: Option<Vec<String>>)
    ensures
        v matches Some(l) ==> (r matches Some(m) && expanded_from(m.deep_view(), l.deep_view())),
        v is None ==> r is None,
{
    match v {
        Some(l) => Some(expand_all(l)),
        None => None,
    }
}

/// `o` has its variables expanded from `i`, where there is a list.
pub open spec fn expanded_option(o: Option<Vec<String>>, i: Option<Vec<String>>) -> bool {
    match (o, i) {
        (Some(a), Some(b)) => expanded_from(a.deep_view(), b.deep_view()),
        (None, None) => true,
        _ => false,
    }
}


/// A preset environment as declared.
pub ghost struct EnvDecl {
    pub image: Seq<char>,
    pub entry_cmd: Seq<char>,
    pub entry_options: Option<Seq<Seq<char>>>,
    pub exec_cmds: Option<Seq<Seq<char>>>,
    pub exec_options: Option<Seq<Seq<char>>>,
    pub create_options: Option<Seq<Seq<char>>>,
}

pub open spec fn opt_list(o: Option<Vec<String>>) -> Option<Seq<Seq<char>>> {
    match o {
        Some(v) => Some(v.deep_view()),
        None => None,
    }
}

pub open spec fn env_decl(e: Env) -> EnvDecl {
    EnvDecl {
        image: e.image@,
        entry_cmd: e.entry_cmd@,
        entry_options: opt_list(e.entry_options),
        exec_cmds: opt_list(e.exec_cmds),
        exec_options: opt_list(e.exec_options),
        create_options: opt_list(e.create_options),
    }
}

/// A string value.
pub open spec fn text_spec(n: TomlNode) -> Option<Seq<char>> {
    match n.value {
        TomlValue::Text(s) => Some(s@),
        _ => None,
    }
}

/// The first `k` elements of an array, each a string.
pub open spec fn texts_upto(items: Seq<TomlNode>, k: nat) -> Option<Seq<Seq<char>>>
    decreases k,
{
    if k == 0 || k > items.len() {
        Some(Seq::empty())
    } else {
        match (texts_upto(items, (k - 1) as nat), text_spec(items[k - 1])) {
            (Some(v), Some(x)) => Some(v.push(x)),
            _ => None,
        }
    }
}

/// An array of strings.
pub open spec fn texts_spec(n: TomlNode) -> Option<Seq<Seq<char>>> {
    match n.value {
        TomlValue::Array(items) => texts_upto(items@, items@.len()),
        _ => None,
    }
}

/// Why a preset file is not valid: a message, and where in the text.
pub open spec fn failure(m: Seq<char>, at: Option<Span>) -> (Seq<char>, Span) {
    (m, span_or_zero(at))
}

pub open spec fn unknown_env_key(key: Seq<char>) -> Seq<char> {
    "unknown field `"@ + key
        + "`, expected one of `image`, `entry_cmd`, `entry_options`, `exec_cmds`, `exec_options`, `create_options`"@
}

pub open spec fn invalid_env_value(key: Seq<char>) -> Seq<char> {
    "invalid type for `"@ + key + "`"@
}

/// `d` with one more key read, and whether the image and the entry command
/// have been given; the failure where the key is unknown or its value of
/// the wrong type.
pub open spec fn apply_env_key(d: (EnvDecl, bool, bool), en: TomlEntry) -> Result<(EnvDecl, bool, bool), (Seq<char>, Span)> {
    let key = en.key@;
    let (e, has_image, has_cmd) = d;
    let invalid = failure(invalid_env_value(key), en.node.span);
    if key == "image"@ {
        match text_spec(en.node) {
            Some(s) => Ok((EnvDecl { image: s, ..e }, true, has_cmd)),
            None => Err(invalid),
        }
    } else if key == "entry_cmd"@ {
        match text_spec(en.node) {
            Some(s) => Ok((EnvDecl { entry_cmd: s, ..e }, has_image, true)),
            None => Err(invalid),
        }
    } else if key == "entry_options"@ || key == "exec_cmds"@ || key == "exec_options"@ || key == "create_options"@ {
        match texts_spec(en.node) {
            Some(l) => Ok(
                (
                    if key == "entry_options"@ {
                        EnvDecl { entry_options: Some(l), ..e }
                    } else if key == "exec_cmds"@ {
                        EnvDecl { exec_cmds: Some(l), ..e }
                    } else if key == "exec_options"@ {
                        EnvDecl { exec_options: Some(l), ..e }
                    } else {
                        EnvDecl { create_options: Some(l), ..e }
                    },
                    has_image,
                    has_cmd,
                ),
            ),
            None => Err(invalid),
        }
    } else {
        Err(failure(unknown_env_key(key), en.key_span))
    }
}

pub open spec fn blank_decl() -> EnvDecl {
    EnvDecl {
        image: Seq::empty(),
        entry_cmd: Seq::empty(),
        entry_options: None,
        exec_cmds: None,
        exec_options: None,
        create_options: None,
    }
}

/// The first `k` keys of an environment's table read.
pub open spec fn env_upto(entries: Seq<TomlEntry>, k: nat) -> Result<(EnvDecl, bool, bool), (Seq<char>, Span)>
    decreases k,
{
    if k == 0 || k > entries.len() {
        Ok((blank_decl(), false, false))
    } else {
        match env_upto(entries, (k - 1) as nat) {
            Ok(d) => apply_env_key(d, entries[k - 1]),
            Err(f) => Err(f),
        }
    }
}

/// An environment's table, which must give an image and an entry command.
pub open spec fn env_spec(n: TomlNode) -> Result<EnvDecl, (Seq<char>, Span)> {
    match n.value {
        TomlValue::Table(entries) => match env_upto(entries@, entries@.len()) {
            Ok((e, has_image, has_cmd)) => if !has_image {
                Err(failure("missing field `image`"@, n.span))
            } else if !has_cmd {
                Err(failure("missing field `entry_cmd`"@, n.span))
            } else {
                Ok(e)
            },
            Err(f) => Err(f),
        },
        _ => Err(failure("invalid type, expected a map"@, n.span)),
    }
}

/// The first `k` environments of the `env` table.
pub open spec fn envs_upto(entries: Seq<TomlEntry>, k: nat) -> Result<Seq<(Seq<char>, EnvDecl)>, (Seq<char>, Span)>
    decreases k,
{
    if k == 0 || k > entries.len() {
        Ok(Seq::empty())
    } else {
        match envs_upto(entries, (k - 1) as nat) {
            Ok(v) => match env_spec(entries[k - 1].node) {
                Ok(e) => Ok(v.push((entries[k - 1].key@, e))),
                Err(f) => Err(f),
            },
            Err(f) => Err(f),
        }
    }
}

pub open spec fn envs_spec(n: TomlNode) -> Result<Seq<(Seq<char>, EnvDecl)>, (Seq<char>, Span)> {
    match n.value {
        TomlValue::Table(entries) => envs_upto(entries@, entries@.len()),
        _ => Err(failure("invalid type, expected a map"@, n.span)),
    }
}

/// The document's first `k` keys read: only `env` is known.
pub open spec fn preset_root_upto(entries: Seq<TomlEntry>, k: nat) -> Result<
    Option<Seq<(Seq<char>, EnvDecl)>>,
    (Seq<char>, Span),
>
    decreases k,
{
    if k == 0 || k > entries.len() {
        Ok(None)
    } else {
        match preset_root_upto(entries, (k - 1) as nat) {
            Ok(_) => if entries[k - 1].key@ == "env"@ {
                match envs_spec(entries[k - 1].node) {
                    Ok(v) => Ok(Some(v)),
                    Err(f) => Err(f),
                }
            } else {
                Err(failure("unknown field `"@ + entries[k - 1].key@ + "`, expected `env`"@, entries[k - 1].key_span))
            },
            Err(f) => Err(f),
        }
    }
}

/// The environments, by name in the order of the text, that a parsed
/// preset file declares, or why it is not a valid preset file.
pub open spec fn preset_file(parsed: Result<TomlNode, TomlFailure>) -> Result<
    Seq<(Seq<char>, EnvDecl)>,
    (Seq<char>, Span),
> {
    match parsed {
        Ok(root) => match root.value {
            TomlValue::Table(entries) => match preset_root_upto(entries@, entries@.len()) {
                Ok(Some(v)) => Ok(v),
                Ok(None) => Err(("missing field `env`"@, Span { start: 0, end: 0 })),
                Err(f) => Err(f),
            },
            _ => Err(failure("invalid type, expected a map"@, root.span)),
        },
        Err(f) => Err(failure(f.message@, f.span)),
    }
}

/// The error of a preset file that failed as `f` says.
pub open spec fn failed_as(x: PresetError, text: Seq<char>, f: (Seq<char>, Span)) -> bool {
    x.message()@ == error_text_at(text, f.1.start as nat, f.0)
}

proof fn lemma_texts_none(items: Seq<TomlNode>, k: nat, n: nat)
    requires
        0 < k <= n <= items.len(),
        texts_upto(items, k) is None,
    ensures
        texts_upto(items, n) is None,
    decreases n - k,
{
    if k < n {
        lemma_texts_none(items, k, (n - 1) as nat);
    }
}

proof fn lemma_env_fail(entries: Seq<TomlEntry>, k: nat, n: nat, f: (Seq<char>, Span))
    requires
        0 < k <= n <= entries.len(),
        env_upto(entries, k) == Err::<(EnvDecl, bool, bool), (Seq<char>, Span)>(f),
    ensures
        env_upto(entries, n) == Err::<(EnvDecl, bool, bool), (Seq<char>, Span)>(f),
    decreases n - k,
{
    if k < n {
        lemma_env_fail(entries, k, (n - 1) as nat, f);
    }
}

proof fn lemma_envs_fail(entries: Seq<TomlEntry>, k: nat, n: nat, f: (Seq<char>, Span))
    requires
        0 < k <= n <= entries.len(),
        envs_upto(entries, k) == Err::<Seq<(Seq<char>, EnvDecl)>, (Seq<char>, Span)>(f),
    ensures
        envs_upto(entries, n) == Err::<Seq<(Seq<char>, EnvDecl)>, (Seq<char>, Span)>(f),
    decreases n - k,
{
    if k < n {
        lemma_envs_fail(entries, k, (n - 1) as nat, f);
    }
}

proof fn lemma_preset_root_fail(entries: Seq<TomlEntry>, k: nat, n: nat, f: (Seq<char>, Span))
    requires
        0 < k <= n <= entries.len(),
        preset_root_upto(entries, k) == Err::<Option<Seq<(Seq<char>, EnvDecl)>>, (Seq<char>, Span)>(f),
    ensures
        preset_root_upto(entries, n) == Err::<Option<Seq<(Seq<char>, EnvDecl)>>, (Seq<char>, Span)>(f),
    decreases n - k,
{
    if k < n {
        lemma_preset_root_fail(entries, k, (n - 1) as nat, f);
    }
}

/// `o` has its variables expanded from the declared list `d`, where there is one.
pub open spec fn expanded_decl(o: Option<Vec<String>>, d: Option<Seq<Seq<char>>>) -> bool {
    match (o, d) {
        (Some(a), Some(b)) => expanded_from(a.deep_view(), b),
        (None, None) => true,
        _ => false,
    }
}

/// The environments `r` are the declared ones `v`, in order: each named
/// after its key, with its image, entry command and setup commands as
/// declared and its options expanded.
pub open spec fn preset_matches(r: Seq<(String, Env)>, v: Seq<(Seq<char>, EnvDecl)>) -> bool {
    &&& r.len() == v.len()
    &&& forall|i: int|
        0 <= i < r.len() ==> {
            &&& (#[trigger] r[i]).0@ == v[i].0
            &&& r[i].1.name@ == v[i].0
            &&& r[i].1.image@ == v[i].1.image
            &&& r[i].1.entry_cmd@ == v[i].1.entry_cmd
            &&& opt_list(r[i].1.exec_cmds) == v[i].1.exec_cmds
            &&& expanded_decl(r[i].1.entry_options, v[i].1.entry_options)
            &&& expanded_decl(r[i].1.exec_options, v[i].1.exec_options)
            &&& expanded_decl(r[i].1.create_options, v[i].1.create_options)
        }
}

impl Preset {
    /// The preset file whose text is `file`: a table `env` of environments,
    /// each with a string `image` and `entry_cmd` and optional lists of
    /// strings `entry_options`, `exec_cmds`, `exec_options` and
    /// `create_options`; anything else fails with its place in the text.
    pub fn new(file: &str) -> (r: Result<Preset, PresetError>)
        ensures
            match r {
                Ok(p) => (preset_file(toml_parsed(file@)) matches Ok(v) && preset_matches(p.envs@, v)),
                Err(x) => (preset_file(toml_parsed(file@)) matches Err(f) && failed_as(x, file@, f)),
            },
    {
        let root = match parse_tree(file) {
            Ok(root) => root,
            Err(f) => {
                return Err(error_at(file, span_or_start(f.span), f.message.as_str()));
            },
        };
        let entries = match &root.value {
            TomlValue::Table(entries) => entries,
            _ => {
                return Err(error_at(file, span_or_start(root.span), "invalid type, expected a map"));
            },
        };
        let mut envs: Option<Vec<(String, Env)>> = None;
        let mut k: usize = 0;
        while k < entries.len()
            invariant
                0 <= k <= entries@.len(),
                toml_parsed(file@) == Ok::<TomlNode, TomlFailure>(root),
                root.value == TomlValue::Table(*entries),
                preset_root_upto(entries@, k as nat) == Ok::<Option<Seq<(Seq<char>, EnvDecl)>>, (Seq<char>, Span)>(
                    match envs {
                        Some(v) => Some(v@.map_values(|p: (String, Env)| (p.0@, env_decl(p.1)))),
                        None => None,
                    },
                ),
            decreases entries@.len() - k,
        {
            let en = &entries[k];
            if same_text(en.key.as_str(), "env") {
                match Self::read_envs(file, &en.node) {
                    Ok(v) => {
                        envs = Some(v);
                    },
                    Err(x) => {
                        proof {
                            let f = envs_spec(entries@[k as int].node)->Err_0;
                            lemma_preset_root_fail(entries@, (k + 1) as nat, entries@.len(), f);
                        }
                        return Err(x);
                    },
                }
            } else {
                let m = String::from_str("unknown field `").concat(en.key.as_str()).concat("`, expected `env`");
                let x = error_at(file, span_or_start(en.key_span), m.as_str());
                proof {
                    let f = failure("unknown field `"@ + en.key@ + "`, expected `env`"@, en.key_span);
                    lemma_preset_root_fail(entries@, (k + 1) as nat, entries@.len(), f);
                }
                return Err(x);
            }
            k = k + 1;
        }
        match envs {
            Some(envs) => {
                let ghost v = envs@.map_values(|p: (String, Env)| (p.0@, env_decl(p.1)));
                let parsed = Self::parse_envs(envs);
                proof {
                    assert forall|i: int| 0 <= i < parsed@.len() implies {
                        &&& (#[trigger] parsed@[i]).0@ == v[i].0
                        &&& parsed@[i].1.name@ == v[i].0
                        &&& parsed@[i].1.image@ == v[i].1.image
                        &&& parsed@[i].1.entry_cmd@ == v[i].1.entry_cmd
                        &&& opt_list(parsed@[i].1.exec_cmds) == v[i].1.exec_cmds
                        &&& expanded_decl(parsed@[i].1.entry_options, v[i].1.entry_options)
                        &&& expanded_decl(parsed@[i].1.exec_options, v[i].1.exec_options)
                        &&& expanded_decl(parsed@[i].1.create_options, v[i].1.create_options)
                    } by {
                        assert(v[i] == (envs@[i].0@, env_decl(envs@[i].1)));
                    }
                }
                Ok(Preset { envs: parsed })
            },
            None => Err(error_at(file, Span { start: 0, end: 0 }, "missing field `env`")),
        }
    }

    fn read_envs(file: &str, node: &TomlNode) -> (r: Result<Vec<(String, Env)>, PresetError>)
        ensures
            match r {
                Ok(v) => envs_spec(*node) == Ok::<Seq<(Seq<char>, EnvDecl)>, (Seq<char>, Span)>(
                    v@.map_values(|p: (String, Env)| (p.0@, env_decl(p.1))),
                ),
                Err(x) => (envs_spec(*node) matches Err(f) && failed_as(x, file@, f)),
            },
    {
        let entries = match &node.value {
            TomlValue::Table(entries) => entries,
            _ => {
                return Err(error_at(file, span_or_start(node.span), "invalid type, expected a map"));
            },
        };
        let mut out: Vec<(String, Env)> = Vec::new();
        let mut k: usize = 0;
        proof {
            assert(out@.map_values(|p: (String, Env)| (p.0@, env_decl(p.1))) =~= Seq::<(Seq<char>, EnvDecl)>::empty());
        }
        while k < entries.len()
            invariant
                0 <= k <= entries@.len(),
                node.value == TomlValue::Table(*entries),
                envs_upto(entries@, k as nat) == Ok::<Seq<(Seq<char>, EnvDecl)>, (Seq<char>, Span)>(
                    out@.map_values(|p: (String, Env)| (p.0@, env_decl(p.1))),
                ),
            decreases entries@.len() - k,
        {
            let env = match Self::read_env(file, &entries[k].node) {
                Ok(env) => env,
                Err(x) => {
                    proof {
                        let f = env_spec(entries@[k as int].node)->Err_0;
                        lemma_envs_fail(entries@, (k + 1) as nat, entries@.len(), f);
                    }
                    return Err(x);
                },
            };
            let ghost before = out@;
            let name = entries[k].key.clone();
            out.push((name, env));
            proof {
                assert(out@.map_values(|p: (String, Env)| (p.0@, env_decl(p.1))) =~= before.map_values(
                    |p: (String, Env)| (p.0@, env_decl(p.1)),
                ).push((entries@[k as int].key@, env_decl(env))));
            }
            k = k + 1;
        }
        Ok(out)
    }

    fn text_of(node: &TomlNode) -> (r: Option<String>)
        ensures
            match r {
                Some(x) => text_spec(*node) == Some(x@),
                None => text_spec(*node) is None,
            },
    {
        match &node.value {
            TomlValue::Text(s) => Some(s.clone()),
            _ => None,
        }
    }

    fn texts_of(node: &TomlNode) -> (r: Option<Vec<String>>)
        ensures
            match r {
                Some(v) => texts_spec(*node) == Some(v.deep_view()),
                None => texts_spec(*node) is None,
            },
    {
        let items = match &node.value {
            TomlValue::Array(items) => items,
            _ => {
                return None;
            },
        };
        let mut out: Vec<String> = Vec::new();
        let mut k: usize = 0;
        proof {
            assert(out.deep_view() =~= Seq::<Seq<char>>::empty());
        }
        while k < items.len()
            invariant
                0 <= k <= items@.len(),
                node.value == TomlValue::Array(*items),
                texts_upto(items@, k as nat) == Some(out.deep_view()),
            decreases items@.len() - k,
        {
            match Self::text_of(&items[k]) {
                Some(x) => {
                    let ghost before = out.deep_view();
                    let ghost xv = x@;
                    out.push(x);
                    proof {
                        assert(out.deep_view() =~= before.push(xv));
                    }
                },
                None => {
                    proof {
                        lemma_texts_none(items@, (k + 1) as nat, items@.len());
                    }
                    return None;
                },
            }
            k = k + 1;
        }
        Some(out)
    }

    fn read_env(file: &str, node: &TomlNode) -> (r: Result<Env, PresetError>)
        ensures
            match r {
                Ok(e) => env_spec(*node) == Ok::<EnvDecl, (Seq<char>, Span)>(env_decl(e)),
                Err(x) => (env_spec(*node) matches Err(f) && failed_as(x, file@, f)),
            },
    {
        let span = span_or_start(node.span);
        let entries = match &node.value {
            TomlValue::Table(entries) => entries,
            _ => {
                return Err(error_at(file, span, "invalid type, expected a map"));
            },
        };
        let mut env = Env {
            name: String::new(),
            image: String::new(),
            entry_cmd: String::new(),
            entry_options: None,
            exec_cmds: None,
            exec_options: None,
            create_options: None,
        };
        let mut has_image = false;
        let mut has_entry_cmd = false;
        let mut k: usize = 0;
        proof {
            assert(env_decl(env) == blank_decl());
        }
        while k < entries.len()
            invariant
                0 <= k <= entries@.len(),
                node.value == TomlValue::Table(*entries),
                env_upto(entries@, k as nat) == Ok::<(EnvDecl, bool, bool), (Seq<char>, Span)>(
                    (env_decl(env), has_image, has_entry_cmd),
                ),
            decreases entries@.len() - k,
        {
            let en: &TomlEntry = &entries[k];
            let key = en.key.as_str();
            let ghost d = (env_decl(env), has_image, has_entry_cmd);
            let read = if same_text(key, "image") {
                match Self::text_of(&en.node) {
                    Some(s) => {
                        env.image = s;
                        has_image = true;
                        true
                    },
                    None => false,
                }
            } else if same_text(key, "entry_cmd") {
                match Self::text_of(&en.node) {
                    Some(s) => {
                        env.entry_cmd = s;
                        has_entry_cmd = true;
                        true
                    },
                    None => false,
                }
            } else if same_text(key, "entry_options") || same_text(key, "exec_cmds") || same_text(
                key,
                "exec_options",
            ) || same_text(key, "create_options") {
                match Self::texts_of(&en.node) {
                    Some(l) => {
                        if same_text(key, "entry_options") {
                            env.entry_options = Some(l);
                        } else if same_text(key, "exec_cmds") {
                            env.exec_cmds = Some(l);
                        } else if same_text(key, "exec_options") {
                            env.exec_options = Some(l);
                        } else {
                            env.create_options = Some(l);
                        }
                        true
                    },
                    None => false,
                }
            } else {
                let m = String::from_str("unknown field `").concat(key).concat(
                    "`, expected one of `image`, `entry_cmd`, `entry_options`, `exec_cmds`, `exec_options`, `create_options`",
                );
                let x = error_at(file, span_or_start(en.key_span), m.as_str());
                proof {
                    let f = failure(unknown_env_key(en.key@), en.key_span);
                    assert(apply_env_key(d, entries@[k as int]) == Err::<(EnvDecl, bool, bool), (Seq<char>, Span)>(f));
                    lemma_env_fail(entries@, (k + 1) as nat, entries@.len(), f);
                }
                return Err(x);
            };
            if !read {
                let m = String::from_str("invalid type for `").concat(key).concat("`");
                let x = error_at(file, span_or_start(en.node.span), m.as_str());
                proof {
                    let f = failure(invalid_env_value(en.key@), en.node.span);
                    assert(apply_env_key(d, entries@[k as int]) == Err::<(EnvDecl, bool, bool), (Seq<char>, Span)>(f));
                    lemma_env_fail(entries@, (k + 1) as nat, entries@.len(), f);
                }
                return Err(x);
            }
            proof {
                assert(apply_env_key(d, entries@[k as int]) == Ok::<(EnvDecl, bool, bool), (Seq<char>, Span)>(
                    (env_decl(env), has_image, has_entry_cmd),
                ));
            }
            k = k + 1;
        }
        if !has_image {
            return Err(error_at(file, span, "missing field `image`"));
        }
        if !has_entry_cmd {
            return Err(error_at(file, span, "missing field `entry_cmd`"));
        }
        Ok(env)
    }

    /// Each environment named after its key, with the variables of its
    /// entry, exec and create options expanded.
    pub fn parse_envs(envs: Vec<(String, Env)>) -> (r: Vec<(String, Env)>)
        ensures
            r@.len() == envs@.len(),
            forall|i: int|
                0 <= i < r@.len() ==> {
                    &&& (#[trigger] r@[i]).0@ == envs@[i].0@
                    &&& r@[i].1.name@ == envs@[i].0@
                    &&& r@[i].1.image@ == envs@[i].1.image@
                    &&& r@[i].1.entry_cmd@ == envs@[i].1.entry_cmd@
                    &&& expanded_option(r@[i].1.entry_options, envs@[i].1.entry_options)
                    &&& expanded_option(r@[i].1.exec_options, envs@[i].1.exec_options)
                    &&& expanded_option(r@[i].1.create_options, envs@[i].1.create_options)
                    &&& r@[i].1.exec_cmds.deep_view() == envs@[i].1.exec_cmds.deep_view()
                },
    {
        let mut r: Vec<(String, Env)> = Vec::new();
        let mut i: usize = 0;
        while i < envs.len()
            invariant
                0 <= i <= envs@.len(),
                r@.len() == i,
                forall|j: int|
                    0 <= j < i ==> {
                        &&& (#[trigger] r@[j]).0@ == envs@[j].0@
                        &&& r@[j].1.name@ == envs@[j].0@
                        &&& r@[j].1.image@ == envs@[j].1.image@
                        &&& r@[j].1.entry_cmd@ == envs@[j].1.entry_cmd@
                        &&& expanded_option(r@[j].1.entry_options, envs@[j].1.entry_options)
                        &&& expanded_option(r@[j].1.exec_options, envs@[j].1.exec_options)
                        &&& expanded_option(r@[j].1.create_options, envs@[j].1.create_options)
                        &&& r@[j].1.exec_cmds.deep_view() == envs@[j].1.exec_cmds.deep_view()
                    },
            decreases envs@.len() - i,
        {
            let (name, e) = (&envs[i].0, &envs[i].1);
            let exec_cmds = match &e.exec_cmds {
                Some(l) => Some(copy_strings(l)),
                None => None,
            };
            let env = Env {
                name: name.clone(),
                image: e.image.clone(),
                entry_cmd: e.entry_cmd.clone(),
                entry_options: optional_list(&e.entry_options),
                exec_cmds,
                exec_options: optional_list(&e.exec_options),
                create_options: optional_list(&e.create_options),
            };
            r.push((name.clone(), env));
            i = i + 1;
        }
        r
    }

    /// The environment called `name`, if the file declares one.
    pub fn env(&self, name: &str) -> (r: Option<&Env>)
        ensures
            r matches Some(e) ==> exists|i: int| 0 <= i < self.envs@.len() && self.envs@[i].0@ == name@ && self.envs@[i].1 == *e,
            r is None ==> forall|i: int| 0 <= i < self.envs@.len() ==> self.envs@[i].0@ != name@,
    {
        let mut i: usize = 0;
        while i < self.envs.len()
            invariant
                0 <= i <= self.envs@.len(),
                forall|j: int| 0 <= j < i ==> self.envs@[j].0@ != name@,
            decreases self.envs@.len() - i,
        {
            if same_text(self.envs[i].0.as_str(), name) {
                return Some(&self.envs[i].1);
            }
            i = i + 1;
        }
        None
    }
}

} // verus!
