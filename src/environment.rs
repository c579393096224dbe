//! From a merged environment to a resolved one: variable expansion, the
//! Dockerfile's place and image name, and the environment's identity.

use vstd::prelude::*;
use crate::configuration::{Fields, Span, TomlEnvironment, copy_strings};
use crate::diagnostics::{ConfigError, ConfigErrorView, missing_dockerfile_msg};
use crate::naming::{
    generate_image_name, identity_from, identity_shaped, lemma_identity_shape, identity_text, image_name_text, list_bytes, lower_of,
    option_bytes, push_list, push_option, push_text, sha256, sha256_of, text_bytes,
};
use crate::paths::{is_absolute, is_absolute_path, join, join_path, lemma_absolute_stays, parent, parent_dir};
use crate::util::expand_variables;

verus! {

/// A resolved environment: everything needed to build, create and enter its
/// container.
#[derive(Debug)]
pub struct Environment {
    /// `berth-<original name>-<sixteen hex digits>`, the container's name.
    pub name: String,
    pub original_name: String,
    pub image: String,
    /// The absolute or config-relative-resolved path of the Dockerfile.
    pub dockerfile: Option<String>,
    /// The directory the image is built in, present with a Dockerfile.
    pub build_context: Option<String>,
    pub entry_cmd: String,
    pub entry_options: Vec<String>,
    pub exec_cmds: Vec<String>,
    pub exec_options: Vec<String>,
    pub create_options: Vec<String>,
    pub cp_cmds: Vec<String>,
}

pub open spec fn opt_view(o: Option<String>) -> Option<Seq<char>> {
    match o {
        Some(s) => Some(s@),
        None => None,
    }
}

/// The bytes that an environment's identity digests: every field but the
/// name, in declaration order.
pub open spec fn identity_bytes(e: Environment) -> Seq<u8> {
    text_bytes(e.original_name@) + text_bytes(e.image@) + option_bytes(opt_view(e.dockerfile))
        + option_bytes(opt_view(e.build_context)) + text_bytes(e.entry_cmd@) + list_bytes(
        e.entry_options.deep_view(),
    ) + list_bytes(e.exec_cmds.deep_view()) + list_bytes(e.exec_options.deep_view()) + list_bytes(
        e.create_options.deep_view(),
    ) + list_bytes(e.cp_cmds.deep_view())
}

/// The name that identifies the environment `e`.
pub open spec fn identity_of(e: Environment) -> Seq<char> {
    identity_text(e.original_name@, sha256_of(identity_bytes(e)))
}

impl Environment {
    /// The bytes that `identity_bytes` describes.
    pub fn identity_bytes(&self) -> (r: Vec<u8>)
        ensures
            r@ == identity_bytes(*self),
    {
        let mut out: Vec<u8> = Vec::new();
        push_text(&mut out, self.original_name.as_str());
        push_text(&mut out, self.image.as_str());
        push_option(&mut out, &self.dockerfile);
        push_option(&mut out, &self.build_context);
        push_text(&mut out, self.entry_cmd.as_str());
        push_list(&mut out, &self.entry_options);
        push_list(&mut out, &self.exec_cmds);
        push_list(&mut out, &self.exec_options);
        push_list(&mut out, &self.create_options);
        push_list(&mut out, &self.cp_cmds);
        proof {
            assert(out@ =~= identity_bytes(*self));
        }
        out
    }

    /// Sets the name to the identity of the other fields.
    pub fn identify(&mut self)
        ensures
            fields_of(*final(self)) == fields_of(*old(self)),
            final(self).name@ == identity_of(*old(self)),
            sha256_of(identity_bytes(*old(self))).len() == 32,
    {
        let bytes = self.identity_bytes();
        let digest = sha256(bytes.as_slice());
        self.name = identity_from(self.original_name.as_str(), digest.as_slice());
    }
}

/// The fields of a resolved environment but its name.
pub ghost struct EnvironmentView {
    pub original_name: Seq<char>,
    pub image: Seq<char>,
    pub dockerfile: Option<Seq<char>>,
    pub build_context: Option<Seq<char>>,
    pub entry_cmd: Seq<char>,
    pub entry_options: Seq<Seq<char>>,
    pub exec_cmds: Seq<Seq<char>>,
    pub exec_options: Seq<Seq<char>>,
    pub create_options: Seq<Seq<char>>,
    pub cp_cmds: Seq<Seq<char>>,
}

/// The fields of `e` but its name, as mathematical values.
pub open spec fn fields_of(e: Environment) -> EnvironmentView {
    EnvironmentView {
        original_name: e.original_name@,
        image: e.image@,
        dockerfile: opt_view(e.dockerfile),
        build_context: opt_view(e.build_context),
        entry_cmd: e.entry_cmd@,
        entry_options: e.entry_options.deep_view(),
        exec_cmds: e.exec_cmds.deep_view(),
        exec_options: e.exec_options.deep_view(),
        create_options: e.create_options.deep_view(),
        cp_cmds: e.cp_cmds.deep_view(),
    }
}

/// The identity depends on the fields alone: two environments whose fields
/// are equal have the same name.
pub proof fn lemma_identity_determined(a: Environment, b: Environment)
    requires
        fields_of(a) == fields_of(b),
    ensures
        identity_of(a) == identity_of(b),
{
    assert(identity_bytes(a) == identity_bytes(b));
}

/// Where a declared path leads: an absolute path is kept, a relative one is
/// taken from the directory of the configuration file.
pub open spec fn resolve_against(config_path: Seq<char>, p: Seq<char>) -> Option<Seq<char>> {
    if is_absolute_path(p) {
        Some(p)
    } else {
        match parent_dir(config_path) {
            Some(d) => Some(join_path(d, p)),
            None => None,
        }
    }
}

/// A path taken from an absolute configuration file's place is absolute.
pub proof fn lemma_resolve_absolute(config_path: Seq<char>, p: Seq<char>)
    requires
        is_absolute_path(config_path),
    ensures
        resolve_against(config_path, p) matches Some(q) ==> is_absolute_path(q),
{
    lemma_absolute_stays(config_path, p);
    if let Some(d) = parent_dir(config_path) {
        lemma_absolute_stays(d, p);
    }
}

/// The directory a Dockerfile stands in, or `.` where that is the current one.
pub open spec fn default_context(dockerfile: Seq<char>) -> Seq<char> {
    match parent_dir(dockerfile) {
        Some(d) => if d.len() > 0 {
            d
        } else {
            "."@
        },
        None => "."@,
    }
}

/// The path `resolve_against` describes.
pub fn resolve_path(config_path: &str, p: &str) -> (r: Option<String>)
    ensures
        r matches Some(s) ==> resolve_against(config_path@, p@) == Some(s@),
        r is None ==> resolve_against(config_path@, p@) is None,
{
    if is_absolute(p) {
        Some(p.to_owned())
    } else {
        match parent(config_path) {
            Some(d) => Some(join(d.as_str(), p)),
            None => None,
        }
    }
}

/// The directory `default_context` describes.
pub fn context_of(dockerfile: &str) -> (r: String)
    ensures
        r@ == default_context(dockerfile@),
{
    match parent(dockerfile) {
        Some(d) => if d.as_str().unicode_len() > 0 {
            d
        } else {
            String::from_str(".")
        },
        None => String::from_str("."),
    }
}

/// A merged environment with its variables expanded and its Dockerfile
/// located, waiting for the Dockerfile's contents.
#[derive(Debug)]
pub struct EnvironmentPlan {
    pub name: String,
    /// The declared image, empty where a Dockerfile is declared.
    pub image: String,
    pub dockerfile: Option<String>,
    pub build_context: Option<String>,
    /// The declared Dockerfile value, for errors about it.
    pub dockerfile_span: Span,
    pub entry_cmd: String,
    pub entry_options: Vec<String>,
    pub exec_cmds: Vec<String>,
    pub exec_options: Vec<String>,
    pub create_options: Vec<String>,
    pub cp_cmds: Vec<String>,
}

/// What reading a Dockerfile gave.
#[derive(Debug)]
pub enum DockerfileRead {
    /// No file stands at the path.
    Missing,
    /// A file stands there but could not be read.
    Unreadable,
    /// The file's bytes.
    Contents(Vec<u8>),
}

/// The Dockerfile and build context that a plan holds, where the
/// declared image is empty and the Dockerfile and build context were
/// expanded into `dockerfile` and `context`; none where one of the paths
/// leads nowhere.
pub open spec fn planned_paths(config_path: Seq<char>, dockerfile: Seq<char>, context: Seq<char>) -> Option<
    (Seq<char>, Seq<char>),
> {
    match resolve_against(config_path, dockerfile) {
        None => None,
        Some(d) => if context.len() == 0 {
            Some((d, default_context(d)))
        } else {
            match resolve_against(config_path, context) {
                None => None,
                Some(c) => Some((d, c)),
            }
        },
    }
}

/// The error of a plan whose paths lead nowhere: it names the path that does.
pub open spec fn planned_error(config_path: Seq<char>, dockerfile: Seq<char>, context: Seq<char>) -> ConfigErrorView {
    match resolve_against(config_path, dockerfile) {
        None => ConfigErrorView::FailedToInteractWithDockerfile(dockerfile),
        Some(_) => ConfigErrorView::FailedToInteractWithDockerfile(context),
    }
}

/// The plan `p` carries the fields of `m` and the given options.
pub open spec fn plan_carries(
    p: EnvironmentPlan,
    name: Seq<char>,
    m: TomlEnvironment,
    entry_options: Seq<Seq<char>>,
    exec_options: Seq<Seq<char>>,
    create_options: Seq<Seq<char>>,
) -> bool {
    &&& p.name@ == name
    &&& p.entry_cmd@ == m.entry_cmd@
    &&& p.dockerfile_span == m.dockerfile_value_span
    &&& p.entry_options.deep_view() == entry_options
    &&& p.exec_options.deep_view() == exec_options
    &&& p.create_options.deep_view() == create_options
    &&& p.exec_cmds.deep_view() == m.exec_cmds.deep_view()
    &&& p.cp_cmds.deep_view() == m.cp_cmds.deep_view()
}

/// The plan for the merged environment `m` called `name`, whose options and
/// paths were expanded into the given values: with a declared image it is
/// kept; with a Dockerfile, the Dockerfile and an explicit build context are
/// taken from the configuration file's directory unless absolute, and the
/// build context is otherwise the Dockerfile's directory.
pub fn plan_from_expanded(
    config_path: &str,
    name: &str,
    m: &TomlEnvironment,
    entry_options: Vec<String>,
    exec_options: Vec<String>,
    create_options: Vec<String>,
    dockerfile: String,
    build_context: String,
) -> (r: Result<EnvironmentPlan, ConfigError>)
    ensures
        r matches Ok(p) ==> (plan_carries(
            p,
            name@,
            *m,
            entry_options.deep_view(),
            exec_options.deep_view(),
            create_options.deep_view(),
        )),
        m.provided_image@.len() > 0 ==> (r matches Ok(p) && p.image@ == m.provided_image@
            && p.dockerfile is None && p.build_context is None),
        m.provided_image@.len() == 0 ==> (r is Ok <==> planned_paths(
            config_path@,
            dockerfile@,
            build_context@,
        ) is Some),
        m.provided_image@.len() == 0 ==> (r matches Ok(p) ==> p.image@.len() == 0 && planned_paths(
            config_path@,
            dockerfile@,
            build_context@,
        ) == Some((p.dockerfile->Some_0@, p.build_context->Some_0@)) && p.dockerfile is Some
            && p.build_context is Some),
        m.provided_image@.len() == 0 ==> (r matches Err(e) ==> e@ == planned_error(
            config_path@,
            dockerfile@,
            build_context@,
        )),
{
    let (image, dockerfile, build_context) = if !m.provided_image.as_str().is_empty() {
        (m.provided_image.clone(), None, None)
    } else {
        let d = match resolve_path(config_path, dockerfile.as_str()) {
            Some(d) => d,
            None => {
                return Err(ConfigError::FailedToInteractWithDockerfile(dockerfile));
            },
        };
        let c = if build_context.as_str().is_empty() {
            context_of(d.as_str())
        } else {
            match resolve_path(config_path, build_context.as_str()) {
                Some(c) => c,
                None => {
                    return Err(ConfigError::FailedToInteractWithDockerfile(build_context));
                },
            }
        };
        (String::new(), Some(d), Some(c))
    };
    Ok(
        EnvironmentPlan {
            name: name.to_owned(),
            image,
            dockerfile,
            build_context,
            dockerfile_span: m.dockerfile_value_span,
            entry_cmd: m.entry_cmd.clone(),
            entry_options,
            exec_cmds: copy_strings(&m.exec_cmds),
            exec_options,
            create_options,
            cp_cmds: copy_strings(&m.cp_cmds),
        },
    )
}

/// Each string is what expansion may give of the one before it: the same
/// number, and those without `$` unchanged.
pub open spec fn expanded_from(after: Seq<Seq<char>>, before: Seq<Seq<char>>) -> bool {
    &&& after.len() == before.len()
    &&& forall|i: int| 0 <= i < before.len() && !before[i].contains('$') ==> after[i] == before[i]
}

/// Each string with its variables expanded.
pub fn expand_all(v: &Vec<String>) -> (r: Vec<String>)
    ensures
        expanded_from(r.deep_view(), v.deep_view()),
{
    let mut r: Vec<String> = Vec::new();
    let mut i: usize = 0;
    while i < v.len()
        invariant
            0 <= i <= v@.len(),
            r@.len() == i,
            forall|k: int| 0 <= k < i && !v@[k]@.contains('$') ==> r@[k]@ == v@[k]@,
        decreases v@.len() - i,
    {
        r.push(expand_variables(v[i].as_str()));
        i = i + 1;
    }
    r
}

/// The plan `p` for the environment called `name` whose merged fields are
/// `f`: the commands carried over, the options expanded, and the declared
/// image kept where there is one, a Dockerfile planned where there is none.
pub open spec fn planned_from_fields(p: EnvironmentPlan, f: Fields, name: Seq<char>) -> bool {
    &&& p.name@ == name
    &&& p.entry_cmd@ == f.entry_cmd
    &&& p.exec_cmds.deep_view() == f.exec_cmds
    &&& p.cp_cmds.deep_view() == f.cp_cmds
    &&& expanded_from(p.entry_options.deep_view(), f.entry_options)
    &&& expanded_from(p.exec_options.deep_view(), f.exec_options)
    &&& expanded_from(p.create_options.deep_view(), f.create_options)
    &&& f.image.len() > 0 ==> p.image@ == f.image && p.dockerfile is None
    &&& f.image.len() == 0 ==> p.image@.len() == 0 && p.dockerfile is Some
}

/// The plan for the merged environment `m` called `name`, declared in the
/// file at `config_path`: its options, Dockerfile and build context have
/// their variables expanded, then `plan_from_expanded` goes on.
pub fn plan_environment(config_path: &str, name: &str, m: &TomlEnvironment) -> (r: Result<EnvironmentPlan, ConfigError>)
    ensures
        r matches Ok(p) ==> (planned_from_fields(p, m.fields(), name@) && p.dockerfile_span
            == m.dockerfile_value_span),
        m.provided_image@.len() > 0 ==> (r is Ok),
        is_absolute_path(config_path@) ==> (r matches Ok(p) ==> (p.dockerfile matches Some(d)
            ==> is_absolute_path(d@))),
        m.provided_image@.len() == 0 && !m.dockerfile@.contains('$') && m.build_context@.len() == 0
            && resolve_against(config_path@, m.dockerfile@) is Some ==> (r matches Ok(p) && opt_view(
            p.dockerfile,
        ) == resolve_against(config_path@, m.dockerfile@) && opt_view(p.build_context) == Some(
            default_context(resolve_against(config_path@, m.dockerfile@)->Some_0),
        )),
{
    let entry_options = expand_all(&m.entry_options);
    let exec_options = expand_all(&m.exec_options);
    let create_options = expand_all(&m.create_options);
    let dockerfile = expand_variables(m.dockerfile.as_str());
    let build_context = if m.build_context.as_str().is_empty() {
        String::new()
    } else {
        expand_variables(m.build_context.as_str())
    };
    let ghost d = dockerfile@;
    let r = plan_from_expanded(
        config_path,
        name,
        m,
        entry_options,
        exec_options,
        create_options,
        dockerfile,
        build_context,
    );
    proof {
        if is_absolute_path(config_path@) {
            lemma_resolve_absolute(config_path@, d);
        }
    }
    r
}

/// Why a plan does not complete with what reading its Dockerfile gave.
pub open spec fn completion_error(p: EnvironmentPlan, read: DockerfileRead) -> Option<ConfigErrorView> {
    match p.dockerfile {
        None => None,
        Some(d) => match read {
            DockerfileRead::Missing => Some(
                ConfigErrorView::InvalidDockerfilePath { msg: missing_dockerfile_msg(), span: p.dockerfile_span },
            ),
            DockerfileRead::Unreadable => Some(ConfigErrorView::FailedToInteractWithDockerfile(d@)),
            DockerfileRead::Contents(_) => None,
        },
    }
}

/// The image of a completed plan: the declared one, or the one named after
/// the Dockerfile's contents.
pub open spec fn completed_image(p: EnvironmentPlan, read: DockerfileRead) -> Seq<char> {
    match (p.dockerfile, read) {
        (Some(_), DockerfileRead::Contents(b)) => image_name_text(lower_of(p.name@), sha256_of(b@)),
        _ => p.image@,
    }
}

/// `env` is the plan `p` completed: its fields carried over, its image
/// settled, and its name its identity.
pub open spec fn completed_from(env: Environment, p: EnvironmentPlan, read: DockerfileRead) -> bool {
    &&& env.name@ == identity_of(env)
    &&& identity_shaped(env.name@, env.original_name@)
    &&& env.original_name@ == p.name@
    &&& env.image@ == completed_image(p, read)
    &&& opt_view(env.dockerfile) == opt_view(p.dockerfile)
    &&& opt_view(env.build_context) == opt_view(p.build_context)
    &&& env.entry_cmd@ == p.entry_cmd@
    &&& env.entry_options.deep_view() == p.entry_options.deep_view()
    &&& env.exec_cmds.deep_view() == p.exec_cmds.deep_view()
    &&& env.exec_options.deep_view() == p.exec_options.deep_view()
    &&& env.create_options.deep_view() == p.create_options.deep_view()
    &&& env.cp_cmds.deep_view() == p.cp_cmds.deep_view()
}

/// Resolving is repeatable: two completions of one plan with the same
/// Dockerfile contents give the same fields and so the same name.
pub proof fn lemma_completion_deterministic(a: Environment, b: Environment, p: EnvironmentPlan, read: DockerfileRead)
    requires
        completed_from(a, p, read),
        completed_from(b, p, read),
    ensures
        fields_of(a) == fields_of(b),
        a.name@ == b.name@,
{
    assert(fields_of(a) == fields_of(b));
    lemma_identity_determined(a, b);
}

/// `r` is what completing the plan `p` with `read` gives.
pub open spec fn completes(p: EnvironmentPlan, read: DockerfileRead, r: Result<Environment, ConfigError>) -> bool {
    &&& r is Ok <==> completion_error(p, read) is None
    &&& r matches Err(e) ==> completion_error(p, read) == Some(e@)
    &&& r matches Ok(env) ==> completed_from(env, p, read)
}

impl EnvironmentPlan {
    /// The path of the Dockerfile to read, where the environment is built
    /// from one.
    pub fn dockerfile_path(&self) -> (r: Option<String>)
        ensures
            opt_view(r) == opt_view(self.dockerfile),
    {
        match &self.dockerfile {
            Some(d) => Some(d.clone()),
            None => None,
        }
    }

    /// The resolved environment, given what reading its Dockerfile gave
    /// (ignored where it declares an image): a missing Dockerfile fails
    /// pointing at its declaration, an unreadable one names its path, and
    /// the contents name the image. The environment's name is then its
    /// identity.
    pub fn complete(self, read: DockerfileRead) -> (r: Result<Environment, ConfigError>)
        ensures
            completes(self, read, r),
    {
        let image = match &self.dockerfile {
            None => self.image,
            Some(d) => match read {
                DockerfileRead::Missing => {
                    return Err(
                        ConfigError::InvalidDockerfilePath {
                            msg: String::from_str("Could not find dockerfile"),
                            span: self.dockerfile_span,
                        },
                    );
                },
                DockerfileRead::Unreadable => {
                    return Err(ConfigError::FailedToInteractWithDockerfile(d.clone()));
                },
                DockerfileRead::Contents(b) => generate_image_name(self.name.as_str(), b.as_slice()),
            },
        };
        let mut env = Environment {
            name: String::new(),
            original_name: self.name,
            image,
            dockerfile: self.dockerfile,
            build_context: self.build_context,
            entry_cmd: self.entry_cmd,
            entry_options: self.entry_options,
            exec_cmds: self.exec_cmds,
            exec_options: self.exec_options,
            create_options: self.create_options,
            cp_cmds: self.cp_cmds,
        };
        let ghost before = env;
        env.identify();
        proof {
            assert(identity_bytes(env) == identity_bytes(before));
            lemma_identity_shape(env.original_name@, sha256_of(identity_bytes(before)));
        }
        Ok(env)
    }
}

/// A value shown in the view of an environment.
#[derive(Debug)]
pub enum ViewValue {
    Text(String),
    List(Vec<String>),
}

/// A key and its value, as mathematical values: a string, or a list of them.
pub open spec fn view_entry(e: (String, ViewValue)) -> (Seq<char>, Option<Seq<char>>, Seq<Seq<char>>) {
    keyed(e.0@, e.1)
}

/// A value under a key, as mathematical values.
pub open spec fn keyed(key: Seq<char>, v: ViewValue) -> (Seq<char>, Option<Seq<char>>, Seq<Seq<char>>) {
    match v {
        ViewValue::Text(s) => (key, Some(s@), Seq::empty()),
        ViewValue::List(l) => (key, None, l.deep_view()),
    }
}

/// The optional list entry: present where the list is not empty.
pub open spec fn list_entry(key: Seq<char>, l: Seq<Seq<char>>) -> Seq<(Seq<char>, Option<Seq<char>>, Seq<Seq<char>>)> {
    if l.len() > 0 {
        seq![(key, None, l)]
    } else {
        Seq::empty()
    }
}

/// What the view of an environment shows, in order: the image where no
/// Dockerfile is declared, the Dockerfile, the entry command, and each of
/// the entry options, setup commands, exec options and create options that
/// is not empty.
pub open spec fn view_entries_of(e: EnvironmentView) -> Seq<(Seq<char>, Option<Seq<char>>, Seq<Seq<char>>)> {
    let image: Seq<(Seq<char>, Option<Seq<char>>, Seq<Seq<char>>)> = if e.image.len() > 0
        && e.dockerfile is None {
        seq![("image"@, Some(e.image), Seq::empty())]
    } else {
        Seq::empty()
    };
    let dockerfile: Seq<(Seq<char>, Option<Seq<char>>, Seq<Seq<char>>)> = match e.dockerfile {
        Some(d) => seq![("dockerfile"@, Some(d), Seq::empty())],
        None => Seq::empty(),
    };
    image + dockerfile + seq![("entry_cmd"@, Some(e.entry_cmd), Seq::empty())] + list_entry(
        "entry_options"@,
        e.entry_options,
    ) + list_entry("exec_cmds"@, e.exec_cmds) + list_entry("exec_options"@, e.exec_options) + list_entry(
        "create_options"@,
        e.create_options,
    )
}

fn push_entry(out: &mut Vec<(String, ViewValue)>, key: &str, value: ViewValue)
    ensures
        final(out)@.map_values(|x: (String, ViewValue)| view_entry(x)) == old(out)@.map_values(
            |x: (String, ViewValue)| view_entry(x),
        ).push(keyed(key@, value)),
{
    let ghost before = out@;
    let k = key.to_owned();
    out.push((k, value));
    proof {
        assert(out@.map_values(|x: (String, ViewValue)| view_entry(x)) =~= before.map_values(
            |x: (String, ViewValue)| view_entry(x),
        ).push(keyed(key@, value)));
    }
}

fn push_list_entry(out: &mut Vec<(String, ViewValue)>, key: &str, l: &Vec<String>)
    ensures
        final(out)@.map_values(|x: (String, ViewValue)| view_entry(x)) == old(out)@.map_values(
            |x: (String, ViewValue)| view_entry(x),
        ) + list_entry(key@, l.deep_view()),
{
    let ghost before = out@.map_values(|x: (String, ViewValue)| view_entry(x));
    if l.len() > 0 {
        push_entry(out, key, ViewValue::List(copy_strings(l)));
        proof {
            assert(before.push((key@, None, l.deep_view())) =~= before + list_entry(key@, l.deep_view()));
        }
    } else {
        proof {
            assert(before =~= before + list_entry(key@, l.deep_view()));
        }
    }
}

/// Relies on `toml_edit::Table::new`.
#[verifier::external_body]
fn new_table() -> (r: toml_edit::Table) {
    toml_edit::Table::new()
}

/// Relies on `toml_edit::Table::insert` and `toml_edit::value`: sets a
/// string value.
#[verifier::external_body]
fn insert_text(t: &mut toml_edit::Table, key: &str, value: &str) {
    t.insert(key, toml_edit::value(value));
}

/// Relies on `toml_edit::Table::insert` and `toml_edit::Array`: sets an
/// array of strings.
#[verifier::external_body]
fn insert_list(t: &mut toml_edit::Table, key: &str, values: &Vec<String>) {
    t.insert(key, toml_edit::value(toml_edit::Array::from_iter(values.iter())));
}

/// Relies on `toml_edit::Table::set_dotted`: the table's own header is
/// left out, its subtables are written with dotted headers.
#[verifier::external_body]
fn set_dotted(t: &mut toml_edit::Table) {
    t.set_dotted(true);
}

/// Relies on `toml_edit::Table::insert`: sets a subtable.
#[verifier::external_body]
fn insert_table(t: &mut toml_edit::Table, key: &str, sub: toml_edit::Table) {
    t.insert(key, toml_edit::Item::Table(sub));
}

/// Relies on `toml_edit::DocumentMut`: the document with the root table
/// `root`, as TOML text.
#[verifier::external_body]
fn render_document(root: toml_edit::Table) -> (r: String) {
    toml_edit::DocumentMut::from(root).to_string()
}

impl Environment {
    /// The keys and values that the view shows, as `view_entries_of` lists
    /// them.
    pub fn view_entries(&self) -> (r: Vec<(String, ViewValue)>)
        ensures
            r@.map_values(|x: (String, ViewValue)| view_entry(x)) == view_entries_of(fields_of(*self)),
    {
        let mut out: Vec<(String, ViewValue)> = Vec::new();
        proof {
            assert(out@.map_values(|x: (String, ViewValue)| view_entry(x)) =~= Seq::empty());
        }
        if !self.image.as_str().is_empty() && self.dockerfile.is_none() {
            push_entry(&mut out, "image", ViewValue::Text(self.image.clone()));
        }
        if let Some(d) = &self.dockerfile {
            push_entry(&mut out, "dockerfile", ViewValue::Text(d.clone()));
        }
        push_entry(&mut out, "entry_cmd", ViewValue::Text(self.entry_cmd.clone()));
        push_list_entry(&mut out, "entry_options", &self.entry_options);
        push_list_entry(&mut out, "exec_cmds", &self.exec_cmds);
        push_list_entry(&mut out, "exec_options", &self.exec_options);
        push_list_entry(&mut out, "create_options", &self.create_options);
        proof {
            assert(out@.map_values(|x: (String, ViewValue)| view_entry(x)) =~= view_entries_of(fields_of(*self)));
        }
        out
    }

    /// The environment as a TOML document under `[environment.<name>]`,
    /// showing the entries of `view_entries`.
    pub fn view(&self) -> (r: String) {
        let entries = self.view_entries();
        let mut t = new_table();
        let mut i: usize = 0;
        while i < entries.len()
            decreases entries@.len() - i,
        {
            match &entries[i].1 {
                ViewValue::Text(s) => insert_text(&mut t, entries[i].0.as_str(), s.as_str()),
                ViewValue::List(l) => insert_list(&mut t, entries[i].0.as_str(), l),
            }
            i = i + 1;
        }
        let mut environments = new_table();
        set_dotted(&mut environments);
        insert_table(&mut environments, self.original_name.as_str(), t);
        let mut root = new_table();
        insert_table(&mut root, "environment", environments);
        render_document(root)
    }
}

} // verus!
