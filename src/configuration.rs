//! The configuration model: environments and presets as declared, the checks
//! that run over them, and how presets merge into environments.

use vstd::prelude::*;
use crate::checks::{declared_error, merged_environment, resolve_declared};
use crate::cli::AppConfig;
pub use crate::diagnostics::ConfigError;
use crate::environment::{
    DockerfileRead, EnvironmentPlan, completed_image, completes, identity_of, default_context, opt_view, plan_environment, planned_from_fields, resolve_against,
};
use crate::toml_reader::{config_from, parse_toml, reads_as};
use crate::toml_tree::toml_parsed;
use crate::naming::identity_shaped;
use crate::paths::is_absolute_path;

pub use crate::environment::Environment;

verus! {

/// A byte range `start..end` in the configuration text.
#[derive(Clone, Copy, Debug, PartialEq, Eq, Structural)]
pub struct Span {
    pub start: usize,
    pub end: usize,
}

/// The fields of a declared environment or preset that a merge reads, as
/// mathematical values.
pub ghost struct Fields {
    pub entry_cmd: Seq<char>,
    pub image: Seq<char>,
    pub dockerfile: Seq<char>,
    pub build_context: Seq<char>,
    pub entry_options: Seq<Seq<char>>,
    pub cp_cmds: Seq<Seq<char>>,
    pub exec_cmds: Seq<Seq<char>>,
    pub exec_options: Seq<Seq<char>>,
    pub create_options: Seq<Seq<char>>,
}

/// One environment as declared under `[environment.<name>]`, with the places
/// in the text where its parts stand.
#[derive(Clone, Debug)]
pub struct TomlEnvironment {
    pub entry_cmd: String,
    pub provided_image: String,
    pub dockerfile: String,
    pub build_context: String,
    pub entry_options: Vec<String>,
    pub cp_cmds: Vec<String>,
    pub exec_cmds: Vec<String>,
    pub exec_options: Vec<String>,
    pub create_options: Vec<String>,
    pub presets: Vec<String>,
    /// The whole table.
    pub table_span: Span,
    /// From the `entry_cmd` key to the end of its value.
    pub entry_cmd_span: Span,
    /// From the `image` key to the end of its value.
    pub image_span: Span,
    /// From the `dockerfile` key to the end of its value.
    pub dockerfile_span: Span,
    /// The value of `dockerfile` alone.
    pub dockerfile_value_span: Span,
    /// The `presets` array.
    pub presets_span: Span,
    /// One span for each element of `presets`.
    pub preset_spans: Vec<Span>,
}

/// One preset as declared under `[preset.<name>]`.
#[derive(Clone, Debug)]
pub struct TomlPreset {
    pub entry_cmd: String,
    pub provided_image: String,
    pub dockerfile: String,
    pub build_context: String,
    pub entry_options: Vec<String>,
    pub cp_cmds: Vec<String>,
    pub exec_cmds: Vec<String>,
    pub exec_options: Vec<String>,
    pub create_options: Vec<String>,
    /// From the `entry_cmd` key to the end of its value.
    pub entry_cmd_span: Span,
    /// From the `image` key to the end of its value.
    pub image_span: Span,
    /// From the `dockerfile` key to the end of its value.
    pub dockerfile_span: Span,
}

/// A whole configuration document: environments and presets by name, in the
/// order in which the text declares them.
#[derive(Clone, Debug)]
pub struct TomlConfiguration {
    pub environments: Vec<(String, TomlEnvironment)>,
    pub presets: Vec<(String, TomlPreset)>,
}

impl TomlEnvironment {
    pub open spec fn fields(&self) -> Fields {
        Fields {
            entry_cmd: self.entry_cmd@,
            image: self.provided_image@,
            dockerfile: self.dockerfile@,
            build_context: self.build_context@,
            entry_options: self.entry_options.deep_view(),
            cp_cmds: self.cp_cmds.deep_view(),
            exec_cmds: self.exec_cmds.deep_view(),
            exec_options: self.exec_options.deep_view(),
            create_options: self.create_options.deep_view(),
        }
    }
}

impl TomlPreset {
    pub open spec fn fields(&self) -> Fields {
        Fields {
            entry_cmd: self.entry_cmd@,
            image: self.provided_image@,
            dockerfile: self.dockerfile@,
            build_context: self.build_context@,
            entry_options: self.entry_options.deep_view(),
            cp_cmds: self.cp_cmds.deep_view(),
            exec_cmds: self.exec_cmds.deep_view(),
            exec_options: self.exec_options.deep_view(),
            create_options: self.create_options.deep_view(),
        }
    }
}

/// The index of the first entry called `name`, if there is one.
pub open spec fn name_position<T>(entries: Seq<(String, T)>, name: Seq<char>) -> Option<int>
    decreases entries.len(),
{
    if entries.len() == 0 {
        None
    } else if entries[0].0@ == name {
        Some(0)
    } else {
        match name_position(entries.drop_first(), name) {
            Some(i) => Some(i + 1),
            None => None,
        }
    }
}

/// The index of the first preset called `name`, if there is one.
pub open spec fn preset_position(presets: Seq<(String, TomlPreset)>, name: Seq<char>) -> Option<int> {
    name_position(presets, name)
}

/// Whether a preset called `name` is declared.
pub open spec fn preset_declared(presets: Seq<(String, TomlPreset)>, name: Seq<char>) -> bool {
    preset_position(presets, name) is Some
}

/// A value that contributes to a scalar field replaces it; an empty one leaves it.
pub open spec fn override_with(current: Seq<char>, value: Seq<char>) -> Seq<char> {
    if value.len() > 0 {
        value
    } else {
        current
    }
}

/// The fields after one preset is applied: scalars are overridden by the
/// preset's non-empty values, lists are extended by the preset's lists.
pub open spec fn apply_preset(f: Fields, p: Fields) -> Fields {
    Fields {
        entry_cmd: override_with(f.entry_cmd, p.entry_cmd),
        image: override_with(f.image, p.image),
        dockerfile: override_with(f.dockerfile, p.dockerfile),
        build_context: override_with(f.build_context, p.build_context),
        entry_options: f.entry_options + p.entry_options,
        cp_cmds: f.cp_cmds + p.cp_cmds,
        exec_cmds: f.exec_cmds + p.exec_cmds,
        exec_options: f.exec_options + p.exec_options,
        create_options: f.create_options + p.create_options,
    }
}

/// The fields that the preset called `name` contributes: none where no such
/// preset is declared.
pub open spec fn preset_fields(presets: Seq<(String, TomlPreset)>, name: Seq<char>) -> Fields {
    match preset_position(presets, name) {
        Some(i) => presets[i].1.fields(),
        None => Fields {
            entry_cmd: Seq::empty(),
            image: Seq::empty(),
            dockerfile: Seq::empty(),
            build_context: Seq::empty(),
            entry_options: Seq::empty(),
            cp_cmds: Seq::empty(),
            exec_cmds: Seq::empty(),
            exec_options: Seq::empty(),
            create_options: Seq::empty(),
        },
    }
}

/// The fields after the presets `names` are applied one after another, left
/// to right.
pub open spec fn merged_fields(
    f: Fields,
    names: Seq<Seq<char>>,
    presets: Seq<(String, TomlPreset)>,
) -> Fields
    decreases names.len(),
{
    if names.len() == 0 {
        f
    } else {
        apply_preset(
            merged_fields(f, names.drop_last(), presets),
            preset_fields(presets, names.last()),
        )
    }
}


/// The same declaration places and preset list, whatever the fields hold.
pub open spec fn same_layout(a: TomlEnvironment, b: TomlEnvironment) -> bool {
    &&& a.presets.deep_view() == b.presets.deep_view()
    &&& a.table_span == b.table_span
    &&& a.entry_cmd_span == b.entry_cmd_span
    &&& a.image_span == b.image_span
    &&& a.dockerfile_span == b.dockerfile_span
    &&& a.dockerfile_value_span == b.dockerfile_value_span
    &&& a.presets_span == b.presets_span
    &&& a.preset_spans@ == b.preset_spans@
}

proof fn lemma_position_first<T>(s: Seq<(String, T)>, name: Seq<char>, i: int)
    requires
        0 <= i <= s.len(),
        forall|k: int| 0 <= k < i ==> s[k].0@ != name,
    ensures
        i < s.len() && s[i].0@ == name ==> name_position(s, name) == Some(i),
        i == s.len() ==> name_position(s, name) is None,
    decreases i,
{
    if i > 0 {
        let t = s.drop_first();
        assert forall|k: int| 0 <= k < i - 1 implies t[k].0@ != name by {
            assert(t[k] == s[k + 1]);
        }
        lemma_position_first(t, name, i - 1);
    }
}

/// What a found position says: the first preset of that name.
pub proof fn lemma_position_found<T>(s: Seq<(String, T)>, name: Seq<char>)
    ensures
        name_position(s, name) matches Some(i) ==> {
            &&& 0 <= i < s.len()
            &&& s[i].0@ == name
            &&& forall|k: int| 0 <= k < i ==> s[k].0@ != name
        },
        name_position(s, name) is None ==> forall|k: int| 0 <= k < s.len() ==> s[k].0@ != name,
    decreases s.len(),
{
    if s.len() > 0 {
        lemma_position_found(s.drop_first(), name);
        assert forall|k: int| 1 <= k < s.len() implies s[k] == s.drop_first()[k - 1] by {}
    }
}

/// The position of the first entry called `name`.
pub fn find_named<T>(presets: &Vec<(String, T)>, name: &String) -> (r: Option<usize>)
    ensures
        r matches Some(i) ==> name_position(presets@, name@) == Some(i as int),
        r is None ==> name_position(presets@, name@) is None,
{
    let mut i: usize = 0;
    while i < presets.len()
        invariant
            0 <= i <= presets@.len(),
            forall|k: int| 0 <= k < i ==> presets@[k].0@ != name@,
        decreases presets@.len() - i,
    {
        if presets[i].0 == *name {
            proof {
                lemma_position_first(presets@, name@, i as int);
            }
            return Some(i);
        }
        i = i + 1;
    }
    proof {
        lemma_position_first(presets@, name@, i as int);
    }
    None
}

/// A copy of a list of strings.
pub fn copy_strings(v: &Vec<String>) -> (r: Vec<String>)
    ensures
        r.deep_view() == v.deep_view(),
{
    let mut r: Vec<String> = Vec::new();
    let mut i: usize = 0;
    while i < v.len()
        invariant
            0 <= i <= v@.len(),
            r@.len() == i,
            forall|k: int| 0 <= k < i ==> r@[k]@ == v@[k]@,
        decreases v@.len() - i,
    {
        let c = v[i].clone();
        r.push(c);
        i = i + 1;
    }
    proof {
        assert(r.deep_view() =~= v.deep_view());
    }
    r
}

/// Appends copies of the strings of `w` to `v`.
pub fn extend_strings(v: &mut Vec<String>, w: &Vec<String>)
    ensures
        final(v).deep_view() == old(v).deep_view() + w.deep_view(),
{
    let ghost start = v@;
    let mut i: usize = 0;
    while i < w.len()
        invariant
            0 <= i <= w@.len(),
            v@.len() == start.len() + i,
            forall|k: int| 0 <= k < start.len() ==> v@[k]@ == start[k]@,
            forall|k: int| 0 <= k < i ==> v@[start.len() + k]@ == w@[k]@,
        decreases w@.len() - i,
    {
        let c = w[i].clone();
        v.push(c);
        i = i + 1;
    }
    proof {
        let d = v.deep_view();
        let e = Seq::new(start.len(), |j: int| start[j].deep_view()) + w.deep_view();
        assert forall|k: int| 0 <= k < d.len() implies d[k] == e[k] by {
            if k >= start.len() {
                assert(v@[start.len() + (k - start.len())]@ == w@[k - start.len()]@);
            }
        }
        assert(d =~= e);
    }
}

/// A copy of a list of spans.
pub fn copy_spans(v: &Vec<Span>) -> (r: Vec<Span>)
    ensures
        r@ == v@,
{
    let mut r: Vec<Span> = Vec::new();
    let mut i: usize = 0;
    while i < v.len()
        invariant
            0 <= i <= v@.len(),
            r@ == v@.subrange(0, i as int),
        decreases v@.len() - i,
    {
        r.push(v[i]);
        proof {
            assert(r@ =~= v@.subrange(0, i + 1));
        }
        i = i + 1;
    }
    proof {
        assert(v@.subrange(0, v@.len() as int) =~= v@);
    }
    r
}

/// Replaces `current` by `value` where `value` is not empty.
fn override_field(current: &mut String, value: &String)
    ensures
        final(current)@ == override_with(old(current)@, value@),
{
    if !value.as_str().is_empty() {
        *current = value.clone();
    }
}

impl TomlEnvironment {
    /// A copy of this environment.
    pub fn clone_environment(&self) -> (r: TomlEnvironment)
        ensures
            r.fields() == self.fields(),
            same_layout(r, *self),
    {
        TomlEnvironment {
            entry_cmd: self.entry_cmd.clone(),
            provided_image: self.provided_image.clone(),
            dockerfile: self.dockerfile.clone(),
            build_context: self.build_context.clone(),
            entry_options: copy_strings(&self.entry_options),
            cp_cmds: copy_strings(&self.cp_cmds),
            exec_cmds: copy_strings(&self.exec_cmds),
            exec_options: copy_strings(&self.exec_options),
            create_options: copy_strings(&self.create_options),
            presets: copy_strings(&self.presets),
            table_span: self.table_span,
            entry_cmd_span: self.entry_cmd_span,
            image_span: self.image_span,
            dockerfile_span: self.dockerfile_span,
            dockerfile_value_span: self.dockerfile_value_span,
            presets_span: self.presets_span,
            preset_spans: copy_spans(&self.preset_spans),
        }
    }

    /// This environment with the presets of its `presets` list applied one
    /// after another: a preset's non-empty scalars replace the environment's,
    /// its lists are appended. A name that no preset has contributes nothing.
    pub fn merge_with(&self, presets: &Vec<(String, TomlPreset)>) -> (r: TomlEnvironment)
        ensures
            r.fields() == merged_fields(self.fields(), self.presets.deep_view(), presets@),
            same_layout(r, *self),
    {
        let mut r = self.clone_environment();
        let ghost names = self.presets.deep_view();
        proof {
            assert(names.subrange(0, 0) =~= Seq::<Seq<char>>::empty());
        }
        let mut i: usize = 0;
        while i < self.presets.len()
            invariant
                0 <= i <= self.presets@.len(),
                names == self.presets.deep_view(),
                r.fields() == merged_fields(self.fields(), names.subrange(0, i as int), presets@),
                same_layout(r, *self),
            decreases self.presets@.len() - i,
        {
            let ghost before = r.fields();
            let found = find_named(presets, &self.presets[i]);
            proof {
                assert(names.subrange(0, i + 1).drop_last() =~= names.subrange(0, i as int));
                assert(names.subrange(0, i + 1).last() == self.presets@[i as int]@);
                lemma_position_found(presets@, self.presets@[i as int]@);
            }
            match found {
                Some(k) => {
                    let p = &presets[k].1;
                    override_field(&mut r.entry_cmd, &p.entry_cmd);
                    override_field(&mut r.provided_image, &p.provided_image);
                    override_field(&mut r.dockerfile, &p.dockerfile);
                    override_field(&mut r.build_context, &p.build_context);
                    extend_strings(&mut r.entry_options, &p.entry_options);
                    extend_strings(&mut r.cp_cmds, &p.cp_cmds);
                    extend_strings(&mut r.exec_cmds, &p.exec_cmds);
                    extend_strings(&mut r.exec_options, &p.exec_options);
                    extend_strings(&mut r.create_options, &p.create_options);
                    proof {
                        assert(r.fields() == apply_preset(before, p.fields()));
                    }
                },
                None => {
                    proof {
                        let e = preset_fields(presets@, self.presets@[i as int]@);
                        assert(before.entry_options + e.entry_options =~= before.entry_options);
                        assert(before.cp_cmds + e.cp_cmds =~= before.cp_cmds);
                        assert(before.exec_cmds + e.exec_cmds =~= before.exec_cmds);
                        assert(before.exec_options + e.exec_options =~= before.exec_options);
                        assert(before.create_options + e.create_options =~= before.create_options);
                        assert(apply_preset(before, e) == before);
                    }
                },
            }
            i = i + 1;
        }
        proof {
            assert(names.subrange(0, self.presets@.len() as int) =~= names);
        }
        r
    }
}

/// The length in bytes of a text's UTF-8 encoding.
pub open spec fn byte_len(s: Seq<char>) -> nat {
    vstd::utf8::encode_utf8(s).len()
}

/// What planning the requested environment of `conf` from the declared
/// configuration `c` gives: the first failure of the checks, or a plan from
/// the merged environment. A declared image always plans; so does a
/// Dockerfile whose path has no variables and leads somewhere, where no
/// build context is declared.
pub open spec fn plan_outcome(conf: Configuration, c: TomlConfiguration, r: Result<EnvironmentPlan, ConfigError>) -> bool {
    let name = conf.app.environment@;
    let err = declared_error(c, name, byte_len(conf.content@));
    let f = merged_environment(c, name_position(c.environments@, name)->Some_0);
    let d = resolve_against(conf.app.config_path@, f.dockerfile);
    &&& err matches Some(e) ==> (r matches Err(x) && x@ == e)
    &&& err is None ==> name_position(c.environments@, name) is Some
    &&& r matches Ok(p) ==> planned_from_fields(p, f, name)
    &&& err is None && f.image.len() > 0 ==> r is Ok
    &&& is_absolute_path(conf.app.config_path@) ==> (r matches Ok(p) ==> (p.dockerfile matches Some(dp)
        ==> is_absolute_path(dp@)))
    &&& err is None && f.image.len() == 0 && !f.dockerfile.contains('$') && f.build_context.len() == 0
        && d is Some ==> (r matches Ok(p) && opt_view(p.dockerfile) == d && opt_view(p.build_context) == Some(
        default_context(d->Some_0),
    ))
}

/// What resolving the requested environment of `conf` from the declared
/// configuration `c` gives, with `read` what reading its Dockerfile gave:
/// the first failure of the checks, or an environment of the requested
/// name whose container name is its identity, with a non-empty image and
/// the merged entry command; a declared image is kept as it is.
pub open spec fn resolve_outcome(
    conf: Configuration,
    c: TomlConfiguration,
    read: DockerfileRead,
    r: Result<Environment, ConfigError>,
) -> bool {
    let name = conf.app.environment@;
    let err = declared_error(c, name, byte_len(conf.content@));
    let f = merged_environment(c, name_position(c.environments@, name)->Some_0);
    &&& err matches Some(e) ==> (r matches Err(x) && x@ == e)
    &&& r matches Ok(env) ==> {
        &&& env.original_name@ == name
        &&& env.name@ == identity_of(env)
        &&& identity_shaped(env.name@, name)
        &&& env.image@.len() > 0
        &&& env.entry_cmd@ == f.entry_cmd
        &&& env.exec_cmds.deep_view() == f.exec_cmds
    }
    &&& err is None && f.image.len() > 0 ==> (r matches Ok(env) && env.image@ == f.image && env.dockerfile is None)
    &&& is_absolute_path(conf.app.config_path@) ==> (r matches Ok(env) ==> (env.dockerfile matches Some(dp)
        ==> is_absolute_path(dp@)))
    &&& exists|pr: Result<EnvironmentPlan, ConfigError>| plan_outcome(conf, c, pr) && plan_then(pr, read, r)
}

/// `r` is what the planning result `pr` leads to: its failure, or the
/// completion of its plan with `read`.
pub open spec fn plan_then(pr: Result<EnvironmentPlan, ConfigError>, read: DockerfileRead, r: Result<Environment, ConfigError>) -> bool {
    match pr {
        Ok(p) => completes(p, read, r),
        Err(e) => r matches Err(x) && x@ == e@,
    }
}

/// One configuration file's text, and the request it answers.
#[derive(Debug)]
pub struct Configuration {
    pub content: String,
    pub app: AppConfig,
}

impl Configuration {
    /// The configuration whose text is `content`, read from the file that
    /// `app` names.
    pub fn new(app: &AppConfig, content: String) -> (r: Configuration)
        ensures
            r.content@ == content@,
            r.app.config_path@ == app.config_path@,
            r.app.environment@ == app.environment@,
    {
        Configuration {
            content,
            app: AppConfig {
                config_path: app.config_path.clone(),
                action: app.action,
                cleanup: app.cleanup,
                environment: app.environment.clone(),
            },
        }
    }

    /// The plan for the requested environment of the declared configuration
    /// `c`: every check passes and the environment is declared, or the first
    /// failure is returned; then the merged environment is planned from the
    /// configuration file's place.
    pub fn plan_from(&self, c: &TomlConfiguration) -> (r: Result<EnvironmentPlan, ConfigError>)
        ensures
            plan_outcome(*self, *c, r),
    {
        let len = self.content.as_str().len();
        let m = resolve_declared(c, &self.app.environment, len)?;
        plan_environment(self.app.config_path.as_str(), self.app.environment.as_str(), &m)
    }

    /// Parses the text and plans the requested environment as `plan_from`
    /// says.
    pub fn find_environment_from_configuration(&self) -> (r: Result<EnvironmentPlan, ConfigError>)
        ensures
            config_from(toml_parsed(self.content@), byte_len(self.content@)) matches Err(e) ==> (r matches Err(
                x,
            ) && x@ == e),
            config_from(toml_parsed(self.content@), byte_len(self.content@)) matches Ok(v) ==> (exists|
                c: TomlConfiguration,
            | reads_as(c, v) && plan_outcome(*self, c, r)),
    {
        let c = parse_toml(self.content.as_str())?;
        let r = self.plan_from(&c);
        proof {
            let v = config_from(toml_parsed(self.content@), byte_len(self.content@))->Ok_0;
            assert(reads_as(c, v) && plan_outcome(*self, c, r));
        }
        r
    }

    /// The resolved environment: the plan of
    /// `find_environment_from_configuration`, completed with what reading
    /// its Dockerfile gave.
    pub fn resolve(&self, read: DockerfileRead) -> (r: Result<Environment, ConfigError>)
        ensures
            config_from(toml_parsed(self.content@), byte_len(self.content@)) matches Err(e) ==> (r matches Err(
                x,
            ) && x@ == e),
            config_from(toml_parsed(self.content@), byte_len(self.content@)) matches Ok(v) ==> (exists|
                c: TomlConfiguration,
            | reads_as(c, v) && resolve_outcome(*self, c, read, r)),
    {
        let c = parse_toml(self.content.as_str())?;
        let ghost rd = read;
        let pr = self.plan_from(&c);
        let ghost gpr = pr;
        let p = match pr {
            Ok(p) => p,
            Err(e) => {
                let r: Result<Environment, ConfigError> = Err(e);
                proof {
                    assert(plan_outcome(*self, c, gpr) && plan_then(gpr, rd, r));
                    let v = config_from(toml_parsed(self.content@), byte_len(self.content@))->Ok_0;
                    assert(reads_as(c, v) && resolve_outcome(*self, c, rd, r));
                }
                return r;
            },
        };
        let ghost plan = p;
        let r = p.complete(read);
        proof {
            reveal_strlit("berth-");
            reveal_strlit("-");
            if r is Ok && plan.dockerfile is Some {
                assert(completed_image(plan, rd).len() >= 6);
            }
            assert(plan_outcome(*self, c, gpr) && plan_then(gpr, rd, r));
            let v = config_from(toml_parsed(self.content@), byte_len(self.content@))->Ok_0;
            assert(reads_as(c, v) && resolve_outcome(*self, c, rd, r));
        }
        r
    }
}

} // verus!
