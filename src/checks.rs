//! The checks that a configuration passes before an environment is built
//! from it: every named preset exists, no scalar field has two sources, and
//! each merged environment is complete and unambiguous.

use vstd::prelude::*;
use crate::configuration::{
    Fields, Span, TomlConfiguration, TomlEnvironment, TomlPreset, find_named, lemma_position_found,
    preset_declared, preset_position,
};
use crate::configuration::{merged_fields, same_layout, name_position};
use crate::diagnostics::{
    ConfigError, ConfigErrorView, LabeledSpan, both_image_msg, lone_build_context_msg,
    missing_entry_cmd_msg, missing_environment_msg, missing_image_msg, unknown_preset_msg,
};
use crate::configuration::{apply_preset, preset_fields};
use crate::ordering::{insert_name, sorted_distinct, sorted_names};
use crate::text::{decimal, decimal_text, lemma_text_less_total, text_less};

verus! {

/// A field that holds one value and may have only one source.
#[derive(Clone, Copy, Debug, PartialEq, Eq, Structural)]
pub enum ScalarField {
    EntryCmd,
    Image,
    Dockerfile,
}

/// The field's key in the configuration text.
pub open spec fn field_key(f: ScalarField) -> Seq<char> {
    match f {
        ScalarField::EntryCmd => "entry_cmd"@,
        ScalarField::Image => "image"@,
        ScalarField::Dockerfile => "dockerfile"@,
    }
}

/// The value of a scalar field.
pub open spec fn scalar(x: Fields, f: ScalarField) -> Seq<char> {
    match f {
        ScalarField::EntryCmd => x.entry_cmd,
        ScalarField::Image => x.image,
        ScalarField::Dockerfile => x.dockerfile,
    }
}

pub open spec fn env_field_span(e: TomlEnvironment, f: ScalarField) -> Span {
    match f {
        ScalarField::EntryCmd => e.entry_cmd_span,
        ScalarField::Image => e.image_span,
        ScalarField::Dockerfile => e.dockerfile_span,
    }
}

pub open spec fn preset_field_span(p: TomlPreset, f: ScalarField) -> Span {
    match f {
        ScalarField::EntryCmd => p.entry_cmd_span,
        ScalarField::Image => p.image_span,
        ScalarField::Dockerfile => p.dockerfile_span,
    }
}

/// The span of the `j`th element of an environment's `presets` list.
pub open spec fn preset_element_span(e: TomlEnvironment, j: int) -> Span {
    if 0 <= j < e.preset_spans@.len() {
        e.preset_spans@[j]
    } else {
        Span { start: 0, end: 0 }
    }
}

// ---- every named preset is declared ----

/// The first position from `j` on in `names` whose preset is not declared.
pub open spec fn first_unknown_name(presets: Seq<(String, TomlPreset)>, names: Seq<Seq<char>>, j: int) -> Option<int>
    decreases names.len() - j,
{
    if j < 0 || j >= names.len() {
        None
    } else if !preset_declared(presets, names[j]) {
        Some(j)
    } else {
        first_unknown_name(presets, names, j + 1)
    }
}

/// The first environment from `i` on that names an undeclared preset, and the
/// position of that name in its list.
pub open spec fn first_unknown_preset(c: TomlConfiguration, i: int) -> Option<(int, int)>
    decreases c.environments@.len() - i,
{
    if i < 0 || i >= c.environments@.len() {
        None
    } else {
        match first_unknown_name(c.presets@, c.environments@[i].1.presets.deep_view(), 0) {
            Some(j) => Some((i, j)),
            None => first_unknown_preset(c, i + 1),
        }
    }
}

/// The error for the first undeclared preset, if any.
pub open spec fn unknown_preset_error(c: TomlConfiguration) -> Option<ConfigErrorView> {
    match first_unknown_preset(c, 0) {
        Some((i, j)) => Some(
            ConfigErrorView::UnknownPreset {
                msg: unknown_preset_msg(),
                span: preset_element_span(c.environments@[i].1, j),
            },
        ),
        None => None,
    }
}

/// Fails on the first name, in declaration order, in an environment's
/// `presets` list that no preset has, pointing at that list element.
pub fn check_presets_exist(c: &TomlConfiguration) -> (r: Result<(), ConfigError>)
    ensures
        r is Ok <==> unknown_preset_error(*c) is None,
        r matches Err(e) ==> unknown_preset_error(*c) == Some(e@),
{
    let mut i: usize = 0;
    while i < c.environments.len()
        invariant
            0 <= i <= c.environments@.len(),
            first_unknown_preset(*c, 0) == first_unknown_preset(*c, i as int),
        decreases c.environments@.len() - i,
    {
        let env = &c.environments[i].1;
        let ghost names = env.presets.deep_view();
        let mut j: usize = 0;
        while j < env.presets.len()
            invariant
                0 <= j <= env.presets@.len(),
                names == env.presets.deep_view(),
                i < c.environments@.len(),
                env == c.environments@[i as int].1,
                first_unknown_preset(*c, 0) == first_unknown_preset(*c, i as int),
                first_unknown_name(c.presets@, names, 0) == first_unknown_name(c.presets@, names, j as int),
            decreases env.presets@.len() - j,
        {
            let found = find_named(&c.presets, &env.presets[j]);
            if found.is_none() {
                let span = if j < env.preset_spans.len() {
                    env.preset_spans[j]
                } else {
                    Span { start: 0, end: 0 }
                };
                proof {
                    assert(names[j as int] == env.presets@[j as int]@);
                    assert(first_unknown_name(c.presets@, names, j as int) == Some(j as int));
                    assert(first_unknown_preset(*c, i as int) == Some((i as int, j as int)));
                }
                return Err(ConfigError::UnknownPreset { msg: String::from_str("Failed to find provided preset"), span });
            }
            proof {
                assert(names[j as int] == env.presets@[j as int]@);
            }
            j = j + 1;
        }
        proof {
            assert(first_unknown_name(c.presets@, names, j as int) is None);
        }
        i = i + 1;
    }
    Ok(())
}

// ---- a scalar field has at most one source ----

/// The spans of the named presets, in the order given, that supply a value
/// for the field.
pub open spec fn preset_sources(presets: Seq<(String, TomlPreset)>, names: Seq<Seq<char>>, f: ScalarField) -> Seq<Span>
    decreases names.len(),
{
    if names.len() == 0 {
        Seq::empty()
    } else {
        let before = preset_sources(presets, names.drop_last(), f);
        match preset_position(presets, names.last()) {
            Some(k) => if scalar(presets[k].1.fields(), f).len() > 0 {
                before.push(preset_field_span(presets[k].1, f))
            } else {
                before
            },
            None => before,
        }
    }
}

/// Every source of a value for the field: the environment's own, then the
/// presets it names, each once, in ascending order of name.
pub open spec fn field_sources(presets: Seq<(String, TomlPreset)>, e: TomlEnvironment, f: ScalarField) -> Seq<Span> {
    let own = if scalar(e.fields(), f).len() > 0 {
        seq![env_field_span(e, f)]
    } else {
        Seq::empty()
    };
    own + preset_sources(presets, sorted_names(e.presets.deep_view()), f)
}

pub open spec fn instance_label(n: nat) -> Seq<char> {
    "instance "@ + decimal_text(n)
}

pub open spec fn duplicate_label(f: ScalarField) -> Seq<char> {
    "Preset(s) causing duplicate '"@ + field_key(f) + "' field"@
}

/// The labelled spans of a duplicate: each source as `instance <n>`, counted
/// from one, then the `presets` array.
pub open spec fn duplicate_spans(sources: Seq<Span>, presets_span: Span, f: ScalarField) -> Seq<(Seq<char>, Span)> {
    Seq::new(sources.len(), |k: int| (instance_label((k + 1) as nat), sources[k])).push(
        (duplicate_label(f), presets_span),
    )
}

/// The first scalar field, in the order `entry_cmd`, `image`, `dockerfile`,
/// with two or more sources.
pub open spec fn duplicate_field(presets: Seq<(String, TomlPreset)>, e: TomlEnvironment) -> Option<ScalarField> {
    if field_sources(presets, e, ScalarField::EntryCmd).len() >= 2 {
        Some(ScalarField::EntryCmd)
    } else if field_sources(presets, e, ScalarField::Image).len() >= 2 {
        Some(ScalarField::Image)
    } else if field_sources(presets, e, ScalarField::Dockerfile).len() >= 2 {
        Some(ScalarField::Dockerfile)
    } else {
        None
    }
}

/// The first environment from `i` on with a duplicate field.
pub open spec fn first_duplicate(c: TomlConfiguration, i: int) -> Option<int>
    decreases c.environments@.len() - i,
{
    if i < 0 || i >= c.environments@.len() {
        None
    } else if duplicate_field(c.presets@, c.environments@[i].1) is Some {
        Some(i)
    } else {
        first_duplicate(c, i + 1)
    }
}

/// The error for the first duplicate field, if any.
pub open spec fn duplicate_error(c: TomlConfiguration) -> Option<ConfigErrorView> {
    match first_duplicate(c, 0) {
        Some(i) => {
            let e = c.environments@[i].1;
            let f = duplicate_field(c.presets@, e)->Some_0;
            Some(
                ConfigErrorView::DuplicateFieldsFromPresets {
                    spans: duplicate_spans(field_sources(c.presets@, e, f), e.presets_span, f),
                },
            )
        },
        None => None,
    }
}

fn scalar_of_env(e: &TomlEnvironment, f: ScalarField) -> (r: &String)
    ensures
        r@ == scalar(e.fields(), f),
{
    match f {
        ScalarField::EntryCmd => &e.entry_cmd,
        ScalarField::Image => &e.provided_image,
        ScalarField::Dockerfile => &e.dockerfile,
    }
}

fn scalar_of_preset(p: &TomlPreset, f: ScalarField) -> (r: &String)
    ensures
        r@ == scalar(p.fields(), f),
{
    match f {
        ScalarField::EntryCmd => &p.entry_cmd,
        ScalarField::Image => &p.provided_image,
        ScalarField::Dockerfile => &p.dockerfile,
    }
}

fn span_of_env(e: &TomlEnvironment, f: ScalarField) -> (r: Span)
    ensures
        r == env_field_span(*e, f),
{
    match f {
        ScalarField::EntryCmd => e.entry_cmd_span,
        ScalarField::Image => e.image_span,
        ScalarField::Dockerfile => e.dockerfile_span,
    }
}

fn span_of_preset(p: &TomlPreset, f: ScalarField) -> (r: Span)
    ensures
        r == preset_field_span(*p, f),
{
    match f {
        ScalarField::EntryCmd => p.entry_cmd_span,
        ScalarField::Image => p.image_span,
        ScalarField::Dockerfile => p.dockerfile_span,
    }
}

fn field_key_text(f: ScalarField) -> (r: String)
    ensures
        r@ == field_key(f),
{
    match f {
        ScalarField::EntryCmd => String::from_str("entry_cmd"),
        ScalarField::Image => String::from_str("image"),
        ScalarField::Dockerfile => String::from_str("dockerfile"),
    }
}

/// The spans of every source of a value for the field, as `field_sources`
/// orders them.
pub fn collect_sources(presets: &Vec<(String, TomlPreset)>, e: &TomlEnvironment, f: ScalarField) -> (r: Vec<Span>)
    ensures
        r@ == field_sources(presets@, *e, f),
{
    let mut r: Vec<Span> = Vec::new();
    if !scalar_of_env(e, f).as_str().is_empty() {
        r.push(span_of_env(e, f));
    }
    let ghost own = r@;
    let names = sorted_distinct(&e.presets);
    let ghost sorted = names.deep_view();
    proof {
        assert(sorted.subrange(0, 0) =~= Seq::<Seq<char>>::empty());
        assert(r@ =~= own + preset_sources(presets@, sorted.subrange(0, 0), f));
    }
    let mut k: usize = 0;
    while k < names.len()
        invariant
            0 <= k <= names@.len(),
            sorted == names.deep_view(),
            sorted == sorted_names(e.presets.deep_view()),
            own == (if scalar(e.fields(), f).len() > 0 { seq![env_field_span(*e, f)] } else { Seq::empty() }),
            r@ == own + preset_sources(presets@, sorted.subrange(0, k as int), f),
        decreases names@.len() - k,
    {
        let found = find_named(presets, &names[k]);
        proof {
            assert(sorted.subrange(0, k + 1).drop_last() =~= sorted.subrange(0, k as int));
            assert(sorted.subrange(0, k + 1).last() == names@[k as int]@);
            lemma_position_found(presets@, names@[k as int]@);
        }
        match found {
            Some(p) => {
                if !scalar_of_preset(&presets[p].1, f).as_str().is_empty() {
                    r.push(span_of_preset(&presets[p].1, f));
                    proof {
                        assert(r@ =~= own + preset_sources(presets@, sorted.subrange(0, k + 1), f));
                    }
                }
            },
            None => {},
        }
        k = k + 1;
    }
    proof {
        assert(sorted.subrange(0, names@.len() as int) =~= sorted);
    }
    r
}

/// The labelled spans of a duplicate field.
fn label_duplicates(sources: &Vec<Span>, presets_span: Span, f: ScalarField) -> (r: Vec<LabeledSpan>)
    ensures
        r@.map_values(|l: LabeledSpan| l@) == duplicate_spans(sources@, presets_span, f),
{
    let mut r: Vec<LabeledSpan> = Vec::new();
    let mut k: usize = 0;
    while k < sources.len()
        invariant
            0 <= k <= sources@.len(),
            r@.len() == k,
            forall|m: int| 0 <= m < k ==> (#[trigger] r@[m])@ == (instance_label((m + 1) as nat), sources@[m]),
        decreases sources@.len() - k,
    {
        let n = decimal((k + 1) as u64);
        let label = String::from_str("instance ").concat(n.as_str());
        r.push(LabeledSpan { label, span: sources[k] });
        k = k + 1;
    }
    let key = field_key_text(f);
    let label = String::from_str("Preset(s) causing duplicate '").concat(key.as_str()).concat("' field");
    r.push(LabeledSpan { label, span: presets_span });
    proof {
        assert(r@.map_values(|l: LabeledSpan| l@) =~= duplicate_spans(sources@, presets_span, f));
    }
    r
}

/// Fails on the first environment, in declaration order, and the first of
/// `entry_cmd`, `image`, `dockerfile`, whose value comes from two or more
/// sources; the error shows every source and the `presets` array.
pub fn check_unique_fields(c: &TomlConfiguration) -> (r: Result<(), ConfigError>)
    ensures
        r is Ok <==> duplicate_error(*c) is None,
        r matches Err(e) ==> duplicate_error(*c) == Some(e@),
{
    let mut i: usize = 0;
    while i < c.environments.len()
        invariant
            0 <= i <= c.environments@.len(),
            first_duplicate(*c, 0) == first_duplicate(*c, i as int),
        decreases c.environments@.len() - i,
    {
        let env = &c.environments[i].1;
        proof {
            assert(env == c.environments@[i as int].1);
        }
        let fields = [ScalarField::EntryCmd, ScalarField::Image, ScalarField::Dockerfile];
        let mut k: usize = 0;
        while k < 3
            invariant
                0 <= k <= 3,
                fields@ == seq![ScalarField::EntryCmd, ScalarField::Image, ScalarField::Dockerfile],
                first_duplicate(*c, 0) == first_duplicate(*c, i as int),
                i < c.environments@.len(),
                env == c.environments@[i as int].1,
                forall|m: int| 0 <= m < k ==> field_sources(c.presets@, *env, #[trigger] fields@[m]).len() < 2,
            decreases 3 - k,
        {
            let f = fields[k];
            let sources = collect_sources(&c.presets, env, f);
            if sources.len() >= 2 {
                let spans = label_duplicates(&sources, env.presets_span, f);
                proof {
                    assert(fields@[0] == ScalarField::EntryCmd);
                    assert(fields@[1] == ScalarField::Image);
                    assert(duplicate_field(c.presets@, *env) == Some(f));
                    assert(first_duplicate(*c, i as int) == Some(i as int));
                }
                return Err(ConfigError::DuplicateFieldsFromPresets { spans });
            }
            k = k + 1;
        }
        proof {
            assert(fields@[0] == ScalarField::EntryCmd);
            assert(fields@[1] == ScalarField::Image);
            assert(fields@[2] == ScalarField::Dockerfile);
        }
        i = i + 1;
    }
    Ok(())
}


// ---- merging and validating ----

/// The fields of the `i`th environment once its presets are applied.
pub open spec fn merged_environment(c: TomlConfiguration, i: int) -> Fields {
    let e = c.environments@[i].1;
    merged_fields(e.fields(), e.presets.deep_view(), c.presets@)
}

/// `envs` are the environments of `c`, by the same names and in the same
/// order, with their presets applied.
pub open spec fn merged_from(envs: Seq<(String, TomlEnvironment)>, c: TomlConfiguration) -> bool {
    &&& envs.len() == c.environments@.len()
    &&& forall|i: int|
        0 <= i < envs.len() ==> {
            &&& (#[trigger] envs[i]).0@ == c.environments@[i].0@
            &&& envs[i].1.fields() == merged_environment(c, i)
            &&& same_layout(envs[i].1, c.environments@[i].1)
        }
}

/// Every environment with its presets applied, in declaration order.
pub fn merge_presets(c: &TomlConfiguration) -> (r: Vec<(String, TomlEnvironment)>)
    ensures
        merged_from(r@, *c),
{
    let mut r: Vec<(String, TomlEnvironment)> = Vec::new();
    let mut i: usize = 0;
    while i < c.environments.len()
        invariant
            0 <= i <= c.environments@.len(),
            r@.len() == i,
            forall|k: int|
                0 <= k < i ==> {
                    &&& (#[trigger] r@[k]).0@ == c.environments@[k].0@
                    &&& r@[k].1.fields() == merged_environment(*c, k)
                    &&& same_layout(r@[k].1, c.environments@[k].1)
                },
        decreases c.environments@.len() - i,
    {
        let name = c.environments[i].0.clone();
        let merged = c.environments[i].1.merge_with(&c.presets);
        r.push((name, merged));
        i = i + 1;
    }
    r
}

/// Why merged fields do not describe an environment, if they do not: the
/// entry command is required, exactly one of image and Dockerfile is
/// required, and a build context goes only with a Dockerfile.
pub open spec fn validation_msg(x: Fields) -> Option<Seq<char>> {
    if x.entry_cmd.len() == 0 {
        Some(missing_entry_cmd_msg())
    } else if x.image.len() == 0 && x.dockerfile.len() == 0 {
        Some(missing_image_msg())
    } else if x.image.len() > 0 && x.dockerfile.len() > 0 {
        Some(both_image_msg())
    } else if x.build_context.len() > 0 && x.dockerfile.len() == 0 {
        Some(lone_build_context_msg())
    } else {
        None
    }
}

/// The first environment from `i` on whose merged fields are not valid.
pub open spec fn first_invalid(c: TomlConfiguration, i: int) -> Option<int>
    decreases c.environments@.len() - i,
{
    if i < 0 || i >= c.environments@.len() {
        None
    } else if validation_msg(merged_environment(c, i)) is Some {
        Some(i)
    } else {
        first_invalid(c, i + 1)
    }
}

/// The error for the first invalid merged environment, spanning its table.
pub open spec fn validation_error(c: TomlConfiguration) -> Option<ConfigErrorView> {
    match first_invalid(c, 0) {
        Some(i) => Some(
            ConfigErrorView::EnvironmentValidation {
                msg: validation_msg(merged_environment(c, i))->Some_0,
                span: c.environments@[i].1.table_span,
            },
        ),
        None => None,
    }
}

/// Fails on the first merged environment, in declaration order, that breaks
/// a rule of `validation_msg`.
pub fn validate_environments(envs: &Vec<(String, TomlEnvironment)>, Ghost(c): Ghost<TomlConfiguration>) -> (r: Result<(), ConfigError>)
    requires
        merged_from(envs@, c),
    ensures
        r is Ok <==> validation_error(c) is None,
        r matches Err(e) ==> validation_error(c) == Some(e@),
{
    let mut i: usize = 0;
    while i < envs.len()
        invariant
            0 <= i <= envs@.len(),
            merged_from(envs@, c),
            first_invalid(c, 0) == first_invalid(c, i as int),
        decreases envs@.len() - i,
    {
        let e = &envs[i].1;
        proof {
            assert(e.fields() == merged_environment(c, i as int));
            assert(e.table_span == c.environments@[i as int].1.table_span);
        }
        let no_cmd = e.entry_cmd.as_str().is_empty();
        let no_image = e.provided_image.as_str().is_empty();
        let no_dockerfile = e.dockerfile.as_str().is_empty();
        let no_context = e.build_context.as_str().is_empty();
        let msg = if no_cmd {
            Some(String::from_str("An environment requires a 'entry_cmd' field"))
        } else if no_image && no_dockerfile {
            Some(String::from_str("An environment requires an 'image' or 'dockerfile' field"))
        } else if !no_image && !no_dockerfile {
            Some(String::from_str("An environment can only have an 'image' or 'dockerfile' field"))
        } else if !no_context && no_dockerfile {
            Some(String::from_str("'build_context' can only be used with a 'dockerfile'"))
        } else {
            None
        };
        match msg {
            Some(msg) => {
                proof {
                    assert(first_invalid(c, i as int) == Some(i as int));
                }
                return Err(ConfigError::EnvironmentValidation { msg, span: e.table_span });
            },
            None => {},
        }
        i = i + 1;
    }
    Ok(())
}

// ---- the whole check ----

/// The first failure, in the order the checks run, of the configuration `c`
/// for the environment called `name`, where the text is `len` bytes long:
/// undeclared presets, then duplicate fields, then invalid merged
/// environments, then the absence of `name`.
pub open spec fn declared_error(c: TomlConfiguration, name: Seq<char>, len: nat) -> Option<ConfigErrorView> {
    if unknown_preset_error(c) is Some {
        unknown_preset_error(c)
    } else if duplicate_error(c) is Some {
        duplicate_error(c)
    } else if validation_error(c) is Some {
        validation_error(c)
    } else if name_position(c.environments@, name) is None {
        Some(
            ConfigErrorView::EnvironmentSearch {
                msg: missing_environment_msg(name),
                span: Span { start: 0, end: len as usize },
            },
        )
    } else {
        None
    }
}

/// Runs every check on `c` and returns the environment called `name` with
/// its presets applied; `len` is the length of the text in bytes.
pub fn resolve_declared(c: &TomlConfiguration, name: &String, len: usize) -> (r: Result<TomlEnvironment, ConfigError>)
    ensures
        r is Ok <==> declared_error(*c, name@, len as nat) is None,
        r matches Err(e) ==> declared_error(*c, name@, len as nat) == Some(e@),
        r matches Ok(e) ==> name_position(c.environments@, name@) matches Some(i) && e.fields()
            == merged_environment(*c, i) && same_layout(e, c.environments@[i].1),
{
    check_presets_exist(c)?;
    check_unique_fields(c)?;
    let envs = merge_presets(c);
    validate_environments(&envs, Ghost(*c))?;
    match find_named(&envs, name) {
        Some(i) => {
            proof {
                lemma_position_found(envs@, name@);
                lemma_same_names(envs@, c.environments@, name@);
            }
            let e = envs[i].1.clone_environment();
            Ok(e)
        },
        None => {
            proof {
                lemma_same_names(envs@, c.environments@, name@);
            }
            let msg = String::from_str("Failed to find provided environment '").concat(name.as_str()).concat(
                "' in config",
            );
            Err(ConfigError::EnvironmentSearch { msg, span: Span { start: 0, end: len } })
        },
    }
}

/// Two lists with the same names in the same order find a name at the same place.
proof fn lemma_same_names<A, B>(a: Seq<(String, A)>, b: Seq<(String, B)>, name: Seq<char>)
    requires
        a.len() == b.len(),
        forall|i: int| 0 <= i < a.len() ==> (#[trigger] a[i]).0@ == b[i].0@,
    ensures
        name_position(a, name) == name_position(b, name),
    decreases a.len(),
{
    if a.len() > 0 {
        assert(a[0].0@ == b[0].0@);
        assert forall|i: int| 0 <= i < a.len() - 1 implies (#[trigger] a.drop_first()[i]).0@ == b.drop_first()[i].0@ by {
            assert(a[i + 1].0@ == b[i + 1].0@);
        }
        lemma_same_names(a.drop_first(), b.drop_first(), name);
    }
}

// ---- laws ----

/// Applying two presets appends each list field of the first, then of the
/// second, to the environment's own list.
pub proof fn lemma_lists_concatenate(
    f: Fields,
    a: Seq<char>,
    b: Seq<char>,
    presets: Seq<(String, TomlPreset)>,
)
    ensures
        merged_fields(f, seq![a, b], presets).exec_cmds == f.exec_cmds + preset_fields(presets, a).exec_cmds
            + preset_fields(presets, b).exec_cmds,
        merged_fields(f, seq![a, b], presets).entry_options == f.entry_options + preset_fields(
            presets,
            a,
        ).entry_options + preset_fields(presets, b).entry_options,
        merged_fields(f, seq![a, b], presets).exec_options == f.exec_options + preset_fields(
            presets,
            a,
        ).exec_options + preset_fields(presets, b).exec_options,
        merged_fields(f, seq![a, b], presets).create_options == f.create_options + preset_fields(
            presets,
            a,
        ).create_options + preset_fields(presets, b).create_options,
        merged_fields(f, seq![a, b], presets).cp_cmds == f.cp_cmds + preset_fields(presets, a).cp_cmds
            + preset_fields(presets, b).cp_cmds,
{
    let names = seq![a, b];
    assert(names.drop_last() =~= seq![a]);
    assert(seq![a].drop_last() =~= Seq::<Seq<char>>::empty());
    assert(seq![a].last() == a);
    assert(names.last() == b);
    assert(merged_fields(f, Seq::<Seq<char>>::empty(), presets) == f);
    assert(merged_fields(f, seq![a], presets) == apply_preset(f, preset_fields(presets, a)));
}

/// The first environment from `k` on with a duplicate field exists where
/// the `i`th environment has one.
proof fn lemma_first_duplicate_found(c: TomlConfiguration, k: int, i: int)
    requires
        0 <= k <= i < c.environments@.len(),
        duplicate_field(c.presets@, c.environments@[i].1) is Some,
    ensures
        first_duplicate(c, k) is Some,
    decreases i - k,
{
    if duplicate_field(c.presets@, c.environments@[k].1) is None {
        lemma_first_duplicate_found(c, k + 1, i);
    }
}

/// An environment that names two different presets which both give the
/// same scalar field a value is always rejected, in either order of the
/// names, and the error shows the two presets' values in ascending order of
/// their names, after the environment's own value if it has one.
pub proof fn lemma_two_presets_conflict(c: TomlConfiguration, i: int, f: ScalarField, a: Seq<char>, b: Seq<char>)
    requires
        0 <= i < c.environments@.len(),
        c.environments@[i].1.presets.deep_view() == seq![a, b] || c.environments@[i].1.presets.deep_view()
            == seq![b, a],
        a != b,
        preset_declared(c.presets@, a),
        preset_declared(c.presets@, b),
        scalar(preset_fields(c.presets@, a), f).len() > 0,
        scalar(preset_fields(c.presets@, b), f).len() > 0,
    ensures
        duplicate_error(c) is Some,
        ({
            let e = c.environments@[i].1;
            let pa = c.presets@[preset_position(c.presets@, a)->Some_0].1;
            let pb = c.presets@[preset_position(c.presets@, b)->Some_0].1;
            let own = if scalar(e.fields(), f).len() > 0 {
                seq![env_field_span(e, f)]
            } else {
                Seq::empty()
            };
            field_sources(c.presets@, e, f) == own + if text_less(a, b) {
                seq![preset_field_span(pa, f), preset_field_span(pb, f)]
            } else {
                seq![preset_field_span(pb, f), preset_field_span(pa, f)]
            }
        }),
{
    let e = c.environments@[i].1;
    let names = e.presets.deep_view();
    lemma_text_less_total(a, b);
    lemma_position_found(c.presets@, a);
    lemma_position_found(c.presets@, b);
    let lo = if text_less(a, b) { a } else { b };
    let hi = if text_less(a, b) { b } else { a };
    if names == seq![a, b] {
        lemma_sorted_pair(a, b);
    } else {
        lemma_sorted_pair(b, a);
    }
    assert(sorted_names(names) == seq![lo, hi]);
    let sorted = seq![lo, hi];
    assert(sorted.drop_last() =~= seq![lo]);
    assert(sorted.last() == hi);
    assert(seq![lo].drop_last() =~= Seq::<Seq<char>>::empty());
    assert(seq![lo].last() == lo);
    assert(preset_sources(c.presets@, Seq::<Seq<char>>::empty(), f) == Seq::<Span>::empty());
    assert(preset_fields(c.presets@, lo) == c.presets@[preset_position(c.presets@, lo)->Some_0].1.fields());
    assert(preset_fields(c.presets@, hi) == c.presets@[preset_position(c.presets@, hi)->Some_0].1.fields());
    assert(Seq::<Span>::empty().push(preset_field_span(c.presets@[preset_position(c.presets@, lo)->Some_0].1, f))
        =~= seq![preset_field_span(c.presets@[preset_position(c.presets@, lo)->Some_0].1, f)]);
    let pa = c.presets@[preset_position(c.presets@, a)->Some_0].1;
    let pb = c.presets@[preset_position(c.presets@, b)->Some_0].1;
    assert(preset_sources(c.presets@, seq![lo], f) == seq![preset_field_span(
        c.presets@[preset_position(c.presets@, lo)->Some_0].1,
        f,
    )]);
    assert(preset_sources(c.presets@, sorted, f).len() == 2);
    assert(field_sources(c.presets@, e, f).len() >= 2);
    assert(duplicate_field(c.presets@, e) is Some);
    lemma_first_duplicate_found(c, 0, i);
    let own = if scalar(e.fields(), f).len() > 0 {
        seq![env_field_span(e, f)]
    } else {
        Seq::empty()
    };
    assert(preset_sources(c.presets@, sorted, f) =~= if text_less(a, b) {
        seq![preset_field_span(pa, f), preset_field_span(pb, f)]
    } else {
        seq![preset_field_span(pb, f), preset_field_span(pa, f)]
    });
}

/// Two different names put in order give the same list whichever comes
/// first: the lesser, then the greater.
pub proof fn lemma_sorted_pair(x: Seq<char>, y: Seq<char>)
    requires
        x != y,
    ensures
        sorted_names(seq![x, y]) == (if text_less(x, y) { seq![x, y] } else { seq![y, x] }),
{
    lemma_text_less_total(x, y);
    let names = seq![x, y];
    assert(names.drop_last() =~= seq![x]);
    assert(names.last() == y);
    assert(seq![x].drop_last() =~= Seq::<Seq<char>>::empty());
    assert(seq![x].last() == x);
    assert(sorted_names(Seq::<Seq<char>>::empty()) == Seq::<Seq<char>>::empty());
    assert(insert_name(x, Seq::<Seq<char>>::empty()) == seq![x]);
    assert(sorted_names(seq![x]) == seq![x]);
    assert(seq![x].drop_first() =~= Seq::<Seq<char>>::empty());
    assert(insert_name(y, Seq::<Seq<char>>::empty()) == seq![y]);
    assert(seq![y] + seq![x] =~= seq![y, x]);
    assert(seq![x] + seq![y] =~= seq![x, y]);
}

/// The sources of a field do not depend on the order in which the
/// environment lists two presets: swapping them gives the same spans, and
/// so the same error.
pub proof fn lemma_swapped_presets_same_sources(
    presets: Seq<(String, TomlPreset)>,
    e1: TomlEnvironment,
    e2: TomlEnvironment,
    f: ScalarField,
    a: Seq<char>,
    b: Seq<char>,
)
    requires
        a != b,
        e1.presets.deep_view() == seq![a, b],
        e2.presets.deep_view() == seq![b, a],
        scalar(e1.fields(), f) == scalar(e2.fields(), f),
        env_field_span(e1, f) == env_field_span(e2, f),
    ensures
        field_sources(presets, e1, f) == field_sources(presets, e2, f),
{
    lemma_sorted_pair(a, b);
    lemma_sorted_pair(b, a);
    lemma_text_less_total(a, b);
}

} // verus!
