use berth::cli::{choose_config_path, Action, AppConfig, Candidate, CliError};
use berth::configuration::{Configuration, Environment};
use berth::diagnostics::ConfigError;
use berth::environment::{resolve_path, DockerfileRead};
use berth::naming::{generate_image_name, identity_from, image_name_from};
use berth::paths::parent;
use berth::util::AppEnvVar;

fn resolve_at(path: &str, content: &str, name: &str, read: DockerfileRead) -> Result<Environment, ConfigError> {
    let app = AppConfig {
        config_path: path.to_string(),
        action: Action::Up,
        cleanup: false,
        environment: name.to_string(),
    };
    Configuration::new(&app, content.to_string())
        .find_environment_from_configuration()?
        .complete(read)
}

fn is_identity(name: &str, env: &str) -> bool {
    let prefix = format!("berth-{}-", env);
    match name.strip_prefix(&prefix) {
        Some(rest) => rest.len() == 16 && rest.chars().all(|c| c.is_ascii_digit() || ('a'..='f').contains(&c)),
        None => false,
    }
}

const TWO_PRESETS: &str = "[preset.A]\nimage = \"a\"\n\n[preset.B]\nimage = \"b\"\n\n[environment.Env]\nentry_cmd = \"sh\"\npresets = [\"A\", \"B\"]\n";
const TWO_PRESETS_REVERSED: &str = "[preset.A]\nimage = \"a\"\n\n[preset.B]\nimage = \"b\"\n\n[environment.Env]\nentry_cmd = \"sh\"\npresets = [\"B\", \"A\"]\n";

fn duplicate_labels(content: &str) -> Vec<(String, usize)> {
    match resolve_at("/tmp/c.toml", content, "Env", DockerfileRead::Missing) {
        Err(ConfigError::DuplicateFieldsFromPresets { spans }) => {
            spans.iter().map(|l| (l.label.clone(), l.span.start)).collect()
        }
        _ => panic!("two presets with an image must conflict"),
    }
}

#[test]
fn conflicting_presets_are_rejected_in_either_order() {
    let first = duplicate_labels(TWO_PRESETS);
    let second = duplicate_labels(TWO_PRESETS_REVERSED);
    let a_start = TWO_PRESETS.find("image = \"a\"").unwrap();
    let b_start = TWO_PRESETS.find("image = \"b\"").unwrap();
    assert_eq!(first[0], ("instance 1".to_string(), a_start));
    assert_eq!(first[1], ("instance 2".to_string(), b_start));
    assert_eq!(first[2].0, "Preset(s) causing duplicate 'image' field");
    assert_eq!(first.len(), 3);
    assert_eq!(second[0], first[0]);
    assert_eq!(second[1], first[1]);
}

#[test]
fn preset_lists_concatenate_in_order() {
    let content = "[preset.A]\nexec_cmds = [\"x\"]\n\n[preset.B]\nexec_cmds = [\"y\"]\n\n[environment.Env]\nimage = \"i\"\nentry_cmd = \"sh\"\npresets = [\"A\", \"B\"]\n";
    let env = resolve_at("/tmp/c.toml", content, "Env", DockerfileRead::Missing).unwrap();
    assert_eq!(env.exec_cmds, vec!["x", "y"]);
}

#[test]
fn resolved_name_has_sixteen_hex_digits() {
    let content = "[environment.Env]\nimage = \"alpine:edge\"\nentry_cmd = \"true\"\n";
    let env = resolve_at("/tmp/c.toml", content, "Env", DockerfileRead::Missing).unwrap();
    assert!(is_identity(&env.name, "Env"), "{}", env.name);
    assert_eq!(env.image, "alpine:edge");
}

#[test]
fn resolving_twice_gives_the_same_name() {
    let content = "[environment.Env]\nimage = \"alpine:edge\"\nentry_cmd = \"true\"\n";
    let a = resolve_at("/tmp/c.toml", content, "Env", DockerfileRead::Missing).unwrap();
    let b = resolve_at("/tmp/c.toml", content, "Env", DockerfileRead::Missing).unwrap();
    assert_eq!(a.name, b.name);
    let other = "[environment.Env]\nimage = \"alpine:3\"\nentry_cmd = \"true\"\n";
    let c = resolve_at("/tmp/c.toml", other, "Env", DockerfileRead::Missing).unwrap();
    assert_ne!(a.name, c.name);
}

#[test]
fn relative_dockerfile_is_taken_from_the_config_directory() {
    let content = "[environment.Env]\nentry_cmd = \"sh\"\ndockerfile = \"Dockerfile\"\n";
    let env = resolve_at("/tmp/d/config.toml", content, "Env", DockerfileRead::Contents(Vec::new())).unwrap();
    assert_eq!(env.dockerfile.as_deref(), Some("/tmp/d/Dockerfile"));
    assert_eq!(env.build_context.as_deref(), Some("/tmp/d"));
    assert_eq!(
        env.image,
        "berth-env-e3b0c44298fc1c149afbf4c8996fb92427ae41e4649b934ca495991b7852b855"
    );
    assert_eq!(resolve_path("/tmp/d/config.toml", "Dockerfile").unwrap(), "/tmp/d/Dockerfile");
}

#[test]
fn absent_relative_dockerfile_points_at_its_value() {
    let content = "[environment.Env]\nentry_cmd = \"sh\"\ndockerfile = \"Dockerfile\"\n";
    match resolve_at("/tmp/d/config.toml", content, "Env", DockerfileRead::Missing) {
        Err(ConfigError::InvalidDockerfilePath { msg, span }) => {
            assert_eq!(msg, "Could not find dockerfile");
            let start = content.find("\"Dockerfile\"").unwrap();
            assert_eq!((span.start, span.end), (start, start + "\"Dockerfile\"".len()));
        }
        _ => panic!("a missing Dockerfile is an error"),
    }
}

#[test]
fn unreadable_dockerfile_names_its_path() {
    let content = "[environment.Env]\nentry_cmd = \"sh\"\ndockerfile = \"/x/Dockerfile\"\n";
    match resolve_at("/tmp/d/config.toml", content, "Env", DockerfileRead::Unreadable) {
        Err(ConfigError::FailedToInteractWithDockerfile(p)) => assert_eq!(p, "/x/Dockerfile"),
        _ => panic!("an unreadable Dockerfile is an error"),
    }
}

#[test]
fn explicit_build_context_is_taken_from_the_config_directory() {
    let content = "[environment.Env]\nentry_cmd = \"sh\"\ndockerfile = \"docker/Dockerfile\"\nbuild_context = \"ctx\"\n";
    let env = resolve_at("/tmp/d/config.toml", content, "Env", DockerfileRead::Contents(b"FROM x".to_vec())).unwrap();
    assert_eq!(env.dockerfile.as_deref(), Some("/tmp/d/docker/Dockerfile"));
    assert_eq!(env.build_context.as_deref(), Some("/tmp/d/ctx"));
}

fn validation_message(content: &str) -> String {
    match resolve_at("/tmp/c.toml", content, "Env", DockerfileRead::Missing) {
        Err(ConfigError::EnvironmentValidation { msg, span }) => {
            assert_eq!(span.start, 0);
            msg
        }
        _ => panic!("expected a validation error"),
    }
}

#[test]
fn validation_messages_are_distinct() {
    let missing_cmd = validation_message("[environment.Env]\nimage = \"i\"\n");
    let both = validation_message("[environment.Env]\nentry_cmd = \"sh\"\nimage = \"i\"\ndockerfile = \"d\"\n");
    let neither = validation_message("[environment.Env]\nentry_cmd = \"sh\"\n");
    assert_eq!(missing_cmd, "An environment requires a 'entry_cmd' field");
    assert_eq!(both, "An environment can only have an 'image' or 'dockerfile' field");
    assert_eq!(neither, "An environment requires an 'image' or 'dockerfile' field");
}

#[test]
fn unknown_preset_points_at_the_array_element() {
    let content = "[environment.Env]\nentry_cmd = \"sh\"\nimage = \"i\"\npresets = [\"missing\"]\n";
    match resolve_at("/tmp/c.toml", content, "Env", DockerfileRead::Missing) {
        Err(ConfigError::UnknownPreset { msg, span }) => {
            assert_eq!(msg, "Failed to find provided preset");
            let start = content.find("\"missing\"").unwrap();
            assert_eq!((span.start, span.end), (start, start + "\"missing\"".len()));
        }
        _ => panic!("an unknown preset is an error"),
    }
}

#[test]
fn missing_environment_table_is_a_parse_error() {
    match resolve_at("/tmp/c.toml", "[preset.A]\nimage = \"a\"\n", "Env", DockerfileRead::Missing) {
        Err(ConfigError::TomlParse { msg, .. }) => assert_eq!(msg, "missing field `environment`"),
        _ => panic!("the environment table is required"),
    }
}

#[test]
fn unexpected_parse_errors_are_labelled() {
    match resolve_at("/tmp/c.toml", "[environment.Env\n", "Env", DockerfileRead::Missing) {
        Err(ConfigError::TomlParse { msg, .. }) => {
            let raw = toml_edit::ImDocument::parse("[environment.Env\n".to_string()).unwrap_err();
            assert_eq!(msg, format!("Unexpected TOML Error {:?}", raw.message()));
            assert!(!msg.contains('\n'));
        }
        _ => panic!("broken TOML is a parse error"),
    }
}

#[test]
fn image_name_is_lowercase_name_and_digest() {
    assert_eq!(
        generate_image_name("MyEnv", b"abc"),
        "berth-myenv-ba7816bf8f01cfea414140de5dae2223b00361a396177a9cb410ff61f20015ad"
    );
    assert_eq!(image_name_from("x", &[0x0f, 0xa0]), "berth-x-0fa0");
}

#[test]
fn identity_takes_eight_digest_bytes() {
    let digest: Vec<u8> = (0u8..32).collect();
    assert_eq!(identity_from("Env", &digest), "berth-Env-0001020304050607");
}

#[test]
fn parent_directories() {
    assert_eq!(parent("/tmp/d/config.toml").unwrap(), "/tmp/d");
    assert_eq!(parent("/config.toml").unwrap(), "/");
    assert_eq!(parent("config.toml").unwrap(), "");
    assert!(parent("/").is_none());
    assert!(parent("").is_none());
}

#[test]
fn config_path_choice() {
    let given = Candidate { path: "/a".to_string(), exists: true };
    let xdg = Candidate { path: "/x".to_string(), exists: true };
    let home = Candidate { path: "/h".to_string(), exists: true };
    assert_eq!(choose_config_path(Some(given), Some(xdg.clone()), None).unwrap(), "/a");
    let absent = Candidate { path: "/a".to_string(), exists: false };
    assert!(matches!(
        choose_config_path(Some(absent), Some(xdg.clone()), None),
        Err(CliError::NoConfigAtProvidedPath(p)) if p == "/a"
    ));
    assert_eq!(choose_config_path(None, Some(xdg), Some(home.clone())).unwrap(), "/x");
    let no_xdg = Candidate { path: "/x".to_string(), exists: false };
    assert_eq!(choose_config_path(None, Some(no_xdg), Some(home)).unwrap(), "/h");
    assert!(matches!(
        choose_config_path(None, None, None),
        Err(CliError::NoConfigInStandardLocation)
    ));
}

#[test]
fn variables_map() {
    let vars = AppEnvVar::empty().set_var("A", "1").set_var("B", "2").set_var("A", "3");
    assert_eq!(vars.var("A"), Some("3"));
    assert_eq!(vars.var("B"), Some("2"));
    assert_eq!(vars.var("C"), None);
}

#[test]
fn inline_environment_tables_are_read() {
    let content = "[environment]\nEnv = { image = \"alpine:edge\", entry_cmd = \"true\" }\n";
    let env = resolve_at("/tmp/c.toml", content, "Env", DockerfileRead::Missing).unwrap();
    assert_eq!(env.image, "alpine:edge");
    assert_eq!(env.entry_cmd, "true");
}

#[test]
fn resolve_completes_the_plan() {
    let app = AppConfig {
        config_path: "/tmp/c.toml".to_string(),
        action: Action::Up,
        cleanup: false,
        environment: "Env".to_string(),
    };
    let config = Configuration::new(&app, "[environment.Env]\nimage = \"alpine:edge\"\nentry_cmd = \"true\"\n".to_string());
    let env = config.resolve(DockerfileRead::Missing).unwrap();
    assert!(is_identity(&env.name, "Env"), "{}", env.name);
    assert_eq!(env.original_name, "Env");
    assert!(env.dockerfile.is_none());
}

#[test]
fn boolean_where_a_string_belongs_is_a_type_error() {
    match resolve_at("/tmp/c.toml", "[environment.Env]\nimage = true\n", "Env", DockerfileRead::Missing) {
        Err(ConfigError::TomlParse { msg, span }) => {
            assert_eq!(msg, "invalid type: boolean `true`, expected a string");
            assert_eq!((span.start, span.end), (26, 30));
        }
        _ => panic!("a boolean image is a type error"),
    }
}
