use berth::cli::{Action, AppConfig};
use berth::configuration::{Configuration, Environment};
use berth::diagnostics::ConfigError;
use berth::environment::DockerfileRead;
use miette::{GraphicalReportHandler, GraphicalTheme, LabeledSpan, MietteDiagnostic, NamedSource, Report};
use std::io::{Read, Write};
use std::path::Path;
use tempfile::NamedTempFile;

struct ConfigTest {
    path: String,
    content: String,
    _file: Option<NamedTempFile>,
}

impl ConfigTest {
    fn new(content: &str) -> ConfigTest {
        let mut file = NamedTempFile::new().expect("Failed to create file for config");
        file.write_all(content.as_bytes()).expect("Failed to write config file");
        ConfigTest {
            path: file.path().to_str().unwrap().to_string(),
            content: content.to_string(),
            _file: Some(file),
        }
    }

    fn file_path(&self) -> &str {
        &self.path
    }

    fn get_env(&self, name: &str) -> Result<Environment, ConfigError> {
        self.get_env_with(name, &[])
    }

    /// Resolves `name`, reading the Dockerfile from among `files` where one
    /// of them is the file that the plan names.
    fn get_env_with(&self, name: &str, files: &[&NamedTempFile]) -> Result<Environment, ConfigError> {
        let app = AppConfig {
            config_path: self.path.clone(),
            action: Action::Up,
            cleanup: true,
            environment: name.to_string(),
        };
        let plan = Configuration::new(&app, self.content.clone()).find_environment_from_configuration()?;
        let read = match plan.dockerfile_path() {
            None => DockerfileRead::Missing,
            Some(p) => read_dockerfile(&p, files),
        };
        plan.complete(read)
    }

    fn render(&self, err: &ConfigError) -> String {
        render(err, &self.path, &self.content)
    }
}

fn read_dockerfile(path: &str, files: &[&NamedTempFile]) -> DockerfileRead {
    if !Path::new(path).is_file() {
        return DockerfileRead::Missing;
    }
    for f in files {
        if f.path() == Path::new(path) {
            let mut bytes = Vec::new();
            return match f.reopen().and_then(|mut h| h.read_to_end(&mut bytes)) {
                Ok(_) => DockerfileRead::Contents(bytes),
                Err(_) => DockerfileRead::Unreadable,
            };
        }
    }
    DockerfileRead::Unreadable
}

fn render(err: &ConfigError, path: &str, content: &str) -> String {
    let labels: Vec<LabeledSpan> = match err {
        ConfigError::TomlParse { msg, span }
        | ConfigError::EnvironmentValidation { msg, span }
        | ConfigError::EnvironmentSearch { msg, span }
        | ConfigError::InvalidDockerfilePath { msg, span }
        | ConfigError::UnknownPreset { msg, span } => {
            vec![LabeledSpan::new_with_span(Some(msg.clone()), span.start..span.end)]
        }
        ConfigError::DuplicateFieldsFromPresets { spans } => spans
            .iter()
            .map(|l| LabeledSpan::new_with_span(Some(l.label.clone()), l.span.start..l.span.end))
            .collect(),
        ConfigError::FailedToInteractWithDockerfile(_) => Vec::new(),
    };
    let diagnostic = MietteDiagnostic::new(err.title())
        .with_code(err.code())
        .with_labels(labels);
    let report = Report::new(diagnostic).with_source_code(NamedSource::new(path, content.to_string()));
    let mut out = String::new();
    GraphicalReportHandler::new_themed(GraphicalTheme::unicode_nocolor())
        .render_report(&mut out, report.as_ref())
        .unwrap();
    out
}

#[test]
fn multiple_envs_in_config() {
    let config = ConfigTest::new(
        r#"
        [environment.Env1]
        image = "image1"
        entry_cmd = "init1"

        [environment.Env2]
        image = "image2"
        entry_cmd = "init2"
    "#,
    );

    let env1 = config.get_env("Env1").unwrap();
    let env2 = config.get_env("Env2").unwrap();

    assert_eq!(env1.image, "image1");
    assert_eq!(env2.image, "image2");

    assert_eq!(env1.entry_cmd, "init1");
    assert_eq!(env2.entry_cmd, "init2");
}

#[test]
fn simple_preset() {
    let config = ConfigTest::new(
        r#"
        [preset.Preset]
        image = "image"
        entry_cmd = "init"
        entry_options = ["entry_options"]
        exec_options = ["exec_options"]
        create_options = ["create_options"]

        [environment.Env]
        presets = ["Preset"]
    "#,
    );

    let env1 = config.get_env("Env").unwrap();

    assert_eq!(env1.image, "image");
    assert_eq!(env1.entry_cmd, "init");
    assert_eq!(env1.entry_options, vec!["entry_options"]);
    assert_eq!(env1.exec_options, vec!["exec_options"]);
    assert_eq!(env1.create_options, vec!["create_options"]);
}

#[test]
fn multiple_preset() {
    let config = ConfigTest::new(
        r#"
        [preset.Preset1]
        image = "image1"
        entry_options = ["entry_options1"]
        exec_options = ["exec_options1"]
        create_options = ["create_options1"]

        [preset.Preset2]
        entry_cmd = "init2"
        entry_options = ["entry_options2"]
        exec_options = ["exec_options2"]
        create_options = ["create_options2"]

        [environment.Env]
        presets = ["Preset1", "Preset2"]
    "#,
    );

    let env = config.get_env("Env").unwrap();

    assert_eq!(env.image, "image1");
    assert_eq!(env.entry_cmd, "init2");
    assert_eq!(env.entry_options, vec!["entry_options1", "entry_options2"]);
    assert_eq!(env.exec_options, vec!["exec_options1", "exec_options2"]);
    assert_eq!(
        env.create_options,
        vec!["create_options1", "create_options2"]
    );
}

#[test]
fn dockerfile_absolute_path() {
    let dockerfile = NamedTempFile::new().expect("Failed to create temporary file for config");
    let dockerfile_path = dockerfile.path().to_str().unwrap().to_string();

    let env = ConfigTest::new(&format!(
        "[environment.Env]\nentry_cmd = \"hello\"\ndockerfile = \"{}\"\n",
        dockerfile_path
    ))
    .get_env_with("Env", &[&dockerfile])
    .unwrap();
    assert_eq!(env.dockerfile.unwrap(), dockerfile_path);

    dockerfile.close().unwrap();
}

#[test]
fn dockerfile_relative_to_config_file() {
    let tmp_dir = tempfile::TempDir::new().unwrap();
    let config_dir = tempfile::Builder::new()
        .prefix("configdir")
        .rand_bytes(0)
        .tempdir_in(tmp_dir.path())
        .unwrap();

    let docker_file = tempfile::Builder::new()
        .prefix("dockerfile")
        .rand_bytes(0)
        .tempfile_in(config_dir.path())
        .unwrap();
    let docker_path = docker_file.path().to_str().unwrap().to_string();

    let content = "[environment.Env]\nentry_cmd = \"hello\"\ndockerfile = \"dockerfile\"\n";
    let mut config_file = tempfile::Builder::new()
        .prefix("config.toml")
        .rand_bytes(0)
        .tempfile_in(config_dir.path())
        .unwrap();
    config_file.write_all(content.as_bytes()).unwrap();

    let config = ConfigTest {
        path: config_file.path().to_str().unwrap().to_string(),
        content: content.to_string(),
        _file: None,
    };
    let env = config.get_env_with("Env", &[&docker_file]).unwrap();
    assert_eq!(env.dockerfile.unwrap(), docker_path);

    drop(docker_file);
    drop(config_file);
    config_dir.close().unwrap();
    tmp_dir.close().unwrap();
}

#[test]
fn configuration_env_vars_in_options() {
    let name = "BERTH_CONFIGURATION_OPTION_VARIABLE";
    envmnt::set(name, "/dir");
    let env = ConfigTest::new(&format!(
        "[environment.Env]\nimage = \"image\"\nentry_cmd = \"cmd\"\ncreate_options = [\"${0}\"]\nexec_options = [\"${0}\"]\nentry_options = [\"${0}\"]\n",
        name
    ))
    .get_env("Env")
    .unwrap();

    assert_eq!(&env.create_options[0], "/dir");
    assert_eq!(&env.exec_options[0], "/dir");
    assert_eq!(&env.entry_options[0], "/dir");
}

#[test]
fn view_parsed_config() {
    let config = ConfigTest::new(
        r#"
        [preset.Preset1]
        image = "image1"
        entry_options = ["entry_options1"]
        exec_options = ["exec_options1"]
        create_options = ["create_options1"]

        [preset.Preset2]
        entry_cmd = "init2"
        entry_options = ["entry_options2"]
        exec_options = ["exec_options2"]
        create_options = ["create_options2"]

        [environment.Env]
        presets = ["Preset1", "Preset2"]
    "#,
    );

    let env_view = config.get_env("Env").unwrap().view();

    assert_eq!(
        env_view,
        "[environment.Env]\nimage = \"image1\"\nentry_cmd = \"init2\"\nentry_options = [\"entry_options1\", \"entry_options2\"]\nexec_options = [\"exec_options1\", \"exec_options2\"]\ncreate_options = [\"create_options1\", \"create_options2\"]\n"
    );
}

#[test]
fn test_intermediate_view_with_env_vars() {
    let dockerfile = NamedTempFile::new().expect("Failed to create temporary dockerfile");
    let dockerfile_path = dockerfile.path().to_str().unwrap().to_string();

    let entry_name = "BERTH_VIEW_ENTRY_OPTION_VARIABLE";
    let create_name = "BERTH_VIEW_CREATE_OPTION_VARIABLE";
    envmnt::set(entry_name, "/test/path");
    envmnt::set(create_name, "/custom/docker");

    let config = ConfigTest::new(&format!(
        "[environment.EnvExpansion]\ndockerfile = \"{}\"\nentry_cmd = \"bash\"\nentry_options = [\"-v ${{{}}}:/data\"]\ncreate_options = [\"-v ${{{}}}:/mount\"]\n",
        dockerfile_path, entry_name, create_name
    ));

    let env = config.get_env_with("EnvExpansion", &[&dockerfile]).unwrap();
    let view_output = env.view();

    let expected = format!(
        "[environment.EnvExpansion]\ndockerfile = \"{}\"\nentry_cmd = \"bash\"\nentry_options = [\"-v {}:/data\"]\ncreate_options = [\"-v {}:/mount\"]\n",
        dockerfile_path, "/test/path", "/custom/docker"
    );

    assert_eq!(view_output, expected);
}

#[test]
fn environment_not_in_config() {
    let config = ConfigTest::new("[environment.Env]\nimage = \"image\"\nentry_cmd = \"cmd\"\ncreate_options = [\"create options\"]\nexec_options = [\"exec option\"]\nentry_options = [\"entry option\"]\n");

    let err = config.get_env("NotEnv").unwrap_err();
    assert_eq!(
        config.render(&err),
        format!("configuration::environment::search\n\n  × Environment Not Present\n   ╭─[{}:1:1]\n 1 │ ╭─▶ [environment.Env]\n 2 │ │   image = \"image\"\n 3 │ │   entry_cmd = \"cmd\"\n 4 │ │   create_options = [\"create options\"]\n 5 │ │   exec_options = [\"exec option\"]\n 6 │ ├─▶ entry_options = [\"entry option\"]\n   · ╰──── Failed to find provided environment 'NotEnv' in config\n   ╰────\n", config.file_path())
    );
}

#[test]
fn non_existent_dockerfile() {
    let config = ConfigTest::new("[environment.Env]\ndockerfile = \"/tmp/file_that_is_not_real\"\nentry_cmd = \"cmd\"\n");

    let err = config.get_env("Env").unwrap_err();

    assert_eq!(
        config.render(&err),
        format!("configuration::environment::dockerfile\n\n  × Nonexistent Dockerfile\n   ╭─[{}:2:14]\n 1 │ [environment.Env]\n 2 │ dockerfile = \"/tmp/file_that_is_not_real\"\n   ·              ──────────────┬─────────────\n   ·                            ╰── Could not find dockerfile\n 3 │ entry_cmd = \"cmd\"\n   ╰────\n", config.file_path())
    );
}

#[test]
fn invalid_field_type_in_config() {
    let config = ConfigTest::new("[environment.Env]\nimage = 5\n");

    let err = config.get_env("").unwrap_err();

    assert_eq!(
        config.render(&err),
        format!("configuration::parsing\n\n  × Malformed TOML\n   ╭─[{}:2:9]\n 1 │ [environment.Env]\n 2 │ image = 5\n   ·         ┬\n   ·         ╰── invalid type: integer `5`, expected a string\n   ╰────\n", config.file_path())
    );
}

#[test]
fn unknown_field_in_config() {
    let config = ConfigTest::new("[environment.Env]\nunknown = \"Should Fail\"\n");

    let err = config.get_env("").unwrap_err();
    assert_eq!(
        config.render(&err),
        format!("configuration::parsing\n\n  × Malformed TOML\n   ╭─[{}:2:1]\n 1 │ [environment.Env]\n 2 │ unknown = \"Should Fail\"\n   · ───┬───\n   ·    ╰── Unknown field\n   ╰────\n", config.file_path())
    );
}

#[test]
fn duplicate_field_in_config() {
    let config = ConfigTest::new("[environment.Env]\nimage = \"1\"\nimage = \"2\"\n");

    let err = config.get_env("").unwrap_err();
    assert_eq!(
        config.render(&err),
        format!("configuration::parsing\n\n  × Malformed TOML\n   ╭─[{}:3:1]\n 2 │ image = \"1\"\n 3 │ image = \"2\"\n   · ┬\n   · ╰── duplicate key `image` in table `environment.Env`\n   ╰────\n", config.file_path())
    );
}

#[test]
fn missing_field_in_config() {
    let config = ConfigTest::new("[environment.Env]\nimage = \"1\"\n");

    let err = config.get_env("").unwrap_err();
    assert_eq!(
        config.render(&err),
        format!("configuration::environment::validation\n\n  × Malformed Environment\n   ╭─[{}:1:1]\n 1 │ ╭─▶ [environment.Env]\n 2 │ ├─▶ image = \"1\"\n   · ╰──── An environment requires a 'entry_cmd' field\n   ╰────\n", config.file_path())
    );
}

#[test]
fn no_dockerfile_or_image_in_config() {
    let config = ConfigTest::new("[environment.Env]\nentry_cmd = \"hello\"\n");
    let err = config.get_env("Env").unwrap_err();
    assert_eq!(
        config.render(&err),
        format!("configuration::environment::validation\n\n  × Malformed Environment\n   ╭─[{}:1:1]\n 1 │ ╭─▶ [environment.Env]\n 2 │ ├─▶ entry_cmd = \"hello\"\n   · ╰──── An environment requires an 'image' or 'dockerfile' field\n   ╰────\n", config.file_path())
    );
}

#[test]
fn both_dockerfile_or_image() {
    let config = ConfigTest::new("[environment.Env]\nentry_cmd = \"hello\"\nimage = \"world\"\ndockerfile = \"!\"\n");
    let err = config.get_env("Env").unwrap_err();
    assert_eq!(
        config.render(&err),
        format!("configuration::environment::validation\n\n  × Malformed Environment\n   ╭─[{}:1:1]\n 1 │ ╭─▶ [environment.Env]\n 2 │ │   entry_cmd = \"hello\"\n 3 │ │   image = \"world\"\n 4 │ ├─▶ dockerfile = \"!\"\n   · ╰──── An environment can only have an 'image' or 'dockerfile' field\n   ╰────\n", config.file_path())
    );
}

#[test]
fn build_context_and_no_dockerfile() {
    let config = ConfigTest::new("[environment.Env]\nimage = \"foo\"\nentry_cmd = \"hello\"\nbuild_context = \"world\"\n");
    let err = config.get_env("Env").unwrap_err();
    assert_eq!(
        config.render(&err),
        format!("configuration::environment::validation\n\n  × Malformed Environment\n   ╭─[{}:1:1]\n 1 │ ╭─▶ [environment.Env]\n 2 │ │   image = \"foo\"\n 3 │ │   entry_cmd = \"hello\"\n 4 │ ├─▶ build_context = \"world\"\n   · ╰──── 'build_context' can only be used with a 'dockerfile'\n   ╰────\n", config.file_path())
    );
}

#[test]
fn preset_not_found() {
    let config = ConfigTest::new("[preset.preset]\nentry_options = [\"a\"]\n\n[environment.Env]\nentry_cmd = \"hello\"\nimage = \"world\"\npresets = [\"preset\", \"different_preset\"]\n");
    let err = config.get_env("Env").unwrap_err();
    assert_eq!(
        config.render(&err),
        format!("configuration::preset::unknown\n\n  × Unknown Preset\n   ╭─[{}:7:22]\n 6 │ image = \"world\"\n 7 │ presets = [\"preset\", \"different_preset\"]\n   ·                      ─────────┬────────\n   ·                               ╰── Failed to find provided preset\n   ╰────\n", config.file_path())
    );
}

#[test]
fn multiple_unique_fields_from_presets() {
    let config = ConfigTest::new(
        r#"
        [preset.Preset1]
        image = "image1"

        [preset.Preset2]
        image = "image2"

        [environment.Env]
        image = "image"
        entry_cmd = "init"
        presets = ["Preset1", "Preset2"]
    "#,
    );

    let err = config.get_env("Env").unwrap_err();
    assert_eq!(
        config.render(&err),
        format!("configuration::preset::duplication\n\n  × Duplicate Fields From Presets\n    ╭─[{}:3:9]\n  2 │         [preset.Preset1]\n  3 │         image = \"image1\"\n    ·         ────────┬───────\n    ·                 ╰── instance 2\n  4 │ \n  5 │         [preset.Preset2]\n  6 │         image = \"image2\"\n    ·         ────────┬───────\n    ·                 ╰── instance 3\n  7 │ \n  8 │         [environment.Env]\n  9 │         image = \"image\"\n    ·         ───────┬───────\n    ·                ╰── instance 1\n 10 │         entry_cmd = \"init\"\n 11 │         presets = [\"Preset1\", \"Preset2\"]\n    ·                   ───────────┬──────────\n    ·                              ╰── Preset(s) causing duplicate 'image' field\n 12 │     \n    ╰────\n", config.file_path())
    );
}
