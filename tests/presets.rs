use berth::presets::Preset;

#[test]
fn basic_preset_file() {
    let content = r#"
        [env.Env1]
        image = "image1"
        entry_cmd = "init1"

        [env.Env2]
        image = "image2"
        entry_cmd = "init2"
    "#;
    let preset = Preset::new(content).unwrap();

    assert!(preset.env("Env1").is_some());
    assert!(preset.env("Env2").is_some());

    assert_eq!(preset.env("Env1").unwrap().image, "image1");
    assert_eq!(preset.env("Env2").unwrap().image, "image2");

    assert_eq!(preset.env("Env1").unwrap().entry_cmd, "init1");
    assert_eq!(preset.env("Env2").unwrap().entry_cmd, "init2");
}

#[test]
fn unknown_field() {
    let content = "[env.Env]\nunknown = \"Should Fail\"\n";
    let preset = Preset::new(content);
    assert!(preset.is_err());
    let err_str = match preset.unwrap_err() {
        berth::presets::PresetError::TomlParse { message } => message,
    };
    assert!(err_str.contains("TOML parse error at line 2, column 1"));
    assert!(err_str.contains("unknown field `unknown`"));
}

#[test]
fn presets_env_vars_in_options() {
    let name = "BERTH_PRESET_OPTION_VARIABLE";
    envmnt::set(name, "/dir");
    let content = format!(
        "[env.Env]\nimage = \"image\"\nentry_cmd = \"cmd\"\ncreate_options = [\"${}\"]\nexec_options = [\"${}\"]\nentry_options = [\"${}\"]\n",
        name, name, name
    );

    let preset = Preset::new(&content).unwrap();
    let env = preset.env("Env").unwrap();
    assert_eq!(&env.create_options.as_ref().unwrap()[0], "/dir");
    assert_eq!(&env.exec_options.as_ref().unwrap()[0], "/dir");
    assert_eq!(&env.entry_options.as_ref().unwrap()[0], "/dir");
}

#[test]
fn preset_env_is_named_after_its_key() {
    let preset = Preset::new("[env.Alpha]\nimage = \"a\"\nentry_cmd = \"sh\"\n").unwrap();
    assert_eq!(preset.env("Alpha").unwrap().name, "Alpha");
    assert!(preset.env("Beta").is_none());
}

#[test]
fn preset_missing_image_is_rejected() {
    let preset = Preset::new("[env.Alpha]\nentry_cmd = \"sh\"\n");
    assert!(preset.is_err());
}
