use mawaku::config::{
    load, load_or_init, save, settle, Config, ConfigError, GeminiApiConfig,
    DEFAULT_GEMINI_API_KEY_ENV_VAR, DEFAULT_PROMPT,
};
use mawaku::document::parse;
use toml::Value;

fn config(variable: &str, directory: &str) -> Config {
    Config {
        gemini_api: GeminiApiConfig {
            api_key_env_var: variable.to_string(),
        },
        image_output_dir: directory.to_string(),
    }
}

#[test]
fn config_default_sets_gemini_api_env_var() {
    let config = Config::default();
    assert_eq!(
        config.gemini_api.api_key_env_var,
        DEFAULT_GEMINI_API_KEY_ENV_VAR
    );
}

#[test]
fn config_default_sets_image_output_dir() {
    let config = Config::default();
    assert!(!config.image_output_dir.trim().is_empty());
}

#[test]
fn load_or_init_creates_file_with_default_gemini_api_env_var() {
    let outcome = load_or_init("/home/someone/.mawaku/config.toml", None)
        .expect("load default config");
    assert!(outcome.created);
    assert_eq!(
        outcome.config.gemini_api.api_key_env_var,
        DEFAULT_GEMINI_API_KEY_ENV_VAR
    );
    assert!(!outcome.config.image_output_dir.trim().is_empty());

    let contents = outcome.contents.expect("a fresh configuration is written");
    let parsed: Value = contents.parse().expect("config is valid TOML");
    let gemini = parsed
        .get("gemini_api")
        .and_then(Value::as_table)
        .expect("gemini table exists");
    assert_eq!(
        gemini.get("api_key_env_var").and_then(Value::as_str),
        Some(DEFAULT_GEMINI_API_KEY_ENV_VAR)
    );
    assert!(contents.contains("image_output_dir ="));
    assert!(!contents.contains("default_prompt"));
}

#[test]
fn load_or_init_backfills_missing_image_output_dir() {
    let expected_dir = "/home/someone/.mawaku".to_string();
    let outcome = load_or_init(
        "/home/someone/.mawaku/config.toml",
        Some(
            r#"
default_prompt = "Test"
gemini_api_key = "super-secret"
"#,
        ),
    )
    .expect("load legacy config");
    assert!(!outcome.created);
    assert_eq!(outcome.config.image_output_dir, expected_dir);

    let contents = outcome.contents.expect("a migrated configuration is written");
    assert!(contents.contains(&format!("image_output_dir = \"{expected_dir}\"")));
    assert!(!contents.contains("default_prompt"));
    assert!(!contents.contains("gemini_api_key"));
    assert!(contents.contains("[gemini_api]"));
}

#[test]
fn load_or_init_rewrites_legacy_environment_mapping() {
    let outcome = load_or_init(
        "/home/someone/.mawaku/config.toml",
        Some(
            r#"
[gemini_api]
environment = "staging"
[gemini_api.environments]
staging = "CUSTOM_GEMINI"
"#,
        ),
    )
    .expect("load rewritten config");
    assert!(!outcome.created);
    assert_eq!(outcome.config.gemini_api.api_key_env_var, "CUSTOM_GEMINI");

    let contents = outcome.contents.expect("a migrated configuration is written");
    assert!(contents.contains("api_key_env_var = \"CUSTOM_GEMINI\""));
    assert!(!contents.contains("environment"));
    assert!(!contents.contains("environments"));
}

#[test]
fn saved_config_loads_back_unchanged() {
    for (variable, directory) in [
        ("GEMINI_API_KEY", "/home/someone/.mawaku"),
        ("MY \"KEY\"", "C:\\Users\\someone\\.mawaku"),
        ("K", "relative/dir with spaces"),
        ("\u{e9}t\u{e9}", "/tmp/\u{65e5}\u{672c}"),
    ] {
        let first = config(variable, directory);
        let text = save(&first).expect("configuration can be written");
        let outcome =
            load("/x/config.toml", "/x", Some(&text)).expect("what was saved can be loaded");
        assert!(!outcome.created);
        assert_eq!(outcome.config.gemini_api.api_key_env_var, variable);
        assert_eq!(outcome.config.image_output_dir, directory);
        assert_eq!(outcome.contents, None);
        assert_eq!(outcome.path, "/x/config.toml");
    }
}

#[test]
fn legacy_key_is_dropped_and_default_variable_taken() {
    let outcome = load(
        "/h/.mawaku/config.toml",
        "/h/.mawaku",
        Some("gemini_api_key = \"x\"\n"),
    )
    .expect("legacy file loads");
    assert_eq!(outcome.config.gemini_api.api_key_env_var, "GEMINI_API_KEY");
    let contents = outcome.contents.expect("the file is written anew");
    assert!(!contents.contains("gemini_api_key"));
    let stored: Value = contents.parse().expect("contents are TOML");
    assert_eq!(
        stored["gemini_api"]["api_key_env_var"].as_str(),
        Some("GEMINI_API_KEY")
    );
    assert_eq!(stored["image_output_dir"].as_str(), Some("/h/.mawaku"));
    assert_eq!(stored.as_table().map(|table| table.len()), Some(2));
}

#[test]
fn fresh_configuration_is_written_in_full() {
    let outcome = load("/h/.mawaku/config.toml", "/h/.mawaku", None).expect("fresh file");
    assert!(outcome.created);
    assert_eq!(outcome.path, "/h/.mawaku/config.toml");
    assert_eq!(outcome.config.image_output_dir, "/h/.mawaku");
    assert_eq!(
        outcome.contents.as_deref(),
        Some("image_output_dir = \"/h/.mawaku\"\n\n[gemini_api]\napi_key_env_var = \"GEMINI_API_KEY\"\n")
    );
}

#[test]
fn up_to_date_file_is_left_alone() {
    let stored = "image_output_dir = \"/pictures\"\nunknown = 3\n\n[gemini_api]\napi_key_env_var = \"OTHER\"\nextra = true\n";
    let outcome = load("/h/config.toml", "/h", Some(stored)).expect("file loads");
    assert!(!outcome.created);
    assert_eq!(outcome.contents, None);
    assert_eq!(outcome.config.gemini_api.api_key_env_var, "OTHER");
    assert_eq!(outcome.config.image_output_dir, "/pictures");
}

#[test]
fn missing_table_gives_the_default_variable_and_is_written() {
    let outcome = load(
        "/h/.mawaku/config.toml",
        "/h/.mawaku",
        Some("image_output_dir = \"/data/out\"\n"),
    )
    .expect("file loads");
    assert!(!outcome.created);
    assert_eq!(outcome.config.gemini_api.api_key_env_var, "GEMINI_API_KEY");
    assert_eq!(outcome.config.image_output_dir, "/data/out");
    let contents = outcome.contents.expect("the file is written anew");
    let stored: Value = contents.parse().expect("contents are TOML");
    assert_eq!(
        stored["gemini_api"]["api_key_env_var"].as_str(),
        Some("GEMINI_API_KEY")
    );
    assert_eq!(stored["image_output_dir"].as_str(), Some("/data/out"));

    let again = load("/h/.mawaku/config.toml", "/h/.mawaku", Some(&contents))
        .expect("what was written loads");
    assert_eq!(again.contents, None);
    assert_eq!(again.config.gemini_api.api_key_env_var, "GEMINI_API_KEY");
    assert_eq!(again.config.image_output_dir, "/data/out");
}

#[test]
fn configuration_file_lies_in_the_configuration_directory() {
    let directory = mawaku::config::config_directory_below(Some("/home/someone".to_string()))
        .expect("a home directory was found");
    assert_eq!(directory, "/home/someone/.mawaku");
    assert_eq!(
        mawaku::config::config_directory_below(Some("/home/someone/".to_string())).ok(),
        Some("/home/someone/.mawaku".to_string())
    );
    assert_eq!(
        mawaku::config::config_directory_below(Some("".to_string())).ok(),
        Some(".mawaku".to_string())
    );
    assert!(matches!(
        mawaku::config::config_directory_below(None),
        Err(ConfigError::ConfigDirUnavailable)
    ));
    assert_eq!(
        mawaku::config::config_file_in(&directory),
        "/home/someone/.mawaku/config.toml"
    );
    if let Ok(path) = mawaku::config::config_file_path() {
        assert!(path.ends_with("config.toml"));
        assert!(path[..path.len() - "config.toml".len()]
            .trim_end_matches(['/', '\\'])
            .ends_with(".mawaku"));
    }
    let fallback = Config::default().image_output_dir;
    assert!(fallback == "." || fallback.ends_with(".mawaku"));
}

#[test]
fn image_directory_is_filled_in_where_it_is_unusable() {
    for stored in [
        "[gemini_api]\napi_key_env_var = \"K\"\n",
        "image_output_dir = \"\"\n[gemini_api]\napi_key_env_var = \"K\"\n",
        "image_output_dir = \"  \"\n[gemini_api]\napi_key_env_var = \"K\"\n",
        "image_output_dir = 7\n[gemini_api]\napi_key_env_var = \"K\"\n",
    ] {
        let outcome = load("/h/config.toml", "/h", Some(stored)).expect("file loads");
        assert_eq!(outcome.config.image_output_dir, "/h");
        assert_eq!(outcome.config.gemini_api.api_key_env_var, "K");
        let contents = outcome.contents.expect("the file is written anew");
        assert!(contents.contains("image_output_dir = \"/h\""));
    }
}

#[test]
fn mapping_is_used_only_without_a_stored_variable() {
    let stored = "image_output_dir = \"/p\"\n[gemini_api]\napi_key_env_var = \"KEPT\"\nenvironment = \"a\"\n[gemini_api.environments]\na = \"MAPPED\"\n";
    let outcome = load("/h/config.toml", "/h", Some(stored)).expect("file loads");
    assert_eq!(outcome.config.gemini_api.api_key_env_var, "KEPT");
    assert!(outcome.contents.is_some());

    let stored = "image_output_dir = \"/p\"\n[gemini_api]\nenvironment = \"b\"\n[gemini_api.environments]\na = \"MAPPED\"\n";
    let outcome = load("/h/config.toml", "/h", Some(stored)).expect("file loads");
    assert_eq!(outcome.config.gemini_api.api_key_env_var, "GEMINI_API_KEY");

    let stored = "image_output_dir = \"/p\"\n[gemini_api]\nenvironment = 1\n";
    let outcome = load("/h/config.toml", "/h", Some(stored)).expect("file loads");
    assert_eq!(outcome.config.gemini_api.api_key_env_var, "GEMINI_API_KEY");
    assert!(outcome.contents.is_some());

    let stored = "image_output_dir = \"/p\"\n[gemini_api]\n";
    let outcome = load("/h/config.toml", "/h", Some(stored)).expect("file loads");
    assert_eq!(outcome.config.gemini_api.api_key_env_var, "GEMINI_API_KEY");
    assert!(outcome.contents.is_some());
}

#[test]
fn unreadable_documents_are_deserialize_errors() {
    assert!(matches!(
        load("/h/config.toml", "/h", Some("image_output_dir = ")),
        Err(ConfigError::Deserialize(_))
    ));
    match load("/h/config.toml", "/h", Some("gemini_api = \"x\"\n")) {
        Err(ConfigError::Deserialize(words)) => assert_eq!(words, "invalid type: gemini_api"),
        other => panic!("unexpected outcome {other:?}"),
    }
    match load("/h/config.toml", "/h", Some("[gemini_api]\napi_key_env_var = 3\n")) {
        Err(ConfigError::Deserialize(words)) => assert_eq!(words, "invalid type: api_key_env_var"),
        other => panic!("unexpected outcome {other:?}"),
    }
    match settle(Err("broken".to_string()), "/h") {
        Err(ConfigError::Deserialize(words)) => assert_eq!(words, "broken"),
        other => panic!("unexpected outcome {other:?}"),
    }
    assert!(settle(parse("a = 1"), "/h").is_ok());
}

#[test]
fn blank_variable_falls_back_to_the_default_name() {
    assert_eq!(config("", "/p").gemini_api.api_key_env_var(), "GEMINI_API_KEY");
    assert_eq!(config(" \t", "/p").gemini_api.api_key_env_var(), "GEMINI_API_KEY");
    assert_eq!(config("MINE", "/p").gemini_api.api_key_env_var(), "MINE");
    assert_eq!(config(" MINE ", "/p").gemini_api.api_key_env_var(), " MINE ");
    assert_eq!(GeminiApiConfig::default().api_key_env_var, "GEMINI_API_KEY");
}

#[test]
fn clones_hold_the_same_values() {
    let first = config("A", "/b");
    let copy = first.clone();
    assert_eq!(copy.gemini_api.api_key_env_var, "A");
    assert_eq!(copy.image_output_dir, "/b");
}

#[test]
fn config_errors_say_what_went_wrong() {
    assert_eq!(
        ConfigError::ConfigDirUnavailable.message(),
        "could not determine configuration directory"
    );
    assert_eq!(
        ConfigError::Io("denied".to_string()).message(),
        "failed to read or write configuration file: denied"
    );
    assert_eq!(
        ConfigError::Deserialize("bad".to_string()).message(),
        "failed to deserialize configuration: bad"
    );
    assert_eq!(
        ConfigError::Serialize("worse".to_string()).message(),
        "failed to serialize configuration: worse"
    );
}

#[test]
fn default_prompt_is_one_line() {
    assert!(DEFAULT_PROMPT.starts_with("Photo, hyper-photorealistic, 4K, HDR"));
    assert!(DEFAULT_PROMPT.ends_with("behind someone on a video call."));
    assert!(!DEFAULT_PROMPT.contains('\n'));
    assert!(DEFAULT_PROMPT.contains("real photo. Strictly avoid"));
}

#[test]
fn fresh_configuration_takes_the_directory_of_its_file() {
    for (path, directory) in [
        ("/a/b/config.toml", "/a/b"),
        ("/a/b/", "/a"),
        ("relative/config.toml", "relative"),
        ("config.toml", ""),
        ("/config.toml", "/"),
        ("", "."),
        ("/", "."),
    ] {
        let outcome = load_or_init(path, None).expect("a fresh configuration");
        assert!(outcome.created);
        assert_eq!(outcome.path, path);
        assert_eq!(outcome.config.image_output_dir, directory);
        assert!(directory == "." || (directory.len() < path.len() && path.starts_with(directory)));
    }
}
