use cargo_rhack::cmd::{
    config_rhack_dir, config_rhack_dir_from, load_manifest, load_path_from_config, resolve,
    rhack_dir,
};
use cargo_rhack::error::RhackError;

fn config_text(path: &str) -> String {
    format!("[env]\nRHACK_DIR = \"{path}\"\n")
}

#[test]
fn local_file_test() {
    let local = config_text("./.rhack");
    let result = load_path_from_config(Some(&local), None).expect("local_file_test");
    assert_eq!(result, "./.rhack");
}

#[test]
fn global_file_test() {
    let global = config_text("/tmp/rhack_tests/global");
    let result = load_path_from_config(None, Some(&global)).expect("global_file_test");
    assert_eq!(result, "/tmp/rhack_tests/global");
}

#[test]
fn rhack_env_override_test() {
    let global = config_text("/tmp/rhack_tests/from_config");
    let modified = "/tmp/rhack_tests/modified";
    let result = rhack_dir(
        Some(modified.to_string()),
        None,
        Some(&global),
        Some("/home/u".to_string()),
    )
    .expect("rhack_env_dir_test");
    assert_eq!(result, modified);
    assert_ne!(
        result,
        load_path_from_config(None, Some(&global)).expect("rhack_env_dir_test")
    );
}

#[test]
fn local_config_beats_global_config() {
    let local = config_text("/local");
    let global = config_text("/global");
    let result = load_path_from_config(Some(&local), Some(&global)).unwrap();
    assert_eq!(result, "/local");
}

#[test]
fn empty_config_value_is_passed_over() {
    let local = config_text("");
    let global = config_text("/global");
    assert_eq!(config_rhack_dir(&local), None);
    let result = load_path_from_config(Some(&local), Some(&global)).unwrap();
    assert_eq!(result, "/global");
}

#[test]
fn missing_key_is_passed_over() {
    assert_eq!(config_rhack_dir("[env]\nOTHER = \"/x\"\n"), None);
    assert_eq!(config_rhack_dir("[build]\njobs = 4\n"), None);
}

#[test]
fn unparseable_config_is_passed_over() {
    assert_eq!(config_rhack_dir("= not toml"), None);
}

#[test]
fn config_value_is_read_verbatim() {
    let doc = load_manifest("[env]\nRHACK_DIR = \"/v\"\nPATH = \"x\"\n").unwrap();
    assert_eq!(config_rhack_dir_from(&doc), Some("/v".to_string()));
    let doc = load_manifest("[env]\nRHACK_DIR = \"\"\n").unwrap();
    assert_eq!(config_rhack_dir_from(&doc), None);
}

#[test]
fn non_string_value_is_passed_over() {
    assert_eq!(config_rhack_dir("[env]\nRHACK_DIR = 7\n"), None);
}

#[test]
fn home_fallback_gives_default_dir() {
    let result = rhack_dir(None, None, None, Some("/home/u".to_string())).unwrap();
    assert_eq!(result, "/home/u/.rhack");
}

#[test]
fn no_source_at_all_fails() {
    let result = rhack_dir(None, None, None, None);
    assert_eq!(result, Err(RhackError::ConfigResolution));
}

#[test]
fn resolve_prefers_override_then_config_then_home() {
    assert_eq!(
        resolve(
            Some("/o".to_string()),
            Some("/c".to_string()),
            Some("/h".to_string())
        ),
        Ok("/o".to_string())
    );
    assert_eq!(
        resolve(None, Some("/c".to_string()), Some("/h".to_string())),
        Ok("/c".to_string())
    );
    assert_eq!(
        resolve(None, Some(String::new()), Some("/h".to_string())),
        Ok("/h/.rhack".to_string())
    );
    assert_eq!(resolve(None, None, None), Err(RhackError::ConfigResolution));
}
