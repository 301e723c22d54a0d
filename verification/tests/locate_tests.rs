use cargo_rhack::cmd::manifest_path;
use cargo_rhack::error::RhackError;

#[test]
fn manifest_path_reads_root_field() {
    let reply = br#"{"root":"/work/demo/Cargo.toml"}"#;
    assert_eq!(
        manifest_path(reply),
        Ok("/work/demo/Cargo.toml".to_string())
    );
}

#[test]
fn manifest_path_ignores_other_fields() {
    let reply = br#"{"status":"ok","root":"/a/Cargo.toml"}"#;
    assert_eq!(manifest_path(reply), Ok("/a/Cargo.toml".to_string()));
}

#[test]
fn manifest_path_rejects_non_json_output() {
    assert_eq!(
        manifest_path(b"no manifest found"),
        Err(RhackError::Subprocess)
    );
}

#[test]
fn manifest_path_rejects_reply_without_root() {
    assert_eq!(manifest_path(br#"{"other":"x"}"#), Err(RhackError::Subprocess));
}

#[test]
fn manifest_path_rejects_non_string_root() {
    assert_eq!(manifest_path(br#"{"root":3}"#), Err(RhackError::Subprocess));
}
