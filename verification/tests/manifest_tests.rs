use cargo_rhack::cmd::{load_manifest, vendor_path, Cli, Commands, Edit, Undo};
use cargo_rhack::error::RhackError;

const PLAIN: &str = "[package]\nname = \"demo\"\nversion = \"0.1.0\"\n";

#[test]
fn edit_creates_patch_table() {
    let mut doc = load_manifest(PLAIN).unwrap();
    let edit = Edit { name: "foo".to_string() };
    edit.apply_to(&mut doc, "/tmp/rhack").unwrap();
    let text = doc.to_string();
    assert!(text.contains("[patch.crates-io]"), "patch table missing: {text}");
    assert!(
        text.contains("foo = { path = \"/tmp/rhack/foo\" }"),
        "path entry missing: {text}"
    );
}

#[test]
fn edit_is_idempotent() {
    let mut doc = load_manifest(PLAIN).unwrap();
    let edit = Edit { name: "foo".to_string() };
    edit.apply_to(&mut doc, "/tmp/rhack").unwrap();
    let once = doc.to_string();
    edit.apply_to(&mut doc, "/tmp/rhack").unwrap();
    let twice = doc.to_string();
    assert_eq!(once, twice);
}

#[test]
fn edit_then_undo_round_trips() {
    let mut doc = load_manifest(PLAIN).unwrap();
    let edit = Edit { name: "foo".to_string() };
    edit.apply_to(&mut doc, "/tmp/rhack").unwrap();
    let undo = Undo { name: "foo".to_string() };
    undo.apply_to(&mut doc).unwrap();
    assert_eq!(doc.to_string(), PLAIN);
}

#[test]
fn undo_without_entry_is_nothing_to_undo() {
    let mut doc = load_manifest(PLAIN).unwrap();
    let undo = Undo { name: "foo".to_string() };
    assert_eq!(undo.apply_to(&mut doc), Err(RhackError::NothingToUndo));
    assert_eq!(doc.to_string(), PLAIN);
}

#[test]
fn edit_preserves_comments_and_unrelated_tables() {
    let original = "# project manifest\n[package]\nname = \"demo\" # the name\n\n\
                    [dependencies]\nserde = \"1\"\n";
    let mut doc = load_manifest(original).unwrap();
    let edit = Edit { name: "foo".to_string() };
    edit.apply_to(&mut doc, "/tmp/rhack").unwrap();
    let text = doc.to_string();
    assert!(text.contains("# project manifest\n"));
    assert!(text.contains("name = \"demo\" # the name\n"));
    assert!(text.contains("[dependencies]\nserde = \"1\"\n"));
}

#[test]
fn undo_keeps_other_entries() {
    let mut doc = load_manifest(PLAIN).unwrap();
    Edit { name: "foo".to_string() }.apply_to(&mut doc, "/tmp/rhack").unwrap();
    Edit { name: "bar".to_string() }.apply_to(&mut doc, "/tmp/rhack").unwrap();
    Undo { name: "foo".to_string() }.apply_to(&mut doc).unwrap();
    let text = doc.to_string();
    assert!(text.contains("[patch.crates-io]"));
    assert!(text.contains("bar = { path = \"/tmp/rhack/bar\" }"));
    assert!(!text.contains("foo"));
    Undo { name: "bar".to_string() }.apply_to(&mut doc).unwrap();
    assert_eq!(doc.to_string(), PLAIN);
}

#[test]
fn undo_keeps_other_patch_registries() {
    let original = "[package]\nname = \"demo\"\n\n[patch.other]\nx = { path = \"/z\" }\n";
    let mut doc = load_manifest(original).unwrap();
    Edit { name: "foo".to_string() }.apply_to(&mut doc, "/tmp/rhack").unwrap();
    Undo { name: "foo".to_string() }.apply_to(&mut doc).unwrap();
    assert_eq!(doc.to_string(), original);
}

#[test]
fn placeholder_item_counts_as_absent() {
    let mut doc = load_manifest(PLAIN).unwrap();
    // Indexing without assigning leaves one of toml_edit's placeholder
    // items behind; the engines must treat it like a missing key.
    let _ = &mut doc["patch"];
    assert_eq!(
        Undo { name: "foo".to_string() }.apply_to(&mut doc),
        Err(RhackError::NothingToUndo)
    );
    Edit { name: "foo".to_string() }.apply_to(&mut doc, "/tmp/rhack").unwrap();
    assert!(doc.to_string().contains("foo = { path = \"/tmp/rhack/foo\" }"));
    Undo { name: "foo".to_string() }.apply_to(&mut doc).unwrap();
    assert_eq!(doc.to_string(), PLAIN);
}

#[test]
fn undo_cleans_preexisting_empty_registry_stub() {
    let original = "[package]\nname = \"demo\"\n\n[patch.crates-io]\n";
    let mut doc = load_manifest(original).unwrap();
    Edit { name: "foo".to_string() }.apply_to(&mut doc, "/tmp/rhack").unwrap();
    Undo { name: "foo".to_string() }.apply_to(&mut doc).unwrap();
    let text = doc.to_string();
    assert!(!text.contains("[patch.crates-io]"));
    assert!(text.contains("[package]\nname = \"demo\"\n"));
}

#[test]
fn edit_overwrites_existing_entry() {
    let original = "[patch.crates-io]\nfoo = { path = \"/elsewhere\" }\n";
    let mut doc = load_manifest(original).unwrap();
    Edit { name: "foo".to_string() }.apply_to(&mut doc, "/tmp/rhack").unwrap();
    let text = doc.to_string();
    assert!(text.contains("/tmp/rhack/foo"));
    assert!(!text.contains("/elsewhere"));
}

#[test]
fn edit_rejects_non_table_patch_value() {
    let original = "patch = 3\n";
    let mut doc = load_manifest(original).unwrap();
    let r = Edit { name: "foo".to_string() }.apply_to(&mut doc, "/tmp/rhack");
    assert_eq!(r, Err(RhackError::ManifestParse));
    assert_eq!(doc.to_string(), original);
}

#[test]
fn undo_on_non_table_patch_value_is_nothing_to_undo() {
    let original = "patch = 3\n";
    let mut doc = load_manifest(original).unwrap();
    let r = Undo { name: "foo".to_string() }.apply_to(&mut doc);
    assert_eq!(r, Err(RhackError::NothingToUndo));
    assert_eq!(doc.to_string(), original);
}

#[test]
fn load_manifest_rejects_bad_text() {
    match load_manifest("= nonsense") {
        Err(RhackError::ManifestParse) => {}
        other => panic!("expected a parse failure, got {other:?}"),
    }
}

#[test]
fn vendor_path_joins_dir_and_name() {
    assert_eq!(vendor_path("/tmp/rhack", "foo"), "/tmp/rhack/foo");
}

#[test]
fn cli_dispatches_to_edit_and_undo() {
    let original = PLAIN;
    let mut doc = load_manifest(original).unwrap();
    let cli = Cli {
        cargo: "rhack".to_string(),
        command: Commands::Edit(Edit { name: "foo".to_string() }),
    };
    cli.apply_to(&mut doc, "/tmp/rhack").unwrap();
    assert!(doc.to_string().contains("foo = { path = \"/tmp/rhack/foo\" }"));
    let cli = Cli {
        cargo: "rhack".to_string(),
        command: Commands::Undo(Undo { name: "foo".to_string() }),
    };
    cli.apply_to(&mut doc, "/tmp/rhack").unwrap();
    assert_eq!(doc.to_string(), original);
}
