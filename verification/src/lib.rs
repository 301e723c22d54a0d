//! Temporarily redirect a project's dependency to a local, editable copy
//! of its source, and undo the redirect later.
//!
//! The core is the manifest patch-and-undo engine: `cmd::Edit` upserts a
//! local-path entry for one dependency in the manifest's patch table, and
//! `cmd::Undo` removes it again, cleaning away tables the removal left
//! empty. Both work on an editable document that keeps the formatting and
//! comments of everything they do not touch, and both carry contracts that
//! pin down, over the document's model, exactly which entries and tables
//! change and that the rest stays as it was. Around them stand the storage
//! locator (`cmd::rhack_dir`), which settles the managed directory for the
//! local copies from its cascading sources, and the plain-value cores of
//! manifest loading and project location. Reading files, running the host
//! build tool, and writing the manifest back belong to the binary around
//! this library, which hands plain values in and takes plain values out.

pub mod cmd;
pub mod error;
pub mod json_doc;
pub mod toml_doc;
