//! The tool's commands and the plain-value core of their plumbing.

mod edit;
mod undo;

use vstd::prelude::*;

pub use edit::{
    edit_model, edit_transition, lemma_edit_transition_idempotent, lemma_edit_twice_is_once,
    patch_key, registry_key, vendor_path, vendor_path_spec, Edit,
};
pub use undo::{
    lemma_edit_then_undo, lemma_round_trip_keeps_existing_tables,
    lemma_round_trip_restores_manifest, lemma_undo_absent, undo_cleanup, undo_model,
    undo_transition, Undo,
};

use crate::error::RhackError;
use crate::json_doc::{json_parses, json_str_field, json_top_strs, parse_json, top_strs};
use crate::toml_doc::{
    doc_models_text, parse_toml, str_entries, table_str_value, toml_parses, toml_str_entries,
};

verus! {

/// Whether a directory value from a config source is usable: present and
/// not the empty string.
pub open spec fn nonempty_value(o: Option<Seq<char>>) -> bool {
    o is Some && o.unwrap().len() > 0
}

/// The directory the locator settles on, highest precedence first: the
/// explicit override; a usable config value; the fixed default under the
/// home directory; none, when even the home directory is unknown.
pub open spec fn resolved_dir(
    override_dir: Option<Seq<char>>,
    config_dir: Option<Seq<char>>,
    home_dir: Option<Seq<char>>,
) -> Option<Seq<char>> {
    if override_dir is Some {
        override_dir
    } else if nonempty_value(config_dir) {
        config_dir
    } else if home_dir is Some {
        Some(home_dir.unwrap() + "/.rhack"@)
    } else {
        None
    }
}

/// The managed-directory value one config text yields: the string under
/// its `env` table's dedicated key, when the text parses and that value is
/// a non-empty string; nothing otherwise.
pub open spec fn config_dir_value(text: Seq<char>) -> Option<Seq<char>> {
    if toml_parses(text) && toml_str_entries(text, "env"@).contains_key("RHACK_DIR"@)
        && toml_str_entries(text, "env"@)["RHACK_DIR"@].len() > 0 {
        Some(toml_str_entries(text, "env"@)["RHACK_DIR"@])
    } else {
        None
    }
}

/// The config value the locator uses: what the project-local text yields
/// when it yields anything, else what the global text yields.
pub open spec fn config_choice(local: Option<Seq<char>>, global: Option<Seq<char>>) -> Option<
    Seq<char>,
> {
    if local is Some && config_dir_value(local.unwrap()) is Some {
        config_dir_value(local.unwrap())
    } else if global is Some {
        config_dir_value(global.unwrap())
    } else {
        None
    }
}

/// Reads the managed-directory path out of one parsed config document: the
/// string under the `env` table's dedicated key, exactly when that key is
/// there, holds a string, and the string is not empty.
pub fn config_rhack_dir_from(config: &toml_edit::DocumentMut) -> (r: Option<String>)
    ensures
        r is Some <==> str_entries(*config, "env"@).contains_key("RHACK_DIR"@) && str_entries(
            *config,
            "env"@,
        )["RHACK_DIR"@].len() > 0,
        r is Some ==> r.unwrap()@ == str_entries(*config, "env"@)["RHACK_DIR"@],
{
    match table_str_value(config, "env", "RHACK_DIR") {
        Some(s) => if s.as_str().is_empty() {
            None
        } else {
            Some(s)
        },
        None => None,
    }
}

/// Reads the managed-directory path named in one config file's `env`
/// table, when the text parses and the key holds a non-empty string; a
/// text that does not parse, lacks the key, or holds an empty value gives
/// nothing.
pub fn config_rhack_dir(config_text: &str) -> (r: Option<String>)
    ensures
        r.deep_view() == config_dir_value(config_text@),
        r is Some ==> r.unwrap()@.len() > 0,
{
    match parse_toml(config_text) {
        Ok(doc) => config_rhack_dir_from(&doc),
        Err(_) => None,
    }
}

/// Gives back the user-chosen managed-directory path named in a config
/// file, trying the project-local config text first and the global one
/// after it. A source that yields nothing usable is passed over, not an
/// error.
pub fn load_path_from_config(local_config: Option<&str>, global_config: Option<&str>) -> (r:
    Option<String>)
    ensures
        r.deep_view() == config_choice(local_config.deep_view(), global_config.deep_view()),
        r is Some ==> r.unwrap()@.len() > 0,
{
    let from_local = match local_config {
        Some(text) => config_rhack_dir(text),
        None => None,
    };
    match from_local {
        Some(p) => Some(p),
        None => match global_config {
            Some(text) => config_rhack_dir(text),
            None => None,
        },
    }
}

/// The final fallback of the locator: the fixed default directory under
/// the user's home directory, when that is known.
fn home_fallback(home_dir: Option<String>) -> (r: Result<String, RhackError>)
    ensures
        match home_dir.deep_view() {
            Some(h) => r is Ok && r->Ok_0@ == h + "/.rhack"@,
            None => r is Err && r->Err_0 == RhackError::ConfigResolution,
        },
{
    match home_dir {
        Some(h) => {
            let mut p = h;
            p.append("/.rhack");
            Ok(p)
        },
        None => Err(RhackError::ConfigResolution),
    }
}

/// Settles the managed directory from the three sources, in their fixed
/// precedence: the override wins outright, a non-empty config value comes
/// next, and the default under the home directory is last.
pub fn resolve(
    override_dir: Option<String>,
    config_dir: Option<String>,
    home_dir: Option<String>,
) -> (r: Result<String, RhackError>)
    ensures
        match resolved_dir(override_dir.deep_view(), config_dir.deep_view(), home_dir.deep_view()) {
            Some(d) => r is Ok && r->Ok_0@ == d,
            None => r is Err && r->Err_0 == RhackError::ConfigResolution,
        },
{
    match override_dir {
        Some(d) => Ok(d),
        None => match config_dir {
            Some(c) => if c.as_str().is_empty() {
                home_fallback(home_dir)
            } else {
                Ok(c)
            },
            None => home_fallback(home_dir),
        },
    }
}

/// Gives back the user-chosen managed directory path. If none was chosen,
/// the default under the home directory is given.
///
/// The inputs are the sources, already read: the dedicated environment
/// variable's value, the two config files' texts (project-local first),
/// and the home directory. The override wins over everything; a config
/// source that does not parse, lacks the key, or holds an empty value is
/// passed over; with no usable source the home default stands, and only a
/// missing home directory fails.
pub fn rhack_dir(
    override_dir: Option<String>,
    local_config: Option<&str>,
    global_config: Option<&str>,
    home_dir: Option<String>,
) -> (r: Result<String, RhackError>)
    ensures
        match resolved_dir(
            override_dir.deep_view(),
            config_choice(local_config.deep_view(), global_config.deep_view()),
            home_dir.deep_view(),
        ) {
            Some(d) => r is Ok && r->Ok_0@ == d,
            None => r is Err && r->Err_0 == RhackError::ConfigResolution,
        },
        override_dir is Some ==> r is Ok && r->Ok_0@ == override_dir.unwrap()@,
        override_dir is Some || home_dir is Some ==> r is Ok,
        r is Err ==> r->Err_0 == RhackError::ConfigResolution && override_dir is None
            && home_dir is None,
{
    let config_dir = load_path_from_config(local_config, global_config);
    resolve(override_dir, config_dir, home_dir)
}

/// Parses manifest text into an editable document whose later
/// serialization keeps the formatting of everything untouched. Reading the
/// file is the caller's part; it succeeds exactly when the text is a valid
/// document, every modeled aspect of which then equals the corresponding
/// function of the text, and a text that is not one is `ManifestParse`.
pub fn load_manifest(manifest_text: &str) -> (r: Result<toml_edit::DocumentMut, RhackError>)
    ensures
        r is Ok <==> toml_parses(manifest_text@),
        r matches Ok(d) ==> doc_models_text(manifest_text@, d),
        r is Err ==> r->Err_0 == RhackError::ManifestParse,
{
    match parse_toml(manifest_text) {
        Ok(doc) => Ok(doc),
        Err(_) => Err(RhackError::ManifestParse),
    }
}

/// Reads the manifest location out of the host build tool's project-locate
/// reply: the string under the reply's `root` member, exactly when the
/// reply has one.
pub fn root_from_json(reply: &serde_json::Value) -> (r: Result<String, RhackError>)
    ensures
        r is Ok <==> top_strs(*reply).contains_key("root"@),
        r is Ok ==> r->Ok_0@ == top_strs(*reply)["root"@],
        r is Err ==> r->Err_0 == RhackError::Subprocess,
{
    match json_str_field(reply, "root") {
        Some(p) => Ok(p),
        None => Err(RhackError::Subprocess),
    }
}

/// Gives back the path to the manifest referred from the working
/// directory, read from the bytes the host build tool's project-locate
/// call printed: the string under the `root` member of its JSON reply,
/// exactly when the bytes are such a reply; anything else is `Subprocess`.
pub fn manifest_path(locate_output: &[u8]) -> (r: Result<String, RhackError>)
    ensures
        r is Ok <==> json_parses(locate_output@) && json_top_strs(locate_output@).contains_key(
            "root"@,
        ),
        r is Ok ==> r->Ok_0@ == json_top_strs(locate_output@)["root"@],
        r is Err ==> r->Err_0 == RhackError::Subprocess,
{
    match parse_json(locate_output) {
        Ok(reply) => root_from_json(&reply),
        Err(_) => Err(RhackError::Subprocess),
    }
}

/// The parsed command line: the `cargo` argument that the host build tool
/// passes to an external subcommand, and the subcommand itself.
pub struct Cli {
    pub cargo: String,
    pub command: Commands,
}

/// The two subcommands of the tool.
pub enum Commands {
    Edit(Edit),
    Undo(Undo),
}

impl Commands {
    /// Applies the subcommand's manifest transaction to the document:
    /// an upsert of the dependency's patch entry for an edit, its removal
    /// with table cleanup for an undo. `rhack_dir` is the managed
    /// directory; an undo does not use it.
    pub fn apply_to(&self, doc: &mut toml_edit::DocumentMut, rhack_dir: &str) -> (r: Result<
        (),
        RhackError,
    >)
        ensures
            match self {
                Commands::Edit(c) => edit_transition(*old(doc), *final(doc), r, c.name@, rhack_dir@),
                Commands::Undo(c) => undo_transition(*old(doc), *final(doc), r, c.name@),
            },
    {
        match self {
            Commands::Edit(c) => c.apply_to(doc, rhack_dir),
            Commands::Undo(c) => c.apply_to(doc),
        }
    }
}

impl Cli {
    /// Applies the parsed command line's subcommand to the document.
    pub fn apply_to(&self, doc: &mut toml_edit::DocumentMut, rhack_dir: &str) -> (r: Result<
        (),
        RhackError,
    >)
        ensures
            match self.command {
                Commands::Edit(c) => edit_transition(*old(doc), *final(doc), r, c.name@, rhack_dir@),
                Commands::Undo(c) => undo_transition(*old(doc), *final(doc), r, c.name@),
            },
    {
        self.command.apply_to(doc, rhack_dir)
    }
}

} // verus!
