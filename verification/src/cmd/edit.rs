//! The patch engine: redirect a dependency to its local, writable copy.

use vstd::prelude::*;

use crate::error::RhackError;
use crate::toml_doc::{
    doc_unchanged, nested_entries, path_spec_of, rest_of, set_path_entry, table_keys, tables_ok,
    top_keys,
};

verus! {

/// The name of the manifest table that overrides dependency resolution.
pub open spec fn patch_key() -> Seq<char> {
    "patch"@
}

/// The registry sub-table inside the patch table under which the entries
/// live.
pub open spec fn registry_key() -> Seq<char> {
    "crates-io"@
}

/// The directory that holds the local copy of the dependency `dep` under
/// the managed directory `dir`.
pub open spec fn vendor_path_spec(dir: Seq<char>, dep: Seq<char>) -> Seq<char> {
    dir + "/"@ + dep
}

/// What an edit does to the patch entries `m` of a manifest: the entry for
/// `dep` is set — created or overwritten — to the local-path specification
/// that points into the managed directory `dir`.
pub open spec fn edit_model(
    m: Map<Seq<char>, Seq<char>>,
    dep: Seq<char>,
    dir: Seq<char>,
) -> Map<Seq<char>, Seq<char>> {
    m.insert(dep, path_spec_of(vendor_path_spec(dir, dep)))
}

/// How a manifest document `post` and a result `r` relate to the document
/// `pre` that an edit for the dependency `dep` was applied to, with `dir`
/// the managed directory.
///
/// The edit succeeds exactly when the patch region of `pre` is
/// table-shaped; it then upserts the one entry, creates the two tables
/// when they were absent, and touches nothing else. On failure the
/// document is unchanged.
pub open spec fn edit_transition(
    pre: toml_edit::DocumentMut,
    post: toml_edit::DocumentMut,
    r: Result<(), RhackError>,
    dep: Seq<char>,
    dir: Seq<char>,
) -> bool {
    &&& r is Ok <==> tables_ok(pre, patch_key(), registry_key())
    &&& rest_of(post, patch_key()) == rest_of(pre, patch_key())
    &&& r is Ok ==> nested_entries(post, patch_key(), registry_key()) == edit_model(
        nested_entries(pre, patch_key(), registry_key()),
        dep,
        dir,
    )
    &&& r is Ok ==> table_keys(post, patch_key()) == table_keys(pre, patch_key()).insert(
        registry_key(),
    )
    &&& r is Ok ==> top_keys(post) == top_keys(pre).insert(patch_key())
    &&& r is Ok ==> tables_ok(post, patch_key(), registry_key())
    &&& r is Err ==> r->Err_0 == RhackError::ManifestParse && doc_unchanged(
        pre,
        post,
        patch_key(),
        registry_key(),
    )
}

/// Builds the path of the local copy of `dep` under the managed directory
/// `rhack_dir`.
pub fn vendor_path(rhack_dir: &str, dep: &str) -> (r: String)
    ensures
        r@ == vendor_path_spec(rhack_dir@, dep@),
{
    let mut p = rhack_dir.to_owned();
    p.append("/");
    p.append(dep);
    p
}

/// The edit subcommand: redirect the named dependency to its local copy.
pub struct Edit {
    pub name: String,
}

impl Edit {
    /// Inserts or overwrites the patch entry for this dependency in the
    /// manifest document, pointing it at its local copy under `rhack_dir`.
    /// Re-applying it leaves the same manifest as applying it once.
    pub fn apply_to(&self, doc: &mut toml_edit::DocumentMut, rhack_dir: &str) -> (r: Result<
        (),
        RhackError,
    >)
        ensures
            edit_transition(*old(doc), *final(doc), r, self.name@, rhack_dir@),
    {
        let path = vendor_path(rhack_dir, self.name.as_str());
        if set_path_entry(doc, "patch", "crates-io", self.name.as_str(), path.as_str()) {
            Ok(())
        } else {
            Err(RhackError::ManifestParse)
        }
    }
}

/// Editing for a dependency twice, with the same managed directory, leaves
/// the same patch entries as editing once: the edit is an upsert, not an
/// addition.
pub proof fn lemma_edit_twice_is_once(m: Map<Seq<char>, Seq<char>>, dep: Seq<char>, dir: Seq<char>)
    ensures
        edit_model(edit_model(m, dep, dir), dep, dir) == edit_model(m, dep, dir),
{
    assert(edit_model(edit_model(m, dep, dir), dep, dir) =~= edit_model(m, dep, dir));
}

/// An edit applied a second time, for the same dependency and managed
/// directory, changes nothing more: it succeeds again, and every modeled
/// aspect of the document — the patch entries, the table structure and the
/// untouched rest — is as the first edit left it.
pub proof fn lemma_edit_transition_idempotent(
    d0: toml_edit::DocumentMut,
    d1: toml_edit::DocumentMut,
    d2: toml_edit::DocumentMut,
    r1: Result<(), RhackError>,
    r2: Result<(), RhackError>,
    dep: Seq<char>,
    dir: Seq<char>,
)
    requires
        edit_transition(d0, d1, r1, dep, dir),
        edit_transition(d1, d2, r2, dep, dir),
        r1 is Ok,
    ensures
        r2 is Ok,
        nested_entries(d2, patch_key(), registry_key()) == nested_entries(
            d1,
            patch_key(),
            registry_key(),
        ),
        table_keys(d2, patch_key()) == table_keys(d1, patch_key()),
        top_keys(d2) == top_keys(d1),
        rest_of(d2, patch_key()) == rest_of(d1, patch_key()),
{
    lemma_edit_twice_is_once(nested_entries(d0, patch_key(), registry_key()), dep, dir);
    assert(table_keys(d2, patch_key()) =~= table_keys(d1, patch_key()));
    assert(top_keys(d2) =~= top_keys(d1));
}

} // verus!
