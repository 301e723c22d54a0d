//! The undo engine: remove a dependency's redirect and clean up after it.

use vstd::prelude::*;

use crate::cmd::edit::{edit_model, edit_transition, patch_key, registry_key};
use crate::error::RhackError;
use crate::toml_doc::{
    doc_coherent, doc_unchanged, nested_entries, nested_table_is_empty, no_entries,
    remove_nested_entry, remove_nested_table, remove_top_table, rest_of, table_keys, top_keys,
    top_table_is_empty,
};

verus! {

/// What an undo does to the patch entries `m` of a manifest: the entry for
/// `dep` is gone.
pub open spec fn undo_model(m: Map<Seq<char>, Seq<char>>, dep: Seq<char>) -> Map<
    Seq<char>,
    Seq<char>,
> {
    m.remove(dep)
}

/// The table cleanup a successful undo owes: when the removed entry was
/// the last one, the registry sub-table is taken out too, and when that
/// leaves the patch table empty, so is the patch table — no empty stub
/// stays behind. When entries remain, the table structure is untouched.
pub open spec fn undo_cleanup(
    pre: toml_edit::DocumentMut,
    post: toml_edit::DocumentMut,
    dep: Seq<char>,
) -> bool {
    if undo_model(nested_entries(pre, patch_key(), registry_key()), dep) =~= no_entries() {
        &&& table_keys(post, patch_key()) == table_keys(pre, patch_key()).remove(registry_key())
        &&& if table_keys(pre, patch_key()).remove(registry_key()) =~= Set::<Seq<char>>::empty() {
            top_keys(post) == top_keys(pre).remove(patch_key())
        } else {
            top_keys(post) == top_keys(pre)
        }
    } else {
        &&& table_keys(post, patch_key()) == table_keys(pre, patch_key())
        &&& top_keys(post) == top_keys(pre)
    }
}

/// How a manifest document `post` and a result `r` relate to the document
/// `pre` that an undo for the dependency `dep` was applied to.
///
/// The undo succeeds exactly when a patch entry for `dep` is present; it
/// then removes that entry and any table the removal left empty, and
/// touches nothing else. Without such an entry there is nothing to undo
/// and the document is unchanged.
pub open spec fn undo_transition(
    pre: toml_edit::DocumentMut,
    post: toml_edit::DocumentMut,
    r: Result<(), RhackError>,
    dep: Seq<char>,
) -> bool {
    &&& r is Ok <==> nested_entries(pre, patch_key(), registry_key()).contains_key(dep)
    &&& rest_of(post, patch_key()) == rest_of(pre, patch_key())
    &&& nested_entries(post, patch_key(), registry_key()) == undo_model(
        nested_entries(pre, patch_key(), registry_key()),
        dep,
    )
    &&& r is Ok ==> undo_cleanup(pre, post, dep)
    &&& r is Err ==> r->Err_0 == RhackError::NothingToUndo && doc_unchanged(
        pre,
        post,
        patch_key(),
        registry_key(),
    )
}

/// The undo subcommand: remove the named dependency's redirect.
pub struct Undo {
    pub name: String,
}

impl Undo {
    /// Removes the patch entry for this dependency from the manifest
    /// document, and removes the patch tables themselves when the removal
    /// leaves them empty. Reports `NothingToUndo`, changing nothing, when
    /// no entry for the dependency is there.
    pub fn apply_to(&self, doc: &mut toml_edit::DocumentMut) -> (r: Result<(), RhackError>)
        ensures
            undo_transition(*old(doc), *final(doc), r, self.name@),
    {
        if remove_nested_entry(doc, "patch", "crates-io", self.name.as_str()) {
            if nested_table_is_empty(doc, "patch", "crates-io") {
                remove_nested_table(doc, "patch", "crates-io");
                if top_table_is_empty(doc, "patch") {
                    remove_top_table(doc, "patch");
                }
            }
            Ok(())
        } else {
            proof {
                assert(nested_entries(*doc, patch_key(), registry_key()) =~= nested_entries(
                    *old(doc),
                    patch_key(),
                    registry_key(),
                ));
            }
            Err(RhackError::NothingToUndo)
        }
    }
}

/// Editing a dependency that was not patched and then undoing it restores
/// the patch entries the manifest had before the edit: the two engines
/// round-trip.
pub proof fn lemma_edit_then_undo(m: Map<Seq<char>, Seq<char>>, dep: Seq<char>, dir: Seq<char>)
    requires
        !m.contains_key(dep),
    ensures
        undo_model(edit_model(m, dep, dir), dep) == m,
{
    assert(undo_model(edit_model(m, dep, dir), dep) =~= m);
}

/// Editing a dependency into a manifest that had no patch table, then
/// undoing it, restores every modeled aspect of the document: the entries,
/// the table structure, and the untouched rest. A manifest that already
/// carried patch tables keeps its entries and the text outside the patch
/// region; an empty registry stub it already carried is cleaned away, not
/// kept.
pub proof fn lemma_round_trip_restores_manifest(
    d0: toml_edit::DocumentMut,
    d1: toml_edit::DocumentMut,
    d2: toml_edit::DocumentMut,
    r1: Result<(), RhackError>,
    r2: Result<(), RhackError>,
    dep: Seq<char>,
    dir: Seq<char>,
)
    requires
        !top_keys(d0).contains(patch_key()),
        table_keys(d0, patch_key()) =~= Set::<Seq<char>>::empty(),
        nested_entries(d0, patch_key(), registry_key()) =~= no_entries(),
        edit_transition(d0, d1, r1, dep, dir),
        r1 is Ok,
        undo_transition(d1, d2, r2, dep),
    ensures
        r2 is Ok,
        nested_entries(d2, patch_key(), registry_key()) == nested_entries(
            d0,
            patch_key(),
            registry_key(),
        ),
        table_keys(d2, patch_key()) == table_keys(d0, patch_key()),
        top_keys(d2) == top_keys(d0),
        rest_of(d2, patch_key()) == rest_of(d0, patch_key()),
{
    let m0 = nested_entries(d0, patch_key(), registry_key());
    lemma_edit_then_undo(m0, dep, dir);
    assert(undo_model(nested_entries(d1, patch_key(), registry_key()), dep) =~= no_entries());
    assert(table_keys(d1, patch_key()).remove(registry_key()) =~= Set::<Seq<char>>::empty());
    assert(table_keys(d2, patch_key()) =~= table_keys(d0, patch_key()));
    assert(top_keys(d2) =~= top_keys(d0));
}

/// Editing a dependency into a manifest whose registry table already holds
/// other patch entries, and undoing it, restores every modeled aspect of
/// the document as well: the remaining entries keep the tables alive, so
/// no cleanup happens. The shape facts of `doc_coherent`, which every
/// parsed document has, tie the pre-existing entries to their table keys.
pub proof fn lemma_round_trip_keeps_existing_tables(
    d0: toml_edit::DocumentMut,
    d1: toml_edit::DocumentMut,
    d2: toml_edit::DocumentMut,
    r1: Result<(), RhackError>,
    r2: Result<(), RhackError>,
    dep: Seq<char>,
    dir: Seq<char>,
)
    requires
        doc_coherent(d0, patch_key(), registry_key()),
        !nested_entries(d0, patch_key(), registry_key()).contains_key(dep),
        !(nested_entries(d0, patch_key(), registry_key()) =~= no_entries()),
        edit_transition(d0, d1, r1, dep, dir),
        r1 is Ok,
        undo_transition(d1, d2, r2, dep),
    ensures
        r2 is Ok,
        nested_entries(d2, patch_key(), registry_key()) == nested_entries(
            d0,
            patch_key(),
            registry_key(),
        ),
        table_keys(d2, patch_key()) == table_keys(d0, patch_key()),
        top_keys(d2) == top_keys(d0),
        rest_of(d2, patch_key()) == rest_of(d0, patch_key()),
{
    let m0 = nested_entries(d0, patch_key(), registry_key());
    lemma_edit_then_undo(m0, dep, dir);
    assert(!(undo_model(nested_entries(d1, patch_key(), registry_key()), dep) =~= no_entries()));
    assert(table_keys(d0, patch_key()).contains(registry_key()));
    assert(table_keys(d2, patch_key()) =~= table_keys(d0, patch_key()));
    assert(top_keys(d0).contains(patch_key()));
    assert(top_keys(d2) =~= top_keys(d0));
}

/// An undo for a dependency without a patch entry removes nothing: the
/// entries are as they were.
pub proof fn lemma_undo_absent(m: Map<Seq<char>, Seq<char>>, dep: Seq<char>)
    requires
        !m.contains_key(dep),
    ensures
        undo_model(m, dep) == m,
{
    assert(undo_model(m, dep) =~= m);
}

} // verus!
