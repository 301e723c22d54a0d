//! The structured-document operations the engines rely on.
//!
//! A manifest is held as a `toml_edit::DocumentMut`, which preserves the
//! formatting and comments of everything a mutation does not touch. The
//! document is opaque here; what the engines read and write of it is named
//! by the spec functions below:
//!
//! - `nested_entries(d, outer, inner)` — the entries of the table reached
//!   by the top-level key `outer` and then the key `inner` (for a manifest,
//!   `patch` and then `crates-io`), as a map from entry key to the entry's
//!   rendered value; empty when either step is absent or not table-shaped.
//! - `table_keys(d, outer)` — the keys of the table at the top-level key
//!   `outer`; empty when it is absent or not table-shaped.
//! - `top_keys(d)` — the document's top-level keys.
//! - `rest_of(d, outer)` — a stand-in for every part of the document's text
//!   that does not live under the top-level key `outer`; two documents agree
//!   on it exactly when that part of their text is the same.
//! - `tables_ok(d, outer, inner)` — whether the value at `outer`, and the
//!   value at `inner` inside it, are each absent or table-shaped, so that a
//!   path entry can be written under them.
//! - `str_entries(d, outer)` — the string-valued entries of the table at
//!   the top-level key `outer`, as a map from key to string.
//! - `path_spec_of(p)` — the rendered local-path specification that
//!   redirects a dependency to the directory `p`.
//!
//! Throughout, an `Item::None` placeholder — which `toml_edit` leaves
//! behind for a key that was indexed but never assigned, and which its
//! `get`, `iter` and `is_empty` skip — counts as absent: the maps and key
//! sets above never contain one, and the mutating operations below treat
//! one like a missing key.
//!
//! Parsing is deterministic, so what a text parses to is named as well:
//! `toml_parses(text)` says whether it parses, and `toml_str_entries`,
//! `toml_nested_entries`, `toml_table_keys`, `toml_top_keys`,
//! `toml_tables_ok` and `toml_rest` give the corresponding aspect of the
//! parsed document as a function of the text alone.

use vstd::prelude::*;

verus! {

#[verifier::external_type_specification]
#[verifier::external_body]
pub struct ExDocumentMut(toml_edit::DocumentMut);

#[verifier::external_type_specification]
#[verifier::external_body]
pub struct ExTomlError(toml_edit::TomlError);

pub uninterp spec fn nested_entries(
    d: toml_edit::DocumentMut,
    outer: Seq<char>,
    inner: Seq<char>,
) -> Map<Seq<char>, Seq<char>>;

pub uninterp spec fn table_keys(d: toml_edit::DocumentMut, outer: Seq<char>) -> Set<Seq<char>>;

pub uninterp spec fn top_keys(d: toml_edit::DocumentMut) -> Set<Seq<char>>;

pub uninterp spec fn rest_of(d: toml_edit::DocumentMut, outer: Seq<char>) -> Seq<char>;

pub uninterp spec fn tables_ok(d: toml_edit::DocumentMut, outer: Seq<char>, inner: Seq<char>) -> bool;

pub uninterp spec fn str_entries(d: toml_edit::DocumentMut, outer: Seq<char>) -> Map<Seq<char>, Seq<char>>;

pub uninterp spec fn path_spec_of(p: Seq<char>) -> Seq<char>;

pub uninterp spec fn toml_parses(text: Seq<char>) -> bool;

pub uninterp spec fn toml_str_entries(text: Seq<char>, outer: Seq<char>) -> Map<Seq<char>, Seq<char>>;

pub uninterp spec fn toml_nested_entries(
    text: Seq<char>,
    outer: Seq<char>,
    inner: Seq<char>,
) -> Map<Seq<char>, Seq<char>>;

pub uninterp spec fn toml_table_keys(text: Seq<char>, outer: Seq<char>) -> Set<Seq<char>>;

pub uninterp spec fn toml_top_keys(text: Seq<char>) -> Set<Seq<char>>;

pub uninterp spec fn toml_tables_ok(text: Seq<char>, outer: Seq<char>, inner: Seq<char>) -> bool;

pub uninterp spec fn toml_rest(text: Seq<char>, outer: Seq<char>) -> Seq<char>;

/// The empty entry map: what `nested_entries` gives of a table with no
/// entries, or of an absent one.
pub open spec fn no_entries() -> Map<Seq<char>, Seq<char>> {
    Map::empty()
}

/// The shape facts every parsed document has: a table holding entries sits
/// under a key of its outer table, and a table holding keys sits under a
/// top-level key.
pub open spec fn doc_coherent(
    d: toml_edit::DocumentMut,
    outer: Seq<char>,
    inner: Seq<char>,
) -> bool {
    &&& nested_entries(d, outer, inner) =~= no_entries() || table_keys(d, outer).contains(inner)
    &&& table_keys(d, outer) =~= Set::<Seq<char>>::empty() || top_keys(d).contains(outer)
}

/// Every modeled aspect of the document `d` equals the corresponding
/// function of the text it was parsed from.
pub open spec fn doc_models_text(text: Seq<char>, d: toml_edit::DocumentMut) -> bool {
    &&& forall|o: Seq<char>| #[trigger] str_entries(d, o) == toml_str_entries(text, o)
    &&& forall|o: Seq<char>, i: Seq<char>| #[trigger] nested_entries(d, o, i)
        == toml_nested_entries(text, o, i)
    &&& forall|o: Seq<char>| #[trigger] table_keys(d, o) == toml_table_keys(text, o)
    &&& top_keys(d) == toml_top_keys(text)
    &&& forall|o: Seq<char>, i: Seq<char>| #[trigger] tables_ok(d, o, i) == toml_tables_ok(
        text,
        o,
        i,
    )
    &&& forall|o: Seq<char>| #[trigger] rest_of(d, o) == toml_rest(text, o)
    &&& forall|o: Seq<char>, i: Seq<char>| #[trigger] doc_coherent(d, o, i)
}

/// All the aspects of a document that the engines speak of, unchanged
/// between `pre` and `post` for the table path `outer`/`inner`.
pub open spec fn doc_unchanged(
    pre: toml_edit::DocumentMut,
    post: toml_edit::DocumentMut,
    outer: Seq<char>,
    inner: Seq<char>,
) -> bool {
    &&& nested_entries(post, outer, inner) == nested_entries(pre, outer, inner)
    &&& table_keys(post, outer) == table_keys(pre, outer)
    &&& top_keys(post) == top_keys(pre)
    &&& rest_of(post, outer) == rest_of(pre, outer)
    &&& tables_ok(post, outer, inner) == tables_ok(pre, outer, inner)
}

/// Relies on `toml_edit::DocumentMut`'s `FromStr`: parses the text into an
/// editable document whose later serialization round-trips the formatting
/// of everything untouched. Parsing is deterministic, so the outcome and
/// every modeled aspect of the document are functions of the text, named
/// above; a parsed document also has the shape facts of `doc_coherent`.
#[verifier::external_body]
pub(crate) fn parse_toml(text: &str) -> (r: Result<toml_edit::DocumentMut, toml_edit::TomlError>)
    ensures
        r is Ok <==> toml_parses(text@),
        r matches Ok(d) ==> forall|o: Seq<char>| #[trigger] str_entries(d, o)
            == toml_str_entries(text@, o),
        r matches Ok(d) ==> forall|o: Seq<char>, i: Seq<char>| #[trigger] nested_entries(d, o, i)
            == toml_nested_entries(text@, o, i),
        r matches Ok(d) ==> forall|o: Seq<char>| #[trigger] table_keys(d, o) == toml_table_keys(
            text@,
            o,
        ),
        r matches Ok(d) ==> top_keys(d) == toml_top_keys(text@),
        r matches Ok(d) ==> forall|o: Seq<char>, i: Seq<char>| #[trigger] tables_ok(d, o, i)
            == toml_tables_ok(text@, o, i),
        r matches Ok(d) ==> forall|o: Seq<char>| #[trigger] rest_of(d, o) == toml_rest(text@, o),
        r matches Ok(d) ==> forall|o: Seq<char>, i: Seq<char>| #[trigger] doc_coherent(d, o, i),
{
    text.parse::<toml_edit::DocumentMut>()
}

/// Relies on `toml_edit::TableLike::get` and `toml_edit::Item::as_str`:
/// reads the string value bound to `key` in the table at the top-level key
/// `outer`, if there is one.
#[verifier::external_body]
pub(crate) fn table_str_value(doc: &toml_edit::DocumentMut, outer: &str, key: &str) -> (r: Option<
    String,
>)
    ensures
        r is Some <==> str_entries(*doc, outer@).contains_key(key@),
        r is Some ==> r.unwrap()@ == str_entries(*doc, outer@)[key@],
{
    doc.get(outer)
        .and_then(|o| o.as_table_like())
        .and_then(|t| t.get(key))
        .and_then(|i| i.as_str())
        .map(|s| s.to_owned())
}

/// Relies on `toml_edit::Table::entry` with `or_insert`, and on
/// `toml_edit::TableLike::insert`: writes, under `doc[outer][inner]`, the
/// entry `key = { path = path }`, creating the two tables when absent (a
/// leftover placeholder counts as absent and is replaced). The tables
/// created serialize as a `[outer.inner]` section. Returns false, changing
/// nothing, when a value already sits at `outer` or `inner` that is not
/// table-shaped.
#[verifier::external_body]
pub(crate) fn set_path_entry(
    doc: &mut toml_edit::DocumentMut,
    outer: &str,
    inner: &str,
    key: &str,
    path: &str,
) -> (r: bool)
    ensures
        r == tables_ok(*old(doc), outer@, inner@),
        r ==> nested_entries(*final(doc), outer@, inner@) == nested_entries(
            *old(doc),
            outer@,
            inner@,
        ).insert(key@, path_spec_of(path@)),
        r ==> table_keys(*final(doc), outer@) == table_keys(*old(doc), outer@).insert(inner@),
        r ==> top_keys(*final(doc)) == top_keys(*old(doc)).insert(outer@),
        r ==> rest_of(*final(doc), outer@) == rest_of(*old(doc), outer@),
        r ==> tables_ok(*final(doc), outer@, inner@),
        !r ==> doc_unchanged(*old(doc), *final(doc), outer@, inner@),
{
    let outer_item = doc.entry(outer).or_insert(toml_edit::Item::None);
    if outer_item.is_none() {
        let mut fresh = toml_edit::Table::new();
        fresh.set_implicit(true);
        *outer_item = toml_edit::Item::Table(fresh);
    }
    let Some(outer_table) = outer_item.as_table_like_mut() else { return false };
    let inner_item = outer_table.entry(inner).or_insert(toml_edit::Item::None);
    if inner_item.is_none() { *inner_item = toml_edit::table(); }
    let Some(inner_table) = inner_item.as_table_like_mut() else { return false };
    let mut spec = toml_edit::InlineTable::new();
    spec.insert("path", toml_edit::Value::from(path));
    inner_table.insert(key, toml_edit::value(spec));
    true
}

/// Relies on `toml_edit::TableLike::remove`: takes the entry for `key` out
/// of the table at `doc[outer][inner]`, and says whether there was one (a
/// removed placeholder counts as no entry). Nothing changes when the
/// entry, or either table, is absent.
#[verifier::external_body]
pub(crate) fn remove_nested_entry(
    doc: &mut toml_edit::DocumentMut,
    outer: &str,
    inner: &str,
    key: &str,
) -> (r: bool)
    ensures
        r == nested_entries(*old(doc), outer@, inner@).contains_key(key@),
        nested_entries(*final(doc), outer@, inner@) == nested_entries(*old(doc), outer@, inner@).remove(
            key@,
        ),
        table_keys(*final(doc), outer@) == table_keys(*old(doc), outer@),
        top_keys(*final(doc)) == top_keys(*old(doc)),
        rest_of(*final(doc), outer@) == rest_of(*old(doc), outer@),
        tables_ok(*final(doc), outer@, inner@) == tables_ok(*old(doc), outer@, inner@),
{
    doc.get_mut(outer)
        .and_then(|o| o.as_table_like_mut())
        .and_then(|t| t.get_mut(inner))
        .and_then(|i| i.as_table_like_mut())
        .and_then(|t| t.remove(key))
        .is_some_and(|item| !item.is_none())
}

/// Relies on `toml_edit::TableLike::is_empty`: says whether the table at
/// `doc[outer][inner]` has no entries; an absent table counts as empty.
#[verifier::external_body]
pub(crate) fn nested_table_is_empty(doc: &toml_edit::DocumentMut, outer: &str, inner: &str) -> (r:
    bool)
    ensures
        r <==> nested_entries(*doc, outer@, inner@) =~= no_entries(),
{
    doc.get(outer)
        .and_then(|o| o.as_table_like())
        .and_then(|t| t.get(inner))
        .and_then(|i| i.as_table_like())
        .map(|t| t.is_empty())
        .unwrap_or(true)
}

/// Relies on `toml_edit::TableLike::is_empty`: says whether the table at
/// the top-level key `outer` has no entries; an absent table counts as
/// empty.
#[verifier::external_body]
pub(crate) fn top_table_is_empty(doc: &toml_edit::DocumentMut, outer: &str) -> (r: bool)
    ensures
        r <==> table_keys(*doc, outer@) =~= Set::<Seq<char>>::empty(),
{
    doc.get(outer).and_then(|o| o.as_table_like()).map(|t| t.is_empty()).unwrap_or(true)
}

/// Relies on `toml_edit::TableLike::remove`: takes the key `inner` out of
/// the table at the top-level key `outer`, and says whether it was there
/// (a removed placeholder counts as not there). Nothing changes when it,
/// or the outer table, is absent.
#[verifier::external_body]
pub(crate) fn remove_nested_table(doc: &mut toml_edit::DocumentMut, outer: &str, inner: &str) -> (r:
    bool)
    ensures
        r == table_keys(*old(doc), outer@).contains(inner@),
        table_keys(*final(doc), outer@) == table_keys(*old(doc), outer@).remove(inner@),
        nested_entries(*final(doc), outer@, inner@) =~= no_entries(),
        top_keys(*final(doc)) == top_keys(*old(doc)),
        rest_of(*final(doc), outer@) == rest_of(*old(doc), outer@),
        r ==> tables_ok(*final(doc), outer@, inner@),
        !r ==> tables_ok(*final(doc), outer@, inner@) == tables_ok(*old(doc), outer@, inner@),
{
    doc.get_mut(outer)
        .and_then(|o| o.as_table_like_mut())
        .and_then(|t| t.remove(inner))
        .is_some_and(|item| !item.is_none())
}

/// Relies on `toml_edit::Table::remove` through the document's root table:
/// takes the top-level key `outer` out of the document, and says whether
/// it was there (a removed placeholder counts as not there). Nothing
/// changes when it is absent.
#[verifier::external_body]
pub(crate) fn remove_top_table(doc: &mut toml_edit::DocumentMut, outer: &str) -> (r: bool)
    ensures
        r == top_keys(*old(doc)).contains(outer@),
        top_keys(*final(doc)) == top_keys(*old(doc)).remove(outer@),
        table_keys(*final(doc), outer@) =~= Set::<Seq<char>>::empty(),
        forall|inner: Seq<char>|
            nested_entries(*final(doc), outer@, inner) =~= no_entries(),
        rest_of(*final(doc), outer@) == rest_of(*old(doc), outer@),
        forall|inner: Seq<char>| tables_ok(*final(doc), outer@, inner),
{
    doc.remove(outer).is_some_and(|item| !item.is_none())
}

} // verus!
