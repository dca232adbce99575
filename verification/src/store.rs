//! The two stores of the server, each a concurrent map keyed by document
//! identifier: one for the text of each open document, one for its tree.

use std::sync::Arc;

use dashmap::DashMap;
use ropey::Rope;
use vstd::prelude::*;

use crate::syntax::{SyntaxTree, SyntaxTreeView};
use crate::text_buffer::rope_text;

verus! {

/// `dashmap::DashMap`, opaque to the verifier.
#[verifier::external_type_specification]
#[verifier::external_body]
#[verifier::reject_recursive_types(K)]
#[verifier::reject_recursive_types(V)]
#[verifier::reject_recursive_types(S)]
pub struct ExDashMap<K, V, S>(DashMap<K, V, S>);

/// The text that a document store holds for each document identifier.
pub uninterp spec fn document_entries(store: DashMap<String, Rope>) -> Map<Seq<char>, Seq<char>>;

/// The tree that a tree store holds for each document identifier.
pub uninterp spec fn tree_entries(store: DashMap<String, Arc<SyntaxTree>>) -> Map<
    Seq<char>,
    SyntaxTreeView,
>;

/// `DashMap::new` makes a map without entries.
#[verifier::external_body]
pub(crate) fn documents_new() -> (store: DashMap<String, Rope>)
    ensures
        document_entries(store).dom() == Set::<Seq<char>>::empty(),
{
    DashMap::new()
}

/// `DashMap::insert` sets the entry of `key` to `value` and leaves every
/// other entry as it was.
#[verifier::external_body]
pub(crate) fn documents_insert(store: &mut DashMap<String, Rope>, key: String, value: Rope)
    ensures
        document_entries(*final(store)) == document_entries(*old(store)).insert(
            key@,
            rope_text(value),
        ),
{
    store.insert(key, value);
}

/// `DashMap::get` finds the entry of `key`, if the map has one. The rope that
/// is handed out shares its text with the one in the map.
#[verifier::external_body]
pub(crate) fn documents_get(store: &DashMap<String, Rope>, key: &str) -> (value: Option<Rope>)
    ensures
        value is Some <==> document_entries(*store).contains_key(key@),
        value matches Some(rope) ==> rope_text(rope) == document_entries(*store)[key@],
{
    store.get(key).as_deref().cloned()
}

/// `DashMap::remove` takes the entry of `key` out of the map, if it has one,
/// and leaves every other entry as it was.
#[verifier::external_body]
pub(crate) fn documents_remove(store: &mut DashMap<String, Rope>, key: &str)
    ensures
        document_entries(*final(store)) == document_entries(*old(store)).remove(key@),
{
    store.remove(key);
}

/// `DashMap::new` makes a map without entries.
#[verifier::external_body]
pub(crate) fn trees_new() -> (store: DashMap<String, Arc<SyntaxTree>>)
    ensures
        tree_entries(store).dom() == Set::<Seq<char>>::empty(),
{
    DashMap::new()
}

/// `DashMap::insert` sets the entry of `key` to `value` and leaves every
/// other entry as it was.
#[verifier::external_body]
pub(crate) fn trees_insert(
    store: &mut DashMap<String, Arc<SyntaxTree>>,
    key: String,
    value: Arc<SyntaxTree>,
)
    ensures
        tree_entries(*final(store)) == tree_entries(*old(store)).insert(key@, value@),
{
    store.insert(key, value);
}

/// `DashMap::get` finds the entry of `key`, if the map has one. The tree that
/// is handed out is the one in the map, shared.
#[verifier::external_body]
pub(crate) fn trees_get(store: &DashMap<String, Arc<SyntaxTree>>, key: &str) -> (value: Option<
    Arc<SyntaxTree>,
>)
    ensures
        value is Some <==> tree_entries(*store).contains_key(key@),
        value matches Some(tree) ==> tree@ == tree_entries(*store)[key@],
{
    store.get(key).as_deref().cloned()
}

/// `DashMap::remove` takes the entry of `key` out of the map, if it has one,
/// and leaves every other entry as it was.
#[verifier::external_body]
pub(crate) fn trees_remove(store: &mut DashMap<String, Arc<SyntaxTree>>, key: &str)
    ensures
        tree_entries(*final(store)) == tree_entries(*old(store)).remove(key@),
{
    store.remove(key);
}

} // verus!
