//! The state of the server: the text and the tree of every open document,
//! replaced together on each change and read together for each hint query.

use std::sync::Arc;

use dashmap::DashMap;
use ropey::Rope;
use vstd::prelude::*;

use crate::error::ServerError;
use crate::hints::{
    extract_binding_sites, hint_views, project_hints, projected_hints, tree_sites, BindingSite,
    Hint, HintView,
};
use crate::store::{
    document_entries, documents_get, documents_insert, documents_new, documents_remove,
    tree_entries, trees_get, trees_insert, trees_new, trees_remove,
};
use crate::syntax::{SyntaxTree, SyntaxTreeView};
use crate::text_buffer::TextBuffer;

verus! {

/// A document as an open or change event delivers it: its identifier, its
/// full text and its version.
#[derive(Clone, Debug, PartialEq, Eq)]
pub struct TextDocumentItem {
    pub uri: String,
    pub text: String,
    pub version: i32,
}

impl TextDocumentItem {
    /// The document of an open event.
    pub fn opened(uri: String, text: String, version: i32) -> (item: TextDocumentItem)
        ensures
            item.uri == uri,
            item.text == text,
            item.version == version,
    {
        TextDocumentItem { uri, text, version }
    }

    /// The document of a change event. The first content change carries the
    /// full text; an event without content changes is malformed.
    pub fn changed(uri: String, version: i32, content_changes: Vec<String>) -> (r: Result<
        TextDocumentItem,
        ServerError,
    >)
        ensures
            match r {
                Ok(item) => {
                    &&& content_changes.len() > 0
                    &&& item.uri == uri
                    &&& item.text@ == content_changes[0]@
                    &&& item.version == version
                },
                Err(e) => content_changes.len() == 0 && e == ServerError::MalformedEvent,
            },
    {
        if content_changes.len() == 0 {
            return Err(ServerError::MalformedEvent);
        }
        let text: String = content_changes[0].clone();
        Ok(TextDocumentItem { uri, text, version })
    }
}

/// The two stores of the server.
pub struct Backend {
    ast_map: DashMap<String, Arc<SyntaxTree>>,
    document_map: DashMap<String, Rope>,
}

/// What the stores hold: for each open document its current text and its
/// current tree.
pub ghost struct BackendView {
    pub documents: Map<Seq<char>, Seq<char>>,
    pub trees: Map<Seq<char>, SyntaxTreeView>,
}

impl BackendView {
    /// The stores after document `uri` was opened or changed with full text
    /// `text`, parsed as `tree`.
    pub open spec fn after_change(
        self,
        uri: Seq<char>,
        text: Seq<char>,
        tree: SyntaxTreeView,
    ) -> BackendView {
        BackendView {
            documents: self.documents.insert(uri, text),
            trees: self.trees.insert(uri, tree),
        }
    }

    /// The stores after document `uri` was closed.
    pub open spec fn after_close(self, uri: Seq<char>) -> BackendView {
        BackendView { documents: self.documents.remove(uri), trees: self.trees.remove(uri) }
    }

    /// The binding sites of the current tree of document `uri`.
    pub open spec fn binding_sites(self, uri: Seq<char>) -> Option<Seq<BindingSite>> {
        if self.trees.contains_key(uri) {
            Some(tree_sites(self.trees[uri].functions))
        } else {
            None
        }
    }

    /// The hints of document `uri`: the binding sites of its current tree,
    /// projected onto its current text. None where either is missing.
    pub open spec fn hints(self, uri: Seq<char>) -> Option<Seq<HintView>> {
        if self.trees.contains_key(uri) && self.documents.contains_key(uri) {
            Some(projected_hints(self.documents[uri], uri, tree_sites(self.trees[uri].functions)))
        } else {
            None
        }
    }
}

impl View for Backend {
    type V = BackendView;

    closed spec fn view(&self) -> BackendView {
        BackendView {
            documents: document_entries(self.document_map),
            trees: tree_entries(self.ast_map),
        }
    }
}

impl Backend {
    /// A server without open documents.
    pub fn new() -> (backend: Backend)
        ensures
            backend@.documents == Map::<Seq<char>, Seq<char>>::empty(),
            backend@.trees == Map::<Seq<char>, SyntaxTreeView>::empty(),
    {
        let backend = Backend { ast_map: trees_new(), document_map: documents_new() };
        assert(backend@.documents =~= Map::<Seq<char>, Seq<char>>::empty());
        assert(backend@.trees =~= Map::<Seq<char>, SyntaxTreeView>::empty());
        backend
    }

    /// Replaces the text and the tree of a document, for an open or a change
    /// event alike: first the text buffer built from the full text, then the
    /// tree that the parser made of that text. Whatever tree the parser
    /// returned is stored, also a partial one.
    pub fn on_change(&mut self, params: TextDocumentItem, tree: SyntaxTree)
        ensures
            final(self)@ == old(self)@.after_change(params.uri@, params.text@, tree@),
    {
        let buffer = TextBuffer::from_str(params.text.as_str());
        documents_insert(&mut self.document_map, params.uri.clone(), buffer.into_rope());
        trees_insert(&mut self.ast_map, params.uri, Arc::new(tree));
    }

    /// Forgets a document that was closed.
    pub fn did_close(&mut self, uri: &str)
        ensures
            final(self)@ == old(self)@.after_close(uri@),
    {
        documents_remove(&mut self.document_map, uri);
        trees_remove(&mut self.ast_map, uri);
    }

    /// The current text of document `uri`.
    pub fn text_buffer(&self, uri: &str) -> (r: Result<TextBuffer, ServerError>)
        ensures
            match r {
                Ok(buffer) => self@.documents.contains_key(uri@) && buffer@
                    == self@.documents[uri@],
                Err(e) => !self@.documents.contains_key(uri@) && e == ServerError::NotFound,
            },
    {
        match documents_get(&self.document_map, uri) {
            Some(rope) => Ok(TextBuffer::from_rope(rope)),
            None => Err(ServerError::NotFound),
        }
    }

    /// The current tree of document `uri`, with the diagnostics of the parse
    /// that made it.
    pub fn syntax_tree(&self, uri: &str) -> (r: Result<Arc<SyntaxTree>, ServerError>)
        ensures
            match r {
                Ok(tree) => self@.trees.contains_key(uri@) && tree@ == self@.trees[uri@],
                Err(e) => !self@.trees.contains_key(uri@) && e == ServerError::NotFound,
            },
    {
        match trees_get(&self.ast_map, uri) {
            Some(tree) => Ok(tree),
            None => Err(ServerError::NotFound),
        }
    }

    /// The binding sites of the current tree of document `uri`.
    pub fn binding_sites(&self, uri: &str) -> (r: Result<Vec<BindingSite>, ServerError>)
        ensures
            match r {
                Ok(sites) => self@.binding_sites(uri@) == Some(sites@),
                Err(e) => self@.binding_sites(uri@) is None && e == ServerError::NotFound,
            },
    {
        match self.syntax_tree(uri) {
            Ok(tree) => Ok(extract_binding_sites(&tree)),
            Err(e) => Err(e),
        }
    }

    /// The hints of `sites` against the current text of document `uri`.
    pub fn project(&self, uri: &str, sites: &Vec<BindingSite>) -> (r: Result<
        Vec<Hint>,
        ServerError,
    >)
        ensures
            match r {
                Ok(hints) => self@.documents.contains_key(uri@) && hint_views(hints@)
                    == projected_hints(self@.documents[uri@], uri@, sites@),
                Err(e) => !self@.documents.contains_key(uri@) && e == ServerError::NotFound,
            },
    {
        match self.text_buffer(uri) {
            Ok(buffer) => Ok(project_hints(sites, &buffer, uri)),
            Err(e) => Err(e),
        }
    }

    /// The inlay hints of document `uri`, or `None` where the document is not
    /// open.
    pub fn inlay_hint(&self, uri: &str) -> (r: Option<Vec<Hint>>)
        ensures
            match r {
                Some(hints) => self@.hints(uri@) == Some(hint_views(hints@)),
                None => self@.hints(uri@) is None,
            },
    {
        let sites: Vec<BindingSite> = match self.binding_sites(uri) {
            Ok(sites) => sites,
            Err(_) => {
                return None;
            },
        };
        match self.project(uri, &sites) {
            Ok(hints) => Some(hints),
            Err(_) => None,
        }
    }
}

/// Replacing a document by the same text and tree changes nothing: the
/// stores, and with them the tree of the document, are as after the first
/// replacement.
pub proof fn lemma_replace_idempotent(
    state: BackendView,
    uri: Seq<char>,
    text: Seq<char>,
    tree: SyntaxTreeView,
)
    ensures
        state.after_change(uri, text, tree).after_change(uri, text, tree) == state.after_change(
            uri,
            text,
            tree,
        ),
        state.after_change(uri, text, tree).trees[uri] == tree,
        state.after_change(uri, text, tree).documents[uri] == text,
{
    let once = state.after_change(uri, text, tree);
    let twice = once.after_change(uri, text, tree);
    assert(twice.documents =~= once.documents);
    assert(twice.trees =~= once.trees);
}

/// A document that is not in the stores has no hints: neither one that was
/// never opened, nor one that was closed.
pub proof fn lemma_hints_of_missing_document(state: BackendView, uri: Seq<char>)
    ensures
        !state.trees.contains_key(uri) ==> state.hints(uri) is None,
        !state.documents.contains_key(uri) ==> state.hints(uri) is None,
        state.after_close(uri).hints(uri) is None,
{
}

/// A change to one document leaves the hints of every other document as they
/// were.
pub proof fn lemma_change_is_local(
    state: BackendView,
    uri: Seq<char>,
    text: Seq<char>,
    tree: SyntaxTreeView,
    other: Seq<char>,
)
    requires
        other != uri,
    ensures
        state.after_change(uri, text, tree).hints(other) == state.hints(other),
{
}

} // verus!
