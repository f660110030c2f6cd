//! A loaded document.

use crate::definitions::DefinitionsCache;
use crate::error::Error;
use crate::global_settings::GlobalSettings;
use crate::tree::Tree;
use vstd::prelude::*;

verus! {

/// A document: its node tree and the cache of default property templates
/// that was built from it.
#[derive(Debug)]
pub struct Document {
    tree: Tree,
    definitions_cache: DefinitionsCache,
}

impl Document {
    /// The node tree.
    pub closed spec fn spec_tree(&self) -> Tree {
        self.tree
    }

    /// The cache of default property templates.
    pub closed spec fn spec_definitions_cache(&self) -> DefinitionsCache {
        self.definitions_cache
    }

    /// Whether the document is well formed: its tree and its cache are.
    pub open spec fn wf(&self) -> bool {
        self.spec_tree().wf() && self.spec_definitions_cache().wf()
    }

    /// Creates a document from its tree and its cache.
    pub fn new(tree: Tree, definitions_cache: DefinitionsCache) -> (r: Document)
        ensures
            r.spec_tree() == tree,
            r.spec_definitions_cache() == definitions_cache,
    {
        Document { tree, definitions_cache }
    }

    /// Returns the node tree.
    pub fn tree(&self) -> (r: &Tree)
        ensures
            *r == self.spec_tree(),
    {
        &self.tree
    }

    /// Returns the cache of default property templates.
    pub fn definitions_cache(&self) -> (r: &DefinitionsCache)
        ensures
            *r == self.spec_definitions_cache(),
    {
        &self.definitions_cache
    }

    /// Returns the document-wide settings.
    ///
    /// Fails with `NodeNotFound` exactly when the root has no child named
    /// `GlobalSettings`.
    pub fn global_settings(&self) -> (r: Result<GlobalSettings<'_>, Error>)
        requires
            self.wf(),
        ensures
            GlobalSettings::is_new(*self, r),
    {
        GlobalSettings::new(self)
    }
}

} // verus!
