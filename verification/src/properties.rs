//! Properties of an object, with fallback to the defaults of its class.

use crate::document::Document;
use crate::error::{result_view, Error, ErrorView};
use crate::loaders::{LoadProperty, TypeMismatch};
use crate::property::PropertyValue;
use crate::tree::{NodeId, Tree};
use vstd::prelude::*;

verus! {

/// A handle of a node that holds property entries.
#[derive(Clone, Copy, Debug, PartialEq, Eq, Hash, Structural)]
pub struct PropertiesNodeId(pub NodeId);

impl PropertiesNodeId {
    /// Creates the handle of a node that holds property entries.
    pub fn new(node: NodeId) -> (r: PropertiesNodeId)
        ensures
            r == PropertiesNodeId(node),
    {
        PropertiesNodeId(node)
    }

    /// Returns the handle of the node in its tree.
    pub fn node_id(self) -> (r: NodeId)
        ensures
            r == self.0,
    {
        self.0
    }
}

/// The value that one scope holds for a key. An absent scope holds nothing.
pub open spec fn scope_lookup(tree: Tree, scope: Option<PropertiesNodeId>, key: Seq<char>) -> Option<
    PropertyValue,
> {
    match scope {
        Some(id) => tree.spec_property(id.0, key),
        None => None,
    }
}

/// The value a key resolves to: the one of the direct scope if that scope
/// holds the key, else the one of the default scope.
pub open spec fn resolve(
    tree: Tree,
    direct: Option<PropertiesNodeId>,
    default: Option<PropertiesNodeId>,
    key: Seq<char>,
) -> Option<PropertyValue> {
    match scope_lookup(tree, direct, key) {
        Some(v) => Some(v),
        None => scope_lookup(tree, default, key),
    }
}

/// What loading a resolved value gives: `PropertyNotFound` if the key did not
/// resolve, `PropertyTypeMismatch` if the loader rejected the value, else the
/// loaded value.
pub open spec fn load_resolved<L: LoadProperty>(
    resolved: Option<PropertyValue>,
    key: Seq<char>,
    loader: L,
) -> Result<L::Value, ErrorView> {
    match resolved {
        None => Err(ErrorView::PropertyNotFound { key }),
        Some(v) => match loader.spec_load(v) {
            Ok(x) => Ok(x),
            Err(m) => Err(
                ErrorView::PropertyTypeMismatch { key, expected: m.expected, found: m.found },
            ),
        },
    }
}

/// The properties of one object: the values the object itself overrides and,
/// behind them, the default values of its class.
#[derive(Clone, Copy, Debug)]
pub struct ObjectProperties<'a> {
    direct: Option<PropertiesNodeId>,
    default: Option<PropertiesNodeId>,
    doc: &'a Document,
}

impl<'a> ObjectProperties<'a> {
    /// The node that holds the object's own values.
    pub closed spec fn spec_direct(self) -> Option<PropertiesNodeId> {
        self.direct
    }

    /// The node that holds the default values of the object's class.
    pub closed spec fn spec_default(self) -> Option<PropertiesNodeId> {
        self.default
    }

    /// The document the nodes belong to.
    pub closed spec fn spec_document(self) -> Document {
        *self.doc
    }

    /// The value that `get` finds for a key.
    pub open spec fn spec_get(self, key: Seq<char>) -> Option<PropertyValue> {
        resolve(self.spec_document().spec_tree(), self.spec_direct(), self.spec_default(), key)
    }

    /// What `value` returns for a key and a loader.
    pub open spec fn spec_value<L: LoadProperty>(self, key: Seq<char>, loader: L) -> Result<
        L::Value,
        ErrorView,
    > {
        load_resolved(self.spec_get(key), key, loader)
    }

    /// Whether `r` is what `get` returns for a key: the value the key resolves
    /// to, or `None` if it resolves to none.
    pub open spec fn is_get(self, key: Seq<char>, r: Option<&PropertyValue>) -> bool {
        match r {
            Some(v) => self.spec_get(key) == Some(*v),
            None => self.spec_get(key).is_none(),
        }
    }

    /// Creates the properties of an object from the node that holds its own
    /// values and the node that holds the defaults of its class.
    pub fn new(
        direct: Option<PropertiesNodeId>,
        default: Option<PropertiesNodeId>,
        doc: &'a Document,
    ) -> (r: ObjectProperties<'a>)
        ensures
            r.spec_direct() == direct,
            r.spec_default() == default,
            r.spec_document() == *doc,
    {
        ObjectProperties { direct, default, doc }
    }

    /// Returns the node that holds the object's own values.
    pub fn direct(&self) -> (r: Option<PropertiesNodeId>)
        ensures
            r == self.spec_direct(),
    {
        self.direct
    }

    /// Returns the node that holds the default values of the object's class.
    pub fn default(&self) -> (r: Option<PropertiesNodeId>)
        ensures
            r == self.spec_default(),
    {
        self.default
    }

    /// Returns the value of a property.
    ///
    /// The object's own value wins; the default of its class is used only when
    /// the object has no value of its own for the key.
    pub fn get(&self, key: &str) -> (r: Option<&'a PropertyValue>)
        ensures
            self.is_get(key@, r),
    {
        let tree = self.doc.tree();
        if let Some(id) = self.direct {
            if let Some(v) = tree.property(id.node_id(), key) {
                return Some(v);
            }
        }
        match self.default {
            Some(id) => tree.property(id.node_id(), key),
            None => None,
        }
    }

    /// Returns the value of a property, decoded by the given loader.
    ///
    /// Fails with `PropertyNotFound` if neither scope holds the key, and with
    /// `PropertyTypeMismatch` if the loader rejects the value that was found.
    pub fn value<L: LoadProperty>(&self, key: &str, loader: L) -> (r: Result<L::Value, Error>)
        ensures
            result_view(r) == self.spec_value(key@, loader),
    {
        match self.get(key) {
            None => Err(Error::PropertyNotFound { key: key.to_owned() }),
            Some(v) => match loader.load(v) {
                Ok(x) => Ok(x),
                Err(TypeMismatch { expected, found }) => Err(
                    Error::PropertyTypeMismatch { key: key.to_owned(), expected, found },
                ),
            },
        }
    }
}

/// The resolution law: a key that the direct scope holds resolves to the
/// value there, whatever the default scope holds; a key that only the default
/// scope holds resolves to the value there; a key that neither holds does not
/// resolve.
pub proof fn lemma_resolve(
    tree: Tree,
    direct: Option<PropertiesNodeId>,
    default: Option<PropertiesNodeId>,
    key: Seq<char>,
)
    ensures
        scope_lookup(tree, direct, key) is Some ==> resolve(tree, direct, default, key)
            == scope_lookup(tree, direct, key),
        scope_lookup(tree, direct, key) is None ==> resolve(tree, direct, default, key)
            == scope_lookup(tree, default, key),
        resolve(tree, direct, default, key) is None <==> scope_lookup(tree, direct, key) is None
            && scope_lookup(tree, default, key) is None,
{
}

/// Looking a key up again in the same properties gives the same again.
pub proof fn lemma_get_is_stable(
    props: ObjectProperties,
    key: Seq<char>,
    first: Option<&PropertyValue>,
    second: Option<&PropertyValue>,
)
    requires
        props.is_get(key, first),
        props.is_get(key, second),
    ensures
        first == second,
{
}

/// Loading a key again from the same properties with the same loader gives
/// the same again: the same value, or an error of the same content.
pub proof fn lemma_value_is_stable<L: LoadProperty>(
    props: ObjectProperties,
    key: Seq<char>,
    loader: L,
    first: Result<L::Value, Error>,
    second: Result<L::Value, Error>,
)
    requires
        result_view(first) == props.spec_value(key, loader),
        result_view(second) == props.spec_value(key, loader),
    ensures
        result_view(first) == result_view(second),
        first is Ok ==> first == second,
{
}

} // verus!
