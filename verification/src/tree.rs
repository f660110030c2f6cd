//! The node tree of a document.

use crate::property::{
    find_entry, find_key, has_key, keys_unique, lemma_find_key, lemma_find_key_is, lookup,
    PropertyEntry, PropertyValue,
};
use crate::search::{first_index, lemma_first_index, lemma_first_index_is, lemma_first_index_none};
use vstd::prelude::*;

verus! {

/// A handle of a node in a tree.
#[derive(Clone, Copy, Debug, PartialEq, Eq, Hash, Structural)]
pub struct NodeId(pub usize);

/// The mathematical content of a node.
pub ghost struct NodeView {
    /// The node's name.
    pub name: Seq<char>,
    /// The node's children, in document order.
    pub children: Seq<NodeId>,
    /// The property entries the node holds.
    pub entries: Seq<PropertyEntry>,
}

#[derive(Debug)]
struct Node {
    name: String,
    children: Vec<NodeId>,
    entries: Vec<PropertyEntry>,
}

impl Node {
    spec fn view(self) -> NodeView {
        NodeView { name: self.name@, children: self.children@, entries: self.entries@ }
    }
}

/// Whether the nodes form a well-formed tree: there is a root, every child
/// handle names a node that comes after its parent, and no node holds two
/// entries with the same key.
pub open spec fn tree_wf(nodes: Seq<NodeView>) -> bool {
    &&& nodes.len() >= 1
    &&& forall|i: int, j: int|
        0 <= i < nodes.len() && 0 <= j < nodes[i].children.len() ==> i < (
        #[trigger] nodes[i].children[j]).0 < nodes.len()
    &&& forall|i: int| 0 <= i < nodes.len() ==> keys_unique((#[trigger] nodes[i]).entries)
}

/// Whether the handle names a node that has the given name.
pub open spec fn is_named(nodes: Seq<NodeView>, node: NodeId, name: Seq<char>) -> bool {
    node.0 < nodes.len() && nodes[node.0 as int].name == name
}

/// The first of `children` whose node is named `name`, if there is one.
pub open spec fn first_named(nodes: Seq<NodeView>, children: Seq<NodeId>, name: Seq<char>) -> Option<
    NodeId,
> {
    match first_index(children, |c: NodeId| is_named(nodes, c, name)) {
        Some(i) => Some(children[i]),
        None => None,
    }
}

/// The nodes after `entry` has been appended to the entries of `node`.
pub open spec fn with_entry(nodes: Seq<NodeView>, node: NodeId, entry: PropertyEntry) -> Seq<
    NodeView,
> {
    nodes.update(
        node.0 as int,
        NodeView { entries: nodes[node.0 as int].entries.push(entry), ..nodes[node.0 as int] },
    )
}

/// The nodes after a new, empty node named `name` has been appended and made
/// the last child of `parent`.
pub open spec fn with_child(nodes: Seq<NodeView>, parent: NodeId, name: Seq<char>) -> Seq<NodeView> {
    nodes.update(
        parent.0 as int,
        NodeView {
            children: nodes[parent.0 as int].children.push(NodeId(nodes.len() as usize)),
            ..nodes[parent.0 as int]
        },
    ).push(NodeView { name, children: Seq::empty(), entries: Seq::empty() })
}

/// A tree of named nodes, each holding property entries.
///
/// The node with handle 0 is the root.
#[derive(Debug)]
pub struct Tree {
    nodes: Vec<Node>,
}

impl View for Tree {
    type V = Seq<NodeView>;

    closed spec fn view(&self) -> Seq<NodeView> {
        self.nodes@.map_values(|n: Node| n.view())
    }
}

impl Tree {
    /// Whether this tree is well formed, as every tree built by `new`,
    /// `add_child` and `add_property` is.
    pub open spec fn wf(&self) -> bool {
        tree_wf(self@)
    }

    /// The child of `parent` that `first_child_by_name` finds for `name`.
    pub open spec fn spec_first_child_by_name(self, parent: NodeId, name: Seq<char>) -> Option<
        NodeId,
    > {
        if parent.0 < self@.len() {
            first_named(self@, self@[parent.0 as int].children, name)
        } else {
            None
        }
    }

    /// The value that `property` finds in `node` for `key`.
    pub open spec fn spec_property(self, node: NodeId, key: Seq<char>) -> Option<PropertyValue> {
        if node.0 < self@.len() {
            lookup(self@[node.0 as int].entries, key)
        } else {
            None
        }
    }

    /// Creates a tree that consists of a root node with the given name.
    pub fn new(root_name: &str) -> (r: Tree)
        ensures
            r@ == seq![
                NodeView { name: root_name@, children: Seq::empty(), entries: Seq::empty() },
            ],
            r.wf(),
    {
        let mut nodes: Vec<Node> = Vec::new();
        nodes.push(Node { name: root_name.to_owned(), children: Vec::new(), entries: Vec::new() });
        let ghost view = nodes@.map_values(|n: Node| n.view());
        assert(view =~= seq![
            NodeView { name: root_name@, children: Seq::empty(), entries: Seq::empty() },
        ]);
        Tree { nodes }
    }

    /// Returns the root node.
    pub fn root(&self) -> (r: NodeId)
        ensures
            r == NodeId(0),
    {
        NodeId(0)
    }

    /// Returns the number of nodes.
    pub fn len(&self) -> (r: usize)
        ensures
            r == self@.len(),
    {
        self.nodes.len()
    }

    /// Returns whether the handle names a node of this tree.
    pub fn contains(&self, node: NodeId) -> (r: bool)
        ensures
            r == (node.0 < self@.len()),
    {
        node.0 < self.nodes.len()
    }

    /// Returns the name of a node, or `None` if the handle names no node.
    pub fn name(&self, node: NodeId) -> (r: Option<&str>)
        ensures
            match r {
                Some(s) => node.0 < self@.len() && s@ == self@[node.0 as int].name,
                None => node.0 >= self@.len(),
            },
    {
        if node.0 < self.nodes.len() {
            Some(self.nodes[node.0].name.as_str())
        } else {
            None
        }
    }

    /// Returns the children of a node in document order, or `None` if the
    /// handle names no node.
    pub fn children(&self, node: NodeId) -> (r: Option<&[NodeId]>)
        ensures
            match r {
                Some(s) => node.0 < self@.len() && s@ == self@[node.0 as int].children,
                None => node.0 >= self@.len(),
            },
    {
        if node.0 < self.nodes.len() {
            Some(self.nodes[node.0].children.as_slice())
        } else {
            None
        }
    }

    /// Returns the first child of `parent` that is named `name`.
    ///
    /// Returns `None` if there is no such child or if `parent` names no node.
    pub fn first_child_by_name(&self, parent: NodeId, name: &str) -> (r: Option<NodeId>)
        requires
            self.wf(),
        ensures
            r == self.spec_first_child_by_name(parent, name@),
            r matches Some(c) ==> c.0 < self@.len() && self@[c.0 as int].name == name@,
    {
        if parent.0 >= self.nodes.len() {
            return None;
        }
        let wanted = name.to_owned();
        let children = &self.nodes[parent.0].children;
        let ghost matches = |c: NodeId| is_named(self@, c, name@);
        let mut i: usize = 0;
        while i < children.len()
            invariant
                i <= children.len(),
                wanted@ == name@,
                parent.0 < self.nodes.len(),
                children@ == self@[parent.0 as int].children,
                tree_wf(self@),
                self@.len() == self.nodes.len(),
                matches == |c: NodeId| is_named(self@, c, name@),
                forall|j: int| 0 <= j < i ==> !matches(#[trigger] children@[j]),
            decreases children.len() - i,
        {
            let child = children[i];
            assert(self@[parent.0 as int].children[i as int].0 < self@.len());
            if self.nodes[child.0].name == wanted {
                proof {
                    lemma_first_index_is(children@, matches, i as int);
                }
                return Some(child);
            }
            i += 1;
        }
        proof {
            lemma_first_index_none(children@, matches);
        }
        None
    }

    /// Returns the value stored in `node` against `key`.
    ///
    /// Returns `None` if the node holds no such key or if `node` names no node.
    pub fn property(&self, node: NodeId, key: &str) -> (r: Option<&PropertyValue>)
        ensures
            match r {
                Some(v) => self.spec_property(node, key@) == Some(*v),
                None => self.spec_property(node, key@).is_none(),
            },
    {
        if node.0 >= self.nodes.len() {
            return None;
        }
        let entries = &self.nodes[node.0].entries;
        match find_entry(entries, key) {
            Some(i) => Some(&entries[i].value),
            None => None,
        }
    }

    /// Appends a new node named `name` to the children of `parent` and returns
    /// its handle.
    ///
    /// Returns `None`, and changes nothing, if `parent` names no node.
    pub fn add_child(&mut self, parent: NodeId, name: &str) -> (r: Option<NodeId>)
        requires
            old(self).wf(),
        ensures
            final(self).wf(),
            match r {
                Some(id) => {
                    &&& parent.0 < old(self)@.len()
                    &&& id.0 == old(self)@.len()
                    &&& final(self)@ == with_child(old(self)@, parent, name@)
                },
                None => parent.0 >= old(self)@.len() && final(self)@ == old(self)@,
            },
    {
        if parent.0 >= self.nodes.len() {
            return None;
        }
        let id = NodeId(self.nodes.len());
        let ghost before = self@;
        self.nodes.push(Node { name: name.to_owned(), children: Vec::new(), entries: Vec::new() });
        self.nodes[parent.0].children.push(id);
        assert(self@ =~= with_child(before, parent, name@));
        Some(id)
    }

    /// Stores `value` in `node` against `key`.
    ///
    /// Returns `false`, and changes nothing, if the node already holds the key
    /// or if `node` names no node.
    pub fn add_property(&mut self, node: NodeId, key: &str, value: PropertyValue) -> (r: bool)
        requires
            old(self).wf(),
        ensures
            final(self).wf(),
            r == (node.0 < old(self)@.len() && !has_key(old(self)@[node.0 as int].entries, key@)),
            r ==> exists|e: PropertyEntry|
                {
                    &&& e.key@ == key@
                    &&& e.value == value
                    &&& final(self)@ == #[trigger] with_entry(old(self)@, node, e)
                },
            !r ==> final(self)@ == old(self)@,
    {
        if node.0 >= self.nodes.len() {
            return false;
        }
        let ghost before = self@;
        let ghost entries = before[node.0 as int].entries;
        proof {
            lemma_find_key(entries, key@);
        }
        if find_entry(&self.nodes[node.0].entries, key).is_some() {
            return false;
        }
        let entry = PropertyEntry { key: key.to_owned(), value };
        self.nodes[node.0].entries.push(entry);
        assert(self@ =~= with_entry(before, node, entry));
        assert(keys_unique(self@[node.0 as int].entries));
        true
    }
}

/// What was stored is what is found: after an entry has been appended to a
/// node that did not hold its key, the key is found in that node with the
/// entry's value, and every other lookup gives what it gave before.
pub proof fn lemma_stored_is_found(
    nodes: Seq<NodeView>,
    node: NodeId,
    entry: PropertyEntry,
    other: NodeId,
    key: Seq<char>,
)
    requires
        node.0 < nodes.len(),
        other.0 < nodes.len(),
        !has_key(nodes[node.0 as int].entries, entry.key@),
    ensures
        lookup(with_entry(nodes, node, entry)[node.0 as int].entries, entry.key@) == Some(
            entry.value,
        ),
        other != node || key != entry.key@ ==> lookup(
            with_entry(nodes, node, entry)[other.0 as int].entries,
            key,
        ) == lookup(nodes[other.0 as int].entries, key),
{
    let before = nodes[node.0 as int].entries;
    let after = before.push(entry);
    assert(with_entry(nodes, node, entry)[node.0 as int].entries == after);
    assert forall|j: int| 0 <= j < before.len() implies (#[trigger] after[j]).key@
        != entry.key@ by {
        assert(after[j] == before[j]);
    }
    lemma_find_key_is(after, entry.key@, before.len() as int);
    if other != node {
        assert(with_entry(nodes, node, entry)[other.0 as int] == nodes[other.0 as int]);
    } else if key != entry.key@ {
        lemma_find_key(before, key);
        match find_key(before, key) {
            Some(i) => {
                assert forall|j: int| 0 <= j < i implies (#[trigger] after[j]).key@ != key by {
                    assert(after[j] == before[j]);
                }
                assert(after[i] == before[i]);
                lemma_find_key_is(after, key, i);
            },
            None => {
                lemma_find_key(after, key);
                if find_key(after, key) is Some {
                    let i = find_key(after, key).unwrap();
                    if i < before.len() {
                        assert(after[i] == before[i]);
                    }
                }
            },
        }
    }
}

/// A child that was added is found by its name, unless an earlier child of
/// its parent has the same name: then that child is still the one found.
pub proof fn lemma_added_child_is_found(nodes: Seq<NodeView>, parent: NodeId, name: Seq<char>)
    requires
        tree_wf(nodes),
        parent.0 < nodes.len(),
        nodes.len() < usize::MAX,
    ensures
        first_named(
            with_child(nodes, parent, name),
            with_child(nodes, parent, name)[parent.0 as int].children,
            name,
        ) == match first_named(nodes, nodes[parent.0 as int].children, name) {
            Some(c) => Some(c),
            None => Some(NodeId(nodes.len() as usize)),
        },
{
    let added = NodeId(nodes.len() as usize);
    let after = with_child(nodes, parent, name);
    let before_children = nodes[parent.0 as int].children;
    let after_children = after[parent.0 as int].children;
    assert(after_children == before_children.push(added));
    let named_before = |c: NodeId| is_named(nodes, c, name);
    let named_after = |c: NodeId| is_named(after, c, name);
    assert forall|j: int| 0 <= j < before_children.len() implies named_after(
        #[trigger] after_children[j],
    ) == named_before(before_children[j]) by {
        assert(after_children[j] == before_children[j]);
        assert(nodes[parent.0 as int].children[j].0 < nodes.len());
    }
    lemma_first_index(before_children, named_before);
    match first_index(before_children, named_before) {
        Some(i) => {
            assert forall|j: int| 0 <= j < i implies !named_after(#[trigger] after_children[j]) by {
                assert(!named_before(before_children[j]));
            }
            assert(named_before(before_children[i]));
            lemma_first_index_is(after_children, named_after, i);
        },
        None => {
            assert forall|j: int| 0 <= j < before_children.len() implies !named_after(
                #[trigger] after_children[j],
            ) by {
                assert(!named_before(before_children[j]));
            }
            assert(is_named(after, added, name));
            lemma_first_index_is(after_children, named_after, before_children.len() as int);
        },
    }
}

} // verus!
