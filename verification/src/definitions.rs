//! The cache of per-class default property templates.

use crate::properties::PropertiesNodeId;
use crate::search::{first_index, lemma_first_index, lemma_first_index_is, lemma_first_index_none};
use vstd::prelude::*;

verus! {

/// The mathematical content of one cache entry.
pub ghost struct DefinitionView {
    /// The object class the entry is for.
    pub class: Seq<char>,
    /// The subclass the entry is for.
    pub subclass: Seq<char>,
    /// The node that holds the class's default property values, if there is one.
    pub props: Option<PropertiesNodeId>,
}

#[derive(Debug)]
struct Definition {
    class: String,
    subclass: String,
    props: Option<PropertiesNodeId>,
}

impl Definition {
    spec fn view(self) -> DefinitionView {
        DefinitionView { class: self.class@, subclass: self.subclass@, props: self.props }
    }
}

/// Whether the entry is for the given class and subclass.
pub open spec fn is_for(entry: DefinitionView, class: Seq<char>, subclass: Seq<char>) -> bool {
    entry.class == class && entry.subclass == subclass
}

/// The position of the entry for a class and subclass, if there is one.
pub open spec fn find_definition(
    entries: Seq<DefinitionView>,
    class: Seq<char>,
    subclass: Seq<char>,
) -> Option<int> {
    first_index(entries, |d: DefinitionView| is_for(d, class, subclass))
}

/// Whether no two entries are for the same class and subclass.
pub open spec fn definitions_unique(entries: Seq<DefinitionView>) -> bool {
    forall|i: int, j: int|
        0 <= i < j < entries.len() ==> !is_for(
            #[trigger] entries[i],
            (#[trigger] entries[j]).class,
            entries[j].subclass,
        )
}

/// A mapping from an object class and subclass to the node that holds the
/// class's default property values.
///
/// It is filled once, while a document is loaded, and only read afterwards.
#[derive(Debug)]
pub struct DefinitionsCache {
    entries: Vec<Definition>,
}

impl View for DefinitionsCache {
    type V = Seq<DefinitionView>;

    closed spec fn view(&self) -> Seq<DefinitionView> {
        self.entries@.map_values(|d: Definition| d.view())
    }
}

impl DefinitionsCache {
    /// Whether this cache is well formed: it holds at most one entry for each
    /// class and subclass.
    pub open spec fn wf(&self) -> bool {
        definitions_unique(self@)
    }

    /// What `props_node_id` returns for a class and subclass.
    pub open spec fn spec_props_node_id(self, class: Seq<char>, subclass: Seq<char>) -> Option<
        PropertiesNodeId,
    > {
        match find_definition(self@, class, subclass) {
            Some(i) => self@[i].props,
            None => None,
        }
    }

    /// Creates an empty cache.
    pub fn new() -> (r: DefinitionsCache)
        ensures
            r@ == Seq::<DefinitionView>::empty(),
            r.wf(),
    {
        let r = DefinitionsCache { entries: Vec::new() };
        assert(r@ =~= Seq::<DefinitionView>::empty());
        r
    }

    /// Returns the number of entries.
    pub fn len(&self) -> (r: usize)
        ensures
            r == self@.len(),
    {
        self.entries.len()
    }

    fn find(&self, class: &str, subclass: &str) -> (r: Option<usize>)
        ensures
            match r {
                Some(i) => find_definition(self@, class@, subclass@) == Some(i as int) && i
                    < self.entries.len(),
                None => find_definition(self@, class@, subclass@).is_none(),
            },
    {
        let wanted_class = class.to_owned();
        let wanted_subclass = subclass.to_owned();
        let ghost matches = |d: DefinitionView| is_for(d, class@, subclass@);
        let mut i: usize = 0;
        while i < self.entries.len()
            invariant
                i <= self.entries.len(),
                self@.len() == self.entries.len(),
                wanted_class@ == class@,
                wanted_subclass@ == subclass@,
                matches == |d: DefinitionView| is_for(d, class@, subclass@),
                forall|j: int| 0 <= j < i ==> !matches(#[trigger] self@[j]),
            decreases self.entries.len() - i,
        {
            assert(self@[i as int] == self.entries[i as int].view());
            if self.entries[i].class == wanted_class && self.entries[i].subclass == wanted_subclass {
                proof {
                    lemma_first_index_is(self@, matches, i as int);
                }
                return Some(i);
            }
            i += 1;
        }
        proof {
            lemma_first_index_none(self@, matches);
        }
        None
    }

    /// Returns the node that holds the default property values of a class.
    ///
    /// Returns `None` if the cache has no entry for the class and subclass, or
    /// if its entry records that the class has no defaults.
    pub fn props_node_id(&self, class: &str, subclass: &str) -> (r: Option<PropertiesNodeId>)
        ensures
            r == self.spec_props_node_id(class@, subclass@),
    {
        match self.find(class, subclass) {
            Some(i) => {
                assert(self@[i as int] == self.entries[i as int].view());
                self.entries[i].props
            },
            None => None,
        }
    }

    /// Records the node that holds the default property values of a class.
    ///
    /// Returns `false`, and changes nothing, if the cache already has an entry
    /// for the class and subclass.
    pub fn insert(&mut self, class: &str, subclass: &str, props: Option<PropertiesNodeId>) -> (r:
        bool)
        requires
            old(self).wf(),
        ensures
            final(self).wf(),
            r == find_definition(old(self)@, class@, subclass@).is_none(),
            r ==> final(self)@ == old(self)@.push(
                DefinitionView { class: class@, subclass: subclass@, props },
            ),
            !r ==> final(self)@ == old(self)@,
    {
        let ghost before = self@;
        proof {
            lemma_first_index(
                before,
                |d: DefinitionView| is_for(d, class@, subclass@),
            );
        }
        if self.find(class, subclass).is_some() {
            return false;
        }
        self.entries.push(
            Definition { class: class.to_owned(), subclass: subclass.to_owned(), props },
        );
        assert(self@ =~= before.push(DefinitionView { class: class@, subclass: subclass@, props }));
        true
    }
}

/// A class and subclass that was inserted is found again, with the node that
/// was recorded for it.
pub proof fn lemma_inserted_is_found(
    before: Seq<DefinitionView>,
    class: Seq<char>,
    subclass: Seq<char>,
    props: Option<PropertiesNodeId>,
)
    requires
        find_definition(before, class, subclass).is_none(),
    ensures
        find_definition(before.push(DefinitionView { class, subclass, props }), class, subclass)
            == Some(before.len() as int),
{
    let after = before.push(DefinitionView { class, subclass, props });
    let matches = |d: DefinitionView| is_for(d, class, subclass);
    lemma_first_index(before, matches);
    assert forall|j: int| 0 <= j < before.len() implies !matches(#[trigger] after[j]) by {
        assert(after[j] == before[j]);
    }
    lemma_first_index_is(after, matches, before.len() as int);
}

/// Lookups are stable: what a lookup gives depends on the content of the
/// cache alone, so two caches with the same content, and one cache at
/// different times, give the same.
pub proof fn lemma_lookup_is_stable(
    a: DefinitionsCache,
    b: DefinitionsCache,
    class: Seq<char>,
    subclass: Seq<char>,
)
    requires
        a@ == b@,
    ensures
        a.spec_props_node_id(class, subclass) == b.spec_props_node_id(class, subclass),
{
}

/// A lookup finds the entry for the class and subclass, and a well-formed
/// cache holds no other entry for them.
pub proof fn lemma_lookup_finds_the_entry(cache: DefinitionsCache, class: Seq<char>, subclass: Seq<char>)
    requires
        cache.wf(),
    ensures
        match find_definition(cache@, class, subclass) {
            Some(i) => {
                &&& 0 <= i < cache@.len()
                &&& is_for(cache@[i], class, subclass)
                &&& cache.spec_props_node_id(class, subclass) == cache@[i].props
                &&& forall|j: int|
                    0 <= j < cache@.len() && j != i ==> !is_for(#[trigger] cache@[j], class, subclass)
            },
            None => {
                &&& cache.spec_props_node_id(class, subclass).is_none()
                &&& forall|j: int|
                    0 <= j < cache@.len() ==> !is_for(#[trigger] cache@[j], class, subclass)
            },
        },
{
    lemma_first_index(cache@, |d: DefinitionView| is_for(d, class, subclass));
}

} // verus!
