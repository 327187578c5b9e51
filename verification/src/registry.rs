//! The registry of installable components by name.
use vstd::prelude::*;
use crate::component::{ComponentInfo, ComponentInfoView};
use crate::error::InstallerError;
use crate::table::NamedTable;
use crate::text::owned;

verus! {

/// The registry of installable components, by name.
pub struct ComponentRegistry {
    components: NamedTable<ComponentInfo>,
}

impl View for ComponentRegistry {
    type V = Map<Seq<char>, ComponentInfoView>;

    closed spec fn view(&self) -> Map<Seq<char>, ComponentInfoView> {
        self.components.map()
    }
}

impl ComponentRegistry {
    /// The registry is well formed.
    pub closed spec fn wf(self) -> bool {
        &&& self.components.wf()
        &&& forall|k: Seq<char>| #[trigger] self.components.map().dom().contains(k) ==> self.components.map()[k].name == k
    }

    /// An empty registry.
    pub fn new() -> (r: Self)
        ensures
            r.wf(),
            r@ == Map::<Seq<char>, ComponentInfoView>::empty(),
    {
        let r = ComponentRegistry { components: NamedTable::new() };
        assert forall|k: Seq<char>| #[trigger] r.components.map().dom().contains(k) implies r.components.map()[k].name == k by {}
        r
    }

    /// Registers a component under its name, replacing one of the same name.
    pub fn register(&mut self, component: ComponentInfo)
        requires
            old(self).wf(),
        ensures
            final(self).wf(),
            final(self)@ == old(self)@.insert(component.name@, component@),
    {
        let name = component.name.clone();
        match self.components.find(name.as_str()) {
            Some(i) => {
                self.components.replace_at(i, component);
            },
            None => {
                self.components.push_new(name, component);
            },
        }
    }

    /// The component registered under `name`, or `ComponentNotFound`.
    pub fn get(&self, name: &str) -> (r: Result<&ComponentInfo, InstallerError>)
        requires
            self.wf(),
        ensures
            match r {
                Ok(c) => self@.dom().contains(name@) && c@ == self@[name@],
                Err(e) => !self@.dom().contains(name@) && (e matches InstallerError::ComponentNotFound(n)
                    && n@ == name@),
            },
    {
        match self.components.find(name) {
            Some(i) => {
                let (_, c) = self.components.at(i);
                Ok(c)
            },
            None => Err(InstallerError::ComponentNotFound(owned(name))),
        }
    }

    /// All registered components, each once.
    pub fn list(&self) -> (r: Vec<&ComponentInfo>)
        requires
            self.wf(),
        ensures
            r@.len() == self@.dom().len(),
            forall|i: int|
                0 <= i < r@.len() ==> self@.dom().contains(#[trigger] r@[i].name@) && self@[r@[i].name@]
                    == r@[i]@,
            forall|i: int, j: int| 0 <= i < j < r@.len() ==> r@[i].name@ != r@[j].name@,
    {
        let n = self.components.len();
        let mut r: Vec<&ComponentInfo> = Vec::new();
        let mut i: usize = 0;
        while i < n
            invariant
                self.wf(),
                n == self.components.len_spec(),
                i <= n,
                r@.len() == i,
                forall|j: int| 0 <= j < i ==> #[trigger] r@[j] == self.components.value_at(j),
            decreases n - i,
        {
            let (_, c) = self.components.at(i);
            proof {
                self.components.lemma_at(i as int);
            }
            r.push(c);
            i = i + 1;
        }
        proof {
            self.components.lemma_names();
            self.components.lemma_len();
            assert forall|j: int| 0 <= j < r@.len() implies self@.dom().contains(#[trigger] r@[j].name@)
                && self@[r@[j].name@] == r@[j]@ by {
                self.components.lemma_at(j);
                assert(r@[j].name@ == self.components.name_at(j));
            }
            assert forall|a: int, b: int| 0 <= a < b < r@.len() implies r@[a].name@ != r@[b].name@ by {
                self.components.lemma_at(a);
                self.components.lemma_at(b);
                assert(self.components.names()[a] != self.components.names()[b]);
            }
            assert(r@.len() == self@.dom().len()) by {
                self.components.names().unique_seq_to_set();
            }
        }
        r
    }

    /// The names of all registered components, each once.
    pub fn names(&self) -> (r: Vec<String>)
        requires
            self.wf(),
        ensures
            r.deep_view().to_set() == self@.dom(),
            r.deep_view().no_duplicates(),
    {
        proof {
            self.components.lemma_names();
        }
        self.components.names_vec()
    }

    /// Whether a component is registered under `name`.
    pub fn contains(&self, name: &str) -> (r: bool)
        requires
            self.wf(),
        ensures
            r == self@.dom().contains(name@),
    {
        self.components.find(name).is_some()
    }
}

} // verus!
