//! Association list keyed by signal path.

use vstd::prelude::*;

use crate::signal_bus::{same_text, VssPath};

verus! {

/// A map from signal paths to values. Domains hold a handful of signals, so a
/// list that is searched from the front serves.
pub struct PathMap<T> {
    entries: Vec<(VssPath, T)>,
}

impl<T> PathMap<T> {
    /// The entry at `i` is the one for `path`.
    spec fn at(entries: Seq<(VssPath, T)>, path: Seq<char>, i: int) -> bool {
        0 <= i < entries.len() && entries[i].0@ == path
    }

    /// No path occurs twice.
    pub closed spec fn wf(&self) -> bool {
        forall|i: int, j: int|
            0 <= i < j < self.entries@.len() ==> #[trigger] self.entries@[i].0@
                != #[trigger] self.entries@[j].0@
    }

    /// An empty map.
    pub fn new() -> (r: Self)
        ensures
            r.wf(),
            r@ == Map::<Seq<char>, T>::empty(),
    {
        let r = PathMap { entries: Vec::new() };
        assert(r@ =~= Map::<Seq<char>, T>::empty());
        r
    }

    proof fn lemma_entry(&self, i: int)
        requires
            self.wf(),
            0 <= i < self.entries@.len(),
        ensures
            self@.dom().contains(self.entries@[i].0@),
            self@[self.entries@[i].0@] == self.entries@[i].1,
    {
        let path = self.entries@[i].0@;
        assert(Self::at(self.entries@, path, i));
        let c = choose|c: int| Self::at(self.entries@, path, c);
        assert(c == i);
    }

    /// Index of the entry for `path`, if there is one.
    fn find(&self, path: &str) -> (r: Option<usize>)
        requires
            self.wf(),
        ensures
            match r {
                Some(i) => i < self.entries@.len() && self.entries@[i as int].0@ == path@
                    && self@.dom().contains(path@) && self@[path@] == self.entries@[i as int].1,
                None => !self@.dom().contains(path@),
            },
    {
        let mut i: usize = 0;
        while i < self.entries.len()
            invariant
                self.wf(),
                i <= self.entries@.len(),
                forall|j: int| 0 <= j < i ==> #[trigger] self.entries@[j].0@ != path@,
            decreases self.entries@.len() - i,
        {
            if same_text(self.entries[i].0, path) {
                proof {
                    self.lemma_entry(i as int);
                }
                return Some(i);
            }
            i += 1;
        }
        assert(forall|j: int| !Self::at(self.entries@, path@, j));
        None
    }

    /// The value stored for `path`.
    pub fn get(&self, path: &str) -> (r: Option<&T>)
        requires
            self.wf(),
        ensures
            match r {
                Some(v) => self@.dom().contains(path@) && self@[path@] == *v,
                None => !self@.dom().contains(path@),
            },
    {
        match self.find(path) {
            Some(i) => Some(&self.entries[i].1),
            None => None,
        }
    }

    /// Stores `value` for `path`, in place of an earlier value.
    pub fn insert(&mut self, path: VssPath, value: T)
        requires
            old(self).wf(),
        ensures
            final(self).wf(),
            final(self)@ == old(self)@.insert(path@, value),
    {
        let ghost before = *self;
        match self.find(path) {
            Some(i) => {
                self.entries.set(i, (path, value));
                proof {
                    Self::lemma_inserted(before, *self, path, value, i as int);
                }
            },
            None => {
                proof {
                    assert forall|j: int| 0 <= j < before.entries@.len() implies
                        #[trigger] before.entries@[j].0@ != path@ by {
                        before.lemma_entry(j);
                    }
                }
                self.entries.push((path, value));
                proof {
                    let n = before.entries@.len() as int;
                    Self::lemma_inserted(before, *self, path, value, n);
                }
            },
        }
    }

    /// An entry written at `i`, in place of the one for its path or behind all
    /// others, stores its value for its path.
    proof fn lemma_inserted(before: Self, after: Self, path: VssPath, value: T, i: int)
        requires
            before.wf(),
            0 <= i <= before.entries@.len(),
            i < before.entries@.len() ==> before.entries@[i].0@ == path@ && after.entries@
                == before.entries@.update(i, (path, value)),
            i == before.entries@.len() ==> after.entries@ == before.entries@.push((path, value))
                && forall|j: int| 0 <= j < i ==> #[trigger] before.entries@[j].0@ != path@,
        ensures
            after.wf(),
            after@ == before@.insert(path@, value),
    {
        assert(after.wf());
        assert(Self::at(after.entries@, path@, i));
        assert forall|p: Seq<char>|
            #[trigger] after@.dom().contains(p) <==> before@.insert(path@, value).dom().contains(p) by {
            if after@.dom().contains(p) {
                let j = choose|j: int| Self::at(after.entries@, p, j);
                if j < before.entries@.len() {
                    assert(Self::at(before.entries@, p, j));
                }
            }
            if before@.dom().contains(p) {
                let j = choose|j: int| Self::at(before.entries@, p, j);
                assert(Self::at(after.entries@, p, j));
            }
        }
        assert forall|p: Seq<char>| after@.dom().contains(p) implies #[trigger] after@[p]
            == before@.insert(path@, value)[p] by {
            let j = choose|j: int| Self::at(after.entries@, p, j);
            after.lemma_entry(j);
            after.lemma_entry(i);
            if j < before.entries@.len() {
                before.lemma_entry(j);
            }
        }
        assert(after@ =~= before@.insert(path@, value));
    }
}

impl<T> View for PathMap<T> {
    type V = Map<Seq<char>, T>;

    closed spec fn view(&self) -> Map<Seq<char>, T> {
        Map::new(
            |p: Seq<char>| exists|i: int| Self::at(self.entries@, p, i),
            |p: Seq<char>| self.entries@[choose|i: int| Self::at(self.entries@, p, i)].1,
        )
    }
}

} // verus!
