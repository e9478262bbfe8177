//! The types built for referenced groups (`xs:group ref=".."`), so that a group referred to
//! more than once is built once.

use vstd::prelude::*;

use crate::models::ident::{TypeIdent, TypeIdentView};

verus! {

/// For each referenced group, the type that was built for it.
#[derive(Debug)]
pub struct GroupCache {
    pub items: Vec<(TypeIdent, TypeIdent)>,
}

impl GroupCache {
    /// `true` if a type is cached for the group `k`.
    pub open spec fn contains(self, k: TypeIdentView) -> bool {
        exists|i: int| 0 <= i < self.items@.len() && (#[trigger] self.items@[i]).0@ == k
    }

    /// Position of the entry of the group `k`.
    pub open spec fn index_of(self, k: TypeIdentView) -> int {
        choose|i: int| 0 <= i < self.items@.len() && (#[trigger] self.items@[i]).0@ == k
    }

    /// Each group has at most one entry.
    pub open spec fn wf(self) -> bool {
        forall|i: int, j: int|
            0 <= i < self.items@.len() && 0 <= j < self.items@.len() && i != j ==> (
            #[trigger] self.items@[i]).0@ != (#[trigger] self.items@[j]).0@
    }
}

impl View for GroupCache {
    type V = Map<TypeIdentView, TypeIdent>;

    open spec fn view(&self) -> Map<TypeIdentView, TypeIdent> {
        Map::new(|k: TypeIdentView| self.contains(k), |k: TypeIdentView| self.items@[self.index_of(k)].1)
    }
}

impl GroupCache {
    /// Creates an empty cache.
    pub fn new() -> (r: GroupCache)
        ensures
            r.wf(),
            r@ == Map::<TypeIdentView, TypeIdent>::empty(),
    {
        let r = GroupCache { items: Vec::new() };
        assert(r@ =~= Map::<TypeIdentView, TypeIdent>::empty());
        r
    }

    /// Position of the entry of the group `group`, if there is one.
    fn position(&self, group: &TypeIdent) -> (r: Option<usize>)
        ensures
            match r {
                Some(i) => i < self.items@.len() && self.items@[i as int].0@ == group@,
                None => !self.contains(group@),
            },
    {
        let mut i: usize = 0;
        while i < self.items.len()
            invariant
                i <= self.items@.len(),
                forall|j: int| 0 <= j < i ==> (#[trigger] self.items@[j]).0@ != group@,
            decreases self.items@.len() - i,
        {
            if self.items[i].0.is_same(group) {
                return Some(i);
            }
            i = i + 1;
        }
        None
    }

    /// Returns the type cached for the group `group`.
    pub fn get(&self, group: &TypeIdent) -> (r: Option<TypeIdent>)
        requires
            self.wf(),
        ensures
            match r {
                Some(t) => self@.contains_key(group@) && self@[group@] == t,
                None => !self@.contains_key(group@),
            },
    {
        match self.position(group) {
            Some(i) => {
                proof {
                    let k = self.index_of(group@);
                    assert(self.contains(group@));
                    if k != i {
                        assert(self.items@[k].0@ != self.items@[i as int].0@);
                    }
                }
                Some(self.items[i].1.duplicate())
            },
            None => None,
        }
    }

    /// Caches the type `ty` for the group `group`, replacing what was cached for it before.
    pub fn insert(&mut self, group: TypeIdent, ty: TypeIdent)
        requires
            old(self).wf(),
        ensures
            final(self).wf(),
            final(self)@ == old(self)@.insert(group@, ty),
    {
        let ghost k = group@;
        match self.position(&group) {
            Some(i) => {
                self.items.set(i, (group, ty));
                proof {
                    assert forall|key: TypeIdentView|
                        #![auto]
                        self.contains(key) == old(self)@.insert(k, ty).contains_key(key) by {
                        if old(self).contains(key) {
                            let j = old(self).index_of(key);
                            assert(self.items@[j].0@ == key || j == i);
                        }
                        if key == k {
                            assert(self.items@[i as int].0@ == key);
                        }
                    }
                    assert forall|key: TypeIdentView| #[trigger] self.contains(key) implies self@[key]
                        == old(self)@.insert(k, ty)[key] by {
                        let j = self.index_of(key);
                        if key == k {
                            assert(j == i);
                        } else {
                            let oj = old(self).index_of(key);
                            assert(old(self).items@[j].0@ == key);
                            assert(oj == j);
                        }
                    }
                    assert(self@ =~= old(self)@.insert(k, ty));
                }
            },
            None => {
                self.items.push((group, ty));
                proof {
                    let n = old(self).items@.len() as int;
                    assert(self.items@[n].0@ == k);
                    assert forall|key: TypeIdentView|
                        #![auto]
                        self.contains(key) == old(self)@.insert(k, ty).contains_key(key) by {
                        if old(self).contains(key) {
                            let j = old(self).index_of(key);
                            assert(self.items@[j] == old(self).items@[j]);
                        }
                        if self.contains(key) && key != k {
                            let j = self.index_of(key);
                            assert(j < n);
                            assert(old(self).items@[j].0@ == key);
                        }
                    }
                    assert forall|key: TypeIdentView| #[trigger] self.contains(key) implies self@[key]
                        == old(self)@.insert(k, ty)[key] by {
                        let j = self.index_of(key);
                        if key == k {
                            assert(j == n);
                        } else {
                            let oj = old(self).index_of(key);
                            assert(j < n);
                            assert(old(self).items@[j].0@ == key);
                            assert(oj == j);
                        }
                    }
                    assert(self@ =~= old(self)@.insert(k, ty));
                }
            },
        }
    }
}

} // verus!
