//! A set of request identifiers, compared by what they denote.

use vstd::prelude::*;

use crate::model::{RequestId, RequestIdValue};

verus! {

/// A set of request identifiers, compared by what they denote: the number, or
/// the characters of the string.
pub struct IdSet {
    ids: Vec<RequestId>,
}

impl View for IdSet {
    type V = Set<RequestIdValue>;

    closed spec fn view(&self) -> Set<RequestIdValue> {
        Set::new(|v: RequestIdValue| exists|i: int| 0 <= i < self.ids@.len() && #[trigger] self.ids@[i].value() == v)
    }
}

impl IdSet {
    /// No identifier is held twice.
    pub closed spec fn wf(&self) -> bool {
        forall|i: int, j: int|
            0 <= i < self.ids@.len() && 0 <= j < self.ids@.len() && i != j
                ==> #[trigger] self.ids@[i].value() != #[trigger] self.ids@[j].value()
    }

    /// The empty set.
    pub fn new() -> (s: IdSet)
        ensures
            s.wf(),
            s@ == Set::<RequestIdValue>::empty(),
    {
        let s = IdSet { ids: Vec::new() };
        assert(s@ =~= Set::<RequestIdValue>::empty());
        s
    }

    fn position(&self, id: &RequestId) -> (r: Option<usize>)
        ensures
            match r {
                Some(i) => i < self.ids@.len() && self.ids@[i as int].value() == id.value(),
                None => forall|j: int| 0 <= j < self.ids@.len() ==> self.ids@[j].value() != id.value(),
            },
    {
        let mut i: usize = 0;
        while i < self.ids.len()
            invariant
                i <= self.ids@.len(),
                forall|j: int| 0 <= j < i ==> self.ids@[j].value() != id.value(),
            decreases self.ids@.len() - i,
        {
            if self.ids[i].same_as(id) {
                return Some(i);
            }
            i = i + 1;
        }
        None
    }

    /// Whether the set holds `id`.
    pub fn contains(&self, id: &RequestId) -> (b: bool)
        ensures
            b == self@.contains(id.value()),
    {
        let r = self.position(id);
        match r {
            Some(i) => {
                assert(self.ids@[i as int].value() == id.value());
                true
            },
            None => false,
        }
    }

    /// Adds `id` to the set.
    pub fn insert(&mut self, id: RequestId)
        requires
            old(self).wf(),
        ensures
            final(self).wf(),
            final(self)@ == old(self)@.insert(id.value()),
    {
        let ghost v = id.value();
        match self.position(&id) {
            Some(i) => {
                assert(self@ =~= old(self)@.insert(v)) by {
                    assert(self.ids@[i as int].value() == v);
                }
            },
            None => {
                self.ids.push(id);
                assert forall|w: RequestIdValue| #[trigger] self@.contains(w) == old(self)@.insert(v).contains(w) by {
                    if old(self)@.contains(w) {
                        let k = choose|k: int| 0 <= k < old(self).ids@.len() && #[trigger] old(self).ids@[k].value() == w;
                        assert(self.ids@[k].value() == w);
                    }
                    if w == v {
                        assert(self.ids@[self.ids@.len() - 1].value() == w);
                    }
                }
                assert(self@ =~= old(self)@.insert(v));
            },
        }
    }

    /// Removes `id` from the set; tells whether the set held it.
    pub fn remove(&mut self, id: &RequestId) -> (held: bool)
        requires
            old(self).wf(),
        ensures
            final(self).wf(),
            held == old(self)@.contains(id.value()),
            final(self)@ == old(self)@.remove(id.value()),
    {
        let ghost v = id.value();
        match self.position(id) {
            Some(i) => {
                let ghost before = self.ids@;
                self.ids.remove(i);
                assert(before[i as int].value() == v);
                assert forall|w: RequestIdValue| #[trigger] self@.contains(w) == old(self)@.remove(v).contains(w) by {
                    if self@.contains(w) {
                        let k = choose|k: int| 0 <= k < self.ids@.len() && #[trigger] self.ids@[k].value() == w;
                        if k < i {
                            assert(before[k].value() == w);
                        } else {
                            assert(before[k + 1].value() == w);
                        }
                    }
                    if old(self)@.remove(v).contains(w) {
                        let k = choose|k: int| 0 <= k < before.len() && #[trigger] before[k].value() == w;
                        if k < i {
                            assert(self.ids@[k].value() == w);
                        } else {
                            assert(k != i);
                            assert(self.ids@[k - 1].value() == w);
                        }
                    }
                }
                assert(self@ =~= old(self)@.remove(v));
                assert(old(self)@.contains(v));
                true
            },
            None => {
                assert(self@ =~= old(self)@.remove(v)) by {
                    assert forall|w: RequestIdValue| #[trigger] self@.contains(w) implies w != v by {
                        let k = choose|k: int| 0 <= k < self.ids@.len() && #[trigger] self.ids@[k].value() == w;
                    }
                }
                false
            },
        }
    }
}

} // verus!
