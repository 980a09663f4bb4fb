//! The caller-supplied set of target kinds a query searches for.

use vstd::prelude::*;
use crate::identifier::Identifier;

verus! {

/// A finite set of [`Identifier`] tags, viewed as a mathematical `Set`.
#[derive(Debug)]
pub struct IdentifierSet {
    elems: Vec<Identifier>,
}

impl View for IdentifierSet {
    type V = Set<Identifier>;

    closed spec fn view(&self) -> Set<Identifier> {
        self.elems@.to_set()
    }
}

impl IdentifierSet {
    /// The empty target set.
    pub fn new() -> (s: Self)
        ensures
            s@ == Set::<Identifier>::empty(),
    {
        let s = IdentifierSet { elems: Vec::new() };
        proof {
            assert(s.elems@.to_set() =~= Set::<Identifier>::empty());
        }
        s
    }

    /// Adds one tag to the set.
    pub fn insert(&mut self, id: Identifier)
        ensures
            final(self)@ == old(self)@.insert(id),
    {
        self.elems.push(id);
        proof {
            assert(self.elems@.to_set() =~= old(self)@.insert(id)) by {
                assert(self.elems@ == old(self).elems@ + seq![id]);
                assert forall|x: Identifier| self.elems@.to_set().contains(x) implies old(
                    self,
                )@.insert(id).contains(x) by {
                    let i = choose|i: int| 0 <= i < self.elems@.len() && self.elems@[i] == x;
                    if i < old(self).elems@.len() {
                        assert(old(self).elems@.contains(x));
                    }
                }
                assert forall|x: Identifier| old(self)@.insert(id).contains(x) implies self
                    .elems@.to_set().contains(x) by {
                    if x == id {
                        assert(self.elems@[self.elems@.len() - 1] == x);
                        assert(self.elems@.contains(x));
                    } else {
                        let i = choose|i: int|
                            0 <= i < old(self).elems@.len() && old(self).elems@[i] == x;
                        assert(self.elems@[i] == x);
                        assert(self.elems@.contains(x));
                    }
                }
            }
        }
    }

    /// Membership test.
    pub fn contains(&self, id: Identifier) -> (r: bool)
        ensures
            r == self@.contains(id),
    {
        let mut i: usize = 0;
        while i < self.elems.len()
            invariant
                i <= self.elems.len(),
                forall|j: int| 0 <= j < i ==> self.elems@[j] != id,
            decreases self.elems.len() - i,
        {
            if self.elems[i] == id {
                assert(self.elems@.contains(id));
                return true;
            }
            i += 1;
        }
        assert(!self.elems@.contains(id));
        false
    }
}

} // verus!
