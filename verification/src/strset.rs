//! A small set of strings (paths, cache keys) kept without repeats.
use vstd::prelude::*;

verus! {

broadcast use vstd::string::group_string_axioms;

/// Set of strings.
pub struct StrSet {
    items: Vec<String>,
}

impl View for StrSet {
    type V = Set<Seq<char>>;

    closed spec fn view(&self) -> Set<Seq<char>> {
        Set::new(|x: Seq<char>| exists|i: int| 0 <= i < self.items@.len() && self.items@[i]@ == x)
    }
}

impl StrSet {
    /// No string is held twice.
    pub closed spec fn wf(&self) -> bool {
        forall|i: int, j: int|
            0 <= i < j < self.items@.len() ==> self.items@[i]@ != self.items@[j]@
    }

    /// Number of strings in the set.
    pub closed spec fn size(&self) -> nat {
        self.items@.len()
    }

    pub fn new() -> (r: Self)
        ensures
            r.wf(),
            r@ == Set::<Seq<char>>::empty(),
    {
        let r = StrSet { items: Vec::new() };
        assert(r@ =~= Set::<Seq<char>>::empty());
        r
    }

    fn index_of(&self, s: &String) -> (r: Option<usize>)
        ensures
            r matches Some(i) ==> i < self.items@.len() && self.items@[i as int]@ == s@,
            r is None ==> forall|i: int| 0 <= i < self.items@.len() ==> self.items@[i]@ != s@,
    {
        let mut i: usize = 0;
        while i < self.items.len()
            invariant
                i <= self.items@.len(),
                forall|j: int| 0 <= j < i ==> self.items@[j]@ != s@,
            decreases self.items.len() - i,
        {
            if self.items[i] == *s {
                return Some(i);
            }
            i += 1;
        }
        None
    }

    pub fn contains(&self, s: &String) -> (r: bool)
        ensures
            r == self@.contains(s@),
    {
        match self.index_of(s) {
            Some(i) => {
                assert(self@.contains(s@));
                true
            },
            None => false,
        }
    }

    pub fn insert(&mut self, s: String)
        requires
            old(self).wf(),
        ensures
            final(self).wf(),
            final(self)@ == old(self)@.insert(s@),
    {
        match self.index_of(&s) {
            Some(i) => {
                assert(self@ =~= old(self)@.insert(s@));
            },
            None => {
                let ghost sv = s@;
                self.items.push(s);
                assert(self@ =~= old(self)@.insert(sv)) by {
                    assert(self.items@[self.items@.len() - 1]@ == sv);
                    assert forall|x: Seq<char>| old(self)@.contains(x) implies self@.contains(x) by {
                        let i = choose|i: int|
                            0 <= i < old(self).items@.len() && old(self).items@[i]@ == x;
                        assert(self.items@[i]@ == x);
                    }
                }
            },
        }
    }

    pub fn remove(&mut self, s: &String)
        requires
            old(self).wf(),
        ensures
            final(self).wf(),
            final(self)@ == old(self)@.remove(s@),
    {
        match self.index_of(s) {
            Some(i) => {
                let ghost before = self.items@;
                self.items.remove(i);
                assert(self@ =~= old(self)@.remove(s@)) by {
                    assert forall|x: Seq<char>| #[trigger] self@.contains(x) implies old(
                        self,
                    )@.remove(s@).contains(x) by {
                        let k = choose|k: int| 0 <= k < self.items@.len() && self.items@[k]@ == x;
                        if k < i {
                            assert(before[k]@ == x);
                        } else {
                            assert(before[k + 1]@ == x);
                        }
                    }
                    assert forall|x: Seq<char>| old(self)@.remove(s@).contains(x) implies #[trigger] self@.contains(
                        x,
                    ) by {
                        let k = choose|k: int| 0 <= k < before.len() && before[k]@ == x;
                        if k < i {
                            assert(self.items@[k]@ == x);
                        } else {
                            assert(k != i);
                            assert(self.items@[k - 1]@ == x);
                        }
                    }
                }
            },
            None => {
                assert(self@ =~= old(self)@.remove(s@));
            },
        }
    }

    /// Empties the set and hands over what it held.
    pub fn take_all(&mut self) -> (r: Vec<String>)
        requires
            old(self).wf(),
        ensures
            final(self).wf(),
            final(self)@ == Set::<Seq<char>>::empty(),
            forall|x: Seq<char>|
                old(self)@.contains(x) <==> exists|i: int| 0 <= i < r@.len() && r@[i]@ == x,
    {
        let mut r: Vec<String> = Vec::new();
        std::mem::swap(&mut r, &mut self.items);
        assert(self@ =~= Set::<Seq<char>>::empty());
        r
    }
}

} // verus!
