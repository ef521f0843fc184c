//! A set of paths, two paths being the same when `Path` holds them equal
//! (the same components): `a/b`, `a//b` and `a/b/` are one path.
use vstd::prelude::*;
use crate::paths::{components, same_path, same_path_of};

verus! {

broadcast use vstd::string::group_string_axioms;

/// Set of paths, each kept as first given.
pub struct PathSet {
    items: Vec<String>,
}

impl View for PathSet {
    type V = Set<Seq<Seq<char>>>;

    /// The components of the paths held.
    closed spec fn view(&self) -> Set<Seq<Seq<char>>> {
        Set::new(|c: Seq<Seq<char>>| exists|i: int| 0 <= i < self.items@.len() && components(self.items@[i]@) == c)
    }
}

impl PathSet {
    /// No path is held twice.
    pub closed spec fn wf(&self) -> bool {
        forall|i: int, j: int|
            0 <= i < j < self.items@.len() ==> components(self.items@[i]@) != components(self.items@[j]@)
    }

    pub fn new() -> (r: Self)
        ensures
            r.wf(),
            r@ == Set::<Seq<Seq<char>>>::empty(),
    {
        let r = PathSet { items: Vec::new() };
        assert(r@ =~= Set::<Seq<Seq<char>>>::empty());
        r
    }

    fn index_of(&self, s: &str) -> (r: Option<usize>)
        ensures
            r matches Some(i) ==> i < self.items@.len() && components(self.items@[i as int]@) == components(s@),
            r is None ==> forall|i: int| 0 <= i < self.items@.len() ==> components(self.items@[i]@) != components(s@),
    {
        let mut i: usize = 0;
        while i < self.items.len()
            invariant
                i <= self.items@.len(),
                forall|j: int| 0 <= j < i ==> components(self.items@[j]@) != components(s@),
            decreases self.items.len() - i,
        {
            if same_path_of(self.items[i].as_str(), s) {
                return Some(i);
            }
            i += 1;
        }
        None
    }

    /// Whether the path `s` is held.
    pub fn contains(&self, s: &str) -> (r: bool)
        ensures
            r == self@.contains(components(s@)),
    {
        match self.index_of(s) {
            Some(i) => {
                assert(self@.contains(components(s@)));
                true
            },
            None => false,
        }
    }

    /// Adds the path `s`; a path already held as the same stays as it was
    /// given first.
    pub fn insert(&mut self, s: String)
        requires
            old(self).wf(),
        ensures
            final(self).wf(),
            final(self)@ == old(self)@.insert(components(s@)),
    {
        match self.index_of(s.as_str()) {
            Some(i) => {
                assert(self@ =~= old(self)@.insert(components(s@)));
            },
            None => {
                let ghost sv = components(s@);
                self.items.push(s);
                assert(self@ =~= old(self)@.insert(sv)) by {
                    assert(components(self.items@[self.items@.len() - 1]@) == sv);
                    assert forall|x: Seq<Seq<char>>| old(self)@.contains(x) implies self@.contains(x) by {
                        let i = choose|i: int| 0 <= i < old(self).items@.len() && components(old(self).items@[i]@) == x;
                        assert(components(self.items@[i]@) == x);
                    }
                }
            },
        }
    }

    /// Removes the path `s`.
    pub fn remove(&mut self, s: &str)
        requires
            old(self).wf(),
        ensures
            final(self).wf(),
            final(self)@ == old(self)@.remove(components(s@)),
    {
        match self.index_of(s) {
            Some(i) => {
                let ghost before = self.items@;
                self.items.remove(i);
                assert(self@ =~= old(self)@.remove(components(s@))) by {
                    assert forall|x: Seq<Seq<char>>| #[trigger] self@.contains(x) implies old(self)@.remove(
                        components(s@),
                    ).contains(x) by {
                        let k = choose|k: int| 0 <= k < self.items@.len() && components(self.items@[k]@) == x;
                        if k < i {
                            assert(components(before[k]@) == x);
                        } else {
                            assert(components(before[k + 1]@) == x);
                        }
                    }
                    assert forall|x: Seq<Seq<char>>| old(self)@.remove(components(s@)).contains(x) implies #[trigger] self@.contains(
                        x,
                    ) by {
                        let k = choose|k: int| 0 <= k < before.len() && components(before[k]@) == x;
                        if k < i {
                            assert(components(self.items@[k]@) == x);
                        } else {
                            assert(k != i);
                            assert(components(self.items@[k - 1]@) == x);
                        }
                    }
                }
            },
            None => {
                assert(self@ =~= old(self)@.remove(components(s@)));
            },
        }
    }

    /// Empties the set and hands over the paths it held.
    pub fn take_all(&mut self) -> (r: Vec<String>)
        requires
            old(self).wf(),
        ensures
            final(self).wf(),
            final(self)@ == Set::<Seq<Seq<char>>>::empty(),
            forall|x: Seq<Seq<char>>|
                old(self)@.contains(x) <==> exists|i: int| 0 <= i < r@.len() && components(r@[i]@) == x,
    {
        let mut r: Vec<String> = Vec::new();
        std::mem::swap(&mut r, &mut self.items);
        assert(self@ =~= Set::<Seq<Seq<char>>>::empty());
        r
    }
}

/// After `a` is added, `b` is found exactly when it is the same path as
/// `a` (as `Path` compares) or was held before; after `a` is removed, `b`
/// is found exactly when it is another path and was held before.
pub proof fn law_insert_remove_by_path(held: Set<Seq<Seq<char>>>, a: Seq<char>, b: Seq<char>)
    ensures
        held.insert(components(a)).contains(components(b)) <==> (same_path(a, b) || held.contains(components(b))),
        held.remove(components(a)).contains(components(b)) <==> (!same_path(a, b) && held.contains(components(b))),
{
}

} // verus!
