//! Sets of dotted field paths.
//!
//! A [`PathSet`] is viewed as a mathematical set of texts. It keeps its paths
//! in a vector in which no text occurs twice, so that the length of the vector
//! is the size of the set.

use vstd::prelude::*;
use vstd::string::*;
use crate::naming::str_eq;

verus! {

/// The texts that a sequence of strings holds.
pub open spec fn texts(items: Seq<String>) -> Seq<Seq<char>> {
    items.map_values(|s: String| s@)
}

/// The path `path` below the field `name`: the two joined by a dot.
pub open spec fn qualified(name: Seq<char>, path: Seq<char>) -> Seq<char> {
    name + seq!['.'] + path
}

/// Every path of `paths` below the field `name`.
pub open spec fn qualified_all(name: Seq<char>, paths: Set<Seq<char>>) -> Set<Seq<char>> {
    paths.map(|path: Seq<char>| qualified(name, path))
}

/// Joins a field name and a path below it by a dot.
pub fn qualify(name: &str, path: &str) -> (r: String)
    ensures
        r@ == qualified(name@, path@),
{
    let mut joined = String::from_str(name);
    joined.push('.');
    joined.append(path);
    assert(joined@ =~= qualified(name@, path@));
    joined
}

/// A finite set of paths.
#[derive(Debug)]
pub struct PathSet {
    items: Vec<String>,
}

impl View for PathSet {
    type V = Set<Seq<char>>;

    closed spec fn view(&self) -> Set<Seq<char>> {
        texts(self.items@).to_set()
    }
}

impl PathSet {
    #[verifier::type_invariant]
    spec fn distinct(&self) -> bool {
        texts(self.items@).no_duplicates()
    }

    /// The empty set.
    pub fn new() -> (s: PathSet)
        ensures
            s@ == Set::<Seq<char>>::empty(),
    {
        let s = PathSet { items: Vec::new() };
        assert(texts(s.items@).to_set() =~= Set::<Seq<char>>::empty());
        s
    }

    /// The number of paths in the set.
    pub fn len(&self) -> (n: usize)
        ensures
            self@.finite(),
            n == self@.len(),
    {
        proof {
            use_type_invariant(self);
            texts(self.items@).unique_seq_to_set();
            vstd::seq_lib::seq_to_set_is_finite(texts(self.items@));
        }
        self.items.len()
    }

    /// Whether the set holds no path.
    pub fn is_empty(&self) -> (empty: bool)
        ensures
            empty == (self@ == Set::<Seq<char>>::empty()),
    {
        proof {
            if self.items@.len() > 0 {
                assert(texts(self.items@)[0] == self.items@[0]@);
                assert(self@.contains(self.items@[0]@));
            } else {
                assert(self@ =~= Set::<Seq<char>>::empty());
            }
        }
        self.items.len() == 0
    }

    /// Whether `path` is in the set.
    pub fn contains(&self, path: &str) -> (found: bool)
        ensures
            found == self@.contains(path@),
    {
        let mut i: usize = 0;
        while i < self.items.len()
            invariant
                i <= self.items.len(),
                forall|j: int| 0 <= j < i ==> texts(self.items@)[j] != path@,
            decreases self.items.len() - i,
        {
            if str_eq(self.items[i].as_str(), path) {
                assert(texts(self.items@)[i as int] == path@);
                return true;
            }
            i += 1;
        }
        false
    }

    /// The paths of the set, each once.
    pub fn paths(&self) -> (items: &Vec<String>)
        ensures
            texts(items@).to_set() == self@,
            texts(items@).no_duplicates(),
    {
        proof {
            use_type_invariant(self);
        }
        &self.items
    }

    /// Puts `path` into the set. Says whether it was new.
    pub fn insert(&mut self, path: String) -> (added: bool)
        ensures
            final(self)@ == old(self)@.insert(path@),
            added == !old(self)@.contains(path@),
    {
        proof {
            use_type_invariant(&*self);
        }
        if self.contains(path.as_str()) {
            assert(self@.insert(path@) =~= self@);
            false
        } else {
            let mut items: Vec<String> = Vec::new();
            core::mem::swap(&mut self.items, &mut items);
            proof {
                assert(texts(items@.push(path)) =~= texts(items@).push(path@));
                texts(items@).lemma_push_to_set_commute(path@);
            }
            items.push(path);
            core::mem::swap(&mut self.items, &mut items);
            true
        }
    }

    /// Puts every path of `other` into the set.
    pub fn extend(&mut self, other: &PathSet)
        ensures
            final(self)@ == old(self)@.union(other@),
    {
        let mut i: usize = 0;
        assert(texts(other.items@.take(0)).to_set() =~= Set::<Seq<char>>::empty());
        assert(self@.union(Set::<Seq<char>>::empty()) =~= self@);
        while i < other.items.len()
            invariant
                i <= other.items.len(),
                self@ == old(self)@.union(texts(other.items@.take(i as int)).to_set()),
            decreases other.items.len() - i,
        {
            proof {
                let seen = texts(other.items@.take(i as int));
                assert(texts(other.items@.take(i + 1)) =~= seen.push(other.items@[i as int]@));
                seen.lemma_push_to_set_commute(other.items@[i as int]@);
                assert(old(self)@.union(seen.to_set()).insert(other.items@[i as int]@) =~= old(
                    self,
                )@.union(seen.to_set().insert(other.items@[i as int]@)));
            }
            self.insert(other.items[i].clone());
            i += 1;
        }
        assert(other.items@.take(other.items@.len() as int) =~= other.items@);
    }

    /// Puts every path of `other` into the set, each below the field `name`.
    pub fn extend_qualified(&mut self, name: &str, other: &PathSet)
        ensures
            final(self)@ == old(self)@.union(qualified_all(name@, other@)),
    {
        let ghost below = |path: Seq<char>| qualified(name@, path);
        let mut i: usize = 0;
        assert(texts(other.items@.take(0)).to_set().map(below) =~= Set::<Seq<char>>::empty());
        assert(self@.union(Set::<Seq<char>>::empty()) =~= self@);
        while i < other.items.len()
            invariant
                i <= other.items.len(),
                below == (|path: Seq<char>| qualified(name@, path)),
                self@ == old(self)@.union(texts(other.items@.take(i as int)).to_set().map(below)),
            decreases other.items.len() - i,
        {
            proof {
                let seen = texts(other.items@.take(i as int));
                let path = other.items@[i as int]@;
                assert(texts(other.items@.take(i + 1)) =~= seen.push(path));
                seen.lemma_push_to_set_commute(path);
                seen.to_set().lemma_set_map_insert_commute(path, below);
                assert(old(self)@.union(seen.to_set().map(below)).insert(below(path)) =~= old(
                    self,
                )@.union(seen.to_set().map(below).insert(below(path))));
            }
            self.insert(qualify(name, other.items[i].as_str()));
            i += 1;
        }
        assert(other.items@.take(other.items@.len() as int) =~= other.items@);
    }
}

} // verus!
