//! The class names of a selector: a set of strings.

use vstd::prelude::*;
use vstd::std_specs::cmp::PartialEqSpecImpl;

verus! {

/// A set of class names. No name is held twice.
#[derive(Debug)]
pub struct ClassSet {
    names: Vec<String>,
}

impl View for ClassSet {
    type V = Set<Seq<char>>;

    closed spec fn view(&self) -> Set<Seq<char>> {
        self.order().to_set()
    }
}

impl ClassSet {
    /// The names in the order in which they were inserted.
    pub closed spec fn order(&self) -> Seq<Seq<char>> {
        Seq::new(self.names@.len(), |i: int| self.names@[i]@)
    }

    /// No name is held twice.
    #[verifier::type_invariant]
    closed spec fn wf(&self) -> bool {
        self.order().no_duplicates()
    }

    /// The names in their order are those of the set, each once.
    pub proof fn lemma_order(&self)
        requires
            self.order().no_duplicates(),
        ensures
            self.order().no_duplicates(),
            self.order().to_set() == self@,
            self.order().len() == self@.len(),
            self@.finite(),
    {
        self.order().unique_seq_to_set();
    }

    /// Creates an empty set.
    pub fn new() -> (r: ClassSet)
        ensures
            r@ == Set::<Seq<char>>::empty(),
            r.order() == Seq::<Seq<char>>::empty(),
    {
        ClassSet { names: Vec::new() }
    }

    /// Returns the number of names.
    pub fn len(&self) -> (r: usize)
        ensures
            r == self@.len(),
            self.order().no_duplicates(),
            self.order().len() == r,
    {
        proof {
            use_type_invariant(self);
            self.lemma_order();
        }
        self.names.len()
    }

    /// Returns the name at place `i` of the order of insertion.
    pub fn name(&self, i: usize) -> (r: &str)
        requires
            i < self.order().len(),
        ensures
            r@ == self.order()[i as int],
    {
        self.names[i].as_str()
    }

    /// Returns true if the set holds no name.
    pub fn is_empty(&self) -> (r: bool)
        ensures
            r == (self@ == Set::<Seq<char>>::empty()),
            r == (self@.len() == 0),
    {
        proof {
            use_type_invariant(self);
            self.lemma_order();
            if self.names@.len() == 0 {
                assert(self@ =~= Set::empty());
            }
        }
        self.names.len() == 0
    }

    /// Returns true if the set holds `name`.
    pub fn contains(&self, name: &str) -> (r: bool)
        ensures
            r == self@.contains(name@),
    {
        let owned = name.to_owned();
        let mut i: usize = 0;
        while i < self.names.len()
            invariant
                i <= self.names@.len(),
                owned@ == name@,
                forall|j: int| 0 <= j < i ==> self.order()[j] != name@,
            decreases self.names@.len() - i,
        {
            if self.names[i] == owned {
                proof {
                    assert(self.order()[i as int] == name@);
                }
                return true;
            }
            i += 1;
        }
        false
    }

    /// Puts `name` into the set. Returns true if it was not there before.
    pub fn insert(&mut self, name: &str) -> (r: bool)
        ensures
            final(self)@ == old(self)@.insert(name@),
            r == !old(self)@.contains(name@),
            final(self).order() == if r {
                old(self).order().push(name@)
            } else {
                old(self).order()
            },
    {
        if self.contains(name) {
            false
        } else {
            let ghost before = self.order();
            let owned = name.to_owned();
            proof {
                use_type_invariant(&*self);
                let after = Seq::new(
                    self.names@.push(owned).len(),
                    |i: int| self.names@.push(owned)[i]@,
                );
                assert(after =~= before.push(name@));
            }
            let mut taken = ClassSet { names: Vec::new() };
            core::mem::swap(self, &mut taken);
            let ClassSet { names: mut names } = taken;
            names.push(owned);
            *self = ClassSet { names };
            proof {
                assert(self@ =~= before.to_set().insert(name@)) by {
                    assert forall|t: Seq<char>|
                        before.to_set().insert(name@).contains(t) implies self@.contains(t) by {
                        if t == name@ {
                            assert(self.order()[before.len() as int] == t);
                        } else {
                            let i = choose|i: int| 0 <= i < before.len() && before[i] == t;
                            assert(self.order()[i] == t);
                        }
                    }
                }
            }
            true
        }
    }

    /// Returns true if `other` holds every name of this set.
    pub fn is_subset(&self, other: &ClassSet) -> (r: bool)
        ensures
            r == self@.subset_of(other@),
    {
        let mut i: usize = 0;
        while i < self.names.len()
            invariant
                i <= self.names@.len(),
                forall|j: int| 0 <= j < i ==> other@.contains(self.order()[j]),
            decreases self.names@.len() - i,
        {
            if !other.contains(self.names[i].as_str()) {
                proof {
                    assert(self.order()[i as int] == self.names@[i as int]@);
                }
                return false;
            }
            i += 1;
        }
        true
    }
}

impl Clone for ClassSet {
    fn clone(&self) -> (r: ClassSet)
        ensures
            r@ == self@,
            r.order() == self.order(),
    {
        let names = self.names.clone();
        proof {
            use_type_invariant(self);
        }
        ClassSet { names }
    }
}

impl PartialEqSpecImpl for ClassSet {
    open spec fn obeys_eq_spec() -> bool {
        true
    }

    open spec fn eq_spec(&self, other: &ClassSet) -> bool {
        self@ == other@
    }
}

impl PartialEq for ClassSet {
    /// Two sets are equal when they hold the same names.
    fn eq(&self, other: &ClassSet) -> (r: bool) {
        proof {
            use_type_invariant(self);
            use_type_invariant(other);
            self.lemma_order();
            other.lemma_order();
        }
        if self.names.len() != other.names.len() {
            return false;
        }
        let r = self.is_subset(other);
        proof {
            if r {
                vstd::set_lib::lemma_subset_equality(self@, other@);
            }
        }
        r
    }
}

} // verus!
