//! The set of datatypes that a literal is declared to have.

use vstd::prelude::*;
use vstd::std_specs::cmp::PartialEqSpecImpl;

verus! {

/// A finite set of datatype IRIs.
///
/// No IRI is kept twice, and the order in which the IRIs came plays no part:
/// two sets are equal when they hold the same IRIs.
#[derive(Debug)]
pub struct TypeSet {
    iris: Vec<String>,
}

impl DeepView for TypeSet {
    type V = Set<Seq<char>>;

    /// The IRIs that the set holds.
    closed spec fn deep_view(&self) -> Set<Seq<char>> {
        self.iris.deep_view().to_set()
    }
}

impl TypeSet {
    /// No IRI is kept twice.
    #[verifier::type_invariant]
    spec fn distinct(self) -> bool {
        self.iris.deep_view().no_duplicates()
    }

    /// The empty set.
    pub fn new() -> (set: TypeSet)
        ensures
            set.deep_view() == Set::<Seq<char>>::empty(),
    {
        TypeSet { iris: Vec::new() }
    }

    /// Whether `iri` is in the set.
    pub fn contains(&self, iri: &str) -> (found: bool)
        ensures
            found == self.deep_view().contains(iri@),
    {
        let probe = iri.to_owned();
        self.holds(&probe)
    }

    /// Whether `iri` is in the set.
    fn holds(&self, iri: &String) -> (found: bool)
        ensures
            found == self.deep_view().contains(iri@),
    {
        let mut i: usize = 0;
        while i < self.iris.len()
            invariant
                i <= self.iris.len(),
                forall|j: int| 0 <= j < i ==> self.iris.deep_view()[j] != iri@,
            decreases self.iris.len() - i,
        {
            if self.iris[i] == *iri {
                assert(self.iris.deep_view()[i as int] == iri@);
                return true;
            }
            i += 1;
        }
        false
    }

    /// Puts `iri` into the set. Returns whether it was absent before.
    pub fn insert(&mut self, iri: String) -> (added: bool)
        ensures
            final(self).deep_view() == old(self).deep_view().insert(iri@),
            added == !old(self).deep_view().contains(iri@),
    {
        proof {
            use_type_invariant(&*self);
        }
        if self.holds(&iri) {
            false
        } else {
            let ghost before = self.iris.deep_view();
            let mut iris: Vec<String> = Vec::new();
            core::mem::swap(&mut self.iris, &mut iris);
            iris.push(iri);
            assert(iris.deep_view() =~= before.push(iri@));
            proof {
                before.lemma_push_to_set_commute(iri@);
            }
            self.iris = iris;
            true
        }
    }

    /// The set is finite.
    pub proof fn lemma_is_finite(&self)
        ensures
            self.deep_view().finite(),
    {
    }

    /// The number of IRIs in the set.
    pub fn len(&self) -> (count: usize)
        ensures
            count == self.deep_view().len(),
            self.deep_view().finite(),
    {
        proof {
            use_type_invariant(self);
            self.iris.deep_view().unique_seq_to_set();
        }
        self.iris.len()
    }

    /// Whether the set holds no IRI.
    pub fn is_empty(&self) -> (empty: bool)
        ensures
            empty == self.deep_view().is_empty(),
    {
        proof {
            if self.iris@.len() > 0 {
                assert(self.iris.deep_view().to_set().contains(self.iris.deep_view()[0]));
            }
        }
        self.iris.len() == 0
    }

    /// The IRIs of the set, each once. Their order is not fixed.
    pub fn iris(&self) -> (iris: &Vec<String>)
        ensures
            iris.deep_view().no_duplicates(),
            iris.deep_view().to_set() == self.deep_view(),
    {
        proof {
            use_type_invariant(self);
        }
        &self.iris
    }
}

impl Clone for TypeSet {
    /// A set with the same IRIs.
    fn clone(&self) -> (copy: TypeSet)
        ensures
            copy.deep_view() == self.deep_view(),
    {
        proof {
            use_type_invariant(self);
        }
        let mut iris: Vec<String> = Vec::new();
        let mut i: usize = 0;
        while i < self.iris.len()
            invariant
                i <= self.iris.len(),
                iris@.len() == i,
                forall|j: int| 0 <= j < i ==> iris@[j]@ == self.iris@[j]@,
            decreases self.iris.len() - i,
        {
            iris.push(self.iris[i].clone());
            i += 1;
        }
        assert(iris.deep_view() =~= self.iris.deep_view());
        TypeSet { iris }
    }
}

impl PartialEq for TypeSet {
    /// Whether the two sets hold the same IRIs.
    fn eq(&self, other: &TypeSet) -> (equal: bool) {
        if self.len() != other.len() {
            return false;
        }
        let mut i: usize = 0;
        while i < self.iris.len()
            invariant
                i <= self.iris.len(),
                forall|j: int| 0 <= j < i ==> other.deep_view().contains(self.iris.deep_view()[j]),
            decreases self.iris.len() - i,
        {
            if !other.holds(&self.iris[i]) {
                assert(self.deep_view().contains(self.iris.deep_view()[i as int]));
                return false;
            }
            i += 1;
        }
        proof {
            vstd::set_lib::lemma_subset_equality(self.deep_view(), other.deep_view());
        }
        true
    }
}

impl PartialEqSpecImpl for TypeSet {
    open spec fn obeys_eq_spec() -> bool {
        true
    }

    open spec fn eq_spec(&self, other: &TypeSet) -> bool {
        self.deep_view() == other.deep_view()
    }
}

} // verus!
