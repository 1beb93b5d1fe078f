//! Active contexts, as far as value expansion needs them: something that
//! resolves the name of a type.

use crate::term::{Term, TermModel};
use vstd::prelude::*;

verus! {

/// An active context.
///
/// A context resolves a string to a term, and resolves equal strings alike:
/// what it answers is a function of the context, the string and the two
/// flags.
pub trait Context {
    /// The term that `value` resolves to against this context.
    /// `document_relative` says whether a relative reference may be resolved
    /// against the base of the document, `vocab` whether `value` may be a
    /// term of the vocabulary.
    spec fn expansion(&self, value: Seq<char>, document_relative: bool, vocab: bool) -> TermModel;

    /// Resolves `value` against this context.
    fn expand_iri(&self, value: &str, document_relative: bool, vocab: bool) -> (term: Term)
        ensures
            term.deep_view() == self.expansion(value@, document_relative, vocab),
    ;
}

/// A context that is a list of definitions, each of a name and the term it
/// stands for. A name resolves to the term of its first definition, whatever
/// the flags; a string that the list does not define is unresolved.
#[derive(Debug)]
pub struct Definitions {
    entries: Vec<(String, Term)>,
}

/// The term that the first definition of `value` in `definitions` gives it,
/// if there is one.
pub open spec fn first_definition(
    definitions: Seq<(Seq<char>, TermModel)>,
    value: Seq<char>,
) -> Option<TermModel>
    decreases definitions.len(),
{
    if definitions.len() == 0 {
        None
    } else if definitions[0].0 == value {
        Some(definitions[0].1)
    } else {
        first_definition(definitions.drop_first(), value)
    }
}

impl DeepView for Definitions {
    type V = Seq<(Seq<char>, TermModel)>;

    /// The definitions in their order, each as a name and the model of its
    /// term.
    closed spec fn deep_view(&self) -> Seq<(Seq<char>, TermModel)> {
        self.entries.deep_view()
    }
}

impl Definitions {
    /// The context with the definitions `entries`, in that order.
    pub fn new(entries: Vec<(String, Term)>) -> (context: Definitions)
        ensures
            context.deep_view() == entries.deep_view(),
    {
        Definitions { entries }
    }
}

impl Clone for Definitions {
    /// A context with the same definitions.
    fn clone(&self) -> (copy: Definitions)
        ensures
            copy.deep_view() == self.deep_view(),
    {
        let mut entries: Vec<(String, Term)> = Vec::new();
        let mut i: usize = 0;
        while i < self.entries.len()
            invariant
                i <= self.entries.len(),
                entries.len() == i,
                forall|j: int|
                    0 <= j < i ==> entries@[j].deep_view() == self.entries@[j].deep_view(),
            decreases self.entries.len() - i,
        {
            entries.push((self.entries[i].0.clone(), self.entries[i].1.clone()));
            i += 1;
        }
        assert(entries.deep_view() =~= self.entries.deep_view());
        Definitions { entries }
    }
}

impl Context for Definitions {
    open spec fn expansion(
        &self,
        value: Seq<char>,
        document_relative: bool,
        vocab: bool,
    ) -> TermModel {
        match first_definition(self.deep_view(), value) {
            Some(term) => term,
            None => TermModel::Unresolved(value),
        }
    }

    fn expand_iri(&self, value: &str, document_relative: bool, vocab: bool) -> (term: Term) {
        let name = value.to_owned();
        let ghost all = self.deep_view();
        let mut i: usize = 0;
        assert(all.skip(0) =~= all);
        while i < self.entries.len()
            invariant
                i <= self.entries.len(),
                name@ == value@,
                all == self.deep_view(),
                first_definition(all.skip(i as int), value@) == first_definition(all, value@),
            decreases self.entries.len() - i,
        {
            assert(all.skip(i as int).drop_first() =~= all.skip(i as int + 1));
            if self.entries[i].0 == name {
                return self.entries[i].1.clone();
            }
            i += 1;
        }
        Term::Unresolved(name)
    }
}

} // verus!
