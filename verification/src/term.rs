//! Keywords, references and terms: what a key or a type name of a document
//! becomes once it has been resolved against an active context.

use vstd::prelude::*;

verus! {

/// A reserved identifier of the document syntax.
#[derive(Clone, Copy, Debug, PartialEq, Eq, Hash, Structural)]
pub enum Keyword {
    /// `@base`
    Base,
    /// `@container`
    Container,
    /// `@context`
    Context,
    /// `@direction`
    Direction,
    /// `@graph`
    Graph,
    /// `@id`
    Id,
    /// `@import`
    Import,
    /// `@included`
    Included,
    /// `@index`
    Index,
    /// `@json`
    Json,
    /// `@language`
    Language,
    /// `@list`
    List,
    /// `@nest`
    Nest,
    /// `@none`
    NoneKeyword,
    /// `@prefix`
    Prefix,
    /// `@propagate`
    Propagate,
    /// `@protected`
    Protected,
    /// `@reverse`
    Reverse,
    /// `@set`
    SetKeyword,
    /// `@type`
    Type,
    /// `@value`
    Value,
    /// `@version`
    Version,
    /// `@vocab`
    Vocab,
}

/// An identifier of a node or of a datatype.
#[derive(Debug, PartialEq, Eq, Hash)]
pub enum Reference {
    /// An IRI reference.
    Iri(String),
    /// A blank node identifier.
    Blank(String),
}

/// The mathematical model of a [`Reference`].
pub enum ReferenceModel {
    Iri(Seq<char>),
    Blank(Seq<char>),
}

impl DeepView for Reference {
    type V = ReferenceModel;

    open spec fn deep_view(&self) -> ReferenceModel {
        match self {
            Reference::Iri(iri) => ReferenceModel::Iri(iri@),
            Reference::Blank(label) => ReferenceModel::Blank(label@),
        }
    }
}

impl Clone for Reference {
    /// The same reference.
    fn clone(&self) -> (copy: Reference)
        ensures
            copy.deep_view() == self.deep_view(),
    {
        match self {
            Reference::Iri(iri) => Reference::Iri(iri.clone()),
            Reference::Blank(label) => Reference::Blank(label.clone()),
        }
    }
}

/// What a string resolves to against an active context.
#[derive(Debug, PartialEq, Eq, Hash)]
pub enum Term {
    /// A keyword.
    Keyword(Keyword),
    /// A reference to a node or a datatype.
    Ref(Reference),
    /// The string could not be resolved; it is kept as it was.
    Unresolved(String),
}

/// The mathematical model of a [`Term`].
pub enum TermModel {
    Keyword(Keyword),
    Ref(ReferenceModel),
    Unresolved(Seq<char>),
}

impl DeepView for Term {
    type V = TermModel;

    open spec fn deep_view(&self) -> TermModel {
        match self {
            Term::Keyword(keyword) => TermModel::Keyword(*keyword),
            Term::Ref(reference) => TermModel::Ref(reference.deep_view()),
            Term::Unresolved(text) => TermModel::Unresolved(text@),
        }
    }
}

impl Clone for Term {
    /// The same term.
    fn clone(&self) -> (copy: Term)
        ensures
            copy.deep_view() == self.deep_view(),
    {
        match self {
            Term::Keyword(keyword) => Term::Keyword(*keyword),
            Term::Ref(reference) => Term::Ref(reference.clone()),
            Term::Unresolved(text) => Term::Unresolved(text.clone()),
        }
    }
}

} // verus!
