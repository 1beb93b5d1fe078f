//! Literals and language-tagged strings: what a value object expands to.

use crate::raw::{RawModel, RawValue};
use crate::type_set::TypeSet;
use vstd::prelude::*;

verus! {

/// The base direction of a text.
#[derive(Clone, Copy, Debug, PartialEq, Eq, Hash, Structural)]
pub enum Direction {
    /// `"ltr"`
    LeftToRight,
    /// `"rtl"`
    RightToLeft,
}

impl Direction {
    /// The direction that `name` names, if it names one: `"ltr"` and `"rtl"`
    /// do, and nothing else does.
    pub open spec fn named(name: Seq<char>) -> Option<Direction> {
        if name == "ltr"@ {
            Some(Direction::LeftToRight)
        } else if name == "rtl"@ {
            Some(Direction::RightToLeft)
        } else {
            None
        }
    }

    /// Reads a direction from its name.
    pub fn from_name(name: &str) -> (direction: Option<Direction>)
        ensures
            direction == Direction::named(name@),
    {
        let name = name.to_owned();
        if name == "ltr".to_owned() {
            Some(Direction::LeftToRight)
        } else if name == "rtl".to_owned() {
            Some(Direction::RightToLeft)
        } else {
            None
        }
    }

    /// The name of the direction.
    pub fn name(&self) -> (name: &'static str)
        ensures
            Direction::named(name@) == Some(*self),
    {
        proof {
            reveal_strlit("ltr");
            reveal_strlit("rtl");
            assert("rtl"@[0] != "ltr"@[0]);
        }
        match self {
            Direction::LeftToRight => "ltr",
            Direction::RightToLeft => "rtl",
        }
    }
}

/// A scalar, or a raw structured value kept as it was.
#[derive(Debug, PartialEq)]
pub enum Literal {
    /// The absence of a value.
    Null,
    /// A text.
    String(String),
    /// A number, exactly as the document gave it.
    Number(json::number::Number),
    /// A truth value.
    Boolean(bool),
    /// A structured value of any shape, copied from the document.
    Json(RawValue),
}

/// The mathematical model of a [`Literal`].
pub enum LiteralModel {
    Null,
    String(Seq<char>),
    Number(json::number::Number),
    Boolean(bool),
    Json(RawModel),
}

impl DeepView for Literal {
    type V = LiteralModel;

    open spec fn deep_view(&self) -> LiteralModel {
        match self {
            Literal::Null => LiteralModel::Null,
            Literal::String(text) => LiteralModel::String(text@),
            Literal::Number(number) => LiteralModel::Number(*number),
            Literal::Boolean(truth) => LiteralModel::Boolean(*truth),
            Literal::Json(raw) => LiteralModel::Json(raw.deep_view()),
        }
    }
}

impl Clone for Literal {
    /// The same literal; a structured value is copied whole.
    fn clone(&self) -> (copy: Literal)
        ensures
            copy.deep_view() == self.deep_view(),
    {
        match self {
            Literal::Null => Literal::Null,
            Literal::String(text) => Literal::String(text.clone()),
            Literal::Number(number) => Literal::Number(*number),
            Literal::Boolean(truth) => Literal::Boolean(*truth),
            Literal::Json(raw) => Literal::Json(raw.clone()),
        }
    }
}

/// A text together with its language and its base direction, as far as it
/// has them.
#[derive(Debug, PartialEq, Eq, Hash)]
pub struct LangString {
    text: String,
    language: Option<String>,
    direction: Option<Direction>,
}

/// The mathematical model of a [`LangString`].
pub struct LangStringModel {
    pub text: Seq<char>,
    pub language: Option<Seq<char>>,
    pub direction: Option<Direction>,
}

impl DeepView for LangString {
    type V = LangStringModel;

    /// The text, the language and the direction as they were given.
    closed spec fn deep_view(&self) -> LangStringModel {
        LangStringModel {
            text: self.text@,
            language: self.language.deep_view(),
            direction: self.direction,
        }
    }
}

impl LangString {
    /// The text `text` in the language `language`, if any, and with the base
    /// direction `direction`, if any.
    pub fn new(text: String, language: Option<String>, direction: Option<Direction>) -> (tagged:
        LangString)
        ensures
            tagged.deep_view() == (LangStringModel {
                text: text@,
                language: language.deep_view(),
                direction,
            }),
    {
        LangString { text, language, direction }
    }

    /// The text.
    pub fn as_str(&self) -> (text: &str)
        ensures
            text@ == self.deep_view().text,
    {
        self.text.as_str()
    }

    /// The language of the text, if it has one.
    pub fn language(&self) -> (language: Option<&str>)
        ensures
            language.deep_view() == self.deep_view().language,
    {
        match &self.language {
            Some(tag) => Some(tag.as_str()),
            None => None,
        }
    }

    /// The base direction of the text, if it has one.
    pub fn direction(&self) -> (direction: Option<Direction>)
        ensures
            direction == self.deep_view().direction,
    {
        self.direction
    }
}

impl Clone for LangString {
    /// The same text with the same language and direction.
    fn clone(&self) -> (copy: LangString)
        ensures
            copy.deep_view() == self.deep_view(),
    {
        let language = match &self.language {
            Some(tag) => Some(tag.clone()),
            None => None,
        };
        LangString { text: self.text.clone(), language, direction: self.direction }
    }
}

/// What a value object expands to.
#[derive(Debug, PartialEq)]
pub enum Value {
    /// A literal with the datatypes it is declared to have.
    TypedLiteral(Literal, TypeSet),
    /// A language-tagged string.
    LangString(LangString),
}

/// The mathematical model of a [`Value`].
pub enum ValueModel {
    TypedLiteral(LiteralModel, Set<Seq<char>>),
    LangString(LangStringModel),
}

impl DeepView for Value {
    type V = ValueModel;

    open spec fn deep_view(&self) -> ValueModel {
        match self {
            Value::TypedLiteral(literal, types) => ValueModel::TypedLiteral(
                literal.deep_view(),
                types.deep_view(),
            ),
            Value::LangString(tagged) => ValueModel::LangString(tagged.deep_view()),
        }
    }
}

impl Clone for Value {
    /// The same value, with the same datatypes where it has any.
    fn clone(&self) -> (copy: Value)
        ensures
            copy.deep_view() == self.deep_view(),
    {
        match self {
            Value::TypedLiteral(literal, types) => Value::TypedLiteral(
                literal.clone(),
                types.clone(),
            ),
            Value::LangString(tagged) => Value::LangString(tagged.clone()),
        }
    }
}

/// An object together with the index it was filed under, if any.
#[derive(Clone, Debug, PartialEq, Eq, Hash)]
pub struct Indexed<T> {
    value: T,
    index: Option<String>,
}

/// The mathematical model of an [`Indexed`] object, over the model `V` of the
/// object itself.
pub struct IndexedModel<V> {
    pub value: V,
    pub index: Option<Seq<char>>,
}

impl<T: DeepView> DeepView for Indexed<T> {
    type V = IndexedModel<T::V>;

    /// The model of the object, and the index as it was given.
    closed spec fn deep_view(&self) -> IndexedModel<T::V> {
        IndexedModel { value: self.value.deep_view(), index: self.index.deep_view() }
    }
}

impl<T: DeepView> Indexed<T> {
    /// The object `value`, filed under `index` if there is one.
    pub fn new(value: T, index: Option<String>) -> (indexed: Indexed<T>)
        ensures
            indexed.deep_view() == (IndexedModel {
                value: value.deep_view(),
                index: index.deep_view(),
            }),
    {
        Indexed { value, index }
    }

    /// The object itself.
    pub fn inner(&self) -> (value: &T)
        ensures
            value.deep_view() == self.deep_view().value,
    {
        &self.value
    }

    /// The index that the object is filed under, if any.
    pub fn index(&self) -> (index: Option<&str>)
        ensures
            index.deep_view() == self.deep_view().index,
    {
        match &self.index {
            Some(index) => Some(index.as_str()),
            None => None,
        }
    }

    /// The object and its index, taken apart.
    pub fn into_parts(self) -> (parts: (T, Option<String>))
        ensures
            parts.0.deep_view() == self.deep_view().value,
            parts.1.deep_view() == self.deep_view().index,
    {
        (self.value, self.index)
    }
}

} // verus!
