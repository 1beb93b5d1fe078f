//! The expansion of a value object, step by step.

use crate::context::Context;
use crate::error::{outcome, Error, ErrorCode};
use crate::expansion::declared::{
    is_type_name, is_type_name_at, lemma_fold_is_declared, value_expansion,
};
use crate::expansion::model::{
    concluded, seeded, started, type_members, with_direction, with_entries, with_entry,
    with_index, with_language, with_resolved_type, with_type, with_types, AccumulatorModel,
    EntryModel,
};
use crate::literal::{Direction, Indexed, LangString, Literal, Value};
use crate::raw::RawValue;
use crate::term::{Keyword, Reference, Term, TermModel};
use crate::type_set::TypeSet;
use vstd::prelude::*;

verus! {

/// An entry of a value object whose key has been resolved already.
#[derive(Debug, PartialEq)]
pub struct Entry<'a> {
    /// The key as the document wrote it.
    pub key: &'a str,
    /// The term that the key resolved to.
    pub term: Term,
    /// The payload found under the key.
    pub value: &'a RawValue,
}

impl<'a> DeepView for Entry<'a> {
    type V = EntryModel;

    open spec fn deep_view(&self) -> EntryModel {
        EntryModel {
            key: self.key@,
            term: self.term.deep_view(),
            value: self.value.deep_view(),
        }
    }
}

impl<'a> Clone for Entry<'a> {
    /// The same entry: the key and the payload are shared, the term is copied.
    fn clone(&self) -> (copy: Entry<'a>)
        ensures
            copy.deep_view() == self.deep_view(),
    {
        Entry { key: self.key, term: self.term.clone(), value: self.value }
    }
}

/// The state that the fold over the entries carries along.
#[derive(Debug, PartialEq)]
pub struct Accumulator {
    /// The working literal.
    pub literal: Literal,
    /// The `@index` seen last, if any.
    pub index: Option<String>,
    /// The datatypes declared so far.
    pub types: TypeSet,
    /// The `@language` seen last, if any but `"@none"`.
    pub language: Option<String>,
    /// The `@direction` seen last, if any.
    pub direction: Option<Direction>,
}

impl DeepView for Accumulator {
    type V = AccumulatorModel;

    open spec fn deep_view(&self) -> AccumulatorModel {
        AccumulatorModel {
            literal: self.literal.deep_view(),
            index: self.index.deep_view(),
            types: self.types.deep_view(),
            language: self.language.deep_view(),
            direction: self.direction,
        }
    }
}

impl Clone for Accumulator {
    /// The same state.
    fn clone(&self) -> (copy: Accumulator)
        ensures
            copy.deep_view() == self.deep_view(),
    {
        let index = match &self.index {
            Some(index) => Some(index.clone()),
            None => None,
        };
        let language = match &self.language {
            Some(tag) => Some(tag.clone()),
            None => None,
        };
        Accumulator {
            literal: self.literal.clone(),
            index,
            types: self.types.clone(),
            language,
            direction: self.direction,
        }
    }
}

impl Accumulator {
    /// The state before any entry has been folded in.
    pub fn new(literal: Literal) -> (state: Accumulator)
        ensures
            state.deep_view() == started(literal.deep_view()),
    {
        Accumulator { literal, index: None, types: TypeSet::new(), language: None, direction: None }
    }
}

/// Seeds the working literal from the payload under `@value`.
///
/// Where `input_type` is `@json` the payload is copied whole. Otherwise null
/// and the scalars become the literal of their kind, and an array or an
/// object is refused with `InvalidValueObjectValue`.
pub fn seed_literal(input_type: &Option<Term>, value: &RawValue) -> (seed: Result<Literal, Error>)
    ensures
        outcome(seed) == seeded(input_type.deep_view(), value.deep_view()),
{
    let typed_json = match input_type {
        Some(Term::Keyword(Keyword::Json)) => true,
        _ => false,
    };
    if typed_json {
        Ok(Literal::Json(value.clone()))
    } else {
        match value {
            RawValue::Null => Ok(Literal::Null),
            RawValue::String(text) => Ok(Literal::String(text.clone())),
            RawValue::Number(number) => Ok(Literal::Number(*number)),
            RawValue::Boolean(truth) => Ok(Literal::Boolean(*truth)),
            RawValue::Array(_) => Err(Error::new(ErrorCode::InvalidValueObjectValue)),
            RawValue::Object(_) => Err(Error::new(ErrorCode::InvalidValueObjectValue)),
        }
    }
}

/// Folds an `@language` entry into the state.
///
/// The payload has to be a string, else the entry is refused with
/// `InvalidLanguageTaggedString`. The string `"@none"` leaves the language
/// as it was; any other string becomes the language, well-formed or not.
pub fn fold_language(state: Accumulator, value: &RawValue) -> (next: Result<Accumulator, Error>)
    ensures
        outcome(next) == with_language(state.deep_view(), value.deep_view()),
{
    match value {
        RawValue::String(tag) => {
            let mut state = state;
            if *tag != "@none".to_owned() {
                state.language = Some(tag.clone());
            }
            Ok(state)
        },
        _ => Err(Error::new(ErrorCode::InvalidLanguageTaggedString)),
    }
}

/// Folds an `@direction` entry into the state.
///
/// The payload has to be the string `"ltr"` or the string `"rtl"`, else the
/// entry is refused with `InvalidBaseDirection`.
pub fn fold_direction(state: Accumulator, value: &RawValue) -> (next: Result<Accumulator, Error>)
    ensures
        outcome(next) == with_direction(state.deep_view(), value.deep_view()),
{
    match value {
        RawValue::String(name) => match Direction::from_name(name.as_str()) {
            Some(direction) => {
                let mut state = state;
                state.direction = Some(direction);
                Ok(state)
            },
            None => Err(Error::new(ErrorCode::InvalidBaseDirection)),
        },
        _ => Err(Error::new(ErrorCode::InvalidBaseDirection)),
    }
}

/// Folds an `@index` entry into the state.
///
/// The payload has to be a string, else the entry is refused with
/// `InvalidIndexValue`.
pub fn fold_index(state: Accumulator, value: &RawValue) -> (next: Result<Accumulator, Error>)
    ensures
        outcome(next) == with_index(state.deep_view(), value.deep_view()),
{
    match value {
        RawValue::String(index) => {
            let mut state = state;
            state.index = Some(index.clone());
            Ok(state)
        },
        _ => Err(Error::new(ErrorCode::InvalidIndexValue)),
    }
}

/// Folds into the state a type name that the context resolved to `resolved`.
///
/// `@json` makes a copy of the whole `payload` the working literal. An IRI
/// joins the datatypes. A blank node, another keyword or an unresolved name
/// is refused with `InvalidTypedValue`.
pub fn fold_resolved_type(state: Accumulator, resolved: Term, payload: &RawValue) -> (next: Result<
    Accumulator,
    Error,
>)
    ensures
        outcome(next) == with_resolved_type(
            state.deep_view(),
            resolved.deep_view(),
            payload.deep_view(),
        ),
{
    match resolved {
        Term::Keyword(Keyword::Json) => {
            let mut state = state;
            state.literal = Literal::Json(payload.clone());
            Ok(state)
        },
        Term::Ref(Reference::Iri(iri)) => {
            let mut state = state;
            state.types.insert(iri);
            Ok(state)
        },
        _ => Err(Error::new(ErrorCode::InvalidTypedValue)),
    }
}

/// Folds one member of an `@type` payload into the state.
///
/// The member has to be a string, else it is refused with
/// `InvalidTypeValue`. `context` resolves the string, relative to the
/// vocabulary and to the document, and [`fold_resolved_type`] does the rest.
pub fn fold_type<C: Context>(
    context: &C,
    state: Accumulator,
    member: &RawValue,
    payload: &RawValue,
) -> (next: Result<Accumulator, Error>)
    ensures
        outcome(next) == with_type(
            context,
            state.deep_view(),
            member.deep_view(),
            payload.deep_view(),
        ),
{
    match member {
        RawValue::String(name) => {
            let resolved = context.expand_iri(name.as_str(), true, true);
            fold_resolved_type(state, resolved, payload)
        },
        _ => Err(Error::new(ErrorCode::InvalidTypeValue)),
    }
}

/// Folds an `@type` entry into the state: each member of an array in turn,
/// and a value that is no array as the one member it is.
pub fn fold_types<C: Context>(
    context: &C,
    state: Accumulator,
    value: &RawValue,
    payload: &RawValue,
) -> (next: Result<Accumulator, Error>)
    ensures
        outcome(next) == with_types(
            context,
            state.deep_view(),
            type_members(value.deep_view()),
            payload.deep_view(),
        ),
{
    match value {
        RawValue::Array(members) => {
            let ghost all = type_members(value.deep_view());
            let ghost goal = with_types(context, state.deep_view(), all, payload.deep_view());
            let mut current = state;
            let mut i: usize = 0;
            assert(all.skip(0) =~= all);
            while i < members.len()
                invariant
                    i <= members.len(),
                    all.len() == members.len(),
                    forall|j: int| 0 <= j < members.len() ==> all[j] == members@[j].deep_view(),
                    goal == with_types(context, state.deep_view(), all, payload.deep_view()),
                    goal == with_types(
                        context,
                        current.deep_view(),
                        all.skip(i as int),
                        payload.deep_view(),
                    ),
                    all == type_members(value.deep_view()),
                decreases members.len() - i,
            {
                assert(all.skip(i as int).drop_first() =~= all.skip(i as int + 1));
                match fold_type(context, current, &members[i], payload) {
                    Ok(next) => {
                        current = next;
                    },
                    Err(error) => {
                        return Err(error);
                    },
                }
                i += 1;
            }
            Ok(current)
        },
        _ => {
            proof {
                reveal_with_fuel(with_types, 2);
            }
            fold_type(context, state, value, payload)
        },
    }
}

/// Folds one entry into the state.
///
/// The key of the entry decides: `@language`, `@direction`, `@index` and
/// `@type` have their own rules, `@value` has been read already and changes
/// nothing, and any other key is refused with `InvalidValueObject`.
pub fn fold_entry<C: Context>(
    context: &C,
    state: Accumulator,
    entry: &Entry<'_>,
    payload: &RawValue,
) -> (next: Result<Accumulator, Error>)
    ensures
        outcome(next) == with_entry(
            context,
            state.deep_view(),
            entry.deep_view(),
            payload.deep_view(),
        ),
{
    match &entry.term {
        Term::Keyword(Keyword::Language) => fold_language(state, entry.value),
        Term::Keyword(Keyword::Direction) => fold_direction(state, entry.value),
        Term::Keyword(Keyword::Index) => fold_index(state, entry.value),
        Term::Keyword(Keyword::Type) => fold_types(context, state, entry.value, payload),
        Term::Keyword(Keyword::Value) => Ok(state),
        _ => Err(Error::new(ErrorCode::InvalidValueObject)),
    }
}

/// Concludes the expansion once every entry has been folded in.
///
/// A null literal gives no value, and that is no error. With a language or
/// a direction, a datatype is refused with `InvalidValueObject` and a
/// literal that is no string with `InvalidLanguageTaggedValue`; a string
/// becomes a language-tagged string. Without them the literal is returned
/// with its datatypes.
pub fn conclude(state: Accumulator) -> (result: Result<Option<Indexed<Value>>, Error>)
    ensures
        outcome(result) == concluded(state.deep_view()),
{
    let Accumulator { literal, index, types, language, direction } = state;
    if let Literal::Null = literal {
        return Ok(None);
    }
    if language.is_some() || direction.is_some() {
        if !types.is_empty() {
            return Err(Error::new(ErrorCode::InvalidValueObject));
        }
        match literal {
            Literal::String(text) => {
                let tagged = LangString::new(text, language, direction);
                Ok(Some(Indexed::new(Value::LangString(tagged), index)))
            },
            _ => Err(Error::new(ErrorCode::InvalidLanguageTaggedValue)),
        }
    } else {
        Ok(Some(Indexed::new(Value::TypedLiteral(literal, types), index)))
    }
}

/// The names that a context is asked to resolve for an object with the
/// entries `expanded_entries`: the strings under its `@type` entries.
///
/// A context that resolves each of these names as another does expands the
/// object as the other does, so that a list of [`Definitions`] for these
/// names can stand for any context; see [`laws`].
///
/// [`Definitions`]: crate::context::Definitions
/// [`laws`]: crate::expansion::laws
pub fn type_names<'a>(expanded_entries: &Vec<Entry<'a>>) -> (names: Vec<&'a str>)
    ensures
        forall|name: Seq<char>|
            names.deep_view().contains(name) <==> is_type_name(
                expanded_entries.deep_view(),
                name,
            ),
{
    let ghost all = expanded_entries.deep_view();
    let mut names: Vec<&'a str> = Vec::new();
    let mut i: usize = 0;
    while i < expanded_entries.len()
        invariant
            i <= expanded_entries.len(),
            all == expanded_entries.deep_view(),
            forall|k: int|
                0 <= k < names.len() ==> is_type_name(all, #[trigger] names.deep_view()[k]),
            forall|entry: int, member: int, name: Seq<char>|
                entry < i && #[trigger] is_type_name_at(all, entry, member, name)
                    ==> names.deep_view().contains(name),
        decreases expanded_entries.len() - i,
    {
        let entry = &expanded_entries[i];
        if let Term::Keyword(Keyword::Type) = entry.term {
            match entry.value {
                RawValue::Array(members) => {
                    let mut j: usize = 0;
                    while j < members.len()
                        invariant
                            j <= members.len(),
                            i < expanded_entries.len(),
                            all == expanded_entries.deep_view(),
                            all[i as int].term == TermModel::Keyword(Keyword::Type),
                            type_members(all[i as int].value).len() == members.len(),
                            forall|m: int|
                                0 <= m < members.len() ==> type_members(all[i as int].value)[m]
                                    == #[trigger] members@[m].deep_view(),
                            forall|k: int|
                                0 <= k < names.len() ==> is_type_name(
                                    all,
                                    #[trigger] names.deep_view()[k],
                                ),
                            forall|entry: int, member: int, name: Seq<char>|
                                (entry < i || (entry == i && member < j))
                                    && #[trigger] is_type_name_at(all, entry, member, name)
                                    ==> names.deep_view().contains(name),
                        decreases members.len() - j,
                    {
                        assert(type_members(all[i as int].value)[j as int]
                            == members@[j as int].deep_view());
                        if let RawValue::String(name) = &members[j] {
                            let ghost before = names.deep_view();
                            names.push(name.as_str());
                            proof {
                                assert(names.deep_view() =~= before.push(name@));
                                assert(is_type_name_at(all, i as int, j as int, name@));
                                lemma_pushed_names_stay(before, name@);
                            }
                        }
                        j += 1;
                    }
                },
                RawValue::String(name) => {
                    let ghost before = names.deep_view();
                    names.push(name.as_str());
                    proof {
                        assert(names.deep_view() =~= before.push(name@));
                        assert(is_type_name_at(all, i as int, 0, name@));
                        lemma_pushed_names_stay(before, name@);
                    }
                },
                _ => {},
            }
        }
        i += 1;
    }
    names
}

/// A list of names holds, after one more name has been put at its end, that
/// name and every name that it held before.
proof fn lemma_pushed_names_stay(names: Seq<Seq<char>>, name: Seq<char>)
    ensures
        names.push(name).contains(name),
        forall|other: Seq<char>| names.contains(other) ==> names.push(name).contains(other),
{
    assert(names.push(name)[names.len() as int] == name);
    assert forall|other: Seq<char>| names.contains(other) implies names.push(name).contains(
        other,
    ) by {
        let k = choose|k: int| 0 <= k < names.len() && names[k] == other;
        assert(names.push(name)[k] == other);
    }
}

/// Expands a value object.
///
/// `value_entry` is the payload under `@value`, and `expanded_entries` are
/// the entries of the object with their keys resolved; an entry for `@value`
/// itself may be among them and is passed over. `input_type` is the type of
/// the object where it is known beforehand, and `type_scoped_context`
/// resolves the names under `@type`.
///
/// Returns the literal or the language-tagged string that the object stands
/// for, with its index; `None` where the object stands for no value; and the
/// first error that the object gives rise to, the entries taken in their
/// order.
pub fn expand_value<C: Context>(
    input_type: Option<Term>,
    type_scoped_context: &C,
    expanded_entries: Vec<Entry<'_>>,
    value_entry: &RawValue,
) -> (result: Result<Option<Indexed<Value>>, Error>)
    ensures
        outcome(result) == value_expansion(
            input_type.deep_view(),
            type_scoped_context,
            expanded_entries.deep_view(),
            value_entry.deep_view(),
        ),
{
    let literal = match seed_literal(&input_type, value_entry) {
        Ok(literal) => literal,
        Err(error) => {
            return Err(error);
        },
    };
    let ghost all = expanded_entries.deep_view();
    let ghost literal_model = literal.deep_view();
    let ghost goal = with_entries(
        type_scoped_context,
        started(literal_model),
        all,
        value_entry.deep_view(),
    );
    let mut state = Accumulator::new(literal);
    let mut i: usize = 0;
    proof {
        assert(all.skip(0) =~= all);
        lemma_fold_is_declared(type_scoped_context, literal_model, all, value_entry.deep_view());
    }
    while i < expanded_entries.len()
        invariant
            i <= expanded_entries.len(),
            all == expanded_entries.deep_view(),
            value_expansion(
                input_type.deep_view(),
                type_scoped_context,
                all,
                value_entry.deep_view(),
            ) == match goal {
                Ok(end) => concluded(end),
                Err(code) => Err(code),
            },
            goal == with_entries(
                type_scoped_context,
                state.deep_view(),
                all.skip(i as int),
                value_entry.deep_view(),
            ),
        decreases expanded_entries.len() - i,
    {
        assert(all.skip(i as int).drop_first() =~= all.skip(i as int + 1));
        match fold_entry(type_scoped_context, state, &expanded_entries[i], value_entry) {
            Ok(next) => {
                state = next;
            },
            Err(error) => {
                return Err(error);
            },
        }
        i += 1;
    }
    conclude(state)
}

} // verus!
