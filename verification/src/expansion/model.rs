//! The steps of value expansion, stated over the models of their inputs.
//!
//! The expansion seeds a working literal from the `@value` payload, folds the
//! entries of the object into it one after the other, and concludes. The
//! first rule that an input breaks decides the error; there is no partial
//! result.

use crate::context::Context;
use crate::error::ErrorCode;
use crate::literal::{Direction, IndexedModel, LangStringModel, LiteralModel, ValueModel};
use crate::raw::RawModel;
use crate::term::{Keyword, ReferenceModel, TermModel};
use vstd::prelude::*;

verus! {

/// The model of an entry of a value object: the key as the document wrote
/// it, the term it resolved to, and the payload found under it.
pub struct EntryModel {
    pub key: Seq<char>,
    pub term: TermModel,
    pub value: RawModel,
}

/// The model of the state that the fold over the entries carries along.
pub struct AccumulatorModel {
    /// The working literal.
    pub literal: LiteralModel,
    /// The `@index` seen last, if any.
    pub index: Option<Seq<char>>,
    /// The datatypes declared so far.
    pub types: Set<Seq<char>>,
    /// The `@language` seen last, if any but `"@none"`.
    pub language: Option<Seq<char>>,
    /// The `@direction` seen last, if any.
    pub direction: Option<Direction>,
}

/// The literal that expansion starts from. Under the type `@json` the
/// payload is kept whole, whatever its shape; otherwise it has to be null or
/// a scalar.
pub open spec fn seeded(input_type: Option<TermModel>, payload: RawModel) -> Result<
    LiteralModel,
    ErrorCode,
> {
    if input_type == Some(TermModel::Keyword(Keyword::Json)) {
        Ok(LiteralModel::Json(payload))
    } else {
        match payload {
            RawModel::Null => Ok(LiteralModel::Null),
            RawModel::String(text) => Ok(LiteralModel::String(text)),
            RawModel::Number(number) => Ok(LiteralModel::Number(number)),
            RawModel::Boolean(truth) => Ok(LiteralModel::Boolean(truth)),
            RawModel::Array(_) => Err(ErrorCode::InvalidValueObjectValue),
            RawModel::Object(_) => Err(ErrorCode::InvalidValueObjectValue),
        }
    }
}

/// The state before any entry has been folded in.
pub open spec fn started(literal: LiteralModel) -> AccumulatorModel {
    AccumulatorModel {
        literal,
        index: None,
        types: Set::empty(),
        language: None,
        direction: None,
    }
}

/// The state after an `@language` entry with the payload `value`. The
/// language `"@none"` stands for no language and changes nothing; any other
/// string is taken as it is.
pub open spec fn with_language(state: AccumulatorModel, value: RawModel) -> Result<
    AccumulatorModel,
    ErrorCode,
> {
    match value {
        RawModel::String(tag) => if tag == "@none"@ {
            Ok(state)
        } else {
            Ok(AccumulatorModel { language: Some(tag), ..state })
        },
        _ => Err(ErrorCode::InvalidLanguageTaggedString),
    }
}

/// The state after an `@direction` entry with the payload `value`.
pub open spec fn with_direction(state: AccumulatorModel, value: RawModel) -> Result<
    AccumulatorModel,
    ErrorCode,
> {
    match value {
        RawModel::String(name) => match Direction::named(name) {
            Some(direction) => Ok(AccumulatorModel { direction: Some(direction), ..state }),
            None => Err(ErrorCode::InvalidBaseDirection),
        },
        _ => Err(ErrorCode::InvalidBaseDirection),
    }
}

/// The state after an `@index` entry with the payload `value`.
pub open spec fn with_index(state: AccumulatorModel, value: RawModel) -> Result<
    AccumulatorModel,
    ErrorCode,
> {
    match value {
        RawModel::String(index) => Ok(AccumulatorModel { index: Some(index), ..state }),
        _ => Err(ErrorCode::InvalidIndexValue),
    }
}

/// The state after a type name that resolved to `resolved`. The keyword
/// `@json` makes the whole payload the literal, an IRI joins the datatypes,
/// and nothing else is the name of a type.
pub open spec fn with_resolved_type(
    state: AccumulatorModel,
    resolved: TermModel,
    payload: RawModel,
) -> Result<AccumulatorModel, ErrorCode> {
    match resolved {
        TermModel::Keyword(Keyword::Json) => Ok(
            AccumulatorModel { literal: LiteralModel::Json(payload), ..state },
        ),
        TermModel::Ref(ReferenceModel::Iri(iri)) => Ok(
            AccumulatorModel { types: state.types.insert(iri), ..state },
        ),
        _ => Err(ErrorCode::InvalidTypedValue),
    }
}

/// The state after one member of an `@type` payload: the member has to be a
/// string, which `context` resolves relative to the vocabulary and to the
/// document.
pub open spec fn with_type<C: Context>(
    context: &C,
    state: AccumulatorModel,
    member: RawModel,
    payload: RawModel,
) -> Result<AccumulatorModel, ErrorCode> {
    match member {
        RawModel::String(name) => with_resolved_type(
            state,
            context.expansion(name, true, true),
            payload,
        ),
        _ => Err(ErrorCode::InvalidTypeValue),
    }
}

/// The members of an `@type` payload: those of an array, and the value
/// itself where it is no array.
pub open spec fn type_members(value: RawModel) -> Seq<RawModel> {
    match value {
        RawModel::Array(members) => members,
        _ => seq![value],
    }
}

/// The state after the members `members` of an `@type` payload, taken from
/// the first to the last.
pub open spec fn with_types<C: Context>(
    context: &C,
    state: AccumulatorModel,
    members: Seq<RawModel>,
    payload: RawModel,
) -> Result<AccumulatorModel, ErrorCode>
    decreases members.len(),
{
    if members.len() == 0 {
        Ok(state)
    } else {
        match with_type(context, state, members[0], payload) {
            Ok(next) => with_types(context, next, members.drop_first(), payload),
            Err(code) => Err(code),
        }
    }
}

/// The state after the entry `entry`. A value object may hold `@language`,
/// `@direction`, `@index`, `@type` and `@value`, which has been read
/// already, and no other key.
pub open spec fn with_entry<C: Context>(
    context: &C,
    state: AccumulatorModel,
    entry: EntryModel,
    payload: RawModel,
) -> Result<AccumulatorModel, ErrorCode> {
    match entry.term {
        TermModel::Keyword(Keyword::Language) => with_language(state, entry.value),
        TermModel::Keyword(Keyword::Direction) => with_direction(state, entry.value),
        TermModel::Keyword(Keyword::Index) => with_index(state, entry.value),
        TermModel::Keyword(Keyword::Type) => with_types(
            context,
            state,
            type_members(entry.value),
            payload,
        ),
        TermModel::Keyword(Keyword::Value) => Ok(state),
        _ => Err(ErrorCode::InvalidValueObject),
    }
}

/// The state after the entries `entries`, taken from the first to the last.
pub open spec fn with_entries<C: Context>(
    context: &C,
    state: AccumulatorModel,
    entries: Seq<EntryModel>,
    payload: RawModel,
) -> Result<AccumulatorModel, ErrorCode>
    decreases entries.len(),
{
    if entries.len() == 0 {
        Ok(state)
    } else {
        match with_entry(context, state, entries[0], payload) {
            Ok(next) => with_entries(context, next, entries.drop_first(), payload),
            Err(code) => Err(code),
        }
    }
}

/// What the state `state` amounts to once every entry has been folded in.
///
/// A null literal is no value at all. A language or a direction makes a
/// language-tagged string, which takes a string and no datatype. Everything
/// else is a literal with its datatypes.
pub open spec fn concluded(state: AccumulatorModel) -> Result<
    Option<IndexedModel<ValueModel>>,
    ErrorCode,
> {
    if state.literal is Null {
        Ok(None)
    } else if state.language is Some || state.direction is Some {
        if !state.types.is_empty() {
            Err(ErrorCode::InvalidValueObject)
        } else {
            match state.literal {
                LiteralModel::String(text) => Ok(
                    Some(
                        IndexedModel {
                            value: ValueModel::LangString(
                                LangStringModel {
                                    text,
                                    language: state.language,
                                    direction: state.direction,
                                },
                            ),
                            index: state.index,
                        },
                    ),
                ),
                _ => Err(ErrorCode::InvalidLanguageTaggedValue),
            }
        }
    } else {
        Ok(
            Some(
                IndexedModel {
                    value: ValueModel::TypedLiteral(state.literal, state.types),
                    index: state.index,
                },
            ),
        )
    }
}

/// The state that the fold over `entries` ends in, or the first error on the
/// way there, the seeding of the literal included.
pub open spec fn folded<C: Context>(
    input_type: Option<TermModel>,
    context: &C,
    entries: Seq<EntryModel>,
    payload: RawModel,
) -> Result<AccumulatorModel, ErrorCode> {
    match seeded(input_type, payload) {
        Ok(literal) => with_entries(context, started(literal), entries, payload),
        Err(code) => Err(code),
    }
}

} // verus!
