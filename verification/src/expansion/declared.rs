//! What a value object expands to, read off the object as a whole.
//!
//! [`model`](crate::expansion::model) describes the expansion as a walk
//! through the entries. This module says what the walk comes to, without a
//! state that changes on the way: which entry is the first at fault, and what
//! the entries give the object if none is. [`value_expansion`] is stated in
//! these terms, and [`lemma_fold_is_declared`] shows that the walk computes
//! it.

use crate::context::Context;
use crate::error::ErrorCode;
use crate::expansion::model::{
    concluded, seeded, started, type_members, with_entries, with_entry, with_type, with_types,
    AccumulatorModel, EntryModel,
};
use crate::literal::{Direction, IndexedModel, LiteralModel, ValueModel};
use crate::raw::RawModel;
use crate::term::{Keyword, ReferenceModel, TermModel};
use vstd::prelude::*;

verus! {

/// The first of `faults` that is a fault, if any is.
pub open spec fn first_fault(faults: Seq<Option<ErrorCode>>) -> Option<ErrorCode>
    decreases faults.len(),
{
    if faults.len() == 0 {
        None
    } else if faults[0] is Some {
        faults[0]
    } else {
        first_fault(faults.drop_first())
    }
}

/// The last of `options` that is given, if any is.
pub open spec fn last_given<A>(options: Seq<Option<A>>) -> Option<A>
    decreases options.len(),
{
    if options.len() == 0 {
        None
    } else {
        match last_given(options.drop_first()) {
            Some(later) => Some(later),
            None => options[0],
        }
    }
}

/// `later` where it is given, and `earlier` where it is not.
pub open spec fn overwritten<A>(earlier: Option<A>, later: Option<A>) -> Option<A> {
    match later {
        Some(_) => later,
        None => earlier,
    }
}

/// The rule that `member` breaks as a member of an `@type` payload, if it
/// breaks one: it has to be a string, and the string has to resolve to
/// `@json` or to an IRI.
pub open spec fn type_fault<C: Context>(context: &C, member: RawModel) -> Option<ErrorCode> {
    match member {
        RawModel::String(name) => match context.expansion(name, true, true) {
            TermModel::Keyword(Keyword::Json) => None,
            TermModel::Ref(ReferenceModel::Iri(_)) => None,
            _ => Some(ErrorCode::InvalidTypedValue),
        },
        _ => Some(ErrorCode::InvalidTypeValue),
    }
}

/// Whether `member` is a string that `context` resolves to `@json`.
pub open spec fn names_json<C: Context>(context: &C, member: RawModel) -> bool {
    member matches RawModel::String(name) && context.expansion(name, true, true)
        == TermModel::Keyword(Keyword::Json)
}

/// Whether `member` is a string that `context` resolves to the IRI `iri`.
pub open spec fn names_datatype<C: Context>(context: &C, member: RawModel, iri: Seq<char>) -> bool {
    member matches RawModel::String(name) && context.expansion(name, true, true)
        == TermModel::Ref(ReferenceModel::Iri(iri))
}

/// The rule that the members `members` of an `@type` payload break first.
pub open spec fn types_fault<C: Context>(context: &C, members: Seq<RawModel>) -> Option<
    ErrorCode,
> {
    first_fault(members.map_values(|member: RawModel| type_fault(context, member)))
}

/// Whether one of `members` is a string that `context` resolves to `@json`.
pub open spec fn any_names_json<C: Context>(context: &C, members: Seq<RawModel>) -> bool {
    exists|j: int| 0 <= j < members.len() && #[trigger] names_json(context, members[j])
}

/// The IRIs that `context` resolves the strings among `members` to.
pub open spec fn named_datatypes<C: Context>(context: &C, members: Seq<RawModel>) -> Set<
    Seq<char>,
> {
    Set::new(
        |iri: Seq<char>|
            exists|j: int|
                0 <= j < members.len() && #[trigger] names_datatype(context, members[j], iri),
    )
}

/// The rule that `entry` breaks, if it breaks one.
pub open spec fn entry_fault<C: Context>(context: &C, entry: EntryModel) -> Option<ErrorCode> {
    match entry.term {
        TermModel::Keyword(Keyword::Language) => if entry.value is String {
            None
        } else {
            Some(ErrorCode::InvalidLanguageTaggedString)
        },
        TermModel::Keyword(Keyword::Direction) => match entry.value {
            RawModel::String(name) => if Direction::named(name) is Some {
                None
            } else {
                Some(ErrorCode::InvalidBaseDirection)
            },
            _ => Some(ErrorCode::InvalidBaseDirection),
        },
        TermModel::Keyword(Keyword::Index) => if entry.value is String {
            None
        } else {
            Some(ErrorCode::InvalidIndexValue)
        },
        TermModel::Keyword(Keyword::Type) => types_fault(context, type_members(entry.value)),
        TermModel::Keyword(Keyword::Value) => None,
        _ => Some(ErrorCode::InvalidValueObject),
    }
}

/// The language that `entry` gives the object, if it gives one: the string
/// of an `@language` entry, unless it is `"@none"`.
pub open spec fn entry_language(entry: EntryModel) -> Option<Seq<char>> {
    match (entry.term, entry.value) {
        (TermModel::Keyword(Keyword::Language), RawModel::String(tag)) => if tag == "@none"@ {
            None
        } else {
            Some(tag)
        },
        _ => None,
    }
}

/// The direction that `entry` gives the object, if it gives one.
pub open spec fn entry_direction(entry: EntryModel) -> Option<Direction> {
    match (entry.term, entry.value) {
        (TermModel::Keyword(Keyword::Direction), RawModel::String(name)) => Direction::named(name),
        _ => None,
    }
}

/// The index that `entry` gives the object, if it gives one.
pub open spec fn entry_index(entry: EntryModel) -> Option<Seq<char>> {
    match (entry.term, entry.value) {
        (TermModel::Keyword(Keyword::Index), RawModel::String(index)) => Some(index),
        _ => None,
    }
}

/// The datatypes that `entry` gives the object: those that the members of
/// an `@type` entry name.
pub open spec fn entry_datatypes<C: Context>(context: &C, entry: EntryModel) -> Set<Seq<char>> {
    if entry.term == TermModel::Keyword(Keyword::Type) {
        named_datatypes(context, type_members(entry.value))
    } else {
        Set::empty()
    }
}

/// Whether `entry` is an `@type` entry with a member that `context` resolves
/// to `@json`.
pub open spec fn types_json<C: Context>(context: &C, entry: EntryModel) -> bool {
    entry.term == TermModel::Keyword(Keyword::Type) && any_names_json(
        context,
        type_members(entry.value),
    )
}

/// The rule that `entries` break first, if they break one: the fault of the
/// first entry that has one.
pub open spec fn declared_fault<C: Context>(context: &C, entries: Seq<EntryModel>) -> Option<
    ErrorCode,
> {
    first_fault(entries.map_values(|entry: EntryModel| entry_fault(context, entry)))
}

/// The language that `entries` give the object: that of the last entry that
/// gives one.
pub open spec fn declared_language(entries: Seq<EntryModel>) -> Option<Seq<char>> {
    last_given(entries.map_values(|entry: EntryModel| entry_language(entry)))
}

/// The direction that `entries` give the object: that of the last entry
/// that gives one.
pub open spec fn declared_direction(entries: Seq<EntryModel>) -> Option<Direction> {
    last_given(entries.map_values(|entry: EntryModel| entry_direction(entry)))
}

/// The index that `entries` give the object: that of the last entry that
/// gives one.
pub open spec fn declared_index(entries: Seq<EntryModel>) -> Option<Seq<char>> {
    last_given(entries.map_values(|entry: EntryModel| entry_index(entry)))
}

/// The datatypes that `entries` give the object: those of all its entries.
pub open spec fn declared_datatypes<C: Context>(context: &C, entries: Seq<EntryModel>) -> Set<
    Seq<char>,
> {
    Set::new(
        |iri: Seq<char>|
            exists|i: int|
                0 <= i < entries.len() && #[trigger] entry_datatypes(context, entries[i]).contains(
                    iri,
                ),
    )
}

/// Whether one of `entries` is an `@type` entry with a member that `context`
/// resolves to `@json`.
pub open spec fn declares_json<C: Context>(context: &C, entries: Seq<EntryModel>) -> bool {
    exists|i: int| 0 <= i < entries.len() && #[trigger] types_json(context, entries[i])
}

/// The state that `entries` declare on top of `state`: what they give
/// overwrites what `state` has, and their datatypes join those of `state`.
pub open spec fn declared_over<C: Context>(
    context: &C,
    state: AccumulatorModel,
    entries: Seq<EntryModel>,
    payload: RawModel,
) -> AccumulatorModel {
    AccumulatorModel {
        literal: if declares_json(context, entries) {
            LiteralModel::Json(payload)
        } else {
            state.literal
        },
        index: overwritten(state.index, declared_index(entries)),
        types: state.types.union(declared_datatypes(context, entries)),
        language: overwritten(state.language, declared_language(entries)),
        direction: overwritten(state.direction, declared_direction(entries)),
    }
}

/// The state that `entries` declare for an object whose literal was seeded
/// as `literal`.
pub open spec fn declared<C: Context>(
    context: &C,
    literal: LiteralModel,
    entries: Seq<EntryModel>,
    payload: RawModel,
) -> AccumulatorModel {
    AccumulatorModel {
        literal: if declares_json(context, entries) {
            LiteralModel::Json(payload)
        } else {
            literal
        },
        index: declared_index(entries),
        types: declared_datatypes(context, entries),
        language: declared_language(entries),
        direction: declared_direction(entries),
    }
}

/// Whether `name` is member number `member` of the `@type` entry that is
/// entry number `entry` of `entries`.
pub open spec fn is_type_name_at(
    entries: Seq<EntryModel>,
    entry: int,
    member: int,
    name: Seq<char>,
) -> bool {
    &&& 0 <= entry < entries.len()
    &&& entries[entry].term == TermModel::Keyword(Keyword::Type)
    &&& 0 <= member < type_members(entries[entry].value).len()
    &&& type_members(entries[entry].value)[member] == RawModel::String(name)
}

/// Whether `name` is a string under an `@type` entry of `entries`: one of
/// the names that a context is asked to resolve for the object.
pub open spec fn is_type_name(entries: Seq<EntryModel>, name: Seq<char>) -> bool {
    exists|entry: int, member: int| #[trigger] is_type_name_at(entries, entry, member, name)
}

/// The expansion of the value object with the payload `payload` under
/// `@value` and the entries `entries`, where `input_type` is its type as
/// far as it is known beforehand and `context` resolves the names of its
/// types.
///
/// A payload that cannot seed a literal is refused. Otherwise the first
/// entry at fault decides the error. Where no entry is at fault, the object
/// is what its entries declare: its literal is the payload under `@json` if
/// an entry types it so and the seeded literal if none does, its datatypes
/// are those that its `@type` entries name, and its language, direction and
/// index are those that the last entry to give one gave.
pub open spec fn value_expansion<C: Context>(
    input_type: Option<TermModel>,
    context: &C,
    entries: Seq<EntryModel>,
    payload: RawModel,
) -> Result<Option<IndexedModel<ValueModel>>, ErrorCode> {
    match seeded(input_type, payload) {
        Err(code) => Err(code),
        Ok(literal) => match declared_fault(context, entries) {
            Some(code) => Err(code),
            None => concluded(declared(context, literal, entries, payload)),
        },
    }
}

/// There is a first fault among `faults` exactly if one of them is a fault.
pub proof fn lemma_first_fault_is_some_fault(faults: Seq<Option<ErrorCode>>)
    ensures
        first_fault(faults) is None <==> forall|i: int|
            0 <= i < faults.len() ==> #[trigger] faults[i] is None,
        first_fault(faults) is Some ==> exists|i: int|
            0 <= i < faults.len() && #[trigger] faults[i] == first_fault(faults),
    decreases faults.len(),
{
    if faults.len() > 0 {
        let rest = faults.drop_first();
        lemma_first_fault_is_some_fault(rest);
        if first_fault(faults) is None {
            assert forall|i: int| 0 <= i < faults.len() implies #[trigger] faults[i] is None by {
                if i > 0 {
                    assert(rest[i - 1] is None);
                }
            }
        }
    }
}

/// No entry breaks a rule first exactly if no entry is at fault.
pub proof fn lemma_no_fault_is_no_entry_at_fault<C: Context>(
    context: &C,
    entries: Seq<EntryModel>,
)
    ensures
        declared_fault(context, entries) is None <==> forall|i: int|
            0 <= i < entries.len() ==> #[trigger] entry_fault(context, entries[i]) is None,
{
    let faults = entries.map_values(|entry: EntryModel| entry_fault(context, entry));
    lemma_first_fault_is_some_fault(faults);
    if declared_fault(context, entries) is None {
        assert forall|i: int| 0 <= i < entries.len() implies #[trigger] entry_fault(
            context,
            entries[i],
        ) is None by {
            assert(faults[i] is None);
        }
    }
}

/// Folding the members of an `@type` payload fails with the first fault
/// among them. Where there is none, the datatypes that they name join those
/// of the state, the literal becomes the payload under `@json` if one of
/// them resolves to `@json`, and nothing else changes.
pub proof fn lemma_types_are_declared<C: Context>(
    context: &C,
    state: AccumulatorModel,
    members: Seq<RawModel>,
    payload: RawModel,
)
    ensures
        match types_fault(context, members) {
            Some(code) => with_types(context, state, members, payload) == Err::<
                AccumulatorModel,
                ErrorCode,
            >(code),
            None => with_types(context, state, members, payload) == Ok::<
                AccumulatorModel,
                ErrorCode,
            >(
                AccumulatorModel {
                    literal: if any_names_json(context, members) {
                        LiteralModel::Json(payload)
                    } else {
                        state.literal
                    },
                    types: state.types.union(named_datatypes(context, members)),
                    ..state
                },
            ),
        },
    decreases members.len(),
{
    let faults = members.map_values(|member: RawModel| type_fault(context, member));
    if members.len() == 0 {
        assert(state.types.union(named_datatypes(context, members)) =~= state.types);
    } else {
        let rest = members.drop_first();
        assert(faults.drop_first() =~= rest.map_values(
            |member: RawModel| type_fault(context, member),
        ));
        if type_fault(context, members[0]) is None {
            let next = with_type(context, state, members[0], payload)->Ok_0;
            lemma_types_are_declared(context, next, rest, payload);
            if types_fault(context, rest) is None {
                // Whether a member resolves to `@json`.
                if any_names_json(context, rest) {
                    let j = choose|j: int|
                        0 <= j < rest.len() && #[trigger] names_json(context, rest[j]);
                    assert(names_json(context, members[j + 1]));
                }
                if names_json(context, members[0]) {
                    assert(any_names_json(context, members));
                }
                if any_names_json(context, members) {
                    let j = choose|j: int|
                        0 <= j < members.len() && #[trigger] names_json(context, members[j]);
                    if j > 0 {
                        assert(names_json(context, rest[j - 1]));
                    }
                }
                // Which datatypes the members name.
                assert forall|iri: Seq<char>|
                    next.types.union(named_datatypes(context, rest)).contains(iri)
                        == state.types.union(named_datatypes(context, members)).contains(iri) by {
                    if named_datatypes(context, rest).contains(iri) {
                        let j = choose|j: int|
                            0 <= j < rest.len() && #[trigger] names_datatype(
                                context,
                                rest[j],
                                iri,
                            );
                        assert(names_datatype(context, members[j + 1], iri));
                    }
                    if names_datatype(context, members[0], iri) {
                        assert(named_datatypes(context, members).contains(iri));
                    }
                    if named_datatypes(context, members).contains(iri) {
                        let j = choose|j: int|
                            0 <= j < members.len() && #[trigger] names_datatype(
                                context,
                                members[j],
                                iri,
                            );
                        if j > 0 {
                            assert(names_datatype(context, rest[j - 1], iri));
                        }
                    }
                }
                assert(next.types.union(named_datatypes(context, rest)) =~= state.types.union(
                    named_datatypes(context, members),
                ));
            }
        }
    }
}

/// Folding an entry fails with the fault of the entry. Where it has none,
/// what the entry gives overwrites what the state has, and its datatypes
/// join those of the state.
pub proof fn lemma_entry_is_declared<C: Context>(
    context: &C,
    state: AccumulatorModel,
    entry: EntryModel,
    payload: RawModel,
)
    ensures
        match entry_fault(context, entry) {
            Some(code) => with_entry(context, state, entry, payload) == Err::<
                AccumulatorModel,
                ErrorCode,
            >(code),
            None => with_entry(context, state, entry, payload) == Ok::<
                AccumulatorModel,
                ErrorCode,
            >(
                AccumulatorModel {
                    literal: if types_json(context, entry) {
                        LiteralModel::Json(payload)
                    } else {
                        state.literal
                    },
                    index: overwritten(state.index, entry_index(entry)),
                    types: state.types.union(entry_datatypes(context, entry)),
                    language: overwritten(state.language, entry_language(entry)),
                    direction: overwritten(state.direction, entry_direction(entry)),
                },
            ),
        },
{
    if entry.term == TermModel::Keyword(Keyword::Type) {
        lemma_types_are_declared(context, state, type_members(entry.value), payload);
    } else {
        assert(state.types.union(entry_datatypes(context, entry)) =~= state.types);
    }
}

/// Folding entries into a state fails with the fault of the first entry
/// that has one, and gives what the entries declare on top of the state
/// where none has.
pub proof fn lemma_fold_is_declared_over<C: Context>(
    context: &C,
    state: AccumulatorModel,
    entries: Seq<EntryModel>,
    payload: RawModel,
)
    ensures
        with_entries(context, state, entries, payload) == match declared_fault(context, entries) {
            Some(code) => Err::<AccumulatorModel, ErrorCode>(code),
            None => Ok(declared_over(context, state, entries, payload)),
        },
    decreases entries.len(),
{
    let faults = entries.map_values(|entry: EntryModel| entry_fault(context, entry));
    let languages = entries.map_values(|entry: EntryModel| entry_language(entry));
    let directions = entries.map_values(|entry: EntryModel| entry_direction(entry));
    let indexes = entries.map_values(|entry: EntryModel| entry_index(entry));
    if entries.len() == 0 {
        assert(state.types.union(declared_datatypes(context, entries)) =~= state.types);
    } else {
        let first = entries[0];
        let rest = entries.drop_first();
        assert(faults.drop_first() =~= rest.map_values(
            |entry: EntryModel| entry_fault(context, entry),
        ));
        assert(languages.drop_first() =~= rest.map_values(
            |entry: EntryModel| entry_language(entry),
        ));
        assert(directions.drop_first() =~= rest.map_values(
            |entry: EntryModel| entry_direction(entry),
        ));
        assert(indexes.drop_first() =~= rest.map_values(|entry: EntryModel| entry_index(entry)));
        lemma_entry_is_declared(context, state, first, payload);
        if entry_fault(context, first) is None {
            let next = with_entry(context, state, first, payload)->Ok_0;
            lemma_fold_is_declared_over(context, next, rest, payload);
            if declared_fault(context, rest) is None {
                let end = declared_over(context, next, rest, payload);
                let goal = declared_over(context, state, entries, payload);
                // Whether an entry types the value `@json`.
                if declares_json(context, rest) {
                    let i = choose|i: int|
                        0 <= i < rest.len() && #[trigger] types_json(context, rest[i]);
                    assert(types_json(context, entries[i + 1]));
                }
                if types_json(context, first) {
                    assert(declares_json(context, entries));
                }
                if declares_json(context, entries) {
                    let i = choose|i: int|
                        0 <= i < entries.len() && #[trigger] types_json(context, entries[i]);
                    if i > 0 {
                        assert(types_json(context, rest[i - 1]));
                    }
                }
                // Which datatypes the entries give.
                assert forall|iri: Seq<char>| end.types.contains(iri) == goal.types.contains(
                    iri,
                ) by {
                    if declared_datatypes(context, rest).contains(iri) {
                        let i = choose|i: int|
                            0 <= i < rest.len() && #[trigger] entry_datatypes(
                                context,
                                rest[i],
                            ).contains(iri);
                        assert(entry_datatypes(context, entries[i + 1]).contains(iri));
                    }
                    if entry_datatypes(context, first).contains(iri) {
                        assert(declared_datatypes(context, entries).contains(iri));
                    }
                    if declared_datatypes(context, entries).contains(iri) {
                        let i = choose|i: int|
                            0 <= i < entries.len() && #[trigger] entry_datatypes(
                                context,
                                entries[i],
                            ).contains(iri);
                        if i > 0 {
                            assert(entry_datatypes(context, rest[i - 1]).contains(iri));
                        }
                    }
                }
                assert(end.types =~= goal.types);
            }
        }
    }
}

/// The fold over the entries of an object fails with the fault of the first
/// entry that has one, and ends in the state that the entries declare where
/// none has.
pub proof fn lemma_fold_is_declared<C: Context>(
    context: &C,
    literal: LiteralModel,
    entries: Seq<EntryModel>,
    payload: RawModel,
)
    ensures
        with_entries(context, started(literal), entries, payload) == match declared_fault(
            context,
            entries,
        ) {
            Some(code) => Err::<AccumulatorModel, ErrorCode>(code),
            None => Ok(declared(context, literal, entries, payload)),
        },
{
    lemma_fold_is_declared_over(context, started(literal), entries, payload);
    assert(started(literal).types.union(declared_datatypes(context, entries))
        =~= declared_datatypes(context, entries));
}

} // verus!
