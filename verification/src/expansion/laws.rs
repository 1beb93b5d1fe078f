//! What holds of every expansion.

use crate::context::{first_definition, Context, Definitions};
use crate::error::{outcome, Error, ErrorCode};
use crate::expansion::declared::{
    declared, declared_datatypes, declared_fault, declares_json, entry_datatypes, entry_direction,
    entry_fault, entry_index, entry_language, is_type_name, is_type_name_at,
    lemma_entry_is_declared, lemma_fold_is_declared, lemma_no_fault_is_no_entry_at_fault,
    names_datatype, names_json, type_fault, types_json, value_expansion,
};
use crate::expansion::model::{
    concluded, folded, seeded, started, type_members, with_entries, with_entry,
    AccumulatorModel, EntryModel,
};
use crate::literal::{Indexed, IndexedModel, LiteralModel, Value, ValueModel};
use crate::raw::RawModel;
use crate::term::{Keyword, TermModel};
use vstd::prelude::*;

verus! {

/// The expansion of a value object is what the walk through its entries
/// comes to: the seeding of the literal, the fold over the entries, and the
/// conclusion, the first failure of which is the failure of the whole.
pub proof fn lemma_expansion_is_the_fold<C: Context>(
    input_type: Option<TermModel>,
    context: &C,
    entries: Seq<EntryModel>,
    payload: RawModel,
)
    ensures
        value_expansion(input_type, context, entries, payload) == match folded(
            input_type,
            context,
            entries,
            payload,
        ) {
            Ok(state) => concluded(state),
            Err(code) => Err::<Option<IndexedModel<ValueModel>>, ErrorCode>(code),
        },
{
    if let Ok(literal) = seeded(input_type, payload) {
        lemma_fold_is_declared(context, literal, entries, payload);
    }
}

/// A value object whose payload seeds the null literal expands to no value,
/// whatever index, language, direction or datatypes its entries give it,
/// provided that no entry is at fault and that none types the value `@json`.
///
/// The entry at fault is left out because the expansion fails with its
/// error, and the entry that types the value `@json` because it makes the
/// null payload a literal of its own, which is kept.
pub proof fn lemma_null_expands_to_nothing<C: Context>(
    input_type: Option<TermModel>,
    context: &C,
    entries: Seq<EntryModel>,
    payload: RawModel,
)
    requires
        seeded(input_type, payload) == Ok::<LiteralModel, ErrorCode>(LiteralModel::Null),
        declared_fault(context, entries) is None,
        !declares_json(context, entries),
    ensures
        value_expansion(input_type, context, entries, payload) == Ok::<
            Option<IndexedModel<ValueModel>>,
            ErrorCode,
        >(None),
{
}

/// A value object whose entries declare a datatype beside a language or a
/// direction is refused with `InvalidValueObject`, unless something else
/// comes first: a payload that cannot seed a literal, an entry at fault in
/// another way, or a null literal.
///
/// The null literal is left out because it drops the whole object before
/// the datatypes are looked at, and the other two because the expansion
/// fails with their error before it comes to a conclusion.
pub proof fn lemma_datatype_beside_language_is_refused<C: Context>(
    input_type: Option<TermModel>,
    context: &C,
    entries: Seq<EntryModel>,
    payload: RawModel,
)
    requires
        seeded(input_type, payload) matches Ok(literal) && {
            let state = declared(context, literal, entries, payload);
            &&& state.language is Some || state.direction is Some
            &&& !state.types.is_empty()
            &&& match declared_fault(context, entries) {
                Some(code) => code == ErrorCode::InvalidValueObject,
                None => !(state.literal is Null),
            }
        },
    ensures
        value_expansion(input_type, context, entries, payload) == Err::<
            Option<IndexedModel<ValueModel>>,
            ErrorCode,
        >(ErrorCode::InvalidValueObject),
{
}

/// A value object whose entries declare a language or a direction for a
/// literal that is no string is refused with `InvalidLanguageTaggedValue`,
/// unless something else comes first: an entry at fault, a null literal, or
/// a datatype.
///
/// The entry at fault is left out because the expansion fails with its
/// error, the null literal because it drops the whole object, and the
/// datatype because it is refused first, as an invalid value object.
pub proof fn lemma_language_on_non_string_is_refused<C: Context>(
    input_type: Option<TermModel>,
    context: &C,
    entries: Seq<EntryModel>,
    payload: RawModel,
)
    requires
        declared_fault(context, entries) is None,
        seeded(input_type, payload) matches Ok(literal) && {
            let state = declared(context, literal, entries, payload);
            &&& state.language is Some || state.direction is Some
            &&& !(state.literal is String)
            &&& !(state.literal is Null)
            &&& state.types.is_empty()
        },
    ensures
        value_expansion(input_type, context, entries, payload) == Err::<
            Option<IndexedModel<ValueModel>>,
            ErrorCode,
        >(ErrorCode::InvalidLanguageTaggedValue),
{
}

/// Expanding the same value object twice gives the same result: any two
/// results that expansion may return for one input have the same model.
pub proof fn lemma_expansion_repeats<C: Context>(
    input_type: Option<TermModel>,
    context: &C,
    entries: Seq<EntryModel>,
    payload: RawModel,
    first: Result<Option<Indexed<Value>>, Error>,
    second: Result<Option<Indexed<Value>>, Error>,
)
    requires
        outcome(first) == value_expansion(input_type, context, entries, payload),
        outcome(second) == value_expansion(input_type, context, entries, payload),
    ensures
        outcome(first) == outcome(second),
{
}

/// Folding one run of entries and another after it is folding the two runs
/// as one.
pub proof fn lemma_fold_continues<C: Context>(
    context: &C,
    state: AccumulatorModel,
    earlier: Seq<EntryModel>,
    later: Seq<EntryModel>,
    payload: RawModel,
)
    ensures
        with_entries(context, state, earlier + later, payload) == match with_entries(
            context,
            state,
            earlier,
            payload,
        ) {
            Ok(middle) => with_entries(context, middle, later, payload),
            Err(code) => Err(code),
        },
    decreases earlier.len(),
{
    if earlier.len() > 0 {
        assert((earlier + later).drop_first() =~= earlier.drop_first() + later);
        if let Ok(next) = with_entry(context, state, earlier[0], payload) {
            lemma_fold_continues(context, next, earlier.drop_first(), later, payload);
        }
    }
}

/// Two neighbouring entries may change places without a change to the
/// expansion, as long as no entry is at fault and the two do not both give
/// the object a language, both a direction or both an index. Where an entry
/// is at fault, there is one at fault in either order.
///
/// Of two entries that give the same thing the later overwrites the
/// earlier, and of two entries at fault the earlier decides the error: in
/// these the order of the entries shows, and in nothing else.
pub proof fn lemma_neighbours_may_swap<C: Context>(
    input_type: Option<TermModel>,
    context: &C,
    before: Seq<EntryModel>,
    first: EntryModel,
    second: EntryModel,
    after: Seq<EntryModel>,
    payload: RawModel,
)
    requires
        entry_language(first) is None || entry_language(second) is None,
        entry_direction(first) is None || entry_direction(second) is None,
        entry_index(first) is None || entry_index(second) is None,
    ensures
        ({
            let one = before + seq![first, second] + after;
            let other = before + seq![second, first] + after;
            &&& declared_fault(context, one) is None <==> declared_fault(context, other) is None
            &&& declared_fault(context, one) is None ==> value_expansion(
                input_type,
                context,
                one,
                payload,
            ) == value_expansion(input_type, context, other, payload)
        }),
{
    let one = before + seq![first, second] + after;
    let other = before + seq![second, first] + after;
    let swapped = |i: int|
        if i == before.len() {
            i + 1
        } else if i == before.len() + 1 {
            i - 1
        } else {
            i
        };
    assert forall|i: int| 0 <= i < one.len() implies #[trigger] one[i] == other[swapped(i)] by {}
    assert forall|i: int| 0 <= i < other.len() implies #[trigger] other[i] == one[swapped(i)] by {}
    lemma_no_fault_is_no_entry_at_fault(context, one);
    lemma_no_fault_is_no_entry_at_fault(context, other);
    if let Ok(literal) = seeded(input_type, payload) {
        let start = started(literal);
        assert(one =~= before + (seq![first, second] + after));
        assert(other =~= before + (seq![second, first] + after));
        lemma_fold_continues(context, start, before, seq![first, second] + after, payload);
        lemma_fold_continues(context, start, before, seq![second, first] + after, payload);
        if let Ok(middle) = with_entries(context, start, before, payload) {
            lemma_fold_continues(context, middle, seq![first, second], after, payload);
            lemma_fold_continues(context, middle, seq![second, first], after, payload);
            lemma_pair_may_swap(context, middle, first, second, payload);
        }
        lemma_fold_is_declared(context, literal, one, payload);
        lemma_fold_is_declared(context, literal, other, payload);
    }
}

/// Folding two entries that do not give the same thing comes to the same
/// state in either order, and fails in either order if it fails in one.
proof fn lemma_pair_may_swap<C: Context>(
    context: &C,
    state: AccumulatorModel,
    first: EntryModel,
    second: EntryModel,
    payload: RawModel,
)
    requires
        entry_language(first) is None || entry_language(second) is None,
        entry_direction(first) is None || entry_direction(second) is None,
        entry_index(first) is None || entry_index(second) is None,
    ensures
        ({
            let one = with_entries(context, state, seq![first, second], payload);
            let other = with_entries(context, state, seq![second, first], payload);
            &&& one is Ok <==> other is Ok
            &&& one is Ok ==> one == other
        }),
{
    reveal_with_fuel(with_entries, 3);
    let one = seq![first, second];
    let other = seq![second, first];
    lemma_entry_is_declared(context, state, first, payload);
    lemma_entry_is_declared(context, state, second, payload);
    if let Ok(next) = with_entry(context, state, first, payload) {
        lemma_entry_is_declared(context, next, second, payload);
    }
    if let Ok(next) = with_entry(context, state, second, payload) {
        lemma_entry_is_declared(context, next, first, payload);
    }
    if let Ok(end) = with_entries(context, state, one, payload) {
        let mirrored = with_entries(context, state, other, payload)->Ok_0;
        assert(end.types =~= mirrored.types);
    }
}

/// An entry is judged alike, and gives the same, under two contexts that
/// resolve the names under it alike.
proof fn lemma_entry_goes_by_its_type_names<C: Context, D: Context>(
    one: &C,
    other: &D,
    entry: EntryModel,
)
    requires
        entry.term == TermModel::Keyword(Keyword::Type) ==> forall|j: int|
            0 <= j < type_members(entry.value).len() ==> (#[trigger] type_members(
                entry.value,
            )[j] matches RawModel::String(name) ==> one.expansion(name, true, true)
                == other.expansion(name, true, true)),
    ensures
        entry_fault(one, entry) == entry_fault(other, entry),
        types_json(one, entry) == types_json(other, entry),
        entry_datatypes(one, entry) == entry_datatypes(other, entry),
{
    if entry.term == TermModel::Keyword(Keyword::Type) {
        let members = type_members(entry.value);
        assert forall|j: int| 0 <= j < members.len() implies type_fault(one, #[trigger] members[j])
            == type_fault(other, members[j]) && names_json(one, members[j]) == names_json(
            other,
            members[j],
        ) && (forall|iri: Seq<char>|
            names_datatype(one, members[j], iri) == names_datatype(other, members[j], iri)) by {}
        assert(members.map_values(|member: RawModel| type_fault(one, member))
            =~= members.map_values(|member: RawModel| type_fault(other, member)));
    }
}

/// The expansion of a value object goes by the context only as far as the
/// names under its `@type` entries go: two contexts that resolve each of
/// these names alike, relative to the vocabulary and to the document, expand
/// the object alike.
pub proof fn lemma_contexts_that_agree_expand_alike<C: Context, D: Context>(
    input_type: Option<TermModel>,
    one: &C,
    other: &D,
    entries: Seq<EntryModel>,
    payload: RawModel,
)
    requires
        forall|name: Seq<char>| #[trigger]
            is_type_name(entries, name) ==> one.expansion(name, true, true) == other.expansion(
                name,
                true,
                true,
            ),
    ensures
        value_expansion(input_type, one, entries, payload) == value_expansion(
            input_type,
            other,
            entries,
            payload,
        ),
{
    assert forall|i: int| 0 <= i < entries.len() implies entry_fault(one, #[trigger] entries[i])
        == entry_fault(other, entries[i]) && types_json(one, entries[i]) == types_json(
        other,
        entries[i],
    ) && entry_datatypes(one, entries[i]) == entry_datatypes(other, entries[i]) by {
        let entry = entries[i];
        if entry.term == TermModel::Keyword(Keyword::Type) {
            assert forall|j: int| 0 <= j < type_members(entry.value).len() implies (
            #[trigger] type_members(entry.value)[j] matches RawModel::String(name)
                ==> one.expansion(name, true, true) == other.expansion(name, true, true)) by {
                if let RawModel::String(name) = type_members(entry.value)[j] {
                    assert(is_type_name_at(entries, i, j, name));
                    assert(is_type_name(entries, name));
                }
            }
        }
        lemma_entry_goes_by_its_type_names(one, other, entry);
    }
    assert(entries.map_values(|entry: EntryModel| entry_fault(one, entry)) =~= entries.map_values(
        |entry: EntryModel| entry_fault(other, entry),
    ));
    assert(declared_datatypes(one, entries) =~= declared_datatypes(other, entries));
}

/// A list of definitions can stand for any context: a list that defines
/// each name under the `@type` entries of an object as the context resolves
/// it expands the object as the context does.
pub proof fn lemma_definitions_stand_for_a_context<C: Context>(
    input_type: Option<TermModel>,
    context: &C,
    definitions: &Definitions,
    entries: Seq<EntryModel>,
    payload: RawModel,
)
    requires
        forall|name: Seq<char>| #[trigger]
            is_type_name(entries, name) ==> first_definition(definitions.deep_view(), name)
                == Some(context.expansion(name, true, true)),
    ensures
        value_expansion(input_type, definitions, entries, payload) == value_expansion(
            input_type,
            context,
            entries,
            payload,
        ),
{
    lemma_contexts_that_agree_expand_alike(input_type, definitions, context, entries, payload);
}

/// What an expansion returns has the shape that its kind allows: a
/// language-tagged string holds the text of a string literal, has a language
/// or a direction, and comes from an object without datatypes; a typed
/// literal is never null and comes from an object without language and
/// direction. Either has the index, the language, the direction and the
/// datatypes that the entries of the object declare.
pub proof fn lemma_expansion_is_well_formed<C: Context>(
    input_type: Option<TermModel>,
    context: &C,
    entries: Seq<EntryModel>,
    payload: RawModel,
)
    requires
        value_expansion(input_type, context, entries, payload) matches Ok(Some(_)),
    ensures
        seeded(input_type, payload) is Ok,
        declared_fault(context, entries) is None,
        ({
            let literal = seeded(input_type, payload)->Ok_0;
            let state = declared(context, literal, entries, payload);
            let expanded = value_expansion(input_type, context, entries, payload)->Ok_0->Some_0;
            &&& expanded.index == state.index
            &&& match expanded.value {
                ValueModel::LangString(tagged) => {
                    &&& state.literal == LiteralModel::String(tagged.text)
                    &&& tagged.language is Some || tagged.direction is Some
                    &&& tagged.language == state.language
                    &&& tagged.direction == state.direction
                    &&& state.types.is_empty()
                },
                ValueModel::TypedLiteral(literal, types) => {
                    &&& !(literal is Null)
                    &&& literal == state.literal
                    &&& types == state.types
                    &&& state.language is None
                    &&& state.direction is None
                },
            }
        }),
{
}

} // verus!
