//! Raw structured values, as a document holds them before expansion.

use vstd::prelude::*;

verus! {

/// `json::number::Number`, the number of the `json` crate.
///
/// Verus is told that the type exists, and nothing of what a value of it
/// holds. The library never looks inside a number: it carries each number
/// from the document to the literal unchanged.
#[verifier::external_type_specification]
#[verifier::external_body]
pub struct ExNumber(json::number::Number);

/// A raw structured value: null, a scalar, or an array or an object of
/// values, to any depth.
///
/// Two values are equal when they are alike member for member: the members
/// of an object are compared in their order, and numbers as the `json` crate
/// compares them.
#[derive(Debug, PartialEq)]
pub enum RawValue {
    /// `null`
    Null,
    /// `true` or `false`
    Boolean(bool),
    /// A number.
    Number(json::number::Number),
    /// A string.
    String(String),
    /// An array, with its members in their order.
    Array(Vec<RawValue>),
    /// An object, with its members in the order of the document, each under
    /// its key.
    Object(Vec<(String, RawValue)>),
}

/// The mathematical model of a [`RawValue`].
pub enum RawModel {
    Null,
    Boolean(bool),
    Number(json::number::Number),
    String(Seq<char>),
    Array(Seq<RawModel>),
    Object(Seq<(Seq<char>, RawModel)>),
}

impl DeepView for RawValue {
    type V = RawModel;

    open spec fn deep_view(&self) -> RawModel
        decreases self,
    {
        match self {
            RawValue::Null => RawModel::Null,
            RawValue::Boolean(truth) => RawModel::Boolean(*truth),
            RawValue::Number(number) => RawModel::Number(*number),
            RawValue::String(text) => RawModel::String(text@),
            RawValue::Array(items) => RawModel::Array(
                Seq::new(
                    items@.len(),
                    |i: int|
                        if 0 <= i < items@.len() {
                            items@[i].deep_view()
                        } else {
                            RawModel::Null
                        },
                ),
            ),
            RawValue::Object(members) => RawModel::Object(
                Seq::new(
                    members@.len(),
                    |i: int|
                        if 0 <= i < members@.len() {
                            (members@[i].0@, members@[i].1.deep_view())
                        } else {
                            (Seq::empty(), RawModel::Null)
                        },
                ),
            ),
        }
    }
}

impl Clone for RawValue {
    /// A copy of the whole value, down to its last member.
    fn clone(&self) -> (copy: Self)
        ensures
            copy.deep_view() == self.deep_view(),
        decreases self,
    {
        match self {
            RawValue::Null => RawValue::Null,
            RawValue::Boolean(truth) => RawValue::Boolean(*truth),
            RawValue::Number(number) => RawValue::Number(*number),
            RawValue::String(text) => RawValue::String(text.clone()),
            RawValue::Array(items) => {
                let mut copies: Vec<RawValue> = Vec::new();
                let mut i: usize = 0;
                while i < items.len()
                    invariant
                        i <= items.len(),
                        copies.len() == i,
                        decreases_to!(*self => *items),
                        forall|j: int|
                            0 <= j < i ==> copies@[j].deep_view() == items@[j].deep_view(),
                    decreases items.len() - i,
                {
                    copies.push(items[i].clone());
                    i += 1;
                }
                assert(RawValue::Array(copies).deep_view()->Array_0 =~= self.deep_view()->Array_0);
                RawValue::Array(copies)
            },
            RawValue::Object(members) => {
                let mut copies: Vec<(String, RawValue)> = Vec::new();
                let mut i: usize = 0;
                while i < members.len()
                    invariant
                        i <= members.len(),
                        copies.len() == i,
                        decreases_to!(*self => *members),
                        forall|j: int|
                            0 <= j < i ==> copies@[j].0@ == members@[j].0@
                                && copies@[j].1.deep_view() == members@[j].1.deep_view(),
                    decreases members.len() - i,
                {
                    copies.push((members[i].0.clone(), members[i].1.clone()));
                    i += 1;
                }
                assert(RawValue::Object(copies).deep_view()->Object_0
                    =~= self.deep_view()->Object_0);
                RawValue::Object(copies)
            },
        }
    }
}

} // verus!
