//! Expansion of value objects.
//!
//! A value object is a map that stands for one literal: it holds `@value`
//! and, beside it, at most `@type`, `@language`, `@direction` and `@index`.
//! [`value::expand_value`] turns such a map, its keys already resolved, into
//! a literal or a language-tagged string, or refuses it.
//!
//! [`declared`] states what an object expands to, [`model`] states the steps
//! by which the expansion gets there, [`value`] holds the steps themselves,
//! and [`laws`] what follows for every object.

pub mod declared;
pub mod laws;
pub mod model;
pub mod value;
