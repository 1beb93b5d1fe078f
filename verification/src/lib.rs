//! Value object expansion for linked-data documents.
//!
//! A value object is a map that stands for a single literal. This library
//! turns such an object into the literal or the language-tagged string that
//! it stands for, and says of every object that it refuses which rule the
//! object broke.
//!
//! The work is done by [`expand_value`]. It takes the payload of the object
//! as a [`RawValue`], the other entries of the object with their keys
//! resolved to [`Term`]s, and a [`Context`] that resolves the names of the
//! datatypes; it returns a [`Value`] with its index, nothing at all for a
//! null payload, or an [`Error`].

pub mod context;
pub mod error;
pub mod expansion;
pub mod literal;
pub mod raw;
pub mod term;
pub mod type_set;

pub use context::{Context, Definitions};
pub use error::{Error, ErrorCode};
pub use expansion::value::{expand_value, type_names, Accumulator, Entry};
pub use literal::{Direction, Indexed, LangString, Literal, Value};
pub use raw::RawValue;
pub use term::{Keyword, Reference, Term};
pub use type_set::TypeSet;
