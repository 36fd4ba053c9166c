//! Leaf field paths of structured record types.
//!
//! A type is described by a [`shape::DeclaredType`]: a primitive, a wrapper
//! around an element type, or a record with fields. [`flatten::leaf_paths`]
//! flattens a description into the set of dotted paths of its leaf fields,
//! after the customization of the record (a naming convention) and of each
//! field (skip, rename, nested). [`cache::FieldCache`] keeps the result of the
//! first query.

pub use once_cell::sync::OnceCell;
use vstd::prelude::*;

pub mod attributes;
pub mod cache;
pub mod flatten;
pub mod instances;
pub mod laws;
pub mod meta;
pub mod naming;
pub mod path_set;
pub mod resolve;
pub mod shape;
pub mod syntax;

use crate::flatten::{leaf_paths, leaf_paths_of, optional_paths};
use crate::path_set::PathSet;
use crate::shape::{DeclaredType, TypeView};

verus! {

/// A type that can describe itself.
///
/// An implementation in verified code says in `declared` what it builds. One
/// in other code is taken to build a description with the same view at every
/// call.
pub trait Fields {
    /// The description of the type. Where an implementation does not say it,
    /// it is some fixed description of which nothing is known.
    open spec fn declared() -> TypeView {
        arbitrary()
    }

    /// Builds the description of the type.
    fn describe() -> (ty: DeclaredType)
        ensures
            ty@ == Self::declared(),
    ;

    /// The leaf field paths of the type: `None` if it has no fields.
    fn fields() -> (paths: Option<PathSet>)
        ensures
            optional_paths(paths) == leaf_paths_of(Self::declared()),
    {
        leaf_paths(&Self::describe())
    }
}

} // verus!
