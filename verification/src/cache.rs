//! A cache that computes the leaf paths of one type once.

use vstd::prelude::*;
use once_cell::sync::OnceCell;
use crate::flatten::{leaf_paths, leaf_paths_of, optional_paths};
use crate::path_set::PathSet;
use crate::shape::{DeclaredType, TypeView};

verus! {

/// `OnceCell` of `once_cell`, the thread-safe cell that is written once. It
/// is carried as it is; nothing of what it holds is visible.
#[verifier::external_type_specification]
#[verifier::external_body]
#[verifier::reject_recursive_types(T)]
pub struct ExOnceCell<T>(once_cell::sync::OnceCell<T>);

/// `OnceCell::new` of `once_cell` makes a cell; nothing is claimed of it.
pub assume_specification<T>[ once_cell::sync::OnceCell::<T>::new ]() -> (cell:
    once_cell::sync::OnceCell<T>)
;

/// The leaf paths of one type, computed at the first query and kept.
pub struct FieldCache {
    declared: DeclaredType,
    cell: OnceCell<Option<PathSet>>,
}

impl View for FieldCache {
    type V = TypeView;

    closed spec fn view(&self) -> TypeView {
        self.declared@
    }
}

/// Calls `OnceCell::get_or_init` of `once_cell` on the cell of `cache`, with
/// the flattening of the cache's own type as the initializer. That call
/// returns what the cell holds, after filling the cell with the initializer's
/// result if it was empty. The cell of a cache is private, is made empty, and
/// is filled nowhere but here: so what it holds is the flattening of the
/// cache's type, which is what the contract claims of the result.
#[verifier::external_body]
fn get_or_compute<'a>(cache: &'a FieldCache) -> (paths: &'a Option<PathSet>)
    ensures
        optional_paths(*paths) == leaf_paths_of(cache.declared@),
{
    cache.cell.get_or_init(|| leaf_paths(&cache.declared))
}

impl FieldCache {
    /// A cache for the type `declared`. Nothing is computed yet.
    pub fn new(declared: DeclaredType) -> (cache: FieldCache)
        ensures
            cache@ == declared@,
    {
        FieldCache { declared, cell: OnceCell::new() }
    }

    /// The type that the cache is for.
    pub fn declared_type(&self) -> (declared: &DeclaredType)
        ensures
            declared@ == self@,
    {
        &self.declared
    }

    /// The leaf field paths of the cache's type.
    pub fn fields(&self) -> (paths: &Option<PathSet>)
        ensures
            optional_paths(*paths) == leaf_paths_of(self@),
    {
        get_or_compute(self)
    }
}

} // verus!
