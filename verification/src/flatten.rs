//! Flattening of a type into the set of its leaf field paths.

use vstd::prelude::*;
use crate::attributes::{optional_text, StructAttributes};
use crate::path_set::{qualified_all, PathSet};
use crate::resolve::{effective_name_of, resolve_field};
use crate::shape::{
    shape_of, shape_of_view, DeclaredType, FieldView, RecordView, ShapeView, TypeShape, TypeView,
};

verus! {

/// What a field with the name `name` contributes when its type has the paths
/// `nested`: the nested paths below the name, the nested paths as they are
/// where there is no name, the name alone where nothing is nested.
pub open spec fn contribution(name: Option<Seq<char>>, nested: Option<Set<Seq<char>>>) -> Set<
    Seq<char>,
> {
    match (name, nested) {
        (Some(name), Some(paths)) => qualified_all(name, paths),
        (None, Some(paths)) => paths,
        (Some(name), None) => set![name],
        (None, None) => Set::empty(),
    }
}

/// The leaf paths of a type: `None` for a type that resolves to a terminal,
/// the union of what its fields contribute for one that resolves to a record.
pub open spec fn leaf_paths_of(ty: TypeView) -> Option<Set<Seq<char>>>
    decreases ty,
{
    match ty {
        TypeView::Terminal(_) => None,
        TypeView::Wrapper(_, element) => leaf_paths_of(*element),
        TypeView::Record(record) => Some(record_paths(record)),
    }
}

/// The union of what the fields of `record` contribute.
pub open spec fn record_paths(record: RecordView) -> Set<Seq<char>>
    decreases record,
{
    fields_paths(record.attributes, record.fields)
}

/// The union of what the fields `fields` contribute under `policy`.
pub open spec fn fields_paths(policy: StructAttributes, fields: Seq<FieldView>) -> Set<Seq<char>>
    decreases fields,
{
    if fields.len() == 0 {
        Set::empty()
    } else {
        fields_paths(policy, fields.drop_last()).union(field_paths(policy, fields.last()))
    }
}

/// What one field contributes under `policy`: nothing if it is skipped.
pub open spec fn field_paths(policy: StructAttributes, field: FieldView) -> Set<Seq<char>>
    decreases field,
{
    if field.attributes.skip {
        Set::empty()
    } else {
        contribution(
            effective_name_of(policy, field),
            if field.attributes.nested {
                leaf_paths_of(field.declared_type)
            } else {
                None
            },
        )
    }
}

/// The leaf paths of a type go by its shape: a type that resolves to a
/// terminal has none, one that resolves to a record has those of the record.
pub proof fn lemma_leaf_paths_by_shape(ty: TypeView)
    ensures
        leaf_paths_of(ty) == match shape_of_view(ty) {
            ShapeView::Terminal => None,
            ShapeView::Record(record) => Some(record_paths(record)),
        },
    decreases ty,
{
    match ty {
        TypeView::Wrapper(_, element) => lemma_leaf_paths_by_shape(*element),
        _ => {},
    }
}

/// The view of an optional set of paths.
pub open spec fn optional_paths(paths: Option<PathSet>) -> Option<Set<Seq<char>>> {
    match paths {
        Some(paths) => Some(paths@),
        None => None,
    }
}

/// The leaf field paths of `ty`: `None` exactly if `ty` resolves to a
/// terminal.
pub fn leaf_paths(ty: &DeclaredType) -> (paths: Option<PathSet>)
    ensures
        optional_paths(paths) == leaf_paths_of(ty@),
        paths is None <==> shape_of_view(ty@) is Terminal,
    decreases ty,
{
    proof {
        lemma_leaf_paths_by_shape(ty@);
    }
    match shape_of(ty) {
        TypeShape::Terminal => None,
        TypeShape::Record(record) => {
            let mut field_names = PathSet::new();
            let mut i: usize = 0;
            while i < record.fields.len()
                invariant
                    i <= record.fields.len(),
                    decreases_to!(ty => record),
                    field_names@ == fields_paths(record.attributes, record@.fields.take(i as int)),
                decreases record.fields.len() - i,
            {
                let field = &record.fields[i];
                let ghost before = field_names@;
                let ghost added = field_paths(record.attributes, field@);
                proof {
                    let seen = record@.fields.take(i + 1);
                    assert(seen.drop_last() =~= record@.fields.take(i as int));
                    assert(seen.last() == field@);
                    lemma_leaf_paths_by_shape(field@.declared_type);
                }
                match resolve_field(field, &record.attributes) {
                    None => {
                        assert(before.union(added) =~= before);
                    },
                    Some(resolved) => {
                        let nested = if resolved.recurse {
                            leaf_paths(&field.declared_type)
                        } else {
                            None
                        };
                        assert(added == contribution(
                            optional_text(resolved.effective_name),
                            optional_paths(nested),
                        ));
                        match (resolved.effective_name, nested) {
                            (Some(name), Some(fields)) => {
                                field_names.extend_qualified(name.as_str(), &fields);
                            },
                            (None, Some(fields)) => {
                                field_names.extend(&fields);
                            },
                            (Some(name), None) => {
                                assert(before.insert(name@) =~= before.union(set![name@]));
                                field_names.insert(name);
                            },
                            (None, None) => {
                                assert(before.union(added) =~= before);
                            },
                        }
                    },
                }
                assert(field_names@ == before.union(added));
                i += 1;
            }
            assert(record@.fields.take(record.fields.len() as int) =~= record@.fields);
            Some(field_names)
        },
    }
}

} // verus!
