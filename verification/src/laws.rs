//! Laws of field resolution and of flattening.

use vstd::prelude::*;
use crate::attributes::StructAttributes;
use crate::flatten::{
    contribution, field_paths, fields_paths, leaf_paths_of, lemma_leaf_paths_by_shape,
    record_paths,
};
use crate::path_set::qualified;
use crate::resolve::{effective_name_of, plain_identifier, resolved_field};
use crate::shape::{
    plain_field, shape_of_view, FieldView, Primitive, RecordView, TypeView, WrapperKind,
};

verus! {

/// Two answers to the query for one type are the same set.
pub proof fn law_queries_agree(
    ty: TypeView,
    first: Option<Set<Seq<char>>>,
    second: Option<Set<Seq<char>>>,
)
    requires
        first == leaf_paths_of(ty),
        second == leaf_paths_of(ty),
    ensures
        first == second,
{
}

/// A type has no leaf paths exactly if it resolves to a terminal.
pub proof fn law_terminal_has_no_paths(ty: TypeView)
    ensures
        shape_of_view(ty) is Terminal <==> leaf_paths_of(ty) is None,
    decreases ty,
{
    match ty {
        TypeView::Wrapper(_, element) => law_terminal_has_no_paths(*element),
        _ => {},
    }
}

/// A wrapper has the shape and the leaf paths of its element.
pub proof fn law_wrapper_is_transparent(kind: WrapperKind, element: TypeView)
    ensures
        shape_of_view(TypeView::Wrapper(kind, Box::new(element))) == shape_of_view(element),
        leaf_paths_of(TypeView::Wrapper(kind, Box::new(element))) == leaf_paths_of(element),
{
}

/// A path is among those of some fields exactly if one of the fields
/// contributes it.
pub proof fn law_paths_come_from_fields(
    policy: StructAttributes,
    fields: Seq<FieldView>,
    path: Seq<char>,
)
    ensures
        fields_paths(policy, fields).contains(path) <==> exists|i: int|
            0 <= i < fields.len() && #[trigger] field_paths(policy, fields[i]).contains(path),
    decreases fields.len(),
{
    if fields.len() > 0 {
        let before = fields.drop_last();
        law_paths_come_from_fields(policy, before, path);
        if fields_paths(policy, fields).contains(path) {
            if field_paths(policy, fields.last()).contains(path) {
                assert(field_paths(policy, fields[fields.len() - 1]).contains(path));
            } else {
                let i: int = choose|i: int|
                    0 <= i < before.len() && #[trigger] field_paths(policy, before[i]).contains(
                        path,
                    );
                assert(field_paths(policy, fields[i]).contains(path));
            }
        }
        if exists|i: int|
            0 <= i < fields.len() && #[trigger] field_paths(policy, fields[i]).contains(path) {
            let i: int = choose|i: int|
                0 <= i < fields.len() && #[trigger] field_paths(policy, fields[i]).contains(path);
            if i < before.len() {
                assert(field_paths(policy, before[i]).contains(path));
            }
        }
    }
}

/// The paths of fields that stand one group after another are the union of
/// the paths of the groups.
pub proof fn law_paths_of_joined_fields(
    policy: StructAttributes,
    first: Seq<FieldView>,
    second: Seq<FieldView>,
)
    ensures
        fields_paths(policy, first + second) == fields_paths(policy, first).union(
            fields_paths(policy, second),
        ),
    decreases second.len(),
{
    if second.len() == 0 {
        assert(first + second =~= first);
        assert(fields_paths(policy, first).union(fields_paths(policy, second)) =~= fields_paths(
            policy,
            first,
        ));
    } else {
        law_paths_of_joined_fields(policy, first, second.drop_last());
        assert((first + second).drop_last() =~= first + second.drop_last());
        assert((first + second).last() == second.last());
        assert(fields_paths(policy, first + second) =~= fields_paths(policy, first).union(
            fields_paths(policy, second),
        ));
    }
}

/// What a field contributes is decided by how it resolves: nothing if it is
/// skipped; else, under the resolved name, the paths of its type where the
/// field recurses and the bare name where it does not.
pub proof fn law_paths_follow_resolution(policy: StructAttributes, field: FieldView)
    ensures
        field_paths(policy, field) == match resolved_field(policy, field) {
            None => Set::<Seq<char>>::empty(),
            Some(resolved) => contribution(
                resolved.effective_name,
                if resolved.recurse {
                    leaf_paths_of(field.declared_type)
                } else {
                    None
                },
            ),
        },
        resolved_field(policy, field) matches Some(resolved) && resolved.recurse ==> leaf_paths_of(
            field.declared_type,
        ) is Some,
{
    lemma_leaf_paths_by_shape(field.declared_type);
}

/// The name that a field is given by its own `rename` wins over the name that
/// the convention of its record would give it.
pub proof fn law_rename_wins(policy: StructAttributes, field: FieldView)
    requires
        field.attributes.rename is Some,
    ensures
        effective_name_of(policy, field) == field.attributes.rename,
        !field.attributes.skip ==> resolved_field(policy, field)->0.effective_name
            == field.attributes.rename,
{
}

/// A skipped field contributes no path, whatever its type holds.
pub proof fn law_skipped_field_is_silent(policy: StructAttributes, field: FieldView)
    requires
        field.attributes.skip,
    ensures
        resolved_field(policy, field) is None,
        field_paths(policy, field) == Set::<Seq<char>>::empty(),
{
}

/// A record has the same paths with and without a skipped field.
pub proof fn law_skipped_field_can_be_left_out(
    policy: StructAttributes,
    fields: Seq<FieldView>,
    i: int,
)
    requires
        0 <= i < fields.len(),
        fields[i].attributes.skip,
    ensures
        fields_paths(policy, fields) == fields_paths(policy, fields.remove(i)),
{
    let without = fields.remove(i);
    assert forall|path: Seq<char>|
        fields_paths(policy, fields).contains(path) == fields_paths(policy, without).contains(
            path,
        ) by {
        law_paths_come_from_fields(policy, fields, path);
        law_paths_come_from_fields(policy, without, path);
        if fields_paths(policy, fields).contains(path) {
            let j: int = choose|j: int|
                0 <= j < fields.len() && #[trigger] field_paths(policy, fields[j]).contains(path);
            if j < i {
                assert(field_paths(policy, without[j]).contains(path));
            } else {
                assert(field_paths(policy, without[j - 1]).contains(path));
            }
        }
        if fields_paths(policy, without).contains(path) {
            let j: int = choose|j: int|
                0 <= j < without.len() && #[trigger] field_paths(policy, without[j]).contains(
                    path,
                );
            if j < i {
                assert(field_paths(policy, fields[j]).contains(path));
            } else {
                assert(field_paths(policy, fields[j + 1]).contains(path));
            }
        }
    }
    assert(fields_paths(policy, fields) =~= fields_paths(policy, without));
}

/// A field that is not flattened contributes its own name and nothing else,
/// whatever its type holds.
pub proof fn law_unnested_field_is_atomic(policy: StructAttributes, field: FieldView)
    requires
        !field.attributes.skip,
        !field.attributes.nested,
    ensures
        resolved_field(policy, field)->0.recurse == false,
        field_paths(policy, field) == match effective_name_of(policy, field) {
            Some(name) => set![name],
            None => Set::<Seq<char>>::empty(),
        },
{
}

/// The paths of an enum with two variants of one field each are the paths of
/// the two fields, with nothing put before them.
pub proof fn law_variants_merge(policy: StructAttributes, first: FieldView, second: FieldView)
    ensures
        record_paths(
            RecordView { attributes: policy, fields: seq![seq![first], seq![second]].flatten() },
        ) == field_paths(policy, first).union(field_paths(policy, second)),
{
    let variants = seq![seq![first], seq![second]];
    assert(variants =~= seq![seq![first]].push(seq![second]));
    seq![seq![first]].lemma_flatten_push(seq![second]);
    seq![seq![first]].lemma_flatten_one_element();
    assert(variants.flatten() =~= seq![first] + seq![second]);
    law_paths_of_joined_fields(policy, seq![first], seq![second]);
    lemma_paths_of_one_field(policy, first);
    lemma_paths_of_one_field(policy, second);
}

/// A path is among those of an enum exactly if the fields of one of its
/// variants contribute it.
pub proof fn law_paths_come_from_variants(
    policy: StructAttributes,
    variants: Seq<Seq<FieldView>>,
    path: Seq<char>,
)
    ensures
        record_paths(RecordView { attributes: policy, fields: variants.flatten() }).contains(path)
            <==> exists|v: int|
            0 <= v < variants.len() && #[trigger] fields_paths(policy, variants[v]).contains(path),
    decreases variants.len(),
{
    if variants.len() == 0 {
        assert(variants.flatten() =~= Seq::<FieldView>::empty());
    } else {
        let before = variants.drop_last();
        assert(variants =~= before.push(variants.last()));
        before.lemma_flatten_push(variants.last());
        law_paths_of_joined_fields(policy, before.flatten(), variants.last());
        law_paths_come_from_variants(policy, before, path);
        if fields_paths(policy, before.flatten()).contains(path) {
            let v: int = choose|v: int|
                0 <= v < before.len() && #[trigger] fields_paths(policy, before[v]).contains(path);
            assert(fields_paths(policy, variants[v]).contains(path));
        }
        if fields_paths(policy, variants.last()).contains(path) {
            assert(fields_paths(policy, variants[variants.len() - 1]).contains(path));
        }
        if exists|v: int|
            0 <= v < variants.len() && #[trigger] fields_paths(policy, variants[v]).contains(path) {
            let v: int = choose|v: int|
                0 <= v < variants.len() && #[trigger] fields_paths(policy, variants[v]).contains(
                    path,
                );
            if v < before.len() {
                assert(fields_paths(policy, before[v]).contains(path));
            }
        }
    }
}

/// The paths of one field alone.
proof fn lemma_paths_of_one_field(policy: StructAttributes, field: FieldView)
    ensures
        fields_paths(policy, seq![field]) == field_paths(policy, field),
{
    assert(seq![field].drop_last() =~= Seq::<FieldView>::empty());
    assert(fields_paths(policy, seq![field]) =~= field_paths(policy, field)) by {
        reveal_with_fuel(fields_paths, 2);
    }
}

/// Records nested one in the other: each holds one field, named by `names` in
/// turn, and the innermost holds the one field `leaf` of a primitive type.
pub open spec fn nested_records(names: Seq<Seq<char>>, leaf: Seq<char>, primitive: Primitive) -> TypeView
    decreases names.len(),
{
    let inner = if names.len() == 0 {
        TypeView::Terminal(primitive)
    } else {
        nested_records(names.drop_first(), leaf, primitive)
    };
    let name = if names.len() == 0 {
        leaf
    } else {
        names.first()
    };
    TypeView::Record(
        RecordView {
            attributes: StructAttributes { rename_all: None },
            fields: seq![plain_field(Some(name), inner)],
        },
    )
}

/// The plain forms of `names` and of `leaf`, joined by dots.
pub open spec fn dotted(names: Seq<Seq<char>>, leaf: Seq<char>) -> Seq<char>
    decreases names.len(),
{
    if names.len() == 0 {
        plain_identifier(leaf)
    } else {
        qualified(plain_identifier(names.first()), dotted(names.drop_first(), leaf))
    }
}

/// Records nested to any depth, each with one field, have one leaf path: the
/// names of the fields from the outermost to the innermost, joined by dots.
pub proof fn law_nesting_gives_one_path(names: Seq<Seq<char>>, leaf: Seq<char>, primitive: Primitive)
    ensures
        leaf_paths_of(nested_records(names, leaf, primitive)) == Some(set![dotted(names, leaf)]),
    decreases names.len(),
{
    let policy = StructAttributes { rename_all: None };
    if names.len() == 0 {
        let field = plain_field(Some(leaf), TypeView::Terminal(primitive));
        lemma_paths_of_one_field(policy, field);
        assert(field_paths(policy, field) =~= set![dotted(names, leaf)]);
        let record = RecordView { attributes: policy, fields: seq![field] };
        assert(nested_records(names, leaf, primitive) == TypeView::Record(record));
        assert(record_paths(record) == fields_paths(policy, seq![field]));
        assert(leaf_paths_of(TypeView::Record(record)) == Some(record_paths(record)));
    } else {
        let inner = nested_records(names.drop_first(), leaf, primitive);
        let field = plain_field(Some(names.first()), inner);
        law_nesting_gives_one_path(names.drop_first(), leaf, primitive);
        lemma_paths_of_one_field(policy, field);
        let below = |path: Seq<char>| qualified(plain_identifier(names.first()), path);
        let rest = dotted(names.drop_first(), leaf);
        Set::<Seq<char>>::empty().lemma_set_map_insert_commute(rest, below);
        assert(Set::<Seq<char>>::empty().map(below) =~= Set::<Seq<char>>::empty());
        assert(set![rest] =~= Set::<Seq<char>>::empty().insert(rest));
        assert(field_paths(policy, field) =~= set![dotted(names, leaf)]);
        let record = RecordView { attributes: policy, fields: seq![field] };
        assert(nested_records(names, leaf, primitive) == TypeView::Record(record));
        assert(record_paths(record) == fields_paths(policy, seq![field]));
        assert(leaf_paths_of(TypeView::Record(record)) == Some(record_paths(record)));
    }
}

} // verus!
