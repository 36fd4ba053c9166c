//! The name under which a field contributes, and whether its type is
//! flattened below it.

use vstd::prelude::*;
use vstd::string::*;
use crate::attributes::{optional_text, StructAttributes};
use crate::shape::{shape_of, shape_of_view, FieldDescriptor, FieldView, TypeShape};

verus! {

/// An identifier without the raw marker `r#` that it may start with.
pub open spec fn plain_identifier(name: Seq<char>) -> Seq<char> {
    if name.len() >= 2 && name[0] == 'r' && name[1] == '#' {
        name.skip(2)
    } else {
        name
    }
}

/// The name of a field before its own `rename`: the declared name in plain
/// form, under the record's convention if it has one. A positional field has
/// none.
pub open spec fn base_name_of(policy: StructAttributes, declared_name: Option<Seq<char>>) -> Option<
    Seq<char>,
> {
    match declared_name {
        None => None,
        Some(name) => match policy.rename_all {
            Some(convention) => Some(convention.renamed(plain_identifier(name))),
            None => Some(plain_identifier(name)),
        },
    }
}

/// The name under which a field contributes: its `rename` if it has one, else
/// its base name.
pub open spec fn effective_name_of(policy: StructAttributes, field: FieldView) -> Option<
    Seq<char>,
> {
    match field.attributes.rename {
        Some(name) => Some(name),
        None => base_name_of(policy, field.declared_name),
    }
}

/// Whether the paths of the field's type are flattened below the field: the
/// field asks for it and its type resolves to a record.
pub open spec fn recurses(field: FieldView) -> bool {
    field.attributes.nested && shape_of_view(field.declared_type) is Record
}

/// How a field that is not skipped contributes.
#[derive(Debug, PartialEq, Eq)]
pub struct ResolvedField {
    pub effective_name: Option<String>,
    pub recurse: bool,
}

/// A resolution with the name as a sequence of characters.
pub struct ResolvedFieldView {
    pub effective_name: Option<Seq<char>>,
    pub recurse: bool,
}

impl View for ResolvedField {
    type V = ResolvedFieldView;

    open spec fn view(&self) -> ResolvedFieldView {
        ResolvedFieldView {
            effective_name: optional_text(self.effective_name),
            recurse: self.recurse,
        }
    }
}

/// How a field contributes under the policy of its record: `None` if it is
/// skipped.
pub open spec fn resolved_field(policy: StructAttributes, field: FieldView) -> Option<
    ResolvedFieldView,
> {
    if field.attributes.skip {
        None
    } else {
        Some(
            ResolvedFieldView {
                effective_name: effective_name_of(policy, field),
                recurse: recurses(field),
            },
        )
    }
}

/// The view of an optional resolution.
pub open spec fn optional_resolution(resolved: Option<ResolvedField>) -> Option<ResolvedFieldView> {
    match resolved {
        Some(resolved) => Some(resolved@),
        None => None,
    }
}

/// Takes the raw marker off an identifier.
pub fn sanitize_identifier(name: &str) -> (plain: String)
    ensures
        plain@ == plain_identifier(name@),
{
    let length: usize = name.unicode_len();
    if length >= 2 && name.get_char(0) == 'r' && name.get_char(1) == '#' {
        String::from_str(name.substring_char(2, length))
    } else {
        String::from_str(name)
    }
}

/// The base name of a field with the declared name `declared_name`.
pub fn base_name(policy: &StructAttributes, declared_name: &Option<String>) -> (name: Option<String>)
    ensures
        optional_text(name) == base_name_of(
            *policy,
            optional_text(*declared_name),
        ),
{
    match declared_name {
        None => None,
        Some(declared) => {
            let plain = sanitize_identifier(declared.as_str());
            match &policy.rename_all {
                Some(convention) => Some(convention.rename(plain.as_str())),
                None => Some(plain),
            }
        },
    }
}

/// Resolves the customization of `field` under the policy of its record.
pub fn resolve_field(field: &FieldDescriptor, policy: &StructAttributes) -> (resolved: Option<
    ResolvedField,
>)
    ensures
        optional_resolution(resolved) == resolved_field(*policy, field@),
{
    if field.attributes.skip {
        return None;
    }
    let effective_name = match &field.attributes.rename {
        Some(name) => Some(name.clone()),
        None => base_name(policy, &field.declared_name),
    };
    let recurse = field.attributes.nested && match shape_of(&field.declared_type) {
        TypeShape::Record(_) => true,
        TypeShape::Terminal => false,
    };
    Some(ResolvedField { effective_name, recurse })
}

} // verus!
