//! Customization as source text: attributes with their arguments, read by
//! `syn`.

use syn::parse::Parser;
use syn::punctuated::Punctuated;
use syn::token::Comma;
use syn::{Expr, ExprLit, Lit, Meta};
use vstd::prelude::*;
use crate::attributes::{optional_text, FieldAttributes, FieldAttributesView, StructAttributes};
use crate::meta::{
    field_attributes_with, field_metas_applied, field_result_view, item_views,
    struct_attributes_with, struct_metas_applied, struct_result_view, AttributeError,
    AttributeErrorView, MetaForm, MetaItem, MetaItemView, MetaValue,
};
use crate::naming::str_eq;

verus! {

/// The meta items that `syn` reads from the tokens `tokens`, a list separated
/// by commas; `None` where `syn` reads no such list from them.
pub uninterp spec fn parsed_meta_list(tokens: Seq<char>) -> Option<Seq<MetaItemView>>;

/// The views of an optional list of meta items.
pub open spec fn optional_items(items: Option<Vec<MetaItem>>) -> Option<Seq<MetaItemView>> {
    match items {
        Some(items) => Some(item_views(items@)),
        None => None,
    }
}

/// Reads `tokens` with `Punctuated::<Meta, Comma>::parse_terminated` of `syn`,
/// run on a string, and hands each `Meta` out as a `MetaItem`: the identifier
/// of its path, its form, and for a string or boolean literal what it denotes.
/// The result is the one that `parsed_meta_list` names; nothing else is
/// claimed of it.
#[verifier::external_body]
fn parse_meta_list(tokens: &str) -> (items: Option<Vec<MetaItem>>)
    ensures
        optional_items(items) == parsed_meta_list(tokens@),
{
    let metas = Punctuated::<Meta, Comma>::parse_terminated.parse_str(tokens).ok()?;
    Some(metas.iter().map(|meta| MetaItem {
        name: meta.path().get_ident().map(|ident| ident.to_string()),
        form: match meta {
            Meta::Path(_) => MetaForm::Path,
            Meta::List(_) => MetaForm::List,
            Meta::NameValue(pair) => MetaForm::NameValue(match &pair.value {
                Expr::Lit(ExprLit { lit: Lit::Str(text), .. }) => MetaValue::Text(text.value()),
                Expr::Lit(ExprLit { lit: Lit::Bool(flag), .. }) => MetaValue::Flag(flag.value()),
                Expr::Lit(_) => MetaValue::OtherLiteral,
                _ => MetaValue::NotLiteral,
            }),
        },
    }).collect())
}

/// An attribute as it is written on a type or a field.
#[derive(Debug, PartialEq, Eq)]
pub struct AttributeSource {
    /// The identifier that the attribute's path consists of; `None` if the
    /// path is more than one identifier.
    pub name: Option<String>,
    /// The tokens between the delimiters of the attribute; `None` if the
    /// attribute has no delimited arguments.
    pub arguments: Option<String>,
}

/// An attribute with its texts as sequences of characters.
pub struct AttributeSourceView {
    pub name: Option<Seq<char>>,
    pub arguments: Option<Seq<char>>,
}

impl View for AttributeSource {
    type V = AttributeSourceView;

    open spec fn view(&self) -> AttributeSourceView {
        AttributeSourceView {
            name: optional_text(self.name),
            arguments: optional_text(self.arguments),
        }
    }
}

/// The views of some attributes.
pub open spec fn source_views(sources: Seq<AttributeSource>) -> Seq<AttributeSourceView> {
    sources.map_values(|source: AttributeSource| source@)
}

/// Whether the attribute is one of this library: its path is `fields`.
pub open spec fn is_customization(source: AttributeSourceView) -> bool {
    source.name == Some("fields"@)
}

/// The meta items that an attribute holds.
pub open spec fn written_items(source: AttributeSourceView) -> Result<
    Seq<MetaItemView>,
    AttributeErrorView,
> {
    match source.arguments {
        Some(tokens) => match parsed_meta_list(tokens) {
            Some(items) => Ok(items),
            None => Err(AttributeErrorView::CannotParse),
        },
        None => Err(AttributeErrorView::CannotParse),
    }
}

/// The customization of a field after one more attribute. An attribute of
/// another path changes nothing.
pub open spec fn field_source_applied(
    attributes: FieldAttributesView,
    source: AttributeSourceView,
) -> Result<FieldAttributesView, AttributeErrorView> {
    if is_customization(source) {
        match written_items(source) {
            Ok(items) => field_metas_applied(attributes, items),
            Err(e) => Err(e),
        }
    } else {
        Ok(attributes)
    }
}

/// The customization of a field that a list of attributes asks for, starting
/// from `attributes`; the first attribute that is refused decides.
pub open spec fn field_sources_applied(
    attributes: FieldAttributesView,
    sources: Seq<AttributeSourceView>,
) -> Result<FieldAttributesView, AttributeErrorView>
    decreases sources.len(),
{
    if sources.len() == 0 {
        Ok(attributes)
    } else {
        match field_sources_applied(attributes, sources.drop_last()) {
            Ok(before) => field_source_applied(before, sources.last()),
            Err(e) => Err(e),
        }
    }
}

/// The customization of a record type after one more attribute. An attribute
/// of another path changes nothing.
pub open spec fn struct_source_applied(
    attributes: StructAttributes,
    source: AttributeSourceView,
) -> Result<StructAttributes, AttributeErrorView> {
    if is_customization(source) {
        match written_items(source) {
            Ok(items) => struct_metas_applied(attributes, items),
            Err(e) => Err(e),
        }
    } else {
        Ok(attributes)
    }
}

/// The customization of a record type that a list of attributes asks for,
/// starting from `attributes`; the first attribute that is refused decides.
pub open spec fn struct_sources_applied(
    attributes: StructAttributes,
    sources: Seq<AttributeSourceView>,
) -> Result<StructAttributes, AttributeErrorView>
    decreases sources.len(),
{
    if sources.len() == 0 {
        Ok(attributes)
    } else {
        match struct_sources_applied(attributes, sources.drop_last()) {
            Ok(before) => struct_source_applied(before, sources.last()),
            Err(e) => Err(e),
        }
    }
}

/// The view of some meta items, or of the error in their place.
pub open spec fn items_result_view(result: Result<Vec<MetaItem>, AttributeError>) -> Result<
    Seq<MetaItemView>,
    AttributeErrorView,
> {
    match result {
        Ok(items) => Ok(item_views(items@)),
        Err(e) => Err(e@),
    }
}

/// Reads the meta items that an attribute holds.
pub fn read_items(source: &AttributeSource) -> (result: Result<Vec<MetaItem>, AttributeError>)
    ensures
        items_result_view(result) == written_items(source@),
{
    match &source.arguments {
        Some(tokens) => match parse_meta_list(tokens.as_str()) {
            Some(items) => Ok(items),
            None => Err(AttributeError::CannotParse),
        },
        None => Err(AttributeError::CannotParse),
    }
}

/// Whether the attribute is one of this library.
pub fn is_fields_attribute(source: &AttributeSource) -> (b: bool)
    ensures
        b == is_customization(source@),
{
    match &source.name {
        Some(name) => str_eq(name.as_str(), "fields"),
        None => false,
    }
}

/// The customization that the attributes of a field ask for.
pub fn parse_field_attributes(attributes: &Vec<AttributeSource>) -> (result: Result<
    FieldAttributes,
    AttributeError,
>)
    ensures
        field_result_view(result) == field_sources_applied(
            FieldAttributesView { skip: false, rename: None, nested: true },
            source_views(attributes@),
        ),
{
    let ghost start = FieldAttributesView { skip: false, rename: None, nested: true };
    let ghost sources = source_views(attributes@);
    let mut current = FieldAttributes::default();
    let mut i: usize = 0;
    while i < attributes.len()
        invariant
            i <= attributes.len(),
            sources == source_views(attributes@),
            start == (FieldAttributesView { skip: false, rename: None, nested: true }),
            field_sources_applied(start, sources.take(i as int)) == Ok::<
                FieldAttributesView,
                AttributeErrorView,
            >(current@),
        decreases attributes.len() - i,
    {
        proof {
            let seen = sources.take(i + 1);
            assert(seen.drop_last() =~= sources.take(i as int));
            assert(seen.last() == attributes@[i as int]@);
        }
        if is_fields_attribute(&attributes[i]) {
            let applied = match read_items(&attributes[i]) {
                Ok(items) => field_attributes_with(current, &items),
                Err(e) => Err(e),
            };
            match applied {
                Ok(after) => {
                    current = after;
                },
                Err(e) => {
                    proof {
                        lemma_field_source_error_stays(start, sources, i + 1);
                    }
                    return Err(e);
                },
            }
        }
        i += 1;
    }
    assert(sources.take(attributes.len() as int) =~= sources);
    Ok(current)
}

/// The customization that the attributes of a record type ask for.
pub fn parse_struct_attributes(attributes: &Vec<AttributeSource>) -> (result: Result<
    StructAttributes,
    AttributeError,
>)
    ensures
        struct_result_view(result) == struct_sources_applied(
            StructAttributes { rename_all: None },
            source_views(attributes@),
        ),
{
    let ghost start = StructAttributes { rename_all: None };
    let ghost sources = source_views(attributes@);
    let mut current = StructAttributes::default();
    let mut i: usize = 0;
    while i < attributes.len()
        invariant
            i <= attributes.len(),
            sources == source_views(attributes@),
            start == (StructAttributes { rename_all: None }),
            struct_sources_applied(start, sources.take(i as int)) == Ok::<
                StructAttributes,
                AttributeErrorView,
            >(current),
        decreases attributes.len() - i,
    {
        proof {
            let seen = sources.take(i + 1);
            assert(seen.drop_last() =~= sources.take(i as int));
            assert(seen.last() == attributes@[i as int]@);
        }
        if is_fields_attribute(&attributes[i]) {
            let applied = match read_items(&attributes[i]) {
                Ok(items) => struct_attributes_with(current, &items),
                Err(e) => Err(e),
            };
            match applied {
                Ok(after) => {
                    current = after;
                },
                Err(e) => {
                    proof {
                        lemma_struct_source_error_stays(start, sources, i + 1);
                    }
                    return Err(e);
                },
            }
        }
        i += 1;
    }
    assert(sources.take(attributes.len() as int) =~= sources);
    Ok(current)
}

/// An error among the first `n` attributes of a field is the error of all
/// attributes.
pub proof fn lemma_field_source_error_stays(
    attributes: FieldAttributesView,
    sources: Seq<AttributeSourceView>,
    n: int,
)
    requires
        0 <= n <= sources.len(),
        field_sources_applied(attributes, sources.take(n)) is Err,
    ensures
        field_sources_applied(attributes, sources) == field_sources_applied(
            attributes,
            sources.take(n),
        ),
    decreases sources.len() - n,
{
    if n < sources.len() {
        assert(sources.take(n + 1).drop_last() =~= sources.take(n));
        lemma_field_source_error_stays(attributes, sources, n + 1);
    } else {
        assert(sources.take(n) =~= sources);
    }
}

/// An error among the first `n` attributes of a record type is the error of
/// all attributes.
pub proof fn lemma_struct_source_error_stays(
    attributes: StructAttributes,
    sources: Seq<AttributeSourceView>,
    n: int,
)
    requires
        0 <= n <= sources.len(),
        struct_sources_applied(attributes, sources.take(n)) is Err,
    ensures
        struct_sources_applied(attributes, sources) == struct_sources_applied(
            attributes,
            sources.take(n),
        ),
    decreases sources.len() - n,
{
    if n < sources.len() {
        assert(sources.take(n + 1).drop_last() =~= sources.take(n));
        lemma_struct_source_error_stays(attributes, sources, n + 1);
    } else {
        assert(sources.take(n) =~= sources);
    }
}

} // verus!
