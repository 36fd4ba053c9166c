//! Customization as it is written: lists of meta items, and what they ask for.

use vstd::prelude::*;
use vstd::string::*;
use crate::attributes::{optional_text, FieldAttributes, FieldAttributesView, StructAttributes};
use crate::naming::{convention_named, invalid_value_message, str_eq, RenameAll};

verus! {

/// What stands to the right of `=` in a meta item.
#[derive(Debug, PartialEq, Eq)]
pub enum MetaValue {
    /// A string literal, with the text it denotes.
    Text(String),
    /// A boolean literal.
    Flag(bool),
    /// A literal of another kind.
    OtherLiteral,
    /// An expression that is no literal.
    NotLiteral,
}

/// The form of a meta item.
#[derive(Debug, PartialEq, Eq)]
pub enum MetaForm {
    /// A path alone, like `skip`.
    Path,
    /// A path with a list of tokens, like `any(a, b)`.
    List,
    /// A path with a value, like `nested = false`.
    NameValue(MetaValue),
}

/// One meta item of an attribute.
#[derive(Debug, PartialEq, Eq)]
pub struct MetaItem {
    /// The identifier that the item's path consists of; `None` if the path is
    /// more than one identifier.
    pub name: Option<String>,
    pub form: MetaForm,
}

/// Why a customization is refused.
#[derive(Debug, PartialEq, Eq)]
pub enum AttributeError {
    /// The arguments of the attribute are no list of meta items.
    CannotParse,
    /// `rename` has a literal that is no string.
    RenameExpectsString,
    /// `rename` has a value that is no literal.
    RenameExpectsLiteral,
    /// `nested` has a literal that is no boolean.
    NestedExpectsBool,
    /// `nested` has a value that is no literal.
    NestedExpectsLiteral,
    /// `rename_all` has a literal that is no string.
    RenameAllExpectsString,
    /// `rename_all` has a value that is no literal.
    RenameAllExpectsLiteral,
    /// `rename_all` names no convention; the value is kept.
    InvalidRenameAll(String),
    /// The item is none of those that are understood; its name is kept.
    Unrecognized(String),
    /// The item is none of those that are understood, and its path is no
    /// single identifier.
    NoIdentifier,
}

/// A value with its text as a sequence of characters.
pub enum MetaValueView {
    Text(Seq<char>),
    Flag(bool),
    OtherLiteral,
    NotLiteral,
}

/// The form of a meta item, over the view of its value.
pub enum MetaFormView {
    Path,
    List,
    NameValue(MetaValueView),
}

/// A meta item with its texts as sequences of characters.
pub struct MetaItemView {
    pub name: Option<Seq<char>>,
    pub form: MetaFormView,
}

/// An error with its texts as sequences of characters.
pub enum AttributeErrorView {
    CannotParse,
    RenameExpectsString,
    RenameExpectsLiteral,
    NestedExpectsBool,
    NestedExpectsLiteral,
    RenameAllExpectsString,
    RenameAllExpectsLiteral,
    InvalidRenameAll(Seq<char>),
    Unrecognized(Seq<char>),
    NoIdentifier,
}

impl View for MetaValue {
    type V = MetaValueView;

    open spec fn view(&self) -> MetaValueView {
        match self {
            MetaValue::Text(text) => MetaValueView::Text(text@),
            MetaValue::Flag(flag) => MetaValueView::Flag(*flag),
            MetaValue::OtherLiteral => MetaValueView::OtherLiteral,
            MetaValue::NotLiteral => MetaValueView::NotLiteral,
        }
    }
}

impl View for MetaForm {
    type V = MetaFormView;

    open spec fn view(&self) -> MetaFormView {
        match self {
            MetaForm::Path => MetaFormView::Path,
            MetaForm::List => MetaFormView::List,
            MetaForm::NameValue(value) => MetaFormView::NameValue(value@),
        }
    }
}

impl View for MetaItem {
    type V = MetaItemView;

    open spec fn view(&self) -> MetaItemView {
        MetaItemView { name: optional_text(self.name), form: self.form@ }
    }
}

impl View for AttributeError {
    type V = AttributeErrorView;

    open spec fn view(&self) -> AttributeErrorView {
        match self {
            AttributeError::CannotParse => AttributeErrorView::CannotParse,
            AttributeError::RenameExpectsString => AttributeErrorView::RenameExpectsString,
            AttributeError::RenameExpectsLiteral => AttributeErrorView::RenameExpectsLiteral,
            AttributeError::NestedExpectsBool => AttributeErrorView::NestedExpectsBool,
            AttributeError::NestedExpectsLiteral => AttributeErrorView::NestedExpectsLiteral,
            AttributeError::RenameAllExpectsString => AttributeErrorView::RenameAllExpectsString,
            AttributeError::RenameAllExpectsLiteral => AttributeErrorView::RenameAllExpectsLiteral,
            AttributeError::InvalidRenameAll(value) => AttributeErrorView::InvalidRenameAll(value@),
            AttributeError::Unrecognized(name) => AttributeErrorView::Unrecognized(name@),
            AttributeError::NoIdentifier => AttributeErrorView::NoIdentifier,
        }
    }
}

/// The views of some meta items.
pub open spec fn item_views(items: Seq<MetaItem>) -> Seq<MetaItemView> {
    items.map_values(|item: MetaItem| item@)
}

/// The error for an item that is not understood.
pub open spec fn unrecognized(item: MetaItemView) -> AttributeErrorView {
    match item.name {
        Some(name) => AttributeErrorView::Unrecognized(name),
        None => AttributeErrorView::NoIdentifier,
    }
}

/// The customization of a field after one more meta item: `skip` marks the
/// field as skipped, `rename = ".."` names it, `nested = ..` says whether its
/// type is flattened; anything else is refused.
pub open spec fn field_meta_applied(attributes: FieldAttributesView, item: MetaItemView) -> Result<
    FieldAttributesView,
    AttributeErrorView,
> {
    match item.form {
        MetaFormView::Path if item.name == Some("skip"@) => Ok(
            FieldAttributesView { skip: true, ..attributes },
        ),
        MetaFormView::NameValue(value) if item.name == Some("rename"@) => match value {
            MetaValueView::Text(name) => Ok(FieldAttributesView { rename: Some(name), ..attributes }),
            MetaValueView::NotLiteral => Err(AttributeErrorView::RenameExpectsLiteral),
            _ => Err(AttributeErrorView::RenameExpectsString),
        },
        MetaFormView::NameValue(value) if item.name == Some("nested"@) => match value {
            MetaValueView::Flag(flag) => Ok(FieldAttributesView { nested: flag, ..attributes }),
            MetaValueView::NotLiteral => Err(AttributeErrorView::NestedExpectsLiteral),
            _ => Err(AttributeErrorView::NestedExpectsBool),
        },
        _ => Err(unrecognized(item)),
    }
}

/// The customization of a field after the meta items `items`, one after the
/// other; the first item that is refused decides.
pub open spec fn field_metas_applied(
    attributes: FieldAttributesView,
    items: Seq<MetaItemView>,
) -> Result<FieldAttributesView, AttributeErrorView>
    decreases items.len(),
{
    if items.len() == 0 {
        Ok(attributes)
    } else {
        match field_metas_applied(attributes, items.drop_last()) {
            Ok(before) => field_meta_applied(before, items.last()),
            Err(e) => Err(e),
        }
    }
}

/// The customization of a record type after one more meta item:
/// `rename_all = ".."` sets the convention that the text names; anything else
/// is refused.
pub open spec fn struct_meta_applied(attributes: StructAttributes, item: MetaItemView) -> Result<
    StructAttributes,
    AttributeErrorView,
> {
    match item.form {
        MetaFormView::NameValue(value) if item.name == Some("rename_all"@) => match value {
            MetaValueView::Text(name) => match convention_named(name) {
                Some(convention) => Ok(StructAttributes { rename_all: Some(convention) }),
                None => Err(AttributeErrorView::InvalidRenameAll(name)),
            },
            MetaValueView::NotLiteral => Err(AttributeErrorView::RenameAllExpectsLiteral),
            _ => Err(AttributeErrorView::RenameAllExpectsString),
        },
        _ => Err(unrecognized(item)),
    }
}

/// The customization of a record type after the meta items `items`, one
/// after the other; the first item that is refused decides.
pub open spec fn struct_metas_applied(attributes: StructAttributes, items: Seq<MetaItemView>) -> Result<
    StructAttributes,
    AttributeErrorView,
>
    decreases items.len(),
{
    if items.len() == 0 {
        Ok(attributes)
    } else {
        match struct_metas_applied(attributes, items.drop_last()) {
            Ok(before) => struct_meta_applied(before, items.last()),
            Err(e) => Err(e),
        }
    }
}

/// What an error says.
pub open spec fn error_message(error: AttributeErrorView) -> Seq<char> {
    match error {
        AttributeErrorView::CannotParse => "Cannot parse attribute tokens"@,
        AttributeErrorView::RenameExpectsString => "Attribute `rename` expects string literal as value"@,
        AttributeErrorView::RenameExpectsLiteral => "Attribute `rename` expects literal as value"@,
        AttributeErrorView::NestedExpectsBool => "Attribute `nested` expects bool literal as value"@,
        AttributeErrorView::NestedExpectsLiteral => "Attribute `nested` expects literal as value"@,
        AttributeErrorView::RenameAllExpectsString => "Attribute `rename_all` expects string literal as value"@,
        AttributeErrorView::RenameAllExpectsLiteral => "Attribute `rename_all` expects literal as value"@,
        AttributeErrorView::InvalidRenameAll(value) => invalid_value_message(value),
        AttributeErrorView::Unrecognized(name) => "Unrecognized attribute `"@ + name + "`"@,
        AttributeErrorView::NoIdentifier => "Cannot get identifier for unrecognized attribute"@,
    }
}

/// Whether the optional name is `expected`.
fn is_named(name: &Option<String>, expected: &str) -> (same: bool)
    ensures
        same == (optional_text(*name) == Some(expected@)),
{
    match name {
        Some(name) => str_eq(name.as_str(), expected),
        None => false,
    }
}

/// The error for an item with the name `name` that is not understood.
fn refuse(name: &Option<String>) -> (error: AttributeError)
    ensures
        error@ == unrecognized(MetaItemView { name: optional_text(*name), form: MetaFormView::Path }),
{
    match name {
        Some(name) => AttributeError::Unrecognized(name.clone()),
        None => AttributeError::NoIdentifier,
    }
}

/// Applies one meta item to the customization of a field. On an error the
/// customization is left as it was.
pub fn apply_field_meta(attributes: &mut FieldAttributes, item: &MetaItem) -> (result: Result<
    (),
    AttributeError,
>)
    ensures
        match field_meta_applied(old(attributes)@, item@) {
            Ok(after) => result is Ok && final(attributes)@ == after,
            Err(e) => result is Err && result->Err_0@ == e && final(attributes)@ == old(
                attributes,
            )@,
        },
{
    match &item.form {
        MetaForm::Path => {
            if is_named(&item.name, "skip") {
                attributes.skip();
                return Ok(());
            }
        },
        MetaForm::NameValue(value) => {
            if is_named(&item.name, "rename") {
                return match value {
                    MetaValue::Text(name) => {
                        attributes.rename(name.clone());
                        Ok(())
                    },
                    MetaValue::NotLiteral => Err(AttributeError::RenameExpectsLiteral),
                    _ => Err(AttributeError::RenameExpectsString),
                };
            }
            if is_named(&item.name, "nested") {
                return match value {
                    MetaValue::Flag(flag) => {
                        attributes.nested(*flag);
                        Ok(())
                    },
                    MetaValue::NotLiteral => Err(AttributeError::NestedExpectsLiteral),
                    _ => Err(AttributeError::NestedExpectsBool),
                };
            }
        },
        MetaForm::List => {},
    }
    Err(refuse(&item.name))
}

/// Applies one meta item to the customization of a record type. On an error
/// the customization is left as it was.
pub fn apply_struct_meta(attributes: &mut StructAttributes, item: &MetaItem) -> (result: Result<
    (),
    AttributeError,
>)
    ensures
        match struct_meta_applied(*old(attributes), item@) {
            Ok(after) => result is Ok && *final(attributes) == after,
            Err(e) => result is Err && result->Err_0@ == e && *final(attributes) == *old(
                attributes,
            ),
        },
{
    match &item.form {
        MetaForm::NameValue(value) => {
            if is_named(&item.name, "rename_all") {
                return match value {
                    MetaValue::Text(name) => match RenameAll::try_from(name.as_str()) {
                        Ok(convention) => {
                            attributes.rename_all = Some(convention);
                            Ok(())
                        },
                        Err(_) => Err(AttributeError::InvalidRenameAll(name.clone())),
                    },
                    MetaValue::NotLiteral => Err(AttributeError::RenameAllExpectsLiteral),
                    _ => Err(AttributeError::RenameAllExpectsString),
                };
            }
        },
        _ => {},
    }
    Err(refuse(&item.name))
}

/// The view of a customization of a field, or of the error in its place.
pub open spec fn field_result_view(result: Result<FieldAttributes, AttributeError>) -> Result<
    FieldAttributesView,
    AttributeErrorView,
> {
    match result {
        Ok(attributes) => Ok(attributes@),
        Err(e) => Err(e@),
    }
}

/// The view of a customization of a record type, or of the error in its
/// place.
pub open spec fn struct_result_view(result: Result<StructAttributes, AttributeError>) -> Result<
    StructAttributes,
    AttributeErrorView,
> {
    match result {
        Ok(attributes) => Ok(attributes),
        Err(e) => Err(e@),
    }
}

/// The customization `attributes` of a field after the meta items `items`.
pub fn field_attributes_with(attributes: FieldAttributes, items: &Vec<MetaItem>) -> (result: Result<
    FieldAttributes,
    AttributeError,
>)
    ensures
        field_result_view(result) == field_metas_applied(attributes@, item_views(items@)),
{
    let mut current = attributes;
    let mut i: usize = 0;
    while i < items.len()
        invariant
            i <= items.len(),
            field_metas_applied(attributes@, item_views(items@).take(i as int)) == Ok::<
                FieldAttributesView,
                AttributeErrorView,
            >(current@),
        decreases items.len() - i,
    {
        proof {
            let seen = item_views(items@).take(i + 1);
            assert(seen.drop_last() =~= item_views(items@).take(i as int));
            assert(seen.last() == items@[i as int]@);
        }
        match apply_field_meta(&mut current, &items[i]) {
            Ok(()) => {},
            Err(e) => {
                proof {
                    lemma_field_error_stays(attributes@, item_views(items@), i + 1);
                }
                return Err(e);
            },
        }
        i += 1;
    }
    assert(item_views(items@).take(items.len() as int) =~= item_views(items@));
    Ok(current)
}

/// The customization `attributes` of a record type after the meta items
/// `items`.
pub fn struct_attributes_with(attributes: StructAttributes, items: &Vec<MetaItem>) -> (result: Result<
    StructAttributes,
    AttributeError,
>)
    ensures
        struct_result_view(result) == struct_metas_applied(attributes, item_views(items@)),
{
    let mut current = attributes;
    let mut i: usize = 0;
    while i < items.len()
        invariant
            i <= items.len(),
            struct_metas_applied(attributes, item_views(items@).take(i as int)) == Ok::<
                StructAttributes,
                AttributeErrorView,
            >(current),
        decreases items.len() - i,
    {
        proof {
            let seen = item_views(items@).take(i + 1);
            assert(seen.drop_last() =~= item_views(items@).take(i as int));
            assert(seen.last() == items@[i as int]@);
        }
        match apply_struct_meta(&mut current, &items[i]) {
            Ok(()) => {},
            Err(e) => {
                proof {
                    lemma_struct_error_stays(attributes, item_views(items@), i + 1);
                }
                return Err(e);
            },
        }
        i += 1;
    }
    assert(item_views(items@).take(items.len() as int) =~= item_views(items@));
    Ok(current)
}

/// An error among the first `n` items of a field is the error of all items.
pub proof fn lemma_field_error_stays(
    attributes: FieldAttributesView,
    items: Seq<MetaItemView>,
    n: int,
)
    requires
        0 <= n <= items.len(),
        field_metas_applied(attributes, items.take(n)) is Err,
    ensures
        field_metas_applied(attributes, items) == field_metas_applied(attributes, items.take(n)),
    decreases items.len() - n,
{
    if n < items.len() {
        assert(items.take(n + 1).drop_last() =~= items.take(n));
        lemma_field_error_stays(attributes, items, n + 1);
    } else {
        assert(items.take(n) =~= items);
    }
}

/// An error among the first `n` items of a record type is the error of all
/// items.
pub proof fn lemma_struct_error_stays(
    attributes: StructAttributes,
    items: Seq<MetaItemView>,
    n: int,
)
    requires
        0 <= n <= items.len(),
        struct_metas_applied(attributes, items.take(n)) is Err,
    ensures
        struct_metas_applied(attributes, items) == struct_metas_applied(attributes, items.take(n)),
    decreases items.len() - n,
{
    if n < items.len() {
        assert(items.take(n + 1).drop_last() =~= items.take(n));
        lemma_struct_error_stays(attributes, items, n + 1);
    } else {
        assert(items.take(n) =~= items);
    }
}

impl AttributeError {
    /// The message of the error.
    pub fn to_string(&self) -> (message: String)
        ensures
            message@ == error_message(self@),
    {
        match self {
            AttributeError::CannotParse => String::from_str("Cannot parse attribute tokens"),
            AttributeError::RenameExpectsString => String::from_str(
                "Attribute `rename` expects string literal as value",
            ),
            AttributeError::RenameExpectsLiteral => String::from_str(
                "Attribute `rename` expects literal as value",
            ),
            AttributeError::NestedExpectsBool => String::from_str(
                "Attribute `nested` expects bool literal as value",
            ),
            AttributeError::NestedExpectsLiteral => String::from_str(
                "Attribute `nested` expects literal as value",
            ),
            AttributeError::RenameAllExpectsString => String::from_str(
                "Attribute `rename_all` expects string literal as value",
            ),
            AttributeError::RenameAllExpectsLiteral => String::from_str(
                "Attribute `rename_all` expects literal as value",
            ),
            AttributeError::InvalidRenameAll(value) => {
                let error = crate::naming::RenameAllError { invalid_value: value.as_str() };
                error.to_string()
            },
            AttributeError::Unrecognized(name) => {
                let mut message = String::from_str("Unrecognized attribute `");
                message.append(name.as_str());
                message.append("`");
                message
            },
            AttributeError::NoIdentifier => String::from_str(
                "Cannot get identifier for unrecognized attribute",
            ),
        }
    }
}

} // verus!
