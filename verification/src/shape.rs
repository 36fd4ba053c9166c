//! Descriptions of declared types, and the shapes they resolve to.
//!
//! A description is a tree: a record owns the descriptions of its fields'
//! types. So every description is finite and no type reaches itself.

use vstd::prelude::*;
use vstd::string::*;
use crate::attributes::{optional_text, FieldAttributes, FieldAttributesView, StructAttributes};

verus! {

/// The kinds of types that have no fields.
#[derive(Clone, Copy, Debug, PartialEq, Eq, Structural)]
pub enum Primitive {
    Bool,
    /// An integer of any width.
    Integer,
    Float,
    Text,
    /// A date, a time, or both.
    DateTime,
    /// A type of another kind that is taken as a whole, such as a tuple or a
    /// reference.
    Opaque,
}

/// The kinds of types that wrap an element type and have its shape.
#[derive(Clone, Copy, Debug, PartialEq, Eq, Structural)]
pub enum WrapperKind {
    OptionOf,
    ListOf,
    /// A map; the element is the type of its values.
    MapOf,
    SetOf,
    DedupSetOf,
    DequeOf,
    HeapOf,
    /// A result; the element is the type of its success.
    ResultOf,
    BoxOf,
}

/// One field of a record type.
#[derive(Debug)]
pub struct FieldDescriptor {
    /// The name as declared; `None` for a positional field.
    pub declared_name: Option<String>,
    pub declared_type: DeclaredType,
    pub attributes: FieldAttributes,
}

/// A type with fields, in the order of their declaration. For an enum these
/// are the fields of all its variants.
#[derive(Debug)]
pub struct Record {
    pub attributes: StructAttributes,
    pub fields: Vec<FieldDescriptor>,
}

/// A type as a field declares it.
#[derive(Debug)]
pub enum DeclaredType {
    Terminal(Primitive),
    Wrapper(WrapperKind, Box<DeclaredType>),
    Record(Record),
}

/// What a declared type resolves to.
#[derive(Clone, Copy, Debug)]
pub enum TypeShape<'a> {
    Terminal,
    Record(&'a Record),
}

/// A field with its texts as sequences of characters.
pub struct FieldView {
    pub declared_name: Option<Seq<char>>,
    pub declared_type: TypeView,
    pub attributes: FieldAttributesView,
}

/// A record type with its fields as a sequence.
pub struct RecordView {
    pub attributes: StructAttributes,
    pub fields: Seq<FieldView>,
}

/// A declared type as a mathematical tree.
pub enum TypeView {
    Terminal(Primitive),
    Wrapper(WrapperKind, Box<TypeView>),
    Record(RecordView),
}

/// A shape as a mathematical value.
pub enum ShapeView {
    Terminal,
    Record(RecordView),
}

/// The view of a declared type.
pub open spec fn type_view(ty: DeclaredType) -> TypeView
    decreases ty,
{
    match ty {
        DeclaredType::Terminal(primitive) => TypeView::Terminal(primitive),
        DeclaredType::Wrapper(kind, element) => TypeView::Wrapper(
            kind,
            Box::new(type_view(*element)),
        ),
        DeclaredType::Record(record) => TypeView::Record(record_view(record)),
    }
}

/// The view of a record type.
pub open spec fn record_view(record: Record) -> RecordView
    decreases record,
{
    RecordView { attributes: record.attributes, fields: field_views(record.fields@) }
}

/// The views of some fields, in their order.
pub open spec fn field_views(fields: Seq<FieldDescriptor>) -> Seq<FieldView>
    decreases fields,
{
    Seq::new(
        fields.len(),
        |i: int|
            if 0 <= i < fields.len() {
                field_view(fields[i])
            } else {
                arbitrary()
            },
    )
}

/// The view of a field.
pub open spec fn field_view(field: FieldDescriptor) -> FieldView
    decreases field,
{
    FieldView {
        declared_name: optional_text(field.declared_name),
        declared_type: type_view(field.declared_type),
        attributes: field.attributes@,
    }
}

impl View for FieldDescriptor {
    type V = FieldView;

    open spec fn view(&self) -> FieldView {
        field_view(*self)
    }
}

impl View for Record {
    type V = RecordView;

    open spec fn view(&self) -> RecordView {
        record_view(*self)
    }
}

impl View for DeclaredType {
    type V = TypeView;

    open spec fn view(&self) -> TypeView {
        type_view(*self)
    }
}

impl<'a> View for TypeShape<'a> {
    type V = ShapeView;

    open spec fn view(&self) -> ShapeView {
        match self {
            TypeShape::Terminal => ShapeView::Terminal,
            TypeShape::Record(record) => ShapeView::Record(record@),
        }
    }
}

/// A field with the declared name `declared_name`, the type `declared_type`
/// and no customization.
pub open spec fn plain_field(declared_name: Option<Seq<char>>, declared_type: TypeView) -> FieldView {
    FieldView {
        declared_name,
        declared_type,
        attributes: FieldAttributesView { skip: false, rename: None, nested: true },
    }
}

/// The fields of each variant of an enum.
pub open spec fn variant_views(variants: Seq<Vec<FieldDescriptor>>) -> Seq<Seq<FieldView>> {
    variants.map_values(|variant: Vec<FieldDescriptor>| field_views(variant@))
}

impl FieldDescriptor {
    /// A field.
    pub fn new(
        declared_name: Option<String>,
        declared_type: DeclaredType,
        attributes: FieldAttributes,
    ) -> (field: FieldDescriptor)
        ensures
            field@ == (FieldView {
                declared_name: optional_text(declared_name),
                declared_type: declared_type@,
                attributes: attributes@,
            }),
    {
        FieldDescriptor { declared_name, declared_type, attributes }
    }

    /// A field declared under `name`, without customization.
    pub fn named(name: &str, declared_type: DeclaredType) -> (field: FieldDescriptor)
        ensures
            field@ == plain_field(Some(name@), declared_type@),
    {
        FieldDescriptor {
            declared_name: Some(String::from_str(name)),
            declared_type,
            attributes: FieldAttributes::default(),
        }
    }

    /// A positional field, without customization.
    pub fn unnamed(declared_type: DeclaredType) -> (field: FieldDescriptor)
        ensures
            field@ == plain_field(None, declared_type@),
    {
        FieldDescriptor { declared_name: None, declared_type, attributes: FieldAttributes::default() }
    }
}

impl Record {
    /// The record type of a struct with the fields `fields`.
    pub fn new(attributes: StructAttributes, fields: Vec<FieldDescriptor>) -> (record: Record)
        ensures
            record@ == (RecordView { attributes, fields: field_views(fields@) }),
    {
        Record { attributes, fields }
    }

    /// The record type of an enum: its fields are those of all variants, one
    /// variant after the other.
    pub fn of_variants(attributes: StructAttributes, variants: Vec<Vec<FieldDescriptor>>) -> (record:
        Record)
        ensures
            record@ == (RecordView { attributes, fields: variant_views(variants@).flatten() }),
    {
        let mut fields: Vec<FieldDescriptor> = Vec::new();
        let ghost all = variants@;
        assert(variant_views(all.take(0)).flatten() =~= field_views(fields@));
        for variant in it: variants
            invariant
                it.seq() == all,
                field_views(fields@) == variant_views(all.take(it.index())).flatten(),
        {
            let mut variant = variant;
            proof {
                let i: int = it.index();
                assert(variant_views(all.take(i + 1)) =~= variant_views(all.take(i)).push(
                    field_views(variant@),
                ));
                variant_views(all.take(i)).lemma_flatten_push(field_views(variant@));
                assert(field_views(fields@ + variant@) =~= field_views(fields@) + field_views(
                    variant@,
                ));
            }
            fields.append(&mut variant);
        }
        assert(all.take(all.len() as int) =~= all);
        Record { attributes, fields }
    }
}

impl DeclaredType {
    /// A type without fields.
    pub fn terminal(primitive: Primitive) -> (ty: DeclaredType)
        ensures
            ty@ == TypeView::Terminal(primitive),
    {
        DeclaredType::Terminal(primitive)
    }

    /// A type that wraps `element`.
    pub fn wrapper(kind: WrapperKind, element: DeclaredType) -> (ty: DeclaredType)
        ensures
            ty@ == TypeView::Wrapper(kind, Box::new(element@)),
    {
        DeclaredType::Wrapper(kind, Box::new(element))
    }

    /// A type with fields.
    pub fn record(record: Record) -> (ty: DeclaredType)
        ensures
            ty@ == TypeView::Record(record@),
    {
        DeclaredType::Record(record)
    }
}

/// The shape of a type: a wrapper has the shape of its element, a primitive
/// is terminal, a record is itself.
pub open spec fn shape_of_view(ty: TypeView) -> ShapeView
    decreases ty,
{
    match ty {
        TypeView::Terminal(_) => ShapeView::Terminal,
        TypeView::Wrapper(_, element) => shape_of_view(*element),
        TypeView::Record(record) => ShapeView::Record(record),
    }
}

/// Resolves a declared type to its shape.
pub fn shape_of<'a>(ty: &'a DeclaredType) -> (shape: TypeShape<'a>)
    ensures
        shape@ == shape_of_view(ty@),
        shape matches TypeShape::Record(record) ==> decreases_to!(ty => record),
    decreases ty,
{
    match ty {
        DeclaredType::Terminal(_) => TypeShape::Terminal,
        DeclaredType::Wrapper(_, element) => shape_of(element),
        DeclaredType::Record(record) => TypeShape::Record(record),
    }
}

} // verus!
