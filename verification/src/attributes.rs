//! Customization of a record type and of its fields.

use vstd::prelude::*;
use crate::naming::RenameAll;

verus! {

/// What a record type asks of all of its fields.
#[derive(Clone, Copy, Debug, PartialEq, Eq)]
pub struct StructAttributes {
    /// The convention applied to every declared field name.
    pub rename_all: Option<RenameAll>,
}

impl Default for StructAttributes {
    fn default() -> (attributes: StructAttributes)
        ensures
            attributes.rename_all is None,
    {
        StructAttributes { rename_all: None }
    }
}

/// What one field asks for itself.
#[derive(Debug, PartialEq, Eq)]
pub struct FieldAttributes {
    /// The field contributes no path.
    pub skip: bool,
    /// The name that replaces the field's own.
    pub rename: Option<String>,
    /// The paths of the field's type are flattened below the field.
    pub nested: bool,
}

/// A field's customization with its texts as sequences of characters.
pub struct FieldAttributesView {
    pub skip: bool,
    pub rename: Option<Seq<char>>,
    pub nested: bool,
}

/// The text of an optional string.
pub open spec fn optional_text(s: Option<String>) -> Option<Seq<char>> {
    match s {
        Some(s) => Some(s@),
        None => None,
    }
}

impl View for FieldAttributes {
    type V = FieldAttributesView;

    open spec fn view(&self) -> FieldAttributesView {
        FieldAttributesView {
            skip: self.skip,
            rename: optional_text(self.rename),
            nested: self.nested,
        }
    }
}

impl Default for FieldAttributes {
    fn default() -> (attributes: FieldAttributes)
        ensures
            attributes@ == (FieldAttributesView { skip: false, rename: None, nested: true }),
    {
        FieldAttributes { skip: false, rename: None, nested: true }
    }
}

impl FieldAttributes {
    /// Marks the field as skipped.
    pub fn skip(&mut self)
        ensures
            final(self)@ == (FieldAttributesView { skip: true, ..old(self)@ }),
    {
        self.skip = true;
    }

    /// Gives the field the name `new_name`.
    pub fn rename(&mut self, new_name: String)
        ensures
            final(self)@ == (FieldAttributesView { rename: Some(new_name@), ..old(self)@ }),
    {
        self.rename = Some(new_name);
    }

    /// Says whether the paths of the field's type are flattened below it.
    pub fn nested(&mut self, value: bool)
        ensures
            final(self)@ == (FieldAttributesView { nested: value, ..old(self)@ }),
    {
        self.nested = value;
    }
}

} // verus!
