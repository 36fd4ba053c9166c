use fields::attributes::{FieldAttributes, StructAttributes};
use fields::meta::{AttributeError, MetaForm, MetaItem, MetaValue};
use fields::naming::RenameAll;
use fields::syntax::{
    is_fields_attribute, parse_field_attributes, parse_struct_attributes, read_items,
    AttributeSource,
};

fn attribute(name: &str, arguments: &str) -> AttributeSource {
    AttributeSource {
        name: Some(name.to_string()),
        arguments: Some(arguments.to_string()),
    }
}

#[test]
fn the_items_of_an_attribute_are_read_in_order() {
    let items = read_items(&attribute(
        "fields",
        "skip, rename = \"a \\\"b\\\"\", nested = false, other(1, 2), n = 1, e = 1 + 1, a::b",
    ))
    .unwrap();
    assert_eq!(
        items,
        vec![
            MetaItem {
                name: Some("skip".to_string()),
                form: MetaForm::Path
            },
            MetaItem {
                name: Some("rename".to_string()),
                form: MetaForm::NameValue(MetaValue::Text("a \"b\"".to_string()))
            },
            MetaItem {
                name: Some("nested".to_string()),
                form: MetaForm::NameValue(MetaValue::Flag(false))
            },
            MetaItem {
                name: Some("other".to_string()),
                form: MetaForm::List
            },
            MetaItem {
                name: Some("n".to_string()),
                form: MetaForm::NameValue(MetaValue::OtherLiteral)
            },
            MetaItem {
                name: Some("e".to_string()),
                form: MetaForm::NameValue(MetaValue::NotLiteral)
            },
            MetaItem {
                name: None,
                form: MetaForm::Path
            },
        ]
    );
}

#[test]
fn empty_arguments_hold_no_items() {
    assert_eq!(read_items(&attribute("fields", "")), Ok(vec![]));
    assert_eq!(
        read_items(&attribute("fields", " skip , ")),
        Ok(vec![MetaItem {
            name: Some("skip".to_string()),
            form: MetaForm::Path
        }])
    );
}

#[test]
fn arguments_that_are_no_list_of_items_cannot_be_parsed() {
    assert_eq!(
        read_items(&attribute("fields", "skip rename")),
        Err(AttributeError::CannotParse)
    );
    assert_eq!(
        read_items(&attribute("fields", "= 1")),
        Err(AttributeError::CannotParse)
    );
    assert_eq!(
        read_items(&attribute("fields", "rename = \"open")),
        Err(AttributeError::CannotParse)
    );
    assert_eq!(
        read_items(&AttributeSource {
            name: Some("fields".to_string()),
            arguments: None
        }),
        Err(AttributeError::CannotParse)
    );
}

#[test]
fn only_the_path_fields_marks_a_customization() {
    assert!(is_fields_attribute(&attribute("fields", "skip")));
    assert!(!is_fields_attribute(&attribute("field", "skip")));
    assert!(!is_fields_attribute(&attribute("serde", "skip")));
    assert!(!is_fields_attribute(&AttributeSource {
        name: None,
        arguments: Some("skip".to_string())
    }));
}

#[test]
fn the_attributes_of_a_field_are_applied_one_after_the_other() {
    let attributes = vec![
        attribute("doc", "hidden"),
        attribute("fields", "nested = false, rename = \"first\""),
        attribute("serde", "this is not even a list of items ="),
        attribute("fields", "rename = \"second\""),
    ];
    assert_eq!(
        parse_field_attributes(&attributes),
        Ok(FieldAttributes {
            skip: false,
            rename: Some("second".to_string()),
            nested: false
        })
    );
}

#[test]
fn a_field_without_attributes_has_the_defaults() {
    assert_eq!(parse_field_attributes(&vec![]), Ok(FieldAttributes::default()));
    assert_eq!(
        parse_field_attributes(&vec![attribute("derive", "Debug")]),
        Ok(FieldAttributes::default())
    );
    assert_eq!(
        parse_struct_attributes(&vec![]),
        Ok(StructAttributes::default())
    );
}

#[test]
fn the_first_refused_attribute_of_a_field_decides() {
    let attributes = vec![
        attribute("fields", "skip"),
        attribute("fields", "rename = 3"),
        attribute("fields", "not a list"),
    ];
    assert_eq!(
        parse_field_attributes(&attributes),
        Err(AttributeError::RenameExpectsString)
    );
    assert_eq!(
        parse_field_attributes(&vec![
            attribute("fields", "not a list"),
            attribute("fields", "rename = 3")
        ]),
        Err(AttributeError::CannotParse)
    );
    assert_eq!(
        parse_field_attributes(&vec![attribute("fields", "rename = name")]),
        Err(AttributeError::RenameExpectsLiteral)
    );
    assert_eq!(
        parse_field_attributes(&vec![attribute("fields", "nested = \"true\"")]),
        Err(AttributeError::NestedExpectsBool)
    );
    assert_eq!(
        parse_field_attributes(&vec![attribute("fields", "nested = !true")]),
        Err(AttributeError::NestedExpectsLiteral)
    );
    assert_eq!(
        parse_field_attributes(&vec![attribute("fields", "flatten")]),
        Err(AttributeError::Unrecognized("flatten".to_string()))
    );
    assert_eq!(
        parse_field_attributes(&vec![attribute("fields", "a::b = 1")]),
        Err(AttributeError::NoIdentifier)
    );
}

#[test]
fn the_attributes_of_a_record_set_its_convention() {
    assert_eq!(
        parse_struct_attributes(&vec![
            attribute("derive", "Fields"),
            attribute("fields", "rename_all = \"camelCase\"")
        ]),
        Ok(StructAttributes {
            rename_all: Some(RenameAll::Camel)
        })
    );
    assert_eq!(
        parse_struct_attributes(&vec![attribute("fields", "rename_all = \"camelcase\"")]),
        Err(AttributeError::InvalidRenameAll("camelcase".to_string()))
    );
    assert_eq!(
        parse_struct_attributes(&vec![attribute("fields", "rename_all = 'c'")]),
        Err(AttributeError::RenameAllExpectsString)
    );
    assert_eq!(
        parse_struct_attributes(&vec![attribute("fields", "rename_all = camelCase")]),
        Err(AttributeError::RenameAllExpectsLiteral)
    );
    assert_eq!(
        parse_struct_attributes(&vec![attribute("fields", "skip")]),
        Err(AttributeError::Unrecognized("skip".to_string()))
    );
    assert_eq!(
        parse_struct_attributes(&vec![AttributeSource {
            name: Some("fields".to_string()),
            arguments: None
        }]),
        Err(AttributeError::CannotParse)
    );
}
