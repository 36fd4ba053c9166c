use std::collections::HashMap;

use fields::shape::{DeclaredType, FieldDescriptor, Primitive, Record};
use fields::syntax::{parse_field_attributes, parse_struct_attributes, AttributeSource};
use fields::Fields;

fn written(arguments: &[&str]) -> Vec<AttributeSource> {
    arguments
        .iter()
        .map(|tokens| AttributeSource {
            name: Some("fields".to_string()),
            arguments: Some(tokens.to_string()),
        })
        .collect()
}

fn field(attributes: &[&str], name: &str, declared_type: DeclaredType) -> FieldDescriptor {
    FieldDescriptor::new(
        Some(name.to_string()),
        declared_type,
        parse_field_attributes(&written(attributes)).unwrap(),
    )
}

fn positional(declared_type: DeclaredType) -> FieldDescriptor {
    FieldDescriptor::new(None, declared_type, parse_field_attributes(&written(&[])).unwrap())
}

fn record(attributes: &[&str], fields: Vec<FieldDescriptor>) -> DeclaredType {
    DeclaredType::record(Record::new(
        parse_struct_attributes(&written(attributes)).unwrap(),
        fields,
    ))
}

fn enumeration(attributes: &[&str], variants: Vec<Vec<FieldDescriptor>>) -> DeclaredType {
    DeclaredType::record(Record::of_variants(
        parse_struct_attributes(&written(attributes)).unwrap(),
        variants,
    ))
}

fn get_fields<T: Fields>() -> Vec<String> {
    T::fields().unwrap().paths().iter().map(|f| f.to_string()).collect()
}

fn assert_fields(expected: &[&str], fields: &[String]) {
    let fields: Vec<&str> = fields.iter().map(|f| f.as_str()).collect();
    expected.iter().for_each(|e| assert!(fields.contains(e)));
}

#[test]
fn test_all_fields_are_included() {
    struct TestStruct;
    impl Fields for TestStruct {
        fn describe() -> DeclaredType {
            record(
                &[],
                vec![
                    field(&[], "a", String::describe()),
                    field(&[], "b", i32::describe()),
                    field(&[], "c", DeclaredType::terminal(Primitive::Float)),
                    field(&[], "d", i64::describe()),
                ],
            )
        }
    }

    let fields = get_fields::<TestStruct>();
    assert_fields(&vec!["a", "b", "c"], &fields);
}

#[test]
fn single_level_nested_structs_are_included() {
    struct Level1;
    impl Fields for Level1 {
        fn describe() -> DeclaredType {
            record(&[], vec![field(&[], "nested", String::describe())])
        }
    }
    struct Level0;
    impl Fields for Level0 {
        fn describe() -> DeclaredType {
            record(
                &[],
                vec![
                    field(&[], "a", String::describe()),
                    field(&[], "b", Level1::describe()),
                ],
            )
        }
    }

    let fields = get_fields::<Level0>();
    assert_fields(&vec!["a", "b.nested"], &fields);
}

#[test]
fn multiple_level_nested_structs_are_included() {
    struct Level3;
    impl Fields for Level3 {
        fn describe() -> DeclaredType {
            record(&[], vec![field(&[], "d", u64::describe())])
        }
    }
    struct Level2;
    impl Fields for Level2 {
        fn describe() -> DeclaredType {
            record(
                &[],
                vec![
                    field(&[], "c", u32::describe()),
                    field(&[], "level_3", Level3::describe()),
                ],
            )
        }
    }
    struct Level1;
    impl Fields for Level1 {
        fn describe() -> DeclaredType {
            record(
                &[],
                vec![
                    field(&[], "b", u16::describe()),
                    field(&[], "level_2", Level2::describe()),
                ],
            )
        }
    }
    struct Level0;
    impl Fields for Level0 {
        fn describe() -> DeclaredType {
            record(
                &[],
                vec![
                    field(&[], "a", u8::describe()),
                    field(&[], "level_1", Level1::describe()),
                ],
            )
        }
    }

    let fields = get_fields::<Level0>();
    assert_fields(
        &vec![
            "a",
            "level_1.b",
            "level_1.level_2.c",
            "level_1.level_2.level_3.d",
        ],
        &fields,
    );
}

#[test]
fn default_instance_for_vec_is_derived() {
    struct InnerVec;
    impl Fields for InnerVec {
        fn describe() -> DeclaredType {
            record(
                &[],
                vec![
                    field(&[], "a", String::describe()),
                    field(&[], "b", String::describe()),
                    field(&[], "c", String::describe()),
                ],
            )
        }
    }
    struct Test;
    impl Fields for Test {
        fn describe() -> DeclaredType {
            record(
                &[],
                vec![
                    field(&[], "x", String::describe()),
                    field(&[], "y", String::describe()),
                    field(&[], "vec", Vec::<InnerVec>::describe()),
                ],
            )
        }
    }

    let fields = get_fields::<Test>();
    assert_fields(&vec!["x", "y", "vec.a", "vec.b", "vec.c"], &fields);
}

#[test]
fn raw_names_are_sanitized() {
    struct Test;
    impl Fields for Test {
        fn describe() -> DeclaredType {
            record(&[], vec![field(&[], "r#type", String::describe())])
        }
    }

    let fields = get_fields::<Test>();
    assert_fields(&vec!["type"], &fields);
}

#[test]
fn default_instance_for_hash_map_is_derived() {
    struct Inner;
    impl Fields for Inner {
        fn describe() -> DeclaredType {
            record(
                &[],
                vec![
                    field(&[], "a", i32::describe()),
                    field(&[], "b", i32::describe()),
                ],
            )
        }
    }
    struct Test;
    impl Fields for Test {
        fn describe() -> DeclaredType {
            record(
                &[],
                vec![
                    field(&[], "x", String::describe()),
                    field(&[], "y", HashMap::<String, Inner>::describe()),
                ],
            )
        }
    }

    let fields = get_fields::<Test>();
    assert_fields(&vec!["x", "y.a", "y.b"], &fields);
}

#[test]
fn enum_variant_fields_are_included() {
    struct Test;
    impl Fields for Test {
        fn describe() -> DeclaredType {
            enumeration(
                &[],
                vec![
                    vec![field(&[], "a", String::describe())],
                    vec![field(&[], "b", String::describe())],
                ],
            )
        }
    }

    let fields = get_fields::<Test>();
    assert_fields(&vec!["a", "b"], &fields);
}

#[test]
fn wrapped_enum_variant_fields_are_included() {
    struct Variant1;
    impl Fields for Variant1 {
        fn describe() -> DeclaredType {
            record(&[], vec![field(&[], "a", i32::describe())])
        }
    }
    struct Variant2;
    impl Fields for Variant2 {
        fn describe() -> DeclaredType {
            record(&[], vec![field(&[], "b", i32::describe())])
        }
    }
    struct Test;
    impl Fields for Test {
        fn describe() -> DeclaredType {
            enumeration(
                &[],
                vec![
                    vec![positional(Variant1::describe())],
                    vec![positional(Variant2::describe())],
                ],
            )
        }
    }

    let fields = get_fields::<Test>();
    assert_fields(&vec!["a", "b"], &fields);
}

#[test]
fn mixed_enums_are_included() {
    struct Variant1;
    impl Fields for Variant1 {
        fn describe() -> DeclaredType {
            record(
                &[],
                vec![
                    field(&[], "a", i32::describe()),
                    field(&[], "b", i32::describe()),
                ],
            )
        }
    }
    struct TestEnum;
    impl Fields for TestEnum {
        fn describe() -> DeclaredType {
            enumeration(
                &[],
                vec![
                    vec![positional(Variant1::describe())],
                    vec![
                        field(&[], "c", i32::describe()),
                        field(&[], "d", i32::describe()),
                    ],
                ],
            )
        }
    }

    let fields = get_fields::<TestEnum>();
    assert_fields(&vec!["a", "b", "c", "d"], &fields);
}

#[test]
fn renaming_fields_is_working() {
    struct Test;
    impl Fields for Test {
        fn describe() -> DeclaredType {
            record(
                &[],
                vec![field(&["rename = \"renamed\""], "original", String::describe())],
            )
        }
    }

    let fields = get_fields::<Test>();
    assert_fields(&vec!["renamed"], &fields);
}

#[test]
fn skipping_fields_is_working() {
    struct Test;
    impl Fields for Test {
        fn describe() -> DeclaredType {
            record(
                &[],
                vec![
                    field(&[], "a", i32::describe()),
                    field(&["skip"], "b", i32::describe()),
                    field(&["skip"], "c", i32::describe()),
                    field(&[], "d", i32::describe()),
                ],
            )
        }
    }

    let fields = get_fields::<Test>();
    assert_fields(&vec!["a", "d"], &fields);
}

#[test]
fn disable_nesting() {
    fn nested() -> DeclaredType {
        record(
            &[],
            vec![
                field(&[], "c", i32::describe()),
                field(&[], "d", i32::describe()),
            ],
        )
    }
    struct Test;
    impl Fields for Test {
        fn describe() -> DeclaredType {
            record(
                &[],
                vec![
                    field(&[], "a", i32::describe()),
                    field(&["nested = false"], "b", nested()),
                ],
            )
        }
    }

    let fields = get_fields::<Test>();
    assert_fields(&vec!["a", "b"], &fields);
}

#[test]
fn combining_field_attributes_is_working() {
    struct Nested;
    impl Fields for Nested {
        fn describe() -> DeclaredType {
            record(
                &[],
                vec![
                    field(&["rename = \"a_renamed\""], "a", i32::describe()),
                    field(&["rename = \"b_renamed\""], "b", i32::describe()),
                ],
            )
        }
    }
    fn not_nested() -> DeclaredType {
        record(
            &[],
            vec![
                field(&[], "c", i32::describe()),
                field(&[], "d", i32::describe()),
            ],
        )
    }
    struct Test;
    impl Fields for Test {
        fn describe() -> DeclaredType {
            record(
                &[],
                vec![
                    field(&["rename = \"renamed\""], "original", i32::describe()),
                    field(&["skip"], "skipped", i32::describe()),
                    field(
                        &["nested = true, rename = \"nested_renamed\""],
                        "nested",
                        Nested::describe(),
                    ),
                    field(&["nested = false"], "not_nested", not_nested()),
                ],
            )
        }
    }

    let fields = get_fields::<Test>();
    assert_fields(
        &vec![
            "renamed",
            "nested_renamed.a_renamed",
            "nested_renamed.b_renamed",
            "not_nested",
        ],
        &fields,
    );
}

#[test]
fn renaming_all_fields_is_working() {
    struct Test;
    impl Fields for Test {
        fn describe() -> DeclaredType {
            record(
                &["rename_all = \"camelCase\""],
                vec![
                    field(&[], "account_id", String::describe()),
                    field(&[], "bank_id", String::describe()),
                    field(&[], "wallet_id", String::describe()),
                    field(&[], "some_longer_example_string", String::describe()),
                ],
            )
        }
    }

    let fields = get_fields::<Test>();
    assert_fields(
        &vec!["accountId", "bankId", "walletId", "someLongerExampleString"],
        &fields,
    );
}
