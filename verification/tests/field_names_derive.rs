use std::collections::HashMap;

use fields::attributes::StructAttributes;
use fields::shape::{DeclaredType, FieldDescriptor, Primitive, Record};
use fields::Fields;

fn plain_record(fields: Vec<FieldDescriptor>) -> DeclaredType {
    DeclaredType::record(Record::new(StructAttributes::default(), fields))
}

fn plain_enum(variants: Vec<Vec<FieldDescriptor>>) -> DeclaredType {
    DeclaredType::record(Record::of_variants(StructAttributes::default(), variants))
}

fn field_names_of<T: Fields>() -> Vec<String> {
    T::fields().unwrap().paths().iter().map(|f| f.to_string()).collect()
}

#[test]
fn all_fields_are_included() {
    struct TestStruct;
    impl Fields for TestStruct {
        fn describe() -> DeclaredType {
            plain_record(vec![
                FieldDescriptor::named("a", String::describe()),
                FieldDescriptor::named("b", i32::describe()),
                FieldDescriptor::named("c", DeclaredType::terminal(Primitive::Float)),
                FieldDescriptor::named("d", i64::describe()),
            ])
        }
    }

    let owned = field_names_of::<TestStruct>();
    let fields: Vec<&str> = owned.iter().map(|f| f.as_str()).collect();
    vec!["a", "b", "c"]
        .iter()
        .for_each(|e| assert!(fields.contains(e)));
}

#[test]
fn single_level_nested_structs_are_supported() {
    struct Level1;
    impl Fields for Level1 {
        fn describe() -> DeclaredType {
            plain_record(vec![FieldDescriptor::named("nested", String::describe())])
        }
    }
    struct Level0;
    impl Fields for Level0 {
        fn describe() -> DeclaredType {
            plain_record(vec![
                FieldDescriptor::named("a", String::describe()),
                FieldDescriptor::named("b", Level1::describe()),
            ])
        }
    }

    let owned = field_names_of::<Level0>();
    let fields: Vec<&str> = owned.iter().map(|f| f.as_str()).collect();
    vec!["a", "b.nested"]
        .iter()
        .for_each(|e| assert!(fields.contains(e)));
}

#[test]
fn deeply_nested_structs() {
    struct Level3;
    impl Fields for Level3 {
        fn describe() -> DeclaredType {
            plain_record(vec![FieldDescriptor::named("d", u64::describe())])
        }
    }
    struct Level2;
    impl Fields for Level2 {
        fn describe() -> DeclaredType {
            plain_record(vec![
                FieldDescriptor::named("c", u32::describe()),
                FieldDescriptor::named("level_3", Level3::describe()),
            ])
        }
    }
    struct Level1;
    impl Fields for Level1 {
        fn describe() -> DeclaredType {
            plain_record(vec![
                FieldDescriptor::named("b", u16::describe()),
                FieldDescriptor::named("level_2", Level2::describe()),
            ])
        }
    }
    struct Level0;
    impl Fields for Level0 {
        fn describe() -> DeclaredType {
            plain_record(vec![
                FieldDescriptor::named("a", u8::describe()),
                FieldDescriptor::named("level_1", Level1::describe()),
            ])
        }
    }

    let owned = field_names_of::<Level0>();
    let fields: Vec<&str> = owned.iter().map(|f| f.as_str()).collect();
    vec![
        "a",
        "level_1.b",
        "level_1.level_2.c",
        "level_1.level_2.level_3.d",
    ]
    .iter()
    .for_each(|e| assert!(fields.contains(e)));
}

#[test]
fn vec_derivation() {
    struct InnerVec;
    impl Fields for InnerVec {
        fn describe() -> DeclaredType {
            plain_record(vec![
                FieldDescriptor::named("a", String::describe()),
                FieldDescriptor::named("b", String::describe()),
                FieldDescriptor::named("c", String::describe()),
            ])
        }
    }
    struct Test;
    impl Fields for Test {
        fn describe() -> DeclaredType {
            plain_record(vec![
                FieldDescriptor::named("x", String::describe()),
                FieldDescriptor::named("y", String::describe()),
                FieldDescriptor::named("vec", Vec::<InnerVec>::describe()),
            ])
        }
    }

    let owned = field_names_of::<Test>();
    let fields: Vec<&str> = owned.iter().map(|f| f.as_str()).collect();
    vec!["x", "y", "vec.a", "vec.b", "vec.c"]
        .iter()
        .for_each(|e| assert!(fields.contains(e)));
}

#[test]
fn hash_map_derivation() {
    struct Inner;
    impl Fields for Inner {
        fn describe() -> DeclaredType {
            plain_record(vec![
                FieldDescriptor::named("a", i32::describe()),
                FieldDescriptor::named("b", i32::describe()),
            ])
        }
    }
    struct Test;
    impl Fields for Test {
        fn describe() -> DeclaredType {
            plain_record(vec![
                FieldDescriptor::named("x", String::describe()),
                FieldDescriptor::named("y", HashMap::<String, Inner>::describe()),
            ])
        }
    }

    let owned = field_names_of::<Test>();
    let fields: Vec<&str> = owned.iter().map(|f| f.as_str()).collect();
    vec!["x", "y.a", "y.b"]
        .iter()
        .for_each(|e| assert!(fields.contains(e)));
}

#[test]
fn parse_enum() {
    struct Test;
    impl Fields for Test {
        fn describe() -> DeclaredType {
            plain_enum(vec![
                vec![FieldDescriptor::named("a", String::describe())],
                vec![FieldDescriptor::named("b", String::describe())],
            ])
        }
    }

    let owned = field_names_of::<Test>();
    let fields: Vec<&str> = owned.iter().map(|f| f.as_str()).collect();
    vec!["a", "b"]
        .iter()
        .for_each(|e| assert!(fields.contains(e)));
}
