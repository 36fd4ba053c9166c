//! Descriptions of the types of the standard library.

use std::collections::{BTreeMap, BTreeSet, HashMap, HashSet, VecDeque};
use vstd::prelude::*;
use crate::shape::{DeclaredType, Primitive, TypeView, WrapperKind};
use crate::Fields;

verus! {

impl<T: Fields> Fields for Option<T> {
    open spec fn declared() -> TypeView {
        TypeView::Wrapper(WrapperKind::OptionOf, Box::new(T::declared()))
    }

    fn describe() -> (ty: DeclaredType) {
        DeclaredType::Wrapper(WrapperKind::OptionOf, Box::new(T::describe()))
    }
}

impl<T: Fields, E> Fields for Result<T, E> {
    open spec fn declared() -> TypeView {
        TypeView::Wrapper(WrapperKind::ResultOf, Box::new(T::declared()))
    }

    fn describe() -> (ty: DeclaredType) {
        DeclaredType::Wrapper(WrapperKind::ResultOf, Box::new(T::describe()))
    }
}

impl<T: Fields> Fields for Vec<T> {
    open spec fn declared() -> TypeView {
        TypeView::Wrapper(WrapperKind::ListOf, Box::new(T::declared()))
    }

    fn describe() -> (ty: DeclaredType) {
        DeclaredType::Wrapper(WrapperKind::ListOf, Box::new(T::describe()))
    }
}

impl<T: Fields> Fields for VecDeque<T> {
    open spec fn declared() -> TypeView {
        TypeView::Wrapper(WrapperKind::DequeOf, Box::new(T::declared()))
    }

    fn describe() -> (ty: DeclaredType) {
        DeclaredType::Wrapper(WrapperKind::DequeOf, Box::new(T::describe()))
    }
}

impl<K, V: Fields> Fields for HashMap<K, V> {
    open spec fn declared() -> TypeView {
        TypeView::Wrapper(WrapperKind::MapOf, Box::new(V::declared()))
    }

    fn describe() -> (ty: DeclaredType) {
        DeclaredType::Wrapper(WrapperKind::MapOf, Box::new(V::describe()))
    }
}

impl<K, V: Fields> Fields for BTreeMap<K, V> {
    open spec fn declared() -> TypeView {
        TypeView::Wrapper(WrapperKind::MapOf, Box::new(V::declared()))
    }

    fn describe() -> (ty: DeclaredType) {
        DeclaredType::Wrapper(WrapperKind::MapOf, Box::new(V::describe()))
    }
}

impl<T: Fields> Fields for HashSet<T> {
    open spec fn declared() -> TypeView {
        TypeView::Wrapper(WrapperKind::SetOf, Box::new(T::declared()))
    }

    fn describe() -> (ty: DeclaredType) {
        DeclaredType::Wrapper(WrapperKind::SetOf, Box::new(T::describe()))
    }
}

impl<T: Fields> Fields for BTreeSet<T> {
    open spec fn declared() -> TypeView {
        TypeView::Wrapper(WrapperKind::DedupSetOf, Box::new(T::declared()))
    }

    fn describe() -> (ty: DeclaredType) {
        DeclaredType::Wrapper(WrapperKind::DedupSetOf, Box::new(T::describe()))
    }
}

impl<T: Fields> Fields for Box<T> {
    open spec fn declared() -> TypeView {
        TypeView::Wrapper(WrapperKind::BoxOf, Box::new(T::declared()))
    }

    fn describe() -> (ty: DeclaredType) {
        DeclaredType::Wrapper(WrapperKind::BoxOf, Box::new(T::describe()))
    }
}

impl Fields for bool {
    open spec fn declared() -> TypeView {
        TypeView::Terminal(Primitive::Bool)
    }

    fn describe() -> (ty: DeclaredType) {
        DeclaredType::Terminal(Primitive::Bool)
    }
}

impl Fields for String {
    open spec fn declared() -> TypeView {
        TypeView::Terminal(Primitive::Text)
    }

    fn describe() -> (ty: DeclaredType) {
        DeclaredType::Terminal(Primitive::Text)
    }
}

impl Fields for usize {
    open spec fn declared() -> TypeView {
        TypeView::Terminal(Primitive::Integer)
    }

    fn describe() -> (ty: DeclaredType) {
        DeclaredType::Terminal(Primitive::Integer)
    }
}

impl Fields for u8 {
    open spec fn declared() -> TypeView {
        TypeView::Terminal(Primitive::Integer)
    }

    fn describe() -> (ty: DeclaredType) {
        DeclaredType::Terminal(Primitive::Integer)
    }
}

impl Fields for u16 {
    open spec fn declared() -> TypeView {
        TypeView::Terminal(Primitive::Integer)
    }

    fn describe() -> (ty: DeclaredType) {
        DeclaredType::Terminal(Primitive::Integer)
    }
}

impl Fields for u32 {
    open spec fn declared() -> TypeView {
        TypeView::Terminal(Primitive::Integer)
    }

    fn describe() -> (ty: DeclaredType) {
        DeclaredType::Terminal(Primitive::Integer)
    }
}

impl Fields for u64 {
    open spec fn declared() -> TypeView {
        TypeView::Terminal(Primitive::Integer)
    }

    fn describe() -> (ty: DeclaredType) {
        DeclaredType::Terminal(Primitive::Integer)
    }
}

impl Fields for u128 {
    open spec fn declared() -> TypeView {
        TypeView::Terminal(Primitive::Integer)
    }

    fn describe() -> (ty: DeclaredType) {
        DeclaredType::Terminal(Primitive::Integer)
    }
}

impl Fields for i8 {
    open spec fn declared() -> TypeView {
        TypeView::Terminal(Primitive::Integer)
    }

    fn describe() -> (ty: DeclaredType) {
        DeclaredType::Terminal(Primitive::Integer)
    }
}

impl Fields for i16 {
    open spec fn declared() -> TypeView {
        TypeView::Terminal(Primitive::Integer)
    }

    fn describe() -> (ty: DeclaredType) {
        DeclaredType::Terminal(Primitive::Integer)
    }
}

impl Fields for i32 {
    open spec fn declared() -> TypeView {
        TypeView::Terminal(Primitive::Integer)
    }

    fn describe() -> (ty: DeclaredType) {
        DeclaredType::Terminal(Primitive::Integer)
    }
}

impl Fields for i64 {
    open spec fn declared() -> TypeView {
        TypeView::Terminal(Primitive::Integer)
    }

    fn describe() -> (ty: DeclaredType) {
        DeclaredType::Terminal(Primitive::Integer)
    }
}

impl Fields for i128 {
    open spec fn declared() -> TypeView {
        TypeView::Terminal(Primitive::Integer)
    }

    fn describe() -> (ty: DeclaredType) {
        DeclaredType::Terminal(Primitive::Integer)
    }
}

} // verus!
