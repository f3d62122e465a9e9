//! Tests for the type registry: structural interning and shape predicates.

use sway_ir::{Context, Type, TypeContent};

#[test]
fn unit_bool_b256_are_canonical() {
    let ctx = Context::new();
    assert_eq!(Type::get_unit(&ctx), Type::get_unit(&ctx));
    assert_eq!(Type::get_bool(&ctx), Type::get_bool(&ctx));
    assert_eq!(Type::get_b256(&ctx), Type::get_b256(&ctx));
    assert_ne!(Type::get_unit(&ctx), Type::get_bool(&ctx));
    assert_ne!(Type::get_bool(&ctx), Type::get_b256(&ctx));
}

#[test]
fn equal_uint_requests_return_identical_handles() {
    let mut ctx = Context::new();
    let a = Type::new_uint(&mut ctx, 64);
    let b = Type::new_uint(&mut ctx, 64);
    assert_eq!(a, b);
    assert!(a.eq(&ctx, &b));
}

#[test]
fn different_uint_widths_return_different_handles() {
    let mut ctx = Context::new();
    let a = Type::new_uint(&mut ctx, 64);
    let b = Type::new_uint(&mut ctx, 32);
    assert_ne!(a, b);
    assert!(!a.eq(&ctx, &b));
}

#[test]
fn equal_composite_requests_return_identical_handles() {
    let mut ctx = Context::new();
    let elem = Type::new_uint(&mut ctx, 8);
    let arr1 = Type::new_array(&mut ctx, elem, 10);
    let arr2 = Type::new_array(&mut ctx, elem, 10);
    assert_eq!(arr1, arr2);

    let s1 = Type::new_struct(&mut ctx, vec![elem, arr1]);
    let s2 = Type::new_struct(&mut ctx, vec![elem, arr1]);
    assert_eq!(s1, s2);

    let str1 = Type::new_string_array(&mut ctx, 5);
    let str2 = Type::new_string_array(&mut ctx, 5);
    assert_eq!(str1, str2);
}

#[test]
fn different_composite_requests_return_different_handles() {
    let mut ctx = Context::new();
    let elem = Type::new_uint(&mut ctx, 8);
    let arr10 = Type::new_array(&mut ctx, elem, 10);
    let arr11 = Type::new_array(&mut ctx, elem, 11);
    assert_ne!(arr10, arr11);

    let wider = Type::new_uint(&mut ctx, 16);
    let arr_wider = Type::new_array(&mut ctx, wider, 10);
    assert_ne!(arr10, arr_wider);

    let s1 = Type::new_struct(&mut ctx, vec![elem, wider]);
    let s2 = Type::new_struct(&mut ctx, vec![wider, elem]);
    assert_ne!(s1, s2);

    let str5 = Type::new_string_array(&mut ctx, 5);
    let str6 = Type::new_string_array(&mut ctx, 6);
    assert_ne!(str5, str6);
}

#[test]
fn interning_is_shared_across_construction_sites() {
    let mut ctx = Context::new();
    let u64_ty = Type::new_uint(&mut ctx, 64);
    let bool_ty = Type::get_bool(&ctx);
    let s = Type::new_struct(&mut ctx, vec![u64_ty, bool_ty]);
    // The handles reachable through the struct's own description are the
    // canonical ones.
    let fields_again = {
        let a = Type::new_uint(&mut ctx, 64);
        let b = Type::get_bool(&ctx);
        vec![a, b]
    };
    let s_again = Type::new_struct(&mut ctx, fields_again);
    assert_eq!(s, s_again);
}

#[test]
fn shape_predicates() {
    let mut ctx = Context::new();
    let u64_ty = Type::new_uint(&mut ctx, 64);
    let arr = Type::new_array(&mut ctx, u64_ty, 3);
    let st = Type::new_struct(&mut ctx, vec![u64_ty, u64_ty, u64_ty]);
    assert!(arr.is_array(&ctx));
    assert!(!arr.is_struct(&ctx));
    assert!(st.is_struct(&ctx));
    assert!(!st.is_array(&ctx));
    assert!(!u64_ty.is_array(&ctx));
    assert!(!u64_ty.is_struct(&ctx));
}

#[test]
fn is_enum_requires_two_fields_with_u64_discriminant() {
    let mut ctx = Context::new();
    let u64_ty = Type::new_uint(&mut ctx, 64);
    let bool_ty = Type::get_bool(&ctx);

    let enum_shaped = Type::new_struct(&mut ctx, vec![u64_ty, bool_ty]);
    assert!(enum_shaped.is_enum(&ctx));

    let not_enum_first_field = Type::new_struct(&mut ctx, vec![bool_ty, bool_ty]);
    assert!(!not_enum_first_field.is_enum(&ctx));

    let not_enum_three_fields = Type::new_struct(&mut ctx, vec![u64_ty, bool_ty, bool_ty]);
    assert!(!not_enum_three_fields.is_enum(&ctx));

    let not_enum_one_field = Type::new_struct(&mut ctx, vec![u64_ty]);
    assert!(!not_enum_one_field.is_enum(&ctx));

    assert!(!u64_ty.is_enum(&ctx));
}

#[test]
fn empty_struct_type_interns() {
    let mut ctx = Context::new();
    let s1 = Type::new_struct(&mut ctx, Vec::new());
    let s2 = Type::new_struct(&mut ctx, Vec::new());
    assert_eq!(s1, s2);
    assert!(s1.is_struct(&ctx));
    assert!(!s1.is_enum(&ctx));
}

#[test]
fn type_content_is_recorded() {
    let mut ctx = Context::new();
    let t = Type::new_string_array(&mut ctx, 12);
    assert!(matches!(ctx.types[t.0], TypeContent::StringArray(12)));
}
