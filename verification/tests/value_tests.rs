//! Tests for the value arena: fresh handles, no deduplication, retrieval.

use sway_ir::{Constant, ConstantValue, Context, Type, Value};

#[test]
fn equal_constants_get_distinct_handles() {
    let mut ctx = Context::new();
    let c1 = Constant::new_bool(&ctx, true);
    let c2 = Constant::new_bool(&ctx, true);
    let v1 = Value::new_constant(&mut ctx, c1);
    let v2 = Value::new_constant(&mut ctx, c2);
    assert_ne!(v1, v2);
    let r1 = v1.get_constant(&ctx).expect("allocated constant");
    let r2 = v2.get_constant(&ctx).expect("allocated constant");
    assert!(r1.eq(&ctx, &r2));
}

#[test]
fn retrieval_returns_the_wrapped_payload() {
    let mut ctx = Context::new();
    let c = Constant::new_uint(&mut ctx, 64, 99);
    let v = Value::new_constant(&mut ctx, c);
    let back = v.get_constant(&ctx).expect("allocated constant");
    assert!(matches!(back.value, ConstantValue::Uint(99)));
}

#[test]
fn stale_handle_yields_none() {
    let mut ctx = Context::new();
    let c = Constant::new_unit(&ctx);
    let v = Value::new_constant(&mut ctx, c);
    let other_ctx = Context::new();
    // A handle from one arena means nothing in a context that has not
    // allocated that slot.
    assert!(v.get_constant(&other_ctx).is_none());
}

#[test]
fn get_family_allocates_fresh_values() {
    let mut ctx = Context::new();
    let v1 = Constant::get_unit(&mut ctx);
    let v2 = Constant::get_bool(&mut ctx, true);
    let v3 = Constant::get_uint(&mut ctx, 64, 7);
    let v4 = Constant::get_uint(&mut ctx, 64, 7);
    let v5 = Constant::get_string(&mut ctx, b"abc".to_vec());
    assert_ne!(v3, v4);
    let handles = [v1, v2, v3, v4, v5];
    for (i, a) in handles.iter().enumerate() {
        for b in handles.iter().skip(i + 1) {
            assert_ne!(a, b);
        }
    }
    let r3 = v3.get_constant(&ctx).expect("allocated constant");
    let r4 = v4.get_constant(&ctx).expect("allocated constant");
    assert!(r3.eq(&ctx, &r4));
}

#[test]
fn get_array_and_get_struct_wrap_composites() {
    let mut ctx = Context::new();
    let u64_ty = Type::new_uint(&mut ctx, 64);
    let elems = {
        let a = Constant::new_uint(&mut ctx, 64, 1);
        let b = Constant::new_uint(&mut ctx, 64, 2);
        vec![a, b]
    };
    let arr = Constant::new_array(&mut ctx, u64_ty, elems);
    let v_arr = Constant::get_array(&mut ctx, arr);
    let back = v_arr.get_constant(&ctx).expect("allocated constant");
    assert!(matches!(&back.value, ConstantValue::Array(es) if es.len() == 2));

    let bool_ty = Type::get_bool(&ctx);
    let fields = vec![Constant::new_bool(&ctx, false)];
    let st = Constant::new_struct(&mut ctx, vec![bool_ty], fields);
    let v_st = Constant::get_struct(&mut ctx, st);
    let back = v_st.get_constant(&ctx).expect("allocated constant");
    assert!(matches!(&back.value, ConstantValue::Struct(es) if es.len() == 1));
    assert_ne!(v_arr, v_st);
}

#[test]
fn wide_value_constructors_allocate() {
    let mut ctx = Context::new();
    let v1 = Constant::get_uint256(&mut ctx, sway_ir::U256::from_u64(5));
    let v2 = Constant::get_uint(&mut ctx, 256, 5);
    assert_ne!(v1, v2);
    let r1 = v1.get_constant(&ctx).expect("allocated constant");
    let r2 = v2.get_constant(&ctx).expect("allocated constant");
    assert!(r1.eq(&ctx, &r2));

    let bytes = [0xabu8; 32];
    let v3 = Constant::get_b256(&mut ctx, bytes);
    let r3 = v3.get_constant(&ctx).expect("allocated constant");
    match &r3.value {
        ConstantValue::B256(u) => assert_eq!(u.to_be_bytes(), bytes),
        _ => panic!("expected a B256 payload"),
    }
}

#[test]
fn scenario_struct_built_twice() {
    // Build `Struct([Uint(64), Bool])`; build the constant
    // `Struct([Uint(64)=42, Bool=true])` twice via separate constructor
    // calls: the constants compare equal, but the wrapped handles differ.
    let mut ctx = Context::new();
    let u64_ty = Type::new_uint(&mut ctx, 64);
    let bool_ty = Type::get_bool(&ctx);
    let struct_ty = Type::new_struct(&mut ctx, vec![u64_ty, bool_ty]);

    let f1 = {
        let a = Constant::new_uint(&mut ctx, 64, 42);
        let b = Constant::new_bool(&ctx, true);
        vec![a, b]
    };
    let c1 = Constant::new_struct(&mut ctx, vec![u64_ty, bool_ty], f1);
    let f2 = {
        let a = Constant::new_uint(&mut ctx, 64, 42);
        let b = Constant::new_bool(&ctx, true);
        vec![a, b]
    };
    let c2 = Constant::new_struct(&mut ctx, vec![u64_ty, bool_ty], f2);
    assert_eq!(c1.ty, struct_ty);
    assert_eq!(c2.ty, struct_ty);
    assert!(c1.eq(&ctx, &c2));
    assert!(c2.eq(&ctx, &c1));

    let v1 = Constant::get_struct(&mut ctx, c1);
    let v2 = Constant::get_struct(&mut ctx, c2);
    assert_ne!(v1, v2);
}
