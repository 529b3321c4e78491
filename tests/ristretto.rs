use curve25519_dalek::constants::RISTRETTO_BASEPOINT_POINT;
use curve25519_dalek::ristretto::RistrettoPoint;
use curve25519_dalek::scalar::Scalar;
use curve25519_dalek::traits::Identity;
use gas_natives::formula::GasParameters;
use gas_natives::metering::{AbstractGasCore, ConcreteGasCore, GasError};
use gas_natives::natives::{
    log2_floor, msm_cost, native_basepoint_double_mul, native_basepoint_mul,
    native_new_point_from_64_uniform_bytes, native_new_point_from_sha512, native_point_add,
    native_point_compress, native_point_decompress, native_point_equals, native_point_identity,
    native_point_is_canonical, native_point_mul, native_point_neg, native_point_sub,
    safe_native_multi_scalar_mul_no_floating_point,
};
use gas_natives::store::{NativeRistrettoPointContext, PointStore, RistrettoPointHandle};
use sha2::Sha512;

fn params() -> GasParameters {
    GasParameters {
        sum_base: 10,
        sum_per_element: 1,
        point_identity: 20,
        point_decompress: 21,
        point_compress: 22,
        point_mul: 23,
        point_equals: 24,
        point_neg: 25,
        point_add: 26,
        point_sub: 27,
        basepoint_mul: 28,
        basepoint_double_mul: 29,
        point_from_64_uniform_bytes: 30,
        sha512_per_hash: 31,
        sha512_per_byte: 2,
        scalar_parse_arg: 3,
        point_parse_arg: 4,
    }
}

fn b() -> RistrettoPoint {
    RISTRETTO_BASEPOINT_POINT
}

fn h(i: u64) -> RistrettoPointHandle {
    RistrettoPointHandle(i)
}

#[test]
fn test_log2_floor() {
    assert_eq!(log2_floor(usize::MIN), None);
    assert_eq!(log2_floor(0), None);
    assert_eq!(log2_floor(1), Some(0));

    assert_eq!(log2_floor(2), Some(1));
    assert_eq!(log2_floor(3), Some(1));

    assert_eq!(log2_floor(4), Some(2));
    assert_eq!(log2_floor(5), Some(2));
    assert_eq!(log2_floor(6), Some(2));
    assert_eq!(log2_floor(7), Some(2));

    assert_eq!(log2_floor(8), Some(3));
    assert_eq!(log2_floor(9), Some(3));
    assert_eq!(log2_floor(10), Some(3));
    assert_eq!(log2_floor(11), Some(3));
    assert_eq!(log2_floor(12), Some(3));
    assert_eq!(log2_floor(13), Some(3));
    assert_eq!(log2_floor(14), Some(3));
    assert_eq!(log2_floor(15), Some(3));

    assert_eq!(log2_floor(16), Some(4));

    // usize::MAX = 2^{usize::BITS} - 1, so the floor will be usize::BITS - 1
    assert_eq!(log2_floor(usize::MAX), Some((usize::BITS - 1) as usize));

    println!("All good.");
}

#[test]
fn handles_are_minted_in_order() {
    let points = vec![b(), b() + b(), RistrettoPoint::identity(), -b(), b() * Scalar::from(9u64)];
    let mut store = PointStore::new();
    for (i, p) in points.iter().enumerate() {
        assert_eq!(store.add_point(*p), i as u64);
    }
    assert_eq!(store.len(), points.len());
    for (i, p) in points.iter().enumerate() {
        assert_eq!(store.get_point(&h(i as u64)), p);
    }
}

#[test]
fn two_mutable_borrows_do_not_alias() {
    let mut store = PointStore::new();
    store.add_point(b());
    store.add_point(b() + b());
    store.add_point(-b());
    {
        let (x, y) = store.get_two_muts(&h(2), &h(0));
        assert_eq!(*x, -b());
        assert_eq!(*y, b());
        *x = RistrettoPoint::identity();
        *y = b() * Scalar::from(5u64);
    }
    assert_eq!(*store.get_point(&h(2)), RistrettoPoint::identity());
    assert_eq!(*store.get_point(&h(0)), b() * Scalar::from(5u64));
    assert_eq!(*store.get_point(&h(1)), b() + b());
    {
        let (x, y) = store.get_two_muts(&h(0), &h(1));
        *x = b();
        *y = -b();
    }
    assert_eq!(*store.get_point(&h(0)), b());
    assert_eq!(*store.get_point(&h(1)), -b());
}

#[test]
fn get_point_mut_and_set_point_replace_one_point() {
    let mut store = PointStore::new();
    store.add_point(b());
    store.add_point(b());
    *store.get_point_mut(&h(1)) = -b();
    assert_eq!(*store.get_point(&h(1)), -b());
    assert_eq!(*store.get_point(&h(0)), b());
    store.set_point(&h(0), RistrettoPoint::identity());
    assert_eq!(*store.get_point(&h(0)), RistrettoPoint::identity());
}

#[test]
fn identity_plus_point_in_place_is_the_point() {
    let p = b() * Scalar::from(77u64);
    let mut store = PointStore::new();
    let h0 = store.add_point(RistrettoPoint::identity());
    let h1 = store.add_point(p);
    {
        let (a, c) = store.get_two_muts(&h(h0), &h(h1));
        *a += *c;
    }
    assert_eq!(*store.get_point(&h(h0)), p);

    let mut ctx = NativeRistrettoPointContext::new();
    let (cost, id0) = native_point_identity(&params(), &mut ctx);
    assert_eq!((cost.amount, id0), (20, 0));
    ctx.point_data.add_point(p);
    let (_, r) = native_point_add(&params(), &mut ctx, h(0), h(1), true);
    assert_eq!(r, 0);
    assert_eq!(*ctx.point_data.get_point(&h(0)), p);
}

#[test]
fn msm_cost_is_deterministic_and_defined_at_one() {
    let p = params();
    // n, floor(log2(n + 1)), n / floor(log2(n + 1))
    for (n, muls) in [(1usize, 1u64), (2, 2), (8, 2), (190, 27), (1000, 111)] {
        let first = msm_cost(n).materialize(&p);
        let second = msm_cost(n).materialize(&p);
        assert_eq!(first, second);
        assert_eq!(first.amount, 4 * n as u64 + 3 * n as u64 + 23 * muls);
    }
    assert_eq!(log2_floor(1 + 1), Some(1));
}

#[test]
fn compress_then_decompress_round_trips() {
    let p = params();
    let mut ctx = NativeRistrettoPointContext::new();
    ctx.point_data.add_point(b() * Scalar::from(12345u64));
    let (cost, bytes) = native_point_compress(&p, &ctx, h(0));
    assert_eq!(cost.amount, 22);
    assert_eq!(bytes.len(), 32);
    assert_eq!(bytes, (b() * Scalar::from(12345u64)).compress().to_bytes().to_vec());
    let (cost, id, ok) = native_point_decompress(&p, &mut ctx, bytes.clone());
    assert_eq!((cost.amount, id, ok), (21, 1, true));
    let (_, same) = native_point_equals(&p, &ctx, h(0), h(1));
    assert!(same);
    let (cost, canonical) = native_point_is_canonical(&p, bytes);
    assert_eq!((cost.amount, canonical), (21, true));
}

#[test]
fn malformed_encodings_are_reported_not_fatal() {
    let p = params();
    let mut ctx = NativeRistrettoPointContext::new();
    let (cost, id, ok) = native_point_decompress(&p, &mut ctx, vec![0u8; 31]);
    assert_eq!((cost.amount, id, ok), (0, u64::MAX, false));
    let (cost, id, ok) = native_point_decompress(&p, &mut ctx, vec![0xffu8; 32]);
    assert_eq!((cost.amount, id, ok), (21, u64::MAX, false));
    assert_eq!(ctx.point_data.len(), 0);
    assert_eq!(native_point_is_canonical(&p, vec![0u8; 33]).1, false);
    assert_eq!(native_point_is_canonical(&p, vec![0xffu8; 32]).1, false);
    assert_eq!(native_point_is_canonical(&p, vec![0u8; 32]).1, true);
}

fn two_point_context() -> NativeRistrettoPointContext {
    let mut ctx = NativeRistrettoPointContext::new();
    ctx.point_data.add_point(b() * Scalar::from(3u64));
    ctx.point_data.add_point(b() * Scalar::from(5u64));
    ctx
}

#[test]
fn binary_ops_agree_in_place_and_out_of_place() {
    let p = params();
    let mut out = two_point_context();
    let mut inp = two_point_context();
    let (cost, r) = native_point_add(&p, &mut out, h(0), h(1), false);
    assert_eq!((cost.amount, r), (26, 2));
    let (_, r) = native_point_add(&p, &mut inp, h(0), h(1), true);
    assert_eq!(r, 0);
    assert_eq!(*out.point_data.get_point(&h(2)), b() * Scalar::from(8u64));
    assert_eq!(out.point_data.get_point(&h(2)), inp.point_data.get_point(&h(0)));

    let mut out = two_point_context();
    let mut inp = two_point_context();
    let (cost, r) = native_point_sub(&p, &mut out, h(1), h(0), false);
    assert_eq!((cost.amount, r), (27, 2));
    native_point_sub(&p, &mut inp, h(1), h(0), true);
    assert_eq!(*out.point_data.get_point(&h(2)), b() * Scalar::from(2u64));
    assert_eq!(out.point_data.get_point(&h(2)), inp.point_data.get_point(&h(1)));
    assert_eq!(inp.point_data.len(), 2);
}

#[test]
fn unary_ops_agree_in_place_and_out_of_place() {
    let p = params();
    let mut out = two_point_context();
    let mut inp = two_point_context();
    let s = Scalar::from(7u64);
    let (cost, r) = native_point_mul(&p, &mut out, h(1), &s, false);
    assert_eq!((cost.amount, r), (23, 2));
    let (_, r) = native_point_mul(&p, &mut inp, h(1), &s, true);
    assert_eq!(r, 1);
    assert_eq!(*out.point_data.get_point(&h(2)), b() * Scalar::from(35u64));
    assert_eq!(out.point_data.get_point(&h(2)), inp.point_data.get_point(&h(1)));

    let mut out = two_point_context();
    let mut inp = two_point_context();
    let (cost, r) = native_point_neg(&p, &mut out, h(0), false);
    assert_eq!((cost.amount, r), (25, 2));
    native_point_neg(&p, &mut inp, h(0), true);
    assert_eq!(*out.point_data.get_point(&h(2)), -(b() * Scalar::from(3u64)));
    assert_eq!(out.point_data.get_point(&h(2)), inp.point_data.get_point(&h(0)));
}

#[test]
fn equals_compares_group_elements() {
    let p = params();
    let ctx = two_point_context();
    let (cost, eq) = native_point_equals(&p, &ctx, h(0), h(1));
    assert_eq!((cost.amount, eq), (24, false));
    assert!(native_point_equals(&p, &ctx, h(1), h(1)).1);
}

#[test]
fn basepoint_products_are_appended() {
    let p = params();
    let mut ctx = two_point_context();
    let (cost, r) = native_basepoint_mul(&p, &mut ctx, &Scalar::from(11u64));
    assert_eq!((cost.amount, r), (28, 2));
    assert_eq!(*ctx.point_data.get_point(&h(2)), b() * Scalar::from(11u64));
    // 2 * (3B) + 4 * B = 10B
    let (cost, r) =
        native_basepoint_double_mul(&p, &mut ctx, &Scalar::from(2u64), h(0), &Scalar::from(4u64));
    assert_eq!((cost.amount, r), (29, 3));
    assert_eq!(*ctx.point_data.get_point(&h(3)), b() * Scalar::from(10u64));
}

#[test]
fn points_from_bytes_are_appended() {
    let p = params();
    let mut ctx = NativeRistrettoPointContext::new();
    let msg = b"hello points".to_vec();
    let (cost, r) = native_new_point_from_sha512(&p, &mut ctx, &msg);
    assert_eq!((cost.amount, r), (30 + 31 + 2 * 12, 0));
    assert_eq!(*ctx.point_data.get_point(&h(0)), RistrettoPoint::hash_from_bytes::<Sha512>(&msg));
    assert_ne!(*ctx.point_data.get_point(&h(0)), RistrettoPoint::identity());
    let bytes = [7u8; 64];
    let (cost, r) = native_new_point_from_64_uniform_bytes(&p, &mut ctx, &bytes);
    assert_eq!((cost.amount, r), (30, 1));
    assert_eq!(*ctx.point_data.get_point(&h(1)), RistrettoPoint::from_uniform_bytes(&bytes));
}

#[test]
fn multiscalar_product_charges_first() {
    let mut ctx = two_point_context();
    let scalars = vec![Scalar::from(2u64), Scalar::from(1u64), Scalar::from(10u64)];
    let handles = vec![h(0), h(1), h(0)];
    // cost: 4 * 3 + 3 * 3 + 23 * (3 / 2) = 44
    let mut gas = ConcreteGasCore::new(params(), 44);
    let r = safe_native_multi_scalar_mul_no_floating_point(&mut ctx, &mut gas, &scalars, &handles);
    assert_eq!(r, Ok(2));
    assert_eq!(gas.balance, 0);
    // 2 * 3B + 5B + 10 * 3B = 41B
    assert_eq!(*ctx.point_data.get_point(&h(2)), b() * Scalar::from(41u64));

    let mut poor = ConcreteGasCore::new(params(), 43);
    let r = safe_native_multi_scalar_mul_no_floating_point(&mut ctx, &mut poor, &scalars, &handles);
    assert_eq!(r, Err(GasError::OutOfGas));
    assert_eq!(ctx.point_data.len(), 3);

    let mut shape = AbstractGasCore::new();
    let r = safe_native_multi_scalar_mul_no_floating_point(
        &mut ctx,
        &mut shape,
        &vec![Scalar::from(1u64)],
        &vec![h(1)],
    );
    assert_eq!(r, Ok(3));
    assert_eq!(shape.visitor.steps.len(), 11);
    assert_eq!(*ctx.point_data.get_point(&h(3)), b() * Scalar::from(5u64));
}

#[test]
fn multiscalar_product_without_charge() {
    let mut ctx = two_point_context();
    let r = gas_natives::natives::append_multiscalar_product(
        &mut ctx,
        &vec![Scalar::from(3u64), Scalar::from(4u64)],
        &vec![h(1), h(0)],
    );
    // 3 * 5B + 4 * 3B = 27B
    assert_eq!(r, 2);
    assert_eq!(*ctx.point_data.get_point(&h(2)), b() * Scalar::from(27u64));
}

#[test]
fn decompression_cost_accumulates_only_for_32_bytes() {
    let p = params();
    let mut cost = gas_natives::gas_algebra::GasQuantity::zero();
    let bytes = b().compress().to_bytes().to_vec();
    let point = p.decompress_maybe_non_canonical_point_bytes(&mut cost, bytes.clone());
    assert_eq!(point, Some(b()));
    assert_eq!(cost.amount, 21);
    let point = p.decompress_maybe_non_canonical_point_bytes(&mut cost, bytes);
    assert_eq!(point, Some(b()));
    assert_eq!(cost.amount, 42);
    assert_eq!(p.decompress_maybe_non_canonical_point_bytes(&mut cost, vec![1u8; 5]), None);
    assert_eq!(cost.amount, 42);
}

#[test]
fn identity_native_appends_the_neutral_element() {
    let p = params();
    let mut ctx = two_point_context();
    let (cost, id) = native_point_identity(&p, &mut ctx);
    assert_eq!((cost.amount, id), (20, 2));
    assert_eq!(*ctx.point_data.get_point(&h(2)), RistrettoPoint::identity());
    let (_, sum) = native_point_add(&p, &mut ctx, h(2), h(1), false);
    assert_eq!(ctx.point_data.get_point(&h(sum)), ctx.point_data.get_point(&h(1)));
}
