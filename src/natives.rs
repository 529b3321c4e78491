//! The native functions on Ristretto255 points: each takes its arguments as plain
//! values, works on the session's point store and returns its cost with its results.
use crate::curve::{
    add_points, compress_point, compression_of, decompress_bytes, decompression_of,
    double_mul_basepoint, double_scaled, eq_points, hash_to_point, identity_point, mul_basepoint,
    mul_point, multiscalar_mul, multiscalar_product, neg_point, point_difference,
    point_from_uniform_bytes, point_negation, point_scaled, point_sum, points_equal,
    basepoint_scaled, sha512_point, sub_points, uniform_bytes_point,
};
use crate::formula::{param_unit, GasFormula, GasParameters, ParamTag};
use crate::gas_algebra::{
    args_unit, gas_per_arg_unit, gas_unit, sat_add, sat_mul, unit_fits, unit_product, GasQuantity,
    Unit,
};
use crate::metering::{GasCore, GasError};
use crate::store::{NativeRistrettoPointContext, RistrettoPointHandle};
use curve25519_dalek::ristretto::RistrettoPoint;
use curve25519_dalek::scalar::Scalar;
use vstd::prelude::*;
use vstd::std_specs::bits::u64_leading_zeros;

verus! {

/// `floor(log2(n))` for `n >= 1`.
pub open spec fn floor_log2(n: nat) -> nat
    decreases n,
{
    if n <= 1 {
        0
    } else {
        1 + floor_log2(n / 2)
    }
}

proof fn lemma_leading_zeros_log2(i: u64)
    requires
        i >= 1,
    ensures
        63 - u64_leading_zeros(i) == floor_log2(i as nat),
    decreases i,
{
    reveal(u64_leading_zeros);
    if i > 1 {
        lemma_leading_zeros_log2(i / 2);
    } else {
        assert(u64_leading_zeros(0) == 64);
    }
}

/// `floor(log2(n))`, or `None` for zero.
pub fn log2_floor(n: usize) -> (r: Option<usize>)
    ensures
        r is None <==> n == 0,
        r matches Some(k) ==> k == floor_log2(n as nat),
{
    if n == 0 {
        return None;
    }
    let m: u64 = n as u64;
    let zeros: u32 = m.leading_zeros();
    proof {
        lemma_leading_zeros_log2(m);
        vstd::std_specs::bits::axiom_u64_leading_zeros(m);
    }
    Some((63 - zeros) as usize)
}

/// The number of point multiplications charged for a multiscalar product of size
/// `n`: `n / floor(log2(n + 1))`.
pub open spec fn msm_mul_count(n: nat) -> nat {
    n / floor_log2(n + 1)
}

/// The divisor of the multiscalar cost is at least one for every size `n >= 1`,
/// so the cost is defined, without a division by zero, already at `n = 1`.
pub proof fn lemma_msm_divisor_positive(n: nat)
    requires
        n >= 1,
    ensures
        floor_log2(n + 1) >= 1,
        msm_mul_count(n) <= n,
{
    vstd::arithmetic::div_mod::lemma_div_is_ordered_by_denominator(n as int, 1, floor_log2(n + 1) as int);
}

/// `param * n` for a parameter counted per argument.
pub open spec fn per_arg_formula(t: ParamTag, n: u64) -> GasFormula {
    GasFormula::Mul(
        Box::new(GasFormula::Param(t)),
        Box::new(GasFormula::Quantity(GasQuantity { amount: n, unit: Unit { gas: 0, args: 1, bytes: 0 } })),
    )
}

/// The cost formula of a multiscalar product of size `n`:
/// `point_parse_arg * n + scalar_parse_arg * n + point_mul * (n / floor(log2(n + 1)))`.
pub open spec fn msm_formula(n: usize) -> GasFormula {
    GasFormula::Add(
        Box::new(
            GasFormula::Add(
                Box::new(per_arg_formula(ParamTag::PointParseArg, n as u64)),
                Box::new(per_arg_formula(ParamTag::ScalarParseArg, n as u64)),
            ),
        ),
        Box::new(per_arg_formula(ParamTag::PointMul, msm_mul_count(n as nat) as u64)),
    )
}

/// The cost of a multiscalar product of size `n`:
/// `point_parse_arg * n + scalar_parse_arg * n + point_mul * (n / floor(log2(n + 1)))`.
/// The divisor is at least one for every `n >= 1`, and no floating point is used.
pub fn msm_cost(n: usize) -> (f: GasFormula)
    requires
        1 <= n < usize::MAX,
    ensures
        f == msm_formula(n),
        f.well_typed(),
        f.unit_of() == gas_unit(),
        forall|p: GasParameters| #[trigger]
            f.amount_in(p) == sat_add(
                sat_add(
                    sat_mul(p.point_parse_arg as int, n as int),
                    sat_mul(p.scalar_parse_arg as int, n as int),
                ),
                sat_mul(p.point_mul as int, msm_mul_count(n as nat) as int),
            ),
{
    proof {
        lemma_msm_divisor_positive(n as nat);
    }
    let k: usize = log2_floor(n + 1).unwrap();
    let count: usize = n / k;
    let points = per_arg_times(ParamTag::PointParseArg, n as u64);
    let scalars = per_arg_times(ParamTag::ScalarParseArg, n as u64);
    let muls = per_arg_times(ParamTag::PointMul, count as u64);
    let parse = GasFormula::Add(Box::new(points), Box::new(scalars));
    let f = GasFormula::Add(Box::new(parse), Box::new(muls));
    assert(parse.well_typed() && parse.unit_of() == gas_unit());
    assert(k == floor_log2((n + 1) as nat));
    assert forall|p: GasParameters| #[trigger]
        f.amount_in(p) == sat_add(
            sat_add(
                sat_mul(p.point_parse_arg as int, n as int),
                sat_mul(p.scalar_parse_arg as int, n as int),
            ),
            sat_mul(p.point_mul as int, msm_mul_count(n as nat) as int),
        ) by {
        assert(points.amount_in(p) == sat_mul(p.point_parse_arg as int, n as int));
        assert(scalars.amount_in(p) == sat_mul(p.scalar_parse_arg as int, n as int));
        assert(muls.amount_in(p) == sat_mul(p.point_mul as int, count as int));
        assert(parse.amount_in(p) == sat_add(points.amount_in(p), scalars.amount_in(p)));
    }
    f
}

/// `param * n` for a per-argument parameter: a flat cost.
fn per_arg_times(t: ParamTag, n: u64) -> (f: GasFormula)
    requires
        param_unit(t) == gas_per_arg_unit(),
    ensures
        f == per_arg_formula(t, n),
        f.well_typed(),
        f.unit_of() == gas_unit(),
        forall|p: GasParameters| #[trigger]
            f.amount_in(p) == sat_mul(p.amount_of(t) as int, n as int),
{
    let param = GasFormula::Param(t);
    let count = GasFormula::Quantity(GasQuantity::num_args(n));
    assert(param.well_typed() && count.well_typed());
    assert(count.unit_of() == args_unit());
    assert(unit_fits(unit_product(param.unit_of(), count.unit_of())));
    let f = GasFormula::Mul(Box::new(param), Box::new(count));
    assert forall|p: GasParameters| #[trigger]
        f.amount_in(p) == sat_mul(p.amount_of(t) as int, n as int) by {
        assert(param.amount_in(p) == p.amount_of(t));
        assert(count.amount_in(p) == n);
    }
    f
}

/// A per-argument parameter times one argument: a flat cost of the parameter's amount.
fn flat_cost(gas_params: &GasParameters, t: ParamTag) -> (q: GasQuantity)
    requires
        param_unit(t) == gas_per_arg_unit(),
    ensures
        q.amount == gas_params.amount_of(t),
        q.unit@ == gas_unit(),
{
    gas_params.get(t).times(GasQuantity::one())
}

/// The store after an operation's result was written over the point at `a`
/// (in place) or appended (otherwise).
pub open spec fn store_after(s: Seq<RistrettoPoint>, a: u64, r: RistrettoPoint, in_place: bool) -> Seq<
    RistrettoPoint,
> {
    if in_place {
        s.update(a as int, r)
    } else {
        s.push(r)
    }
}

/// The handle an operation returns: `a` itself in place, else the appended point's.
pub open spec fn result_handle(s: Seq<RistrettoPoint>, a: u64, in_place: bool) -> int {
    if in_place {
        a as int
    } else {
        s.len() as int
    }
}

/// The points that a sequence of handles refer to.
pub open spec fn handle_points(s: Seq<RistrettoPoint>, hs: Seq<RistrettoPointHandle>) -> Seq<
    RistrettoPoint,
> {
    hs.map_values(|h: RistrettoPointHandle| s[h.0 as int])
}

/// An operation on the point at `a` yields one value whether or not it runs in
/// place: the point at the returned handle is the result either way, and a point
/// appended out of place leaves every earlier point as it was.
pub proof fn lemma_in_place_parity(s: Seq<RistrettoPoint>, a: u64, r: RistrettoPoint)
    requires
        a < s.len(),
    ensures
        store_after(s, a, r, false)[result_handle(s, a, false)] == r,
        store_after(s, a, r, true)[result_handle(s, a, true)] == r,
        store_after(s, a, r, false).subrange(0, s.len() as int) == s,
        store_after(s, a, r, true).len() == s.len(),
{
    assert(store_after(s, a, r, false).subrange(0, s.len() as int) =~= s);
}

/// The 32 bytes as an array, or `None` where there are not exactly 32.
fn compressed_point_from_bytes(bytes: Vec<u8>) -> (r: Option<[u8; 32]>)
    ensures
        r is Some <==> bytes@.len() == 32,
        r matches Some(a) ==> a@ == bytes@,
{
    if bytes.len() != 32 {
        return None;
    }
    let mut arr: [u8; 32] = [0u8; 32];
    let mut i: usize = 0;
    while i < 32
        invariant
            0 <= i <= 32,
            bytes@.len() == 32,
            forall|j: int| 0 <= j < i ==> arr@[j] == bytes@[j],
        decreases 32 - i,
    {
        arr[i] = bytes[i];
        i = i + 1;
    }
    assert(arr@ =~= bytes@);
    Some(arr)
}

impl GasParameters {
    /// The point that the bytes canonically encode, or `None`. Where there are 32
    /// bytes, the cost of a decompression is added to the cumulative cost.
    pub fn decompress_maybe_non_canonical_point_bytes(
        &self,
        cumulative_cost: &mut GasQuantity,
        bytes: Vec<u8>,
    ) -> (r: Option<RistrettoPoint>)
        requires
            old(cumulative_cost).unit@ == gas_unit(),
        ensures
            bytes@.len() != 32 ==> r is None && *final(cumulative_cost) == *old(cumulative_cost),
            bytes@.len() == 32 ==> r == decompression_of(bytes@) && final(cumulative_cost).amount
                == sat_add(old(cumulative_cost).amount as int, self.point_decompress as int)
                && final(cumulative_cost).unit == old(cumulative_cost).unit,
    {
        let compressed = match compressed_point_from_bytes(bytes) {
            Some(arr) => arr,
            None => return None,
        };
        let cost = flat_cost(self, ParamTag::PointDecompress);
        *cumulative_cost = cumulative_cost.plus(cost);
        decompress_bytes(compressed)
    }
}

/// Adds the identity point to the store and returns its handle.
pub fn native_point_identity(gas_params: &GasParameters, context: &mut NativeRistrettoPointContext) -> (r: (
    GasQuantity,
    u64,
))
    ensures
        r.0.amount == gas_params.point_identity,
        r.0.unit@ == gas_unit(),
        r.1 == old(context).point_data@.len(),
        final(context).point_data@ == old(context).point_data@.push(
            final(context).point_data@[r.1 as int],
        ),
        forall|q: RistrettoPoint| #[trigger]
            points_equal(point_sum(final(context).point_data@[r.1 as int], q), q),
        forall|q: RistrettoPoint| #[trigger]
            points_equal(point_sum(q, final(context).point_data@[r.1 as int]), q),
{
    let cost = flat_cost(gas_params, ParamTag::PointIdentity);
    let handle = context.point_data.add_point(identity_point());
    (cost, handle)
}

/// Adding a point in place to the identity leaves a point equal to it: after the
/// identity is added at handle `h0` and `p` at `h1`, an in-place sum at `h0` holds a
/// point equal to `p`, and `p` stays at `h1`.
pub proof fn lemma_identity_plus_point(s: Seq<RistrettoPoint>, id: RistrettoPoint, p: RistrettoPoint)
    requires
        s.len() < u64::MAX,
        forall|q: RistrettoPoint| #[trigger] points_equal(point_sum(id, q), q),
    ensures
        ({
            let t = s.push(id).push(p);
            let h0 = s.len() as u64;
            let after = store_after(t, h0, point_sum(t[h0 as int], t[h0 + 1]), true);
            &&& points_equal(after[h0 as int], p)
            &&& after[h0 + 1] == p
            &&& result_handle(t, h0, true) == h0
        }),
{
    let t = s.push(id).push(p);
    assert(t[s.len() as int] == id);
    assert(t[s.len() as int + 1] == p);
}

/// Whether the bytes canonically encode a point; costs a decompression where
/// there are 32 bytes, and nothing otherwise.
pub fn native_point_is_canonical(gas_params: &GasParameters, bytes: Vec<u8>) -> (r: (GasQuantity, bool))
    ensures
        r.0.amount == (if bytes@.len() == 32 { gas_params.point_decompress } else { 0 }),
        r.0.unit@ == gas_unit(),
        r.1 == (bytes@.len() == 32 && decompression_of(bytes@) is Some),
{
    let mut cost = GasQuantity::zero();
    let opt_point = gas_params.decompress_maybe_non_canonical_point_bytes(&mut cost, bytes);
    (cost, opt_point.is_some())
}

/// Decompresses the bytes into a new point of the store: returns its handle and
/// `true`, or `(u64::MAX, false)` and leaves the store as it was where the bytes
/// are not a canonical encoding.
pub fn native_point_decompress(
    gas_params: &GasParameters,
    context: &mut NativeRistrettoPointContext,
    bytes: Vec<u8>,
) -> (r: (GasQuantity, u64, bool))
    ensures
        r.0.amount == (if bytes@.len() == 32 { gas_params.point_decompress } else { 0 }),
        r.0.unit@ == gas_unit(),
        r.2 == (bytes@.len() == 32 && decompression_of(bytes@) is Some),
        r.2 ==> r.1 == old(context).point_data@.len() && final(context).point_data@ == old(
            context,
        ).point_data@.push(decompression_of(bytes@).unwrap()),
        !r.2 ==> r.1 == u64::MAX && final(context).point_data@ == old(context).point_data@,
{
    let mut cost = GasQuantity::zero();
    let point = match gas_params.decompress_maybe_non_canonical_point_bytes(&mut cost, bytes) {
        Some(point) => point,
        None => {
            return (cost, u64::MAX, false);
        },
    };
    let id = context.point_data.add_point(point);
    (cost, id, true)
}

/// The canonical 32-byte encoding of the point at a handle.
pub fn native_point_compress(
    gas_params: &GasParameters,
    context: &NativeRistrettoPointContext,
    handle: RistrettoPointHandle,
) -> (r: (GasQuantity, Vec<u8>))
    requires
        handle.0 < context.point_data@.len(),
    ensures
        r.0.amount == gas_params.point_compress,
        r.0.unit@ == gas_unit(),
        r.1@.len() == 32,
        r.1@ == compression_of(context.point_data@[handle.0 as int]),
{
    let cost = flat_cost(gas_params, ParamTag::PointCompress);
    let arr = compress_point(context.point_data.get_point(&handle));
    let mut out: Vec<u8> = Vec::new();
    let mut i: usize = 0;
    while i < 32
        invariant
            0 <= i <= 32,
            out@ == arr@.subrange(0, i as int),
        decreases 32 - i,
    {
        out.push(arr[i]);
        i = i + 1;
        assert(out@ =~= arr@.subrange(0, i as int));
    }
    assert(arr@.subrange(0, 32) =~= arr@);
    (cost, out)
}

/// `scalar * point`, appended as a new point or written over the point in place.
pub fn native_point_mul(
    gas_params: &GasParameters,
    context: &mut NativeRistrettoPointContext,
    handle: RistrettoPointHandle,
    scalar: &Scalar,
    in_place: bool,
) -> (r: (GasQuantity, u64))
    requires
        handle.0 < old(context).point_data@.len(),
    ensures
        r.0.amount == gas_params.point_mul,
        r.0.unit@ == gas_unit(),
        r.1 == result_handle(old(context).point_data@, handle.0, in_place),
        final(context).point_data@ == store_after(
            old(context).point_data@,
            handle.0,
            point_scaled(old(context).point_data@[handle.0 as int], *scalar),
            in_place,
        ),
{
    let cost = flat_cost(gas_params, ParamTag::PointMul);
    if in_place {
        let p = context.point_data.get_point_mut(&handle);
        let q = mul_point(&*p, scalar);
        *p = q;
        (cost, handle.0)
    } else {
        let q = mul_point(context.point_data.get_point(&handle), scalar);
        let id = context.point_data.add_point(q);
        (cost, id)
    }
}

/// Whether the points at two handles are equal.
pub fn native_point_equals(
    gas_params: &GasParameters,
    context: &NativeRistrettoPointContext,
    a_handle: RistrettoPointHandle,
    b_handle: RistrettoPointHandle,
) -> (r: (GasQuantity, bool))
    requires
        a_handle.0 < context.point_data@.len(),
        b_handle.0 < context.point_data@.len(),
    ensures
        r.0.amount == gas_params.point_equals,
        r.0.unit@ == gas_unit(),
        r.1 == points_equal(
            context.point_data@[a_handle.0 as int],
            context.point_data@[b_handle.0 as int],
        ),
{
    let cost = flat_cost(gas_params, ParamTag::PointEquals);
    let a = context.point_data.get_point(&a_handle);
    let b = context.point_data.get_point(&b_handle);
    (cost, eq_points(a, b))
}

/// `-point`, appended as a new point or written over the point in place.
pub fn native_point_neg(
    gas_params: &GasParameters,
    context: &mut NativeRistrettoPointContext,
    handle: RistrettoPointHandle,
    in_place: bool,
) -> (r: (GasQuantity, u64))
    requires
        handle.0 < old(context).point_data@.len(),
    ensures
        r.0.amount == gas_params.point_neg,
        r.0.unit@ == gas_unit(),
        r.1 == result_handle(old(context).point_data@, handle.0, in_place),
        final(context).point_data@ == store_after(
            old(context).point_data@,
            handle.0,
            point_negation(old(context).point_data@[handle.0 as int]),
            in_place,
        ),
{
    let cost = flat_cost(gas_params, ParamTag::PointNeg);
    let neg = neg_point(context.point_data.get_point(&handle));
    if in_place {
        context.point_data.set_point(&handle, neg);
        (cost, handle.0)
    } else {
        let id = context.point_data.add_point(neg);
        (cost, id)
    }
}

/// `a + b`, appended as a new point or written over `a` in place. In place, the
/// two handles must differ.
pub fn native_point_add(
    gas_params: &GasParameters,
    context: &mut NativeRistrettoPointContext,
    a_handle: RistrettoPointHandle,
    b_handle: RistrettoPointHandle,
    in_place: bool,
) -> (r: (GasQuantity, u64))
    requires
        a_handle.0 < old(context).point_data@.len(),
        b_handle.0 < old(context).point_data@.len(),
        in_place ==> a_handle.0 != b_handle.0,
    ensures
        r.0.amount == gas_params.point_add,
        r.0.unit@ == gas_unit(),
        r.1 == result_handle(old(context).point_data@, a_handle.0, in_place),
        final(context).point_data@ == store_after(
            old(context).point_data@,
            a_handle.0,
            point_sum(
                old(context).point_data@[a_handle.0 as int],
                old(context).point_data@[b_handle.0 as int],
            ),
            in_place,
        ),
{
    let cost = flat_cost(gas_params, ParamTag::PointAdd);
    if in_place {
        let ghost s = context.point_data@;
        let (a, b) = context.point_data.get_two_muts(&a_handle, &b_handle);
        let sum = add_points(&*a, &*b);
        *a = sum;
        assert(s.update(a_handle.0 as int, sum).update(b_handle.0 as int, s[b_handle.0 as int])
            =~= s.update(a_handle.0 as int, sum));
        (cost, a_handle.0)
    } else {
        let sum = add_points(
            context.point_data.get_point(&a_handle),
            context.point_data.get_point(&b_handle),
        );
        let id = context.point_data.add_point(sum);
        (cost, id)
    }
}

/// `a - b`, appended as a new point or written over `a` in place. In place, the
/// two handles must differ.
pub fn native_point_sub(
    gas_params: &GasParameters,
    context: &mut NativeRistrettoPointContext,
    a_handle: RistrettoPointHandle,
    b_handle: RistrettoPointHandle,
    in_place: bool,
) -> (r: (GasQuantity, u64))
    requires
        a_handle.0 < old(context).point_data@.len(),
        b_handle.0 < old(context).point_data@.len(),
        in_place ==> a_handle.0 != b_handle.0,
    ensures
        r.0.amount == gas_params.point_sub,
        r.0.unit@ == gas_unit(),
        r.1 == result_handle(old(context).point_data@, a_handle.0, in_place),
        final(context).point_data@ == store_after(
            old(context).point_data@,
            a_handle.0,
            point_difference(
                old(context).point_data@[a_handle.0 as int],
                old(context).point_data@[b_handle.0 as int],
            ),
            in_place,
        ),
{
    let cost = flat_cost(gas_params, ParamTag::PointSub);
    if in_place {
        let ghost s = context.point_data@;
        let (a, b) = context.point_data.get_two_muts(&a_handle, &b_handle);
        let diff = sub_points(&*a, &*b);
        *a = diff;
        assert(s.update(a_handle.0 as int, diff).update(b_handle.0 as int, s[b_handle.0 as int])
            =~= s.update(a_handle.0 as int, diff));
        (cost, a_handle.0)
    } else {
        let diff = sub_points(
            context.point_data.get_point(&a_handle),
            context.point_data.get_point(&b_handle),
        );
        let id = context.point_data.add_point(diff);
        (cost, id)
    }
}

/// Appends `scalar * B`, with `B` the basepoint.
pub fn native_basepoint_mul(
    gas_params: &GasParameters,
    context: &mut NativeRistrettoPointContext,
    scalar: &Scalar,
) -> (r: (GasQuantity, u64))
    ensures
        r.0.amount == gas_params.basepoint_mul,
        r.0.unit@ == gas_unit(),
        r.1 == old(context).point_data@.len(),
        final(context).point_data@ == old(context).point_data@.push(basepoint_scaled(*scalar)),
{
    let cost = flat_cost(gas_params, ParamTag::BasepointMul);
    let id = context.point_data.add_point(mul_basepoint(scalar));
    (cost, id)
}

/// Appends `a * A + b * B`, with `A` the point at a handle and `B` the basepoint.
pub fn native_basepoint_double_mul(
    gas_params: &GasParameters,
    context: &mut NativeRistrettoPointContext,
    a: &Scalar,
    point_handle: RistrettoPointHandle,
    b: &Scalar,
) -> (r: (GasQuantity, u64))
    requires
        point_handle.0 < old(context).point_data@.len(),
    ensures
        r.0.amount == gas_params.basepoint_double_mul,
        r.0.unit@ == gas_unit(),
        r.1 == old(context).point_data@.len(),
        final(context).point_data@ == old(context).point_data@.push(
            double_scaled(*a, old(context).point_data@[point_handle.0 as int], *b),
        ),
{
    let cost = flat_cost(gas_params, ParamTag::BasepointDoubleMul);
    let p = double_mul_basepoint(a, context.point_data.get_point(&point_handle), b);
    let id = context.point_data.add_point(p);
    (cost, id)
}

/// Appends the point hashed from the bytes with SHA-512. The cost is that of a
/// point from 64 bytes, plus one hash, plus the per-byte hashing cost.
pub fn native_new_point_from_sha512(
    gas_params: &GasParameters,
    context: &mut NativeRistrettoPointContext,
    bytes: &Vec<u8>,
) -> (r: (GasQuantity, u64))
    ensures
        r.0.amount == sat_add(
            sat_add(
                gas_params.point_from_64_uniform_bytes as int,
                gas_params.sha512_per_hash as int,
            ),
            sat_mul(gas_params.sha512_per_byte as int, bytes@.len() as int),
        ),
        r.0.unit@ == gas_unit(),
        r.1 == old(context).point_data@.len(),
        final(context).point_data@ == old(context).point_data@.push(sha512_point(bytes@)),
{
    let per_byte = gas_params.get(ParamTag::Sha512PerByte);
    let len = GasQuantity::num_bytes(bytes.len() as u64);
    let hashed = per_byte.times(len);
    let cost = flat_cost(gas_params, ParamTag::PointFrom64UniformBytes).plus(
        flat_cost(gas_params, ParamTag::Sha512PerHash),
    ).plus(hashed);
    let id = context.point_data.add_point(hash_to_point(bytes));
    (cost, id)
}

/// Appends the point made from 64 uniform bytes.
pub fn native_new_point_from_64_uniform_bytes(
    gas_params: &GasParameters,
    context: &mut NativeRistrettoPointContext,
    bytes: &[u8; 64],
) -> (r: (GasQuantity, u64))
    ensures
        r.0.amount == gas_params.point_from_64_uniform_bytes,
        r.0.unit@ == gas_unit(),
        r.1 == old(context).point_data@.len(),
        final(context).point_data@ == old(context).point_data@.push(uniform_bytes_point(bytes@)),
{
    let cost = flat_cost(gas_params, ParamTag::PointFrom64UniformBytes);
    let id = context.point_data.add_point(point_from_uniform_bytes(bytes));
    (cost, id)
}

/// Appends the multiscalar product of the scalars and the points at the handles,
/// and returns its handle. Charges nothing.
pub fn append_multiscalar_product(
    context: &mut NativeRistrettoPointContext,
    scalars: &Vec<Scalar>,
    handles: &Vec<RistrettoPointHandle>,
) -> (id: u64)
    requires
        scalars@.len() == handles@.len(),
        forall|i: int| 0 <= i < handles@.len() ==> #[trigger] handles@[i].0 < old(context).point_data@.len(),
    ensures
        id == old(context).point_data@.len(),
        final(context).point_data@ == old(context).point_data@.push(
            multiscalar_product(scalars@, handle_points(old(context).point_data@, handles@)),
        ),
{
    let num = handles.len();
    let mut points: Vec<RistrettoPoint> = Vec::new();
    let mut i: usize = 0;
    while i < num
        invariant
            0 <= i <= num,
            num == handles@.len(),
            context.point_data@ == old(context).point_data@,
            forall|j: int| 0 <= j < handles@.len() ==> #[trigger] handles@[j].0 < context.point_data@.len(),
            points@ == handle_points(context.point_data@, handles@.take(i as int)),
        decreases num - i,
    {
        let p = context.point_data.get_point(&handles[i]);
        points.push(*p);
        i = i + 1;
        assert(points@ =~= handle_points(context.point_data@, handles@.take(i as int)));
    }
    assert(handles@.take(num as int) =~= handles@);
    let result = multiscalar_mul(scalars, &points);
    context.point_data.add_point(result)
}

/// Appends the multiscalar product of the scalars and the points at the handles.
/// The cost `msm_cost(n)` is charged before any point is read; where the charge
/// fails, the store is left as it was.
pub fn safe_native_multi_scalar_mul_no_floating_point<G: GasCore>(
    context: &mut NativeRistrettoPointContext,
    gas_core: &mut G,
    scalars: &Vec<Scalar>,
    handles: &Vec<RistrettoPointHandle>,
) -> (r: Result<u64, GasError>)
    requires
        scalars@.len() == handles@.len(),
        1 <= scalars@.len() < usize::MAX,
        forall|i: int| 0 <= i < handles@.len() ==> #[trigger] handles@[i].0 < old(context).point_data@.len(),
    ensures
        old(gas_core).charge_outcome(msm_formula(scalars@.len() as usize)) is Ok ==> r == Ok::<
            u64,
            GasError,
        >(old(context).point_data@.len() as u64) && final(context).point_data@ == old(
            context,
        ).point_data@.push(
            multiscalar_product(scalars@, handle_points(old(context).point_data@, handles@)),
        ),
        old(gas_core).charge_outcome(msm_formula(scalars@.len() as usize)) matches Err(e) ==> r
            == Err::<u64, GasError>(e) && final(context).point_data@ == old(context).point_data@,
{
    let cost = msm_cost(scalars.len());
    match gas_core.charge(&cost) {
        Ok(()) => {},
        Err(e) => return Err(e),
    }
    Ok(append_multiscalar_product(context, scalars, handles))
}

} // verus!
