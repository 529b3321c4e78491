//! The store of native points: an append-only sequence indexed by handle.
use curve25519_dalek::ristretto::RistrettoPoint;
use vstd::prelude::*;

verus! {

/// The handle of a point in a store: its index, counted from zero in the order
/// the points were added.
#[derive(Clone, Copy, Debug, PartialEq, Eq, Structural, PartialOrd, Ord)]
pub struct RistrettoPointHandle(pub u64);

/// Points held outside the virtual machine's own values, indexed by handle.
/// Points are only ever appended, and the handle of a point is the number of
/// points added before it.
pub struct PointStore {
    points: Vec<RistrettoPoint>,
}

impl View for PointStore {
    type V = Seq<RistrettoPoint>;

    closed spec fn view(&self) -> Seq<RistrettoPoint> {
        self.points@
    }
}

impl PointStore {
    /// An empty store.
    pub fn new() -> (s: PointStore)
        ensures
            s@ == Seq::<RistrettoPoint>::empty(),
    {
        PointStore { points: Vec::new() }
    }

    /// The number of points in the store.
    pub fn len(&self) -> (n: usize)
        ensures
            n == self@.len(),
    {
        self.points.len()
    }

    /// Replaces the point at a handle.
    pub fn set_point(&mut self, handle: &RistrettoPointHandle, point: RistrettoPoint)
        requires
            handle.0 < old(self)@.len(),
        ensures
            final(self)@ == old(self)@.update(handle.0 as int, point),
    {
        let n = self.points.len();
        assert(handle.0 < n);
        self.points.set(handle.0 as usize, point);
    }

    /// The point at a handle.
    pub fn get_point(&self, handle: &RistrettoPointHandle) -> (p: &RistrettoPoint)
        requires
            handle.0 < self@.len(),
        ensures
            *p == self@[handle.0 as int],
    {
        let n = self.points.len();
        assert(handle.0 < n);
        &self.points[handle.0 as usize]
    }

    /// Exclusive access to the point at a handle.
    pub fn get_point_mut(&mut self, handle: &RistrettoPointHandle) -> (p: &mut RistrettoPoint)
        requires
            handle.0 < old(self)@.len(),
        ensures
            *p == old(self)@[handle.0 as int],
            final(self)@ == old(self)@.update(handle.0 as int, *final(p)),
    {
        let n = self.points.len();
        assert(handle.0 < n);
        let slice = self.points.as_mut_slice();
        let (_, rest) = slice.split_at_mut(handle.0 as usize);
        rest.first_mut().unwrap()
    }

    /// Exclusive access to two different points at once, in the order asked for.
    /// The two handles must differ.
    pub fn get_two_muts(&mut self, a: &RistrettoPointHandle, b: &RistrettoPointHandle) -> (r: (
        &mut RistrettoPoint,
        &mut RistrettoPoint,
    ))
        requires
            a.0 != b.0,
            a.0 < old(self)@.len(),
            b.0 < old(self)@.len(),
        ensures
            *r.0 == old(self)@[a.0 as int],
            *r.1 == old(self)@[b.0 as int],
            final(self)@ == old(self)@.update(a.0 as int, *final(r.0)).update(
                b.0 as int,
                *final(r.1),
            ),
    {
        let n = self.points.len();
        assert(a.0 < n && b.0 < n);
        let swapped = a.0 > b.0;
        let lo: usize = if swapped { b.0 as usize } else { a.0 as usize };
        let hi: usize = if swapped { a.0 as usize } else { b.0 as usize };
        let slice = self.points.as_mut_slice();
        let (left, right) = slice.split_at_mut(lo + 1);
        let lo_ref = left.last_mut().unwrap();
        let (_, tail) = right.split_at_mut(hi - (lo + 1));
        let hi_ref = tail.first_mut().unwrap();
        if swapped {
            (hi_ref, lo_ref)
        } else {
            (lo_ref, hi_ref)
        }
    }

    /// Appends a point and returns its handle: the number of points before it.
    pub fn add_point(&mut self, point: RistrettoPoint) -> (id: u64)
        ensures
            id == old(self)@.len(),
            final(self)@ == old(self)@.push(point),
    {
        let id = self.points.len();
        self.points.push(point);
        id as u64
    }
}

/// The per-session context of the point natives: it owns the session's store.
pub struct NativeRistrettoPointContext {
    pub point_data: PointStore,
}

impl NativeRistrettoPointContext {
    /// A context with an empty store.
    pub fn new() -> (c: NativeRistrettoPointContext)
        ensures
            c.point_data@ == Seq::<RistrettoPoint>::empty(),
    {
        NativeRistrettoPointContext { point_data: PointStore::new() }
    }
}

/// The store after one point was appended to each of a sequence of points, in order.
pub open spec fn push_all(s: Seq<RistrettoPoint>, ps: Seq<RistrettoPoint>) -> Seq<RistrettoPoint>
    decreases ps.len(),
{
    if ps.len() == 0 {
        s
    } else {
        push_all(s, ps.drop_last()).push(ps.last())
    }
}

/// After `n` points are added to an empty store, the store holds exactly those `n`
/// points; the `i`-th add mints handle `i`, and the point at handle `i` is the
/// point passed to the `i`-th add.
pub proof fn lemma_handles_monotonic(ps: Seq<RistrettoPoint>)
    ensures
        push_all(Seq::empty(), ps).len() == ps.len(),
        forall|i: int| 0 <= i < ps.len() ==> #[trigger] push_all(Seq::empty(), ps.take(i)).len() == i,
        forall|i: int| 0 <= i < ps.len() ==> #[trigger] push_all(Seq::empty(), ps)[i] == ps[i],
    decreases ps.len(),
{
    if ps.len() > 0 {
        lemma_handles_monotonic(ps.drop_last());
        assert forall|i: int| 0 <= i < ps.len() implies #[trigger] push_all(Seq::empty(), ps.take(i)).len() == i by {
            if i < ps.len() - 1 {
                assert(ps.drop_last().take(i) =~= ps.take(i));
            } else {
                assert(ps.take(i) =~= ps.drop_last());
            }
        }
    }
}

/// Two exclusive borrows of different points do not alias: after writing `x`
/// through the first and `y` through the second, the store holds `x` at `a`, `y`
/// at `b`, and every other point as it was.
pub proof fn lemma_two_muts_independent(
    s: Seq<RistrettoPoint>,
    a: int,
    b: int,
    x: RistrettoPoint,
    y: RistrettoPoint,
)
    requires
        a != b,
        0 <= a < s.len(),
        0 <= b < s.len(),
    ensures
        s.update(a, x).update(b, y)[a] == x,
        s.update(a, x).update(b, y)[b] == y,
        s.update(a, x).update(b, y).len() == s.len(),
        forall|i: int| 0 <= i < s.len() && i != a && i != b ==> #[trigger] s.update(a, x).update(b, y)[i] == s[i],
{
}

} // verus!
