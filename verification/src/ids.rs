use vstd::prelude::*;
use core::marker::PhantomData;
use vstd::std_specs::convert::FromSpec;

verus! {

/// Hands out the identifiers `1, 2, 3, ...`, one per call of `next`.
#[derive(Debug)]
pub struct IdSeries<T: From<u32>> {
    last_id: u32,
    _t: PhantomData<T>,
}

impl<T: From<u32>> IdSeries<T> {
    /// The identifier handed out most recently (`0` before the first one).
    pub closed spec fn last(&self) -> u32 {
        self.last_id
    }

    /// A series that has handed out nothing yet.
    pub fn new() -> (r: Self)
        ensures
            r.last() == 0,
    {
        IdSeries { last_id: 0, _t: PhantomData }
    }

    /// The identifier handed out most recently (`0` before the first one).
    pub fn last_id(&self) -> (r: u32)
        ensures
            r == self.last(),
    {
        self.last_id
    }

    /// Hands out the next identifier: one more than the previous one.
    pub fn next(&mut self) -> (r: T)
        requires
            old(self).last() < u32::MAX,
        ensures
            final(self).last() == old(self).last() + 1,
            <T as FromSpec<u32>>::obeys_from_spec() ==> r == T::from_spec(final(self).last()),
            call_ensures(T::from, (final(self).last(),), r),
    {
        self.last_id = self.last_id + 1;
        T::from(self.last_id)
    }
}

/// Two identifiers handed out by one series, one after the other, differ,
/// and the later one is the greater.
pub proof fn lemma_series_ids_increase<T: From<u32>>(
    s0: IdSeries<T>,
    s1: IdSeries<T>,
    s2: IdSeries<T>,
)
    requires
        s1.last() == s0.last() + 1,
        s2.last() == s1.last() + 1,
    ensures
        s1.last() < s2.last(),
        s1.last() != s2.last(),
        s1.last() > 0,
{
}

/// The surface identifiers one series hands out are `1, 2, 3, ...` in turn:
/// the one after `a` is `a + 1`, so no two are equal and none is `0`.
pub proof fn lemma_surface_ids_count_up(
    s0: IdSeries<SurfaceId>,
    s1: IdSeries<SurfaceId>,
    a: SurfaceId,
    s2: IdSeries<SurfaceId>,
    b: SurfaceId,
)
    requires
        s1.last() == s0.last() + 1,
        a == SurfaceId(s1.last()),
        s2.last() == s1.last() + 1,
        b == SurfaceId(s2.last()),
    ensures
        b.0 == a.0 + 1,
        a != b,
        a != SurfaceId(0),
        b != SurfaceId(0),
{
}

/// Identifier of a surface within a model.
#[derive(Debug, Clone, Copy, PartialEq, Eq, Hash, Structural)]
pub struct SurfaceId(pub u32);

impl From<u32> for SurfaceId {
    fn from(id: u32) -> (r: Self) {
        SurfaceId(id)
    }
}

impl vstd::std_specs::convert::FromSpecImpl<u32> for SurfaceId {
    open spec fn obeys_from_spec() -> bool {
        true
    }

    open spec fn from_spec(v: u32) -> Self {
        SurfaceId(v)
    }
}

/// Identifier of a curve within a model.
#[derive(Debug, Clone, Copy, PartialEq, Eq, Hash, Structural)]
pub struct CurveId(pub u32);

impl From<u32> for CurveId {
    fn from(id: u32) -> (r: Self) {
        CurveId(id)
    }
}

impl vstd::std_specs::convert::FromSpecImpl<u32> for CurveId {
    open spec fn obeys_from_spec() -> bool {
        true
    }

    open spec fn from_spec(v: u32) -> Self {
        CurveId(v)
    }
}

/// Identifier of a point within a model.
#[derive(Debug, Clone, Copy, PartialEq, Eq, Hash, Structural)]
pub struct PointId(pub u32);

impl From<u32> for PointId {
    fn from(id: u32) -> (r: Self) {
        PointId(id)
    }
}

impl vstd::std_specs::convert::FromSpecImpl<u32> for PointId {
    open spec fn obeys_from_spec() -> bool {
        true
    }

    open spec fn from_spec(v: u32) -> Self {
        PointId(v)
    }
}

} // verus!
