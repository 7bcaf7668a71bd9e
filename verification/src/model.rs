use vstd::prelude::*;
use crate::ids::{CurveId, PointId, SurfaceId};

verus! {

/// Identifier of a model within a scene.
#[derive(Debug, Clone, Copy, PartialEq, Eq, Hash, Structural)]
pub struct ModelId(pub u32);

impl From<u32> for ModelId {
    fn from(id: u32) -> (r: Self) {
        ModelId(id)
    }
}

impl vstd::std_specs::convert::FromSpecImpl<u32> for ModelId {
    open spec fn obeys_from_spec() -> bool {
        true
    }

    open spec fn from_spec(v: u32) -> Self {
        ModelId(v)
    }
}

impl From<ModelId> for u32 {
    fn from(id: ModelId) -> (r: u32) {
        id.0
    }
}

impl vstd::std_specs::convert::FromSpecImpl<ModelId> for u32 {
    open spec fn obeys_from_spec() -> bool {
        true
    }

    open spec fn from_spec(v: ModelId) -> u32 {
        v.0
    }
}

/// Identifier of an instance of a model.
#[derive(Debug, Clone, Copy, PartialEq, Eq, Hash, Structural)]
pub struct InstanceId(pub u32);

impl From<u32> for InstanceId {
    fn from(id: u32) -> (r: Self) {
        InstanceId(id)
    }
}

impl vstd::std_specs::convert::FromSpecImpl<u32> for InstanceId {
    open spec fn obeys_from_spec() -> bool {
        true
    }

    open spec fn from_spec(v: u32) -> Self {
        InstanceId(v)
    }
}

impl From<InstanceId> for u32 {
    fn from(id: InstanceId) -> (r: u32) {
        id.0
    }
}

impl vstd::std_specs::convert::FromSpecImpl<InstanceId> for u32 {
    open spec fn obeys_from_spec() -> bool {
        true
    }

    open spec fn from_spec(v: InstanceId) -> u32 {
        v.0
    }
}

/// A piece of geometry of a model: a surface, a curve or a point.
#[derive(Debug, Clone, Copy, PartialEq, Eq, Structural)]
pub enum GeometryId {
    Surface(SurfaceId),
    Curve(CurveId),
    Point(PointId),
}

impl GeometryId {
    /// The identifier within its kind.
    pub open spec fn spec_value(&self) -> u32 {
        match self {
            GeometryId::Surface(id) => id.0,
            GeometryId::Curve(id) => id.0,
            GeometryId::Point(id) => id.0,
        }
    }

    /// The kind as a two-bit tag: surface 1, curve 2, point 3.
    pub open spec fn spec_tag(&self) -> u32 {
        match self {
            GeometryId::Surface(_) => 1,
            GeometryId::Curve(_) => 2,
            GeometryId::Point(_) => 3,
        }
    }

    /// The value a shader writes for this geometry: the identifier shifted
    /// left by two bits, with the kind's tag in the low two bits.
    pub open spec fn shader_value(&self) -> u32 {
        (self.spec_value() << 2u32) | self.spec_tag()
    }

    /// The geometry a shader value stands for: none for the value of an empty
    /// pixel (identifier 0) or an unknown tag.
    pub open spec fn decoded(value: u32) -> Option<GeometryId> {
        let tag = value & 3u32;
        let id = value >> 2u32;
        if id > 0 {
            if tag == 1 {
                Some(GeometryId::Surface(SurfaceId(id)))
            } else if tag == 2 {
                Some(GeometryId::Curve(CurveId(id)))
            } else if tag == 3 {
                Some(GeometryId::Point(PointId(id)))
            } else {
                None
            }
        } else {
            None
        }
    }

    /// Packs the geometry into one `u32` for a shader.
    pub fn into_shader_value(&self) -> (r: u32)
        ensures
            r == self.shader_value(),
    {
        let (instance_id, type_id): (u32, u32) = match self {
            GeometryId::Surface(id) => (id.0, 1),
            GeometryId::Curve(id) => (id.0, 2),
            GeometryId::Point(id) => (id.0, 3),
        };

        (instance_id << 2u32) | type_id
    }

    /// Unpacks a value written by a shader.
    pub fn from_shader_value(value: u32) -> (r: Option<Self>)
        ensures
            r == Self::decoded(value),
    {
        let type_id = value & 3u32;
        let instance_id = value >> 2u32;

        if instance_id > 0 {
            match type_id {
                1 => Some(GeometryId::from(SurfaceId(instance_id))),
                2 => Some(GeometryId::from(CurveId(instance_id))),
                3 => Some(GeometryId::from(PointId(instance_id))),
                _ => None,
            }
        } else {
            None
        }
    }

    /// The identifier within its kind.
    pub fn value(&self) -> (r: u32)
        ensures
            r == self.spec_value(),
    {
        match self {
            GeometryId::Surface(id) => id.0,
            GeometryId::Curve(id) => id.0,
            GeometryId::Point(id) => id.0,
        }
    }
}

impl From<SurfaceId> for GeometryId {
    fn from(id: SurfaceId) -> (r: Self) {
        GeometryId::Surface(id)
    }
}

impl vstd::std_specs::convert::FromSpecImpl<SurfaceId> for GeometryId {
    open spec fn obeys_from_spec() -> bool {
        true
    }

    open spec fn from_spec(v: SurfaceId) -> Self {
        GeometryId::Surface(v)
    }
}

impl From<CurveId> for GeometryId {
    fn from(id: CurveId) -> (r: Self) {
        GeometryId::Curve(id)
    }
}

impl vstd::std_specs::convert::FromSpecImpl<CurveId> for GeometryId {
    open spec fn obeys_from_spec() -> bool {
        true
    }

    open spec fn from_spec(v: CurveId) -> Self {
        GeometryId::Curve(v)
    }
}

impl From<PointId> for GeometryId {
    fn from(id: PointId) -> (r: Self) {
        GeometryId::Point(id)
    }
}

impl vstd::std_specs::convert::FromSpecImpl<PointId> for GeometryId {
    open spec fn obeys_from_spec() -> bool {
        true
    }

    open spec fn from_spec(v: PointId) -> Self {
        GeometryId::Point(v)
    }
}

proof fn lemma_pack_unpack(id: u32, tag: u32)
    requires
        0 < id < 0x4000_0000,
        1 <= tag <= 3,
    ensures
        ((id << 2u32) | tag) >> 2u32 == id,
        ((id << 2u32) | tag) & 3u32 == tag,
{
    assert(((id << 2u32) | tag) >> 2u32 == id) by (bit_vector)
        requires
            id < 0x4000_0000u32,
            tag <= 3u32,
    ;
    assert(((id << 2u32) | tag) & 3u32 == tag) by (bit_vector)
        requires
            tag <= 3u32,
    ;
}

/// A geometry whose identifier is positive and fits in thirty bits is read
/// back from its shader value unchanged.
pub proof fn lemma_shader_value_round_trip(g: GeometryId)
    requires
        0 < g.spec_value() < 0x4000_0000,
    ensures
        GeometryId::decoded(g.shader_value()) == Some(g),
{
    lemma_pack_unpack(g.spec_value(), g.spec_tag());
}

/// A shader value that stands for some geometry is exactly that geometry's
/// shader value.
pub proof fn lemma_decoded_value_round_trip(value: u32)
    requires
        GeometryId::decoded(value) is Some,
    ensures
        GeometryId::decoded(value).unwrap().shader_value() == value,
{
    let g = GeometryId::decoded(value).unwrap();
    assert(((value >> 2u32) << 2u32) | (value & 3u32) == value) by (bit_vector);
    assert(g.spec_value() == value >> 2u32);
    assert(g.spec_tag() == value & 3u32);
}

/// The value of an empty pixel, `0`, stands for no geometry.
pub proof fn lemma_zero_is_no_geometry()
    ensures
        GeometryId::decoded(0) is None,
{
    assert((0u32 >> 2u32) == 0u32) by (bit_vector);
}

/// Offset, within a segment's four vertices, of each of the six corners of
/// its two triangles.
pub open spec fn segment_corner(j: int) -> int {
    if j == 0 {
        2
    } else if j == 1 {
        0
    } else if j == 2 {
        1
    } else if j == 3 {
        2
    } else if j == 4 {
        1
    } else {
        3
    }
}

/// Index buffer of a curve mesh through `num_points` points: each of the
/// `num_points - 1` segments owns four vertices and is drawn as two
/// triangles over them.
pub fn curve_mesh_indices(num_points: usize) -> (r: Vec<u32>)
    requires
        1 <= num_points <= 0x4000_0001,
    ensures
        r@.len() == 6 * (num_points - 1),
        forall|k: int, j: int|
            0 <= k < num_points - 1 && 0 <= j < 6 ==> #[trigger] r@[6 * k + j] == 4 * k
                + segment_corner(j),
{
    let mut indices: Vec<u32> = Vec::new();
    let mut i: usize = 1;
    while i < num_points
        invariant
            1 <= i <= num_points,
            num_points <= 0x4000_0001,
            indices@.len() == 6 * (i - 1),
            forall|k: int, j: int|
                0 <= k < i - 1 && 0 <= j < 6 ==> #[trigger] indices@[6 * k + j] == 4 * k
                    + segment_corner(j),
        decreases num_points - i,
    {
        let base: u32 = ((i - 1) as u32) * 4;
        let ghost before = indices@;
        indices.push(base + 2);
        indices.push(base);
        indices.push(base + 1);
        indices.push(base + 2);
        indices.push(base + 1);
        indices.push(base + 3);
        proof {
            assert forall|k: int, j: int| 0 <= k < i && 0 <= j < 6 implies #[trigger] indices@[6
                * k + j] == 4 * k + segment_corner(j) by {
                if k < i - 1 {
                    assert(6 * k + j < 6 * (i - 1)) by (nonlinear_arith)
                        requires
                            k < i - 1,
                            j < 6,
                    ;
                    assert(indices@[6 * k + j] == before[6 * k + j]);
                } else {
                    assert(k == i - 1);
                    assert(6 * k + j == 6 * (i - 1) + j);
                }
            }
        }
        i = i + 1;
    }
    indices
}

/// Every index of a curve mesh names one of its `4 * (num_points - 1)` vertices.
pub proof fn lemma_curve_indices_in_range(num_points: int, r: Seq<u32>)
    requires
        num_points >= 1,
        r.len() == 6 * (num_points - 1),
        forall|k: int, j: int|
            0 <= k < num_points - 1 && 0 <= j < 6 ==> #[trigger] r[6 * k + j] == 4 * k
                + segment_corner(j),
    ensures
        forall|x: int| 0 <= x < r.len() ==> #[trigger] r[x] < 4 * (num_points - 1),
{
    assert forall|x: int| 0 <= x < r.len() implies #[trigger] r[x] < 4 * (num_points - 1) by {
        let k = x / 6;
        let j = x % 6;
        assert(x == 6 * k + j);
        assert(0 <= k < num_points - 1) by (nonlinear_arith)
            requires
                x == 6 * k + j,
                0 <= j < 6,
                0 <= x < 6 * (num_points - 1),
        ;
        assert(r[6 * k + j] == 4 * k + segment_corner(j));
    }
}

/// For each vertex of a curve mesh through `num_points` points, the point it
/// sits at: vertex `4k + j` of segment `k` sits at point `k` for `j < 2` and
/// at point `k + 1` otherwise. Its direction is that of its segment, from
/// point `k` to point `k + 1`.
pub fn curve_vertex_points(num_points: usize) -> (r: Vec<usize>)
    requires
        1 <= num_points,
        4 * (num_points - 1) <= usize::MAX,
    ensures
        r@.len() == 4 * (num_points - 1),
        forall|k: int, j: int|
            0 <= k < num_points - 1 && 0 <= j < 4 ==> #[trigger] r@[4 * k + j] == k + (if j
                < 2 {
                0int
            } else {
                1int
            }),
{
    let mut sources: Vec<usize> = Vec::new();
    let mut i: usize = 1;
    while i < num_points
        invariant
            1 <= i <= num_points,
            4 * (num_points - 1) <= usize::MAX,
            sources@.len() == 4 * (i - 1),
            forall|k: int, j: int|
                0 <= k < i - 1 && 0 <= j < 4 ==> #[trigger] sources@[4 * k + j] == k + (if j
                    < 2 {
                    0int
                } else {
                    1int
                }),
        decreases num_points - i,
    {
        let ghost before = sources@;
        sources.push(i - 1);
        sources.push(i - 1);
        sources.push(i);
        sources.push(i);
        proof {
            assert forall|k: int, j: int| 0 <= k < i && 0 <= j < 4 implies #[trigger] sources@[4
                * k + j] == k + (if j < 2 {
                0int
            } else {
                1int
            }) by {
                if k < i - 1 {
                    assert(4 * k + j < 4 * (i - 1)) by (nonlinear_arith)
                        requires
                            k < i - 1,
                            j < 4,
                    ;
                    assert(sources@[4 * k + j] == before[4 * k + j]);
                } else {
                    assert(k == i - 1);
                    assert(4 * k + j == 4 * (i - 1) + j);
                }
            }
        }
        i = i + 1;
    }
    sources
}

} // verus!
