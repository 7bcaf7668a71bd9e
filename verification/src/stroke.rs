use vstd::prelude::*;

verus! {

/// Where along a stroked polyline a fan of triangles sits.
#[derive(Debug, Clone, Copy, PartialEq, Eq, Structural)]
pub enum FanKind {
    /// The round cap at the first point.
    Start,
    /// A joint where the line turns counterclockwise.
    CcwTurn,
    /// A joint where the line turns clockwise.
    CwTurn,
    /// The round cap at the last point.
    End,
}

/// How the direction of a polyline changes at a point.
#[derive(Debug, Clone, Copy, PartialEq, Eq, Structural)]
pub enum TurnDir {
    Cw,
    Ccw,
    Aligned,
    Opposite,
}

/// The kind of fan at point `index` of a polyline of `count` points, given how
/// the line turns there: caps at both ends, a clockwise joint where the line
/// turns clockwise and a counterclockwise one elsewhere.
pub fn fan_kind(index: usize, count: usize, turn: TurnDir) -> (r: FanKind)
    requires
        index < count,
    ensures
        index < 1 ==> r == FanKind::Start,
        index >= 1 && index == count - 1 ==> r == FanKind::End,
        index >= 1 && index != count - 1 ==> r == (if turn == TurnDir::Cw {
            FanKind::CwTurn
        } else {
            FanKind::CcwTurn
        }),
{
    if index < 1 {
        FanKind::Start
    } else if index == count - 1 {
        FanKind::End
    } else {
        match turn {
            TurnDir::Cw => FanKind::CwTurn,
            _ => FanKind::CcwTurn,
        }
    }
}

/// The triangles of a fan over its vertices (vertex 0 is the fan's base), and
/// the vertices its stroke enters and leaves by on each side.
#[derive(Debug)]
pub struct FanTopology {
    pub verts_len: u32,
    pub indices: Vec<u32>,
    pub left_start_idx: u32,
    pub right_start_idx: u32,
    pub left_end_idx: u32,
    pub right_end_idx: u32,
}

/// The fan's indices and side vertices all name its own vertices.
pub open spec fn fan_wf(f: &FanTopology) -> bool {
    &&& forall|k: int| 0 <= k < f.indices@.len() ==> #[trigger] f.indices@[k] < f.verts_len
    &&& f.left_start_idx < f.verts_len
    &&& f.right_start_idx < f.verts_len
    &&& f.left_end_idx < f.verts_len
    &&& f.right_end_idx < f.verts_len
}

/// The triangles of a fan of `verts_len` vertices: `(0, i + 1, i + 2)` for
/// each `i` below `verts_len - 2`; the side vertices depend on the fan's kind.
pub fn fan_topology(kind: FanKind, verts_len: u32) -> (r: FanTopology)
    requires
        verts_len >= 2,
    ensures
        r.verts_len == verts_len,
        r.indices@.len() == 3 * (verts_len - 2),
        forall|i: int|
            0 <= i < verts_len - 2 ==> #[trigger] r.indices@[3 * i] == 0 && r.indices@[3 * i + 1]
                == i + 1 && r.indices@[3 * i + 2] == i + 2,
        kind == FanKind::Start ==> r.left_start_idx == 0 && r.right_start_idx == 0
            && r.left_end_idx == 0 && r.right_end_idx == verts_len - 1,
        kind == FanKind::CcwTurn ==> r.left_start_idx == 0 && r.right_start_idx == 1
            && r.left_end_idx == 0 && r.right_end_idx == verts_len - 1,
        kind == FanKind::CwTurn ==> r.left_start_idx == verts_len - 1 && r.right_start_idx == 0
            && r.left_end_idx == 1 && r.right_end_idx == 0,
        kind == FanKind::End ==> r.left_start_idx == verts_len - 1 && r.right_start_idx == 0
            && r.left_end_idx == 0 && r.right_end_idx == 0,
        fan_wf(&r),
{
    let mut indices: Vec<u32> = Vec::new();
    let mut i: u32 = 0;
    while i < verts_len - 2
        invariant
            verts_len >= 2,
            i <= verts_len - 2,
            indices@.len() == 3 * i,
            forall|j: int|
                0 <= j < i ==> #[trigger] indices@[3 * j] == 0 && indices@[3 * j + 1] == j + 1
                    && indices@[3 * j + 2] == j + 2,
            forall|k: int| 0 <= k < indices@.len() ==> #[trigger] indices@[k] < verts_len,
        decreases verts_len - 2 - i,
    {
        let ghost before = indices@;
        indices.push(0);
        indices.push(i + 1);
        indices.push(i + 2);
        proof {
            assert forall|j: int| 0 <= j < i + 1 implies #[trigger] indices@[3 * j] == 0
                && indices@[3 * j + 1] == j + 1 && indices@[3 * j + 2] == j + 2 by {
                if j < i {
                    assert(indices@[3 * j] == before[3 * j]);
                    assert(indices@[3 * j + 1] == before[3 * j + 1]);
                    assert(indices@[3 * j + 2] == before[3 * j + 2]);
                }
            }
        }
        i = i + 1;
    }
    let last = verts_len - 1;
    assert(forall|j: int|
        0 <= j < verts_len - 2 ==> #[trigger] indices@[3 * j] == 0 && indices@[3 * j + 1] == j + 1
            && indices@[3 * j + 2] == j + 2);
    match kind {
        FanKind::Start => FanTopology {
            verts_len,
            indices,
            left_start_idx: 0,
            right_start_idx: 0,
            left_end_idx: 0,
            right_end_idx: last,
        },
        FanKind::CcwTurn => FanTopology {
            verts_len,
            indices,
            left_start_idx: 0,
            right_start_idx: 1,
            left_end_idx: 0,
            right_end_idx: last,
        },
        FanKind::CwTurn => FanTopology {
            verts_len,
            indices,
            left_start_idx: last,
            right_start_idx: 0,
            left_end_idx: 1,
            right_end_idx: 0,
        },
        FanKind::End => FanTopology {
            verts_len,
            indices,
            left_start_idx: last,
            right_start_idx: 0,
            left_end_idx: 0,
            right_end_idx: 0,
        },
    }
}

/// A fan that sweeps no angle: its base and one rim vertex, no triangles.
pub fn flat_fan_topology() -> (r: FanTopology)
    ensures
        r.verts_len == 2,
        r.indices@.len() == 0,
        r.left_start_idx == 0 && r.right_start_idx == 1 && r.left_end_idx == 0
            && r.right_end_idx == 1,
        fan_wf(&r),
{
    FanTopology {
        verts_len: 2,
        indices: Vec::new(),
        left_start_idx: 0,
        right_start_idx: 1,
        left_end_idx: 0,
        right_end_idx: 1,
    }
}

/// Number of vertices of the first `n` fans.
pub open spec fn verts_before(fans: Seq<FanTopology>, n: int) -> int
    decreases n,
{
    if n <= 0 {
        0
    } else {
        verts_before(fans, n - 1) + fans[n - 1].verts_len
    }
}

/// The two triangles that join fan `i - 1`, whose vertices start at `prev`,
/// to fan `i`, whose vertices start at `cur`.
pub open spec fn bridge(fans: Seq<FanTopology>, i: int) -> Seq<int> {
    let prev = verts_before(fans, i - 1);
    let cur = verts_before(fans, i);
    let p = fans[i - 1];
    let f = fans[i];
    seq![
        prev + p.left_end_idx,
        prev + p.right_end_idx,
        cur + f.left_start_idx,
        cur + f.left_start_idx,
        prev + p.right_end_idx,
        cur + f.right_start_idx,
    ]
}

/// The indices of a fan, moved past the vertices of the fans before it.
pub open spec fn shifted(indices: Seq<u32>, offset: int) -> Seq<int> {
    indices.map_values(|x: u32| x + offset)
}

/// The index buffer of the first `n` fans of a stroke laid end to end: each
/// fan's triangles, and two triangles joining it to the fan before.
pub open spec fn stitched(fans: Seq<FanTopology>, n: int) -> Seq<int>
    decreases n,
{
    if n <= 0 {
        seq![]
    } else if n == 1 {
        shifted(fans[0].indices@, 0)
    } else {
        stitched(fans, n - 1) + bridge(fans, n - 1) + shifted(
            fans[n - 1].indices@,
            verts_before(fans, n - 1),
        )
    }
}

/// The numbers as integers.
pub open spec fn as_ints(s: Seq<u32>) -> Seq<int> {
    s.map_values(|x: u32| x as int)
}

proof fn lemma_as_ints_push(s: Seq<u32>, x: u32)
    ensures
        as_ints(s.push(x)) == as_ints(s).push(x as int),
{
    assert(as_ints(s.push(x)) =~= as_ints(s).push(x as int));
}

proof fn lemma_shifted_push(s: Seq<u32>, x: u32, offset: int)
    ensures
        shifted(s.push(x), offset) == shifted(s, offset).push(x + offset),
{
    assert(shifted(s.push(x), offset) =~= shifted(s, offset).push(x + offset));
}

proof fn lemma_verts_before_mono(fans: Seq<FanTopology>, a: int, b: int)
    requires
        0 <= a <= b,
    ensures
        verts_before(fans, a) <= verts_before(fans, b),
    decreases b - a,
{
    if a < b {
        lemma_verts_before_mono(fans, a, b - 1);
    }
}

/// Number of indices of the first `n` fans' own triangles.
pub open spec fn fan_indices_before(fans: Seq<FanTopology>, n: int) -> int
    decreases n,
{
    if n <= 0 {
        0
    } else {
        fan_indices_before(fans, n - 1) + fans[n - 1].indices@.len()
    }
}

proof fn lemma_stitched_len(fans: Seq<FanTopology>, n: int)
    requires
        1 <= n <= fans.len(),
    ensures
        stitched(fans, n).len() == fan_indices_before(fans, n) + 6 * (n - 1),
    decreases n,
{
    assert(fan_indices_before(fans, n) == fan_indices_before(fans, n - 1)
        + fans[n - 1].indices@.len());
    if n > 1 {
        lemma_stitched_len(fans, n - 1);
        assert(bridge(fans, n - 1).len() == 6);
        assert(shifted(fans[n - 1].indices@, verts_before(fans, n - 1)).len()
            == fans[n - 1].indices@.len());
    } else {
        assert(fan_indices_before(fans, 0) == 0);
        assert(shifted(fans[0].indices@, 0).len() == fans[0].indices@.len());
    }
}

proof fn lemma_stitched_prefix(fans: Seq<FanTopology>, m: int, n: int)
    requires
        1 <= m <= n <= fans.len(),
    ensures
        stitched(fans, m).len() <= stitched(fans, n).len(),
        stitched(fans, n).subrange(0, stitched(fans, m).len() as int) == stitched(fans, m),
    decreases n - m,
{
    if m < n {
        lemma_stitched_prefix(fans, m, n - 1);
        let a = stitched(fans, m);
        let b = stitched(fans, n - 1);
        let c = stitched(fans, n);
        assert(c.subrange(0, b.len() as int) =~= b);
        assert(c.subrange(0, a.len() as int) =~= b.subrange(0, a.len() as int));
    } else {
        assert(stitched(fans, n).subrange(0, stitched(fans, n).len() as int) =~= stitched(
            fans,
            n,
        ));
    }
}

/// The stitched index buffer of `n` fans starts with the first fan's own
/// triangles, as they are, and has six joining indices per later fan besides
/// every fan's own.
pub proof fn lemma_stitched_first_fan(fans: Seq<FanTopology>, n: int, k: int)
    requires
        1 <= n <= fans.len(),
        0 <= k < fans[0].indices@.len(),
    ensures
        stitched(fans, n).len() == fan_indices_before(fans, n) + 6 * (n - 1),
        stitched(fans, n)[k] == fans[0].indices@[k],
{
    lemma_stitched_len(fans, n);
    lemma_stitched_prefix(fans, 1, n);
    assert(stitched(fans, n)[k] == stitched(fans, n).subrange(0, stitched(fans, 1).len() as int)[k]);
}

/// Fan `i` of a stitched stroke is joined to fan `i - 1` by two triangles made
/// of the previous fan's end vertices and this fan's start vertices:
/// `(prev + left end, prev + right end, cur + left start)` and
/// `(cur + left start, prev + right end, cur + right start)`, where `prev`
/// and `cur` are the numbers of vertices before each fan; its own triangles
/// follow, moved past the vertices before it.
pub proof fn lemma_stitched_joins_fans(fans: Seq<FanTopology>, n: int, i: int)
    requires
        1 <= i < n <= fans.len(),
    ensures
        ({
            let r = stitched(fans, n);
            let o = fan_indices_before(fans, i) + 6 * (i - 1);
            let prev = verts_before(fans, i - 1);
            let cur = verts_before(fans, i);
            &&& r[o] == prev + fans[i - 1].left_end_idx
            &&& r[o + 1] == prev + fans[i - 1].right_end_idx
            &&& r[o + 2] == cur + fans[i].left_start_idx
            &&& r[o + 3] == cur + fans[i].left_start_idx
            &&& r[o + 4] == prev + fans[i - 1].right_end_idx
            &&& r[o + 5] == cur + fans[i].right_start_idx
            &&& forall|k: int|
                0 <= k < fans[i].indices@.len() ==> r[o + 6 + k] == cur + #[trigger] fans[i].indices@[k]
        }),
{
    lemma_stitched_len(fans, i);
    lemma_stitched_prefix(fans, i + 1, n);
    let r = stitched(fans, n);
    let s1 = stitched(fans, i + 1);
    let o = stitched(fans, i).len() as int;
    let cur = verts_before(fans, i);
    assert(s1 == stitched(fans, i) + bridge(fans, i) + shifted(fans[i].indices@, cur));
    assert forall|j: int| 0 <= j < s1.len() implies r[j] == #[trigger] s1[j] by {
        assert(r.subrange(0, s1.len() as int)[j] == r[j]);
    }
    assert(s1[o] == bridge(fans, i)[0]);
    assert(s1[o + 1] == bridge(fans, i)[1]);
    assert(s1[o + 2] == bridge(fans, i)[2]);
    assert(s1[o + 3] == bridge(fans, i)[3]);
    assert(s1[o + 4] == bridge(fans, i)[4]);
    assert(s1[o + 5] == bridge(fans, i)[5]);
    assert forall|k: int| 0 <= k < fans[i].indices@.len() implies r[o + 6 + k] == cur
        + #[trigger] fans[i].indices@[k] by {
        assert(s1[o + 6 + k] == shifted(fans[i].indices@, cur)[k]);
    }
}

/// Joins the fans of a stroke into one index buffer over all their vertices,
/// laid end to end in order.
pub fn stitch_fans(fans: &Vec<FanTopology>) -> (r: Vec<u32>)
    requires
        fans@.len() >= 1,
        forall|i: int| 0 <= i < fans@.len() ==> fan_wf(#[trigger] &fans@[i]),
        verts_before(fans@, fans@.len() as int) <= u32::MAX,
    ensures
        as_ints(r@) == stitched(fans@, fans@.len() as int),
        forall|k: int| 0 <= k < r@.len() ==> (#[trigger] r@[k]) < verts_before(fans@, fans@.len() as int),
        r@.len() == fan_indices_before(fans@, fans@.len() as int) + 6 * (fans@.len() - 1),
{
    proof {
        lemma_stitched_len(fans@, fans@.len() as int);
    }
    let ghost total = verts_before(fans@, fans@.len() as int);
    let mut indices: Vec<u32> = Vec::new();
    let first = &fans[0];
    let mut j: usize = 0;
    while j < first.indices.len()
        invariant
            j <= first.indices@.len(),
            fans@.len() >= 1,
            first == &fans@[0],
            fan_wf(first),
            as_ints(indices@) == shifted(first.indices@.subrange(0, j as int), 0),
            forall|k: int| 0 <= k < indices@.len() ==> (#[trigger] indices@[k]) < first.verts_len,
        decreases first.indices@.len() - j,
    {
        let ghost before = indices@;
        indices.push(first.indices[j]);
        proof {
            lemma_as_ints_push(before, first.indices@[j as int]);
            assert(first.indices@.subrange(0, j + 1) =~= first.indices@.subrange(0, j as int).push(
                first.indices@[j as int],
            ));
            lemma_shifted_push(first.indices@.subrange(0, j as int), first.indices@[j as int], 0);
        }
        j = j + 1;
    }
    assert(first.indices@.subrange(0, first.indices@.len() as int) =~= first.indices@);
    assert(verts_before(fans@, 0) == 0);
    assert(verts_before(fans@, 1) == first.verts_len);
    let mut verts_len: u32 = first.verts_len;
    let mut i: usize = 1;
    while i < fans.len()
        invariant
            1 <= i <= fans@.len(),
            forall|i: int| 0 <= i < fans@.len() ==> fan_wf(#[trigger] &fans@[i]),
            total == verts_before(fans@, fans@.len() as int),
            total <= u32::MAX,
            verts_len == verts_before(fans@, i as int),
            as_ints(indices@) == stitched(fans@, i as int),
            forall|k: int| 0 <= k < indices@.len() ==> (#[trigger] indices@[k]) < verts_len,
        decreases fans@.len() - i,
    {
        proof {
            lemma_verts_before_mono(fans@, i + 1, fans@.len() as int);
            lemma_verts_before_mono(fans@, i - 1, i as int);
            lemma_verts_before_mono(fans@, 0, i - 1);
        }
        let prev = &fans[i - 1];
        let fan = &fans[i];
        assert(verts_before(fans@, i as int) == verts_before(fans@, i - 1) + prev.verts_len);
        assert(verts_before(fans@, i + 1) == verts_before(fans@, i as int) + fan.verts_len);
        assert(fan_wf(prev));
        assert(fan_wf(fan));
        let prev_start: u32 = verts_len - prev.verts_len;
        let next_len: u32 = verts_len + fan.verts_len;
        let ghost before = as_ints(indices@);
        indices.push(prev_start + prev.left_end_idx);
        indices.push(prev_start + prev.right_end_idx);
        indices.push(verts_len + fan.left_start_idx);
        indices.push(verts_len + fan.left_start_idx);
        indices.push(prev_start + prev.right_end_idx);
        indices.push(verts_len + fan.right_start_idx);
        assert(as_ints(indices@) =~= before + bridge(fans@, i as int));
        let ghost bridged = as_ints(indices@);
        let mut j: usize = 0;
        while j < fan.indices.len()
            invariant
                j <= fan.indices@.len(),
                fan_wf(fan),
                next_len == verts_len + fan.verts_len,
                next_len <= u32::MAX,
                as_ints(indices@) == bridged + shifted(
                    fan.indices@.subrange(0, j as int),
                    verts_len as int,
                ),
                forall|k: int| 0 <= k < indices@.len() ==> (#[trigger] indices@[k]) < next_len,
            decreases fan.indices@.len() - j,
        {
            let ghost before_j = indices@;
            indices.push(verts_len + fan.indices[j]);
            proof {
                lemma_as_ints_push(before_j, (verts_len + fan.indices@[j as int]) as u32);
                assert(fan.indices@.subrange(0, j + 1) =~= fan.indices@.subrange(0, j as int).push(
                    fan.indices@[j as int],
                ));
                lemma_shifted_push(
                    fan.indices@.subrange(0, j as int),
                    fan.indices@[j as int],
                    verts_len as int,
                );
                assert(as_ints(indices@) =~= bridged + shifted(
                    fan.indices@.subrange(0, j + 1),
                    verts_len as int,
                ));
            }
            j = j + 1;
        }
        assert(fan.indices@.subrange(0, fan.indices@.len() as int) =~= fan.indices@);
        verts_len = next_len;
        i = i + 1;
    }
    indices
}

} // verus!
