use render::ids::{CurveId, IdSeries, PointId, SurfaceId};
use render::model::{curve_mesh_indices, curve_vertex_points, GeometryId, InstanceId, ModelId};

#[test]
fn shader_value_packs_id_and_kind() {
    assert_eq!(GeometryId::Surface(SurfaceId(5)).into_shader_value(), (5 << 2) | 1);
    assert_eq!(GeometryId::Curve(CurveId(5)).into_shader_value(), 22);
    assert_eq!(GeometryId::Point(PointId(1)).into_shader_value(), 7);
}

#[test]
fn shader_value_round_trip() {
    for g in [
        GeometryId::Surface(SurfaceId(1)),
        GeometryId::Curve(CurveId(77)),
        GeometryId::Point(PointId(0x3fff_ffff)),
    ] {
        assert_eq!(GeometryId::from_shader_value(g.into_shader_value()), Some(g));
    }
}

#[test]
fn shader_value_background_and_bad_tag() {
    assert_eq!(GeometryId::from_shader_value(0), None);
    assert_eq!(GeometryId::from_shader_value(3), None);
    assert_eq!(GeometryId::from_shader_value(8), None);
    assert_eq!(GeometryId::from_shader_value(9), Some(GeometryId::Surface(SurfaceId(2))));
}

#[test]
fn geometry_value_and_from() {
    assert_eq!(GeometryId::from(CurveId(9)).value(), 9);
    assert_eq!(GeometryId::from(PointId(4)), GeometryId::Point(PointId(4)));
    assert_eq!(u32::from(ModelId(3)), 3);
    assert_eq!(InstanceId::from(8u32), InstanceId(8));
}

#[test]
fn id_series_counts_from_one() {
    let mut s: IdSeries<SurfaceId> = IdSeries::new();
    assert_eq!(s.last_id(), 0);
    assert_eq!(s.next(), SurfaceId(1));
    assert_eq!(s.next(), SurfaceId(2));
    assert_eq!(s.last_id(), 2);
}

#[test]
fn curve_mesh_topology() {
    assert!(curve_mesh_indices(1).is_empty());
    assert_eq!(curve_mesh_indices(3), vec![2, 0, 1, 2, 1, 3, 6, 4, 5, 6, 5, 7]);
    assert_eq!(curve_vertex_points(3), vec![0, 0, 1, 1, 1, 1, 2, 2]);
    assert!(curve_vertex_points(1).is_empty());
}

#[test]
fn surface_ids_count_up() {
    let mut s: IdSeries<SurfaceId> = IdSeries::new();
    let a = s.next();
    let b = s.next();
    assert_eq!(a, SurfaceId(1));
    assert_eq!(b, SurfaceId(2));
    assert_ne!(a, b);
}
