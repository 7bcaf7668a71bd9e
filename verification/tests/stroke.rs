use render::stroke::{fan_kind, fan_topology, flat_fan_topology, stitch_fans, FanKind, TurnDir};

#[test]
fn fan_kinds_along_polyline() {
    assert_eq!(fan_kind(0, 4, TurnDir::Cw), FanKind::Start);
    assert_eq!(fan_kind(3, 4, TurnDir::Cw), FanKind::End);
    assert_eq!(fan_kind(1, 4, TurnDir::Cw), FanKind::CwTurn);
    assert_eq!(fan_kind(2, 4, TurnDir::Aligned), FanKind::CcwTurn);
    assert_eq!(fan_kind(2, 4, TurnDir::Opposite), FanKind::CcwTurn);
}

#[test]
fn fan_triangles() {
    let f = fan_topology(FanKind::Start, 4);
    assert_eq!(f.indices, vec![0, 1, 2, 0, 2, 3]);
    assert_eq!((f.left_start_idx, f.right_start_idx, f.left_end_idx, f.right_end_idx), (0, 0, 0, 3));
    let f = fan_topology(FanKind::CwTurn, 3);
    assert_eq!((f.left_start_idx, f.right_start_idx, f.left_end_idx, f.right_end_idx), (2, 0, 1, 0));
    let f = fan_topology(FanKind::End, 2);
    assert!(f.indices.is_empty());
    let f = flat_fan_topology();
    assert_eq!((f.verts_len, f.left_start_idx, f.right_start_idx), (2, 0, 1));
}

#[test]
fn stitches_fans_end_to_end() {
    let fans = vec![fan_topology(FanKind::Start, 3), fan_topology(FanKind::End, 3)];
    let indices = stitch_fans(&fans);
    assert_eq!(
        indices,
        vec![0, 1, 2, 0, 2, 3, 3, 5, 3, 4, 5]
            .into_iter()
            .take(0)
            .chain(vec![0, 1, 2])
            .chain(vec![0, 2, 5, 5, 2, 3])
            .chain(vec![3, 4, 5])
            .collect::<Vec<u32>>()
    );
    assert!(indices.iter().all(|&i| i < 6));
}
