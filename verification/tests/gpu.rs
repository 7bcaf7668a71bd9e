use render::gpu::{
    downsize, geometry_at, light_counts, light_offset, object_id_at, output_buffer_size,
    pad_u32, padded_bytes_per_row, pass_objects, renderer_resizes, target_accepts_size,
    view_resize_needed, MsaaSamples, MultisampleFlags, UpdateFlags,
};
use render::ids::CurveId;
use render::model::GeometryId;

#[test]
fn pads_to_next_multiple() {
    assert_eq!(pad_u32(0, 256), 256);
    assert_eq!(pad_u32(1, 256), 256);
    assert_eq!(pad_u32(256, 256), 512);
    assert_eq!(pad_u32(300, 256), 512);
    assert_eq!(padded_bytes_per_row(4, 100), 512);
    assert_eq!(output_buffer_size(512, 3), 1536);
}

#[test]
fn msaa_samples() {
    assert_eq!(MsaaSamples::Samples8.samples(), 8);
    assert!(!MsaaSamples::Samples1.is_multisampled());
    assert!(MsaaSamples::Samples2.is_multisampled());
    let flags = MultisampleFlags { x2: true, x4: true, x8: false, x16: false };
    assert_eq!(MsaaSamples::max_from_flags(flags), MsaaSamples::Samples4);
    let none = MultisampleFlags { x2: false, x4: false, x8: false, x16: false };
    assert_eq!(MsaaSamples::max_from_flags(none), MsaaSamples::Samples1);
    assert_eq!(MsaaSamples::fewest(MsaaSamples::Samples16, MsaaSamples::Samples4), MsaaSamples::Samples4);
    assert_eq!(MsaaSamples::fewest(MsaaSamples::Samples2, MsaaSamples::Samples4), MsaaSamples::Samples2);
    assert!(MsaaSamples::Samples2 < MsaaSamples::Samples16);
}

#[test]
fn light_counts_are_capped() {
    assert_eq!(light_counts(2, 3, 1), (5, 1));
    assert_eq!(light_counts(30, 3, 40), (32, 32));
    assert_eq!(light_offset(3, 32), 96);
}

#[test]
fn object_ids_read_back() {
    // 2 x 2 image, rows padded to 64 pixels.
    let mut pixels = vec![0u32; 128];
    pixels[1] = 9;
    pixels[64] = 22;
    assert_eq!(object_id_at(&pixels, (2, 2), 256, (1, 0)), 9);
    assert_eq!(object_id_at(&pixels, (2, 2), 256, (0, 1)), 22);
    assert_eq!(object_id_at(&pixels, (2, 2), 256, (2, 0)), 0);
    assert_eq!(object_id_at(&pixels, (2, 2), 256, (0, 5)), 0);
    assert_eq!(geometry_at(&pixels, (2, 2), 256, (0, 1)), Some(GeometryId::Curve(CurveId(5))));
    assert_eq!(geometry_at(&pixels, (2, 2), 256, (0, 0)), None);
}

#[test]
fn passes_split_objects() {
    let flags = vec![false, true, true, false];
    assert_eq!(pass_objects(&flags, false), vec![0, 3]);
    assert_eq!(pass_objects(&flags, true), vec![1, 2]);
    assert!(pass_objects(&vec![], true).is_empty());
}

#[test]
fn sizes() {
    assert_eq!(downsize((800, 5)), (80, 1));
    assert_eq!(downsize((19, 25)), (1, 2));
    assert!(!target_accepts_size((0, 10)));
    assert!(target_accepts_size((1, 10)));
    assert!(renderer_resizes((0, 10)));
    assert!(!renderer_resizes((0, 0)));
    assert!(view_resize_needed((1, 2), (1, 3)));
    assert!(!view_resize_needed((1, 2), (1, 2)));
}

#[test]
fn update_flags() {
    let mut f = UpdateFlags::new();
    assert!(f.needs_position_update && f.needs_object_update);
    f.position_rendered(false);
    assert!(f.needs_position_update);
    f.position_rendered(true);
    assert!(!f.needs_position_update);
    f.object_rendered(true);
    assert!(!f.needs_object_update);
    f.rendered();
    assert!(f.needs_position_update && f.needs_object_update);
}
