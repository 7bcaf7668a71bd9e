use render::images::solid_color_image;
use render::material_spec::{MaterialChannel, MaterialSpec, RgbSpec, Vec3Spec};

fn small_ppm() -> Vec<u8> {
    let mut bytes = b"P6\n1 1\n255\n".to_vec();
    bytes.extend_from_slice(&[10, 20, 30]);
    bytes
}

#[test]
fn default_material_spec_channels() {
    let spec = MaterialSpec::default();
    assert!(matches!(spec.diffuse, RgbSpec::Rgb([128, 128, 128])));
    assert!(matches!(spec.transmit, RgbSpec::Rgb([0, 0, 0])));
    assert!(matches!(spec.normal, Vec3Spec::Vec3([128, 128, 255])));
    assert!(matches!(spec.emissive, RgbSpec::Rgb([0, 0, 0])));
    assert!(matches!(spec.roughness, RgbSpec::Rgb([51, 51, 51])));
    assert!(matches!(spec.metallic, RgbSpec::Rgb([0, 0, 0])));
    assert!(matches!(spec.ambient, RgbSpec::Rgb([255, 255, 255])));
}

#[test]
fn builder_replaces_one_channel() {
    let spec = MaterialSpec::default().emissive_rgb([1, 2, 3]).normal_vec([4, 5, 6]);
    assert!(matches!(spec.emissive, RgbSpec::Rgb([1, 2, 3])));
    assert!(matches!(spec.normal, Vec3Spec::Vec3([4, 5, 6])));
    assert!(matches!(spec.diffuse, RgbSpec::Rgb([128, 128, 128])));
    let spec = spec.ambient_from_image(solid_color_image([7, 8, 9, 0]));
    assert!(spec.ambient.image().same_as(&solid_color_image([7, 8, 9, 255])));
}

#[test]
fn channel_images() {
    let color = RgbSpec::Rgb([1, 2, 3]);
    assert_eq!(color.image().bytes, vec![1, 2, 3, 1, 2, 3, 1, 2, 3, 1, 2, 3]);
    let normal = Vec3Spec::default_normal();
    assert!(normal.image().same_as(&solid_color_image([128, 128, 255, 0])));
}

#[test]
fn channel_from_file_bytes() {
    let bytes = small_ppm();
    let spec = MaterialSpec::default().with_image_bytes(MaterialChannel::Normal, &bytes).unwrap();
    match spec.normal {
        Vec3Spec::NormalMap(d) => assert_eq!(d.bytes, vec![10, 20, 30]),
        Vec3Spec::Vec3(_) => panic!("the normal channel holds the decoded map"),
    }
    assert!(matches!(spec.diffuse, RgbSpec::Rgb([128, 128, 128])));
    let spec = MaterialSpec::default().diffuse_from_bytes(&bytes);
    assert!(matches!(spec.diffuse, RgbSpec::Texture(ref d) if d.width == 1 && d.height == 1));
    let unchanged = MaterialSpec::default().with_image_bytes(MaterialChannel::Diffuse, b"junk").unwrap_err();
    assert!(matches!(unchanged.diffuse, RgbSpec::Rgb([128, 128, 128])));
}
