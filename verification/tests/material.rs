use render::images::{decode_known_image, solid_color_image, try_decode_image};
use render::material::{
    CurveMaterialSpec, ImageData, ImageTextureKind, Material, MaterialId, MaterialLibrary,
    PointMaterialSpec, SurfaceMaterialId, SurfaceMaterialSpec, Texture, TextureId, TextureImage,
};

fn color(r: u8, g: u8, b: u8) -> ImageData {
    solid_color_image([r, g, b, 255])
}

fn spec(diffuse: u8, translucent: bool) -> SurfaceMaterialSpec {
    SurfaceMaterialSpec {
        diffuse: color(diffuse, diffuse, diffuse),
        normal: color(128, 128, 255),
        emissive: color(0, 0, 0),
        roughness: color(51, 51, 51),
        metallic: color(0, 0, 0),
        ambient: color(255, 255, 255),
        transmit: color(0, 0, 0),
        is_translucent: translucent,
    }
}

#[test]
fn solid_image_is_two_by_two_rgb() {
    let img = solid_color_image([10, 20, 30, 40]);
    assert_eq!((img.bytes_per_pixel, img.channel_count, img.width, img.height), (3, 3, 2, 2));
    assert_eq!(img.bytes, vec![10, 20, 30, 10, 20, 30, 10, 20, 30, 10, 20, 30]);
    assert!(img.same_as(&solid_color_image([10, 20, 30, 99])));
    assert!(!img.same_as(&solid_color_image([10, 20, 31, 40])));
}

#[test]
fn decoding_garbage_fails() {
    assert!(try_decode_image(&[1, 2, 3, 4]).is_none());
    assert!(Texture::try_from_bytes(TextureId(1), &[0u8; 8], ImageTextureKind::Diffuse).is_none());
}

fn small_ppm() -> Vec<u8> {
    let mut bytes = b"P6\n2 1\n255\n".to_vec();
    bytes.extend_from_slice(&[1, 2, 3, 4, 5, 6]);
    bytes
}

#[test]
fn decodes_a_small_image() {
    let bytes = small_ppm();
    let img = try_decode_image(&bytes).unwrap();
    assert_eq!((img.bytes_per_pixel, img.channel_count, img.width, img.height), (3, 3, 2, 1));
    assert_eq!(img.bytes, vec![1, 2, 3, 4, 5, 6]);
    assert!(decode_known_image(&bytes).same_as(&img));

    let t = Texture::try_from_bytes(TextureId(4), &bytes, ImageTextureKind::NormalMap).unwrap();
    assert_eq!(t.id, TextureId(4));
    match t.image {
        TextureImage::Vector(d) => assert!(d.same_as(&img)),
        TextureImage::Rgb(_) => panic!("a normal map holds vectors"),
    }
    let t = Texture::from_bytes(TextureId(5), &bytes, ImageTextureKind::Diffuse);
    assert!(matches!(t.image, TextureImage::Rgb(ref d) if d.same_as(&img)));
}

#[test]
fn material_new_keeps_fields() {
    let m = Material::new(MaterialId(1), TextureId(2), TextureId(3), TextureId(4), TextureId(5), TextureId(6), TextureId(7));
    assert_eq!(m.ambient, TextureId(7));
    assert_eq!(m.id, MaterialId(1));
}

#[test]
fn textures_are_shared_between_materials() {
    let mut lib = MaterialLibrary::new();
    let a = lib.insert_surface_material(spec(100, false));
    // Six distinct images: diffuse, normal, black (emissive/metallic/transmit), roughness, ambient.
    assert_eq!(lib.textures().len(), 5);
    let b = lib.insert_surface_material(spec(200, false));
    assert_eq!(lib.textures().len(), 6);
    assert_eq!(a, SurfaceMaterialId(1));
    assert_eq!(b, SurfaceMaterialId(2));
    let again = lib.insert_surface_material(spec(100, false));
    assert_eq!(again, a);
    assert_eq!(lib.surface().len(), 2);
    assert_eq!(lib.textures().len(), 6);
    let translucent = lib.insert_surface_material(spec(100, true));
    assert_eq!(translucent, SurfaceMaterialId(3));
    let m = lib.surface_material(a).unwrap();
    assert_eq!(m.diffuse, TextureId(1));
    assert_eq!(m.normal, TextureId(2));
    assert_eq!(m.emissive, TextureId(3));
    assert_eq!(m.metallic, TextureId(3));
    assert!(lib.surface_material(SurfaceMaterialId(9)).is_none());
}

#[test]
fn normal_map_and_color_of_same_image_differ() {
    let mut lib = MaterialLibrary::new();
    let c = lib.insert_rgb_texture(color(1, 2, 3));
    let v = lib.insert_vector_map(color(1, 2, 3));
    assert_ne!(c, v);
    assert!(matches!(lib.texture(c).unwrap().image, TextureImage::Rgb(_)));
    assert!(matches!(lib.texture(v).unwrap().image, TextureImage::Vector(_)));
    assert_eq!(lib.insert_rgb_texture(color(1, 2, 3)), c);
}

#[test]
fn curve_and_point_materials_dedup() {
    let mut lib = MaterialLibrary::new();
    let c1 = lib.insert_curve_material(CurveMaterialSpec { color: color(9, 9, 9) });
    let c2 = lib.insert_curve_material(CurveMaterialSpec { color: color(9, 9, 9) });
    let c3 = lib.insert_curve_material(CurveMaterialSpec { color: color(8, 9, 9) });
    assert_eq!(c1, c2);
    assert_ne!(c1, c3);
    let p1 = lib.insert_point_material(PointMaterialSpec { color: color(9, 9, 9) });
    assert_eq!(p1.0, 1);
    assert_eq!(lib.textures().len(), 2);
    assert_eq!(lib.curve().len(), 2);
    assert_eq!(lib.point().len(), 1);
}
