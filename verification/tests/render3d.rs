use render::camera::DragAction;
use render::render3d::{
    instance_grid_ids, object_material_id, triangle_counts, CameraController,
    CameraControllerRequest, ElementState, ImageTextureKind, InstanceId, KeyCode, MaterialId,
    MouseButton, Texture, TextureId, TextureImage, WindowEvent,
};
use render::images::solid_color_image;

#[test]
fn grid_ids() {
    let ids = instance_grid_ids(2);
    assert_eq!(
        ids,
        vec![0, 1, 4, 5, 2, 3, 6, 7].into_iter().map(InstanceId).collect::<Vec<_>>()
    );
    let ids = instance_grid_ids(3);
    let mut sorted: Vec<u32> = ids.iter().map(|i| i.0).collect();
    sorted.sort();
    assert_eq!(sorted, (0..27).collect::<Vec<u32>>());
    assert!(instance_grid_ids(0).is_empty());
}

#[test]
fn counts_triangle_corners() {
    let counts = triangle_counts(&vec![0, 1, 2, 2, 1, 3], 5);
    assert_eq!(counts, vec![1, 2, 2, 1, 0]);
    assert_eq!(triangle_counts(&vec![], 2), vec![0, 0]);
}

#[test]
fn material_of_loaded_mesh() {
    assert_eq!(object_material_id(3, 2), MaterialId(5));
}

#[test]
fn texture_from_image() {
    let t = Texture::from_image(TextureId(2), solid_color_image([1, 2, 3, 4]), "x", ImageTextureKind::NormalMap);
    assert_eq!(t.label, "x");
    assert!(matches!(t.image, TextureImage::NormalMap(_)));
    assert!(Texture::try_from_bytes(TextureId(1), b"nope", "n", ImageTextureKind::Diffuse).is_none());
}

#[test]
fn texture_from_small_image_file() {
    let mut bytes = b"P6\n1 1\n255\n".to_vec();
    bytes.extend_from_slice(&[7, 8, 9]);
    let t = Texture::try_from_bytes(TextureId(3), &bytes, "pixel", ImageTextureKind::Diffuse).unwrap();
    assert_eq!(t.label, "pixel");
    match t.image {
        TextureImage::Diffuse(d) => {
            assert_eq!((d.width, d.height), (1, 1));
            assert_eq!(d.bytes, vec![7, 8, 9]);
        }
        TextureImage::NormalMap(_) => panic!("a diffuse texture holds colors"),
    }
}

#[test]
fn keys_set_flags() {
    let mut c = CameraController::new();
    let down = WindowEvent::KeyboardInput { state: ElementState::Pressed, keycode: Some(KeyCode::Up) };
    let out = c.process_events(&down);
    assert!(out.result.processed);
    assert!(c.is_forward_pressed);
    let up = WindowEvent::KeyboardInput { state: ElementState::Released, keycode: Some(KeyCode::W) };
    c.process_events(&up);
    assert!(!c.is_forward_pressed);
    let other = WindowEvent::KeyboardInput { state: ElementState::Pressed, keycode: Some(KeyCode::Other) };
    assert!(!c.process_events(&other).result.processed);
    let none = WindowEvent::KeyboardInput { state: ElementState::Pressed, keycode: None };
    assert!(!c.process_events(&none).result.processed);
    c.process_events(&WindowEvent::KeyboardInput { state: ElementState::Pressed, keycode: Some(KeyCode::Left) });
    assert!(c.is_left_pressed);
}

#[test]
fn mouse_drags() {
    let mut c = CameraController::new();
    let out = c.process_events(&WindowEvent::MouseInput { state: ElementState::Pressed, button: MouseButton::Right });
    assert_eq!(out.result.requests, vec![CameraControllerRequest::RequestOrbitPoint]);
    assert_eq!(out.orbit, DragAction::Start);
    assert!(c.orbiting);
    c.process_events(&WindowEvent::MouseInput { state: ElementState::Pressed, button: MouseButton::Middle });
    assert!(c.panning && c.orbiting);
    let out = c.process_events(&WindowEvent::CursorMoved);
    assert_eq!((out.orbit, out.pan), (DragAction::Follow, DragAction::Follow));
    c.process_events(&WindowEvent::MouseInput { state: ElementState::Released, button: MouseButton::Right });
    assert!(!c.orbiting);
    assert!(!c.process_events(&WindowEvent::Other).result.processed);
    assert!(c.process_events(&WindowEvent::MouseWheel).result.processed);
}
