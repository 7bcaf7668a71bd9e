use vstd::prelude::*;
use vstd::arithmetic::div_mod::lemma_fundamental_div_mod_converse;
use crate::camera::DragAction;
use crate::material::ImageData;
use crate::images::{decode_known_image, decoded_image, try_decode_image};

verus! {

/// Identifier of a material of a scene.
#[derive(Debug, Clone, Copy, PartialEq, Eq, Hash, Structural)]
pub struct MaterialId(pub u32);

impl From<u32> for MaterialId {
    fn from(id: u32) -> (r: Self) {
        MaterialId(id)
    }
}

impl vstd::std_specs::convert::FromSpecImpl<u32> for MaterialId {
    open spec fn obeys_from_spec() -> bool {
        true
    }

    open spec fn from_spec(v: u32) -> Self {
        MaterialId(v)
    }
}

/// Identifier of an instance of a mesh.
#[derive(Debug, Clone, Copy, PartialEq, Eq, Structural)]
pub struct InstanceId(pub u32);

impl From<u32> for InstanceId {
    fn from(id: u32) -> (r: Self) {
        InstanceId(id)
    }
}

impl vstd::std_specs::convert::FromSpecImpl<u32> for InstanceId {
    open spec fn obeys_from_spec() -> bool {
        true
    }

    open spec fn from_spec(v: u32) -> Self {
        InstanceId(v)
    }
}

/// Identifier of a texture.
#[derive(Debug, Clone, Copy, PartialEq, Eq, Hash, Structural)]
pub struct TextureId(pub u32);

impl From<u32> for TextureId {
    fn from(id: u32) -> (r: Self) {
        TextureId(id)
    }
}

impl vstd::std_specs::convert::FromSpecImpl<u32> for TextureId {
    open spec fn obeys_from_spec() -> bool {
        true
    }

    open spec fn from_spec(v: u32) -> Self {
        TextureId(v)
    }
}

/// How an image is used as a texture.
#[derive(Debug, Clone, Copy, PartialEq, Eq, Structural)]
pub enum ImageTextureKind {
    Diffuse,
    NormalMap,
}

/// The image of a texture, by its use.
#[derive(Debug)]
pub enum TextureImage {
    Diffuse(ImageData),
    NormalMap(ImageData),
}

/// A texture: its identifier, its image and a label.
#[derive(Debug)]
pub struct Texture {
    pub id: TextureId,
    pub image: TextureImage,
    pub label: String,
}

impl Texture {
    /// A texture holding the image for the given use.
    pub fn from_image(id: TextureId, image: ImageData, label: &str, kind: ImageTextureKind) -> (r: Self)
        ensures
            r.id == id,
            r.label@ == label@,
            kind == ImageTextureKind::Diffuse ==> (r.image matches TextureImage::Diffuse(d) && d@
                == image@),
            kind == ImageTextureKind::NormalMap ==> (r.image matches TextureImage::NormalMap(d)
                && d@ == image@),
    {
        Texture {
            id,
            image: match kind {
                ImageTextureKind::Diffuse => TextureImage::Diffuse(image),
                ImageTextureKind::NormalMap => TextureImage::NormalMap(image),
            },
            label: label.to_owned(),
        }
    }
}

impl Texture {
    /// A texture holding, for the given use, the image a file in memory
    /// decodes to; the file must be one the `image` crate decodes.
    pub fn from_bytes(id: TextureId, bytes: &[u8], label: &str, kind: ImageTextureKind) -> (r: Self)
        requires
            decoded_image(bytes@) is Some,
        ensures
            r.id == id,
            r.label@ == label@,
            kind == ImageTextureKind::Diffuse ==> (r.image matches TextureImage::Diffuse(d) && Some(
                d@,
            ) == decoded_image(bytes@)),
            kind == ImageTextureKind::NormalMap ==> (r.image matches TextureImage::NormalMap(d)
                && Some(d@) == decoded_image(bytes@)),
    {
        let image = decode_known_image(bytes);
        Self::from_image(id, image, label, kind)
    }

    /// As `from_bytes`; none when the `image` crate cannot decode the file.
    pub fn try_from_bytes(id: TextureId, bytes: &[u8], label: &str, kind: ImageTextureKind) -> (r:
        Option<Self>)
        ensures
            r is Some <==> decoded_image(bytes@) is Some,
            r matches Some(t) ==> t.id == id && t.label@ == label@,
            r matches Some(t) ==> (kind == ImageTextureKind::Diffuse ==> (
            t.image matches TextureImage::Diffuse(d) && Some(d@) == decoded_image(bytes@))),
            r matches Some(t) ==> (kind == ImageTextureKind::NormalMap ==> (
            t.image matches TextureImage::NormalMap(d) && Some(d@) == decoded_image(bytes@))),
    {
        match try_decode_image(bytes) {
            Some(_) => Some(Self::from_bytes(id, bytes, label, kind)),
            None => None,
        }
    }
}

/// Identifier of the instance at grid cell `(x, y, z)` of an `n` by `n` by `n` grid.
pub open spec fn grid_id(n: int, x: int, y: int, z: int) -> int {
    y * (n * n) + z * n + x
}

/// Identifier of the instance at position `p` of the grid's list, where the
/// list runs through the cells with `z` varying slowest and `x` fastest.
pub open spec fn grid_id_at(n: int, p: int) -> int {
    grid_id(n, p % n, (p / n) % n, (p / n) / n)
}

/// The instance identifiers of an `n` by `n` by `n` grid of instances, with
/// `z` varying slowest and `x` fastest: the cell `(x, y, z)` gets
/// `y * n² + z * n + x`.
pub fn instance_grid_ids(n: u32) -> (r: Vec<InstanceId>)
    requires
        n * n * n <= u32::MAX,
    ensures
        r@.len() == n * n * n,
        forall|p: int| 0 <= p < r@.len() ==> #[trigger] r@[p] == InstanceId(grid_id_at(n as int, p) as u32),
{
    let mut r: Vec<InstanceId> = Vec::new();
    let ghost nn = n as int;
    let mut z: u32 = 0;
    while z < n
        invariant
            z <= n,
            nn == n,
            n * n * n <= u32::MAX,
            r@.len() == z * (n * n),
            forall|p: int| 0 <= p < r@.len() ==> #[trigger] r@[p] == InstanceId(grid_id_at(nn, p) as u32),
        decreases n - z,
    {
        let mut y: u32 = 0;
        while y < n
            invariant
                z < n,
                y <= n,
                nn == n,
                n * n * n <= u32::MAX,
                r@.len() == z * (n * n) + y * n,
                forall|p: int| 0 <= p < r@.len() ==> #[trigger] r@[p] == InstanceId(grid_id_at(nn, p) as u32),
            decreases n - y,
        {
            let mut x: u32 = 0;
            while x < n
                invariant
                    z < n,
                    y < n,
                    x <= n,
                    nn == n,
                    n * n * n <= u32::MAX,
                    r@.len() == z * (n * n) + y * n + x,
                    forall|p: int| 0 <= p < r@.len() ==> #[trigger] r@[p] == InstanceId(grid_id_at(nn, p) as u32),
                decreases n - x,
            {
                proof {
                    lemma_grid_cell_bounds(nn, x as int, y as int, z as int);
                    lemma_grid_digits(nn, x as int, z as int, y as int);
                }
                let id = y * (n * n) + z * n + x;
                r.push(InstanceId(id));
                x = x + 1;
            }
            proof {
                assert(z * (n * n) + y * n + n == z * (n * n) + (y + 1) * n) by (nonlinear_arith);
            }
            y = y + 1;
        }
        proof {
            assert(z * (n * n) + n * n == (z + 1) * (n * n)) by (nonlinear_arith);
        }
        z = z + 1;
    }
    assert(n * (n * n) == n * n * n) by (nonlinear_arith);
    r
}

proof fn lemma_grid_cell_bounds(n: int, x: int, y: int, z: int)
    requires
        0 <= x < n,
        0 <= y < n,
        0 <= z < n,
        n * n * n <= u32::MAX,
    ensures
        0 <= grid_id(n, x, y, z) < n * n * n,
        0 <= grid_id(n, x, z, y) < n * n * n,
        n * n <= u32::MAX,
        y * (n * n) <= u32::MAX,
        z * n <= u32::MAX,
        y * (n * n) + z * n <= u32::MAX,
{
    assert(0 <= y * (n * n) + z * n + x < n * n * n) by (nonlinear_arith)
        requires
            0 <= x < n,
            0 <= y < n,
            0 <= z < n,
    ;
    assert(0 <= z * (n * n) + y * n + x < n * n * n) by (nonlinear_arith)
        requires
            0 <= x < n,
            0 <= y < n,
            0 <= z < n,
    ;
    assert(n * n <= n * n * n) by (nonlinear_arith)
        requires
            n >= 1,
    ;
    assert(z * n <= y * (n * n) + z * n) by (nonlinear_arith)
        requires
            y >= 0,
            n >= 0,
    ;
    assert(y * (n * n) <= y * (n * n) + z * n) by (nonlinear_arith)
        requires
            z >= 0,
            n >= 0,
    ;
}

/// A grid identifier names its cell: the digits of the identifier in base `n`.
proof fn lemma_grid_digits(n: int, x: int, y: int, z: int)
    requires
        0 <= x < n,
        0 <= y < n,
        0 <= z < n,
    ensures
        grid_id(n, x, y, z) % n == x,
        (grid_id(n, x, y, z) / n) % n == z,
        (grid_id(n, x, y, z) / n) / n == y,
{
    let id = grid_id(n, x, y, z);
    assert(y * (n * n) + z * n + x == (y * n + z) * n + x) by (nonlinear_arith);
    lemma_fundamental_div_mod_converse(id, n, y * n + z, x);
    lemma_fundamental_div_mod_converse(y * n + z, n, y, z);
}

/// Different cells of a grid get different identifiers, all below `n³`.
pub proof fn lemma_grid_ids_distinct(n: int, x1: int, y1: int, z1: int, x2: int, y2: int, z2: int)
    requires
        0 <= x1 < n,
        0 <= y1 < n,
        0 <= z1 < n,
        0 <= x2 < n,
        0 <= y2 < n,
        0 <= z2 < n,
        (x1, y1, z1) != (x2, y2, z2),
    ensures
        grid_id(n, x1, y1, z1) != grid_id(n, x2, y2, z2),
        0 <= grid_id(n, x1, y1, z1) < n * n * n,
{
    lemma_grid_digits(n, x1, y1, z1);
    lemma_grid_digits(n, x2, y2, z2);
    assert(0 <= y1 * (n * n) + z1 * n + x1 < n * n * n) by (nonlinear_arith)
        requires
            0 <= x1 < n,
            0 <= y1 < n,
            0 <= z1 < n,
    ;
}

/// The digits of a position of the grid's list are cells of the grid, and
/// put the position back together.
proof fn lemma_position_digits(n: int, p: int)
    requires
        n > 0,
        0 <= p < n * n * n,
    ensures
        0 <= p % n < n,
        0 <= (p / n) % n < n,
        0 <= (p / n) / n < n,
        p == ((p / n) / n) * (n * n) + ((p / n) % n) * n + p % n,
{
    let q = p / n;
    let x = p % n;
    assert(p == n * q + x) by {
        vstd::arithmetic::div_mod::lemma_fundamental_div_mod(p, n);
    }
    let z = q / n;
    let y = q % n;
    assert(q == n * z + y) by {
        vstd::arithmetic::div_mod::lemma_fundamental_div_mod(q, n);
    }
    assert(0 <= x < n) by {
        vstd::arithmetic::div_mod::lemma_mod_bound(p, n);
    }
    assert(0 <= y < n) by {
        vstd::arithmetic::div_mod::lemma_mod_bound(q, n);
    }
    assert(0 <= q) by (nonlinear_arith)
        requires
            p == n * q + x,
            0 <= p,
            0 <= x < n,
            n > 0,
    ;
    assert(0 <= z) by (nonlinear_arith)
        requires
            q == n * z + y,
            0 <= q,
            0 <= y < n,
            n > 0,
    ;
    assert(z < n) by (nonlinear_arith)
        requires
            p == n * q + x,
            q == n * z + y,
            0 <= x,
            0 <= y,
            p < n * n * n,
            n > 0,
    ;
    assert(p == z * (n * n) + y * n + x) by (nonlinear_arith)
        requires
            p == n * q + x,
            q == n * z + y,
    ;
}

/// No two positions of the grid's list get the same identifier, and every
/// identifier is below `n³`.
pub proof fn lemma_grid_list_distinct(n: int, p: int, q: int)
    requires
        n > 0,
        0 <= p < n * n * n,
        0 <= q < n * n * n,
        p != q,
    ensures
        grid_id_at(n, p) != grid_id_at(n, q),
        0 <= grid_id_at(n, p) < n * n * n,
{
    lemma_position_digits(n, p);
    lemma_position_digits(n, q);
    let (xp, yp, zp) = (p % n, (p / n) % n, (p / n) / n);
    let (xq, yq, zq) = (q % n, (q / n) % n, (q / n) / n);
    if (xp, yp, zp) == (xq, yq, zq) {
        assert(p == q);
    }
    lemma_grid_ids_distinct(n, xp, yp, zp, xq, yq, zq);
}

/// How often `v` occurs in `s`.
pub open spec fn occurrences(s: Seq<u32>, v: int) -> nat
    decreases s.len(),
{
    if s.len() == 0 {
        0
    } else {
        occurrences(s.drop_last(), v) + if s.last() == v {
            1nat
        } else {
            0nat
        }
    }
}

/// For each vertex, the number of triangle corners at it: the count, among
/// the indices of a triangle list, of those that name the vertex.
pub fn triangle_counts(indices: &Vec<u32>, num_vertices: usize) -> (r: Vec<i32>)
    requires
        indices@.len() % 3 == 0,
        indices@.len() <= i32::MAX,
        forall|k: int| 0 <= k < indices@.len() ==> #[trigger] indices@[k] < num_vertices,
    ensures
        r@.len() == num_vertices,
        forall|v: int| 0 <= v < num_vertices ==> #[trigger] r@[v] == occurrences(indices@, v),
{
    let mut counts: Vec<i32> = Vec::new();
    let mut v: usize = 0;
    while v < num_vertices
        invariant
            v <= num_vertices,
            counts@.len() == v,
            forall|w: int| 0 <= w < v ==> #[trigger] counts@[w] == 0,
        decreases num_vertices - v,
    {
        counts.push(0);
        v = v + 1;
    }
    let mut k: usize = 0;
    while k < indices.len()
        invariant
            k <= indices@.len(),
            indices@.len() <= i32::MAX,
            forall|j: int| 0 <= j < indices@.len() ==> #[trigger] indices@[j] < num_vertices,
            counts@.len() == num_vertices,
            forall|w: int|
                0 <= w < num_vertices ==> #[trigger] counts@[w] == occurrences(
                    indices@.subrange(0, k as int),
                    w,
                ),
        decreases indices@.len() - k,
    {
        let idx = indices[k] as usize;
        proof {
            let prefix = indices@.subrange(0, k + 1);
            assert(prefix.drop_last() =~= indices@.subrange(0, k as int));
            lemma_occurrences_bound(indices@.subrange(0, k as int), idx as int);
        }
        let c = counts[idx];
        counts.set(idx, c + 1);
        k = k + 1;
    }
    assert(indices@.subrange(0, indices@.len() as int) =~= indices@);
    counts
}

proof fn lemma_occurrences_bound(s: Seq<u32>, v: int)
    ensures
        occurrences(s, v) <= s.len(),
    decreases s.len(),
{
    if s.len() > 0 {
        lemma_occurrences_bound(s.drop_last(), v);
    }
}

/// The material of a mesh loaded after `material_count` materials of the
/// scene, whose own material list gives it material `mesh_material`: the two
/// counts added, each taken as a `u32`.
pub fn object_material_id(material_count: usize, mesh_material: usize) -> (r: MaterialId)
    requires
        (material_count as u32) + (mesh_material as u32) <= u32::MAX,
    ensures
        r.0 == (material_count as u32) + (mesh_material as u32),
{
    MaterialId(material_count as u32 + mesh_material as u32)
}

/// Something the camera controls ask for after an event.
#[derive(Debug, Clone, Copy, PartialEq, Eq, Structural)]
pub enum CameraControllerRequest {
    RequestOrbitPoint,
}

/// What the controls made of an event: whether they used it, and what they ask for.
#[derive(Debug)]
pub struct EventResult {
    pub processed: bool,
    pub requests: Vec<CameraControllerRequest>,
}

impl EventResult {
    /// The event was used; the requests are handed on in order.
    pub fn processed<const N: usize>(requests: [CameraControllerRequest; N]) -> (r: Self)
        ensures
            r.processed,
            r.requests@ == requests@,
    {
        EventResult { processed: true, requests: requests_to_vec(&requests) }
    }

    /// The event was not used; the requests are handed on in order.
    pub fn unprocessed<const N: usize>(requests: [CameraControllerRequest; N]) -> (r: Self)
        ensures
            !r.processed,
            r.requests@ == requests@,
    {
        EventResult { processed: false, requests: requests_to_vec(&requests) }
    }
}

fn requests_to_vec<const N: usize>(requests: &[CameraControllerRequest; N]) -> (r: Vec<
    CameraControllerRequest,
>)
    ensures
        r@ == requests@,
{
    let mut v: Vec<CameraControllerRequest> = Vec::new();
    let mut i: usize = 0;
    while i < N
        invariant
            i <= N,
            requests@.len() == N,
            v@ == requests@.subrange(0, i as int),
        decreases N - i,
    {
        v.push(requests[i]);
        i = i + 1;
    }
    assert(requests@.subrange(0, N as int) =~= requests@);
    v
}

/// Keys the camera controls read.
#[derive(Debug, Clone, Copy, PartialEq, Eq, Structural)]
pub enum KeyCode {
    W,
    A,
    S,
    D,
    Up,
    Down,
    Left,
    Right,
    Other,
}

/// Whether a key or button went down or up.
#[derive(Debug, Clone, Copy, PartialEq, Eq, Structural)]
pub enum ElementState {
    Pressed,
    Released,
}

/// Mouse buttons, by position.
#[derive(Debug, Clone, Copy, PartialEq, Eq, Structural)]
pub enum MouseButton {
    Left,
    Right,
    Middle,
    Other,
}

/// A window event, as far as the camera controls tell events apart. Pointer
/// positions and wheel deltas are carried by the caller beside the event.
#[derive(Debug, Clone, Copy, PartialEq, Eq, Structural)]
pub enum WindowEvent {
    KeyboardInput { state: ElementState, keycode: Option<KeyCode> },
    CursorMoved,
    MouseInput { state: ElementState, button: MouseButton },
    MouseWheel,
    Other,
}

/// The result of feeding one event to the controls.
#[derive(Debug)]
pub struct ControllerOutput {
    pub result: EventResult,
    pub orbit: DragAction,
    pub pan: DragAction,
}

/// Keyboard and mouse camera controls: movement keys, the orbit drag (right
/// button) and the pan drag (middle button).
#[derive(Debug, Clone, Copy, PartialEq, Eq, Structural)]
pub struct CameraController {
    pub is_forward_pressed: bool,
    pub is_backward_pressed: bool,
    pub is_left_pressed: bool,
    pub is_right_pressed: bool,
    pub orbiting: bool,
    pub panning: bool,
}

impl CameraController {
    /// What the event does to the orbit drag.
    pub open spec fn orbit_action(event: WindowEvent) -> DragAction {
        match event {
            WindowEvent::CursorMoved => DragAction::Follow,
            WindowEvent::MouseInput { state, button } => if button == MouseButton::Right {
                if state == ElementState::Pressed {
                    DragAction::Start
                } else {
                    DragAction::Stop
                }
            } else {
                DragAction::Keep
            },
            _ => DragAction::Keep,
        }
    }

    /// What the event does to the pan drag.
    pub open spec fn pan_action(event: WindowEvent) -> DragAction {
        match event {
            WindowEvent::CursorMoved => DragAction::Follow,
            WindowEvent::MouseInput { state, button } => if button == MouseButton::Middle {
                if state == ElementState::Pressed {
                    DragAction::Start
                } else {
                    DragAction::Stop
                }
            } else {
                DragAction::Keep
            },
            _ => DragAction::Keep,
        }
    }

    /// The controls after the event.
    pub open spec fn after(self, event: WindowEvent) -> CameraController {
        let orbiting = crate::camera::drag_after(self.orbiting, Self::orbit_action(event));
        let panning = crate::camera::drag_after(self.panning, Self::pan_action(event));
        let moved = CameraController { orbiting, panning, ..self };
        match event {
            WindowEvent::KeyboardInput { state, keycode } => {
                let pressed = state == ElementState::Pressed;
                match keycode {
                    Some(KeyCode::W) | Some(KeyCode::Up) => CameraController {
                        is_forward_pressed: pressed,
                        ..moved
                    },
                    Some(KeyCode::A) | Some(KeyCode::Left) => CameraController {
                        is_left_pressed: pressed,
                        ..moved
                    },
                    Some(KeyCode::S) | Some(KeyCode::Down) => CameraController {
                        is_backward_pressed: pressed,
                        ..moved
                    },
                    Some(KeyCode::D) | Some(KeyCode::Right) => CameraController {
                        is_right_pressed: pressed,
                        ..moved
                    },
                    _ => moved,
                }
            },
            _ => moved,
        }
    }

    /// Whether the controls use the event: movement keys, pointer motion,
    /// mouse buttons and the wheel.
    pub open spec fn processes(event: WindowEvent) -> bool {
        match event {
            WindowEvent::KeyboardInput { keycode, .. } => match keycode {
                Some(k) => k != KeyCode::Other,
                None => false,
            },
            WindowEvent::Other => false,
            _ => true,
        }
    }

    /// Controls at rest.
    pub fn new() -> (r: Self)
        ensures
            !r.is_forward_pressed && !r.is_backward_pressed && !r.is_left_pressed
                && !r.is_right_pressed && !r.orbiting && !r.panning,
    {
        CameraController {
            is_forward_pressed: false,
            is_backward_pressed: false,
            is_left_pressed: false,
            is_right_pressed: false,
            orbiting: false,
            panning: false,
        }
    }

    /// Feeds one event to the controls. A movement key sets its flag to
    /// whether it is down; the right button starts and ends the orbit drag,
    /// asking for an orbit point when it goes down; the middle button starts
    /// and ends the pan drag; pointer motion moves both drags along.
    pub fn process_events(&mut self, event: &WindowEvent) -> (out: ControllerOutput)
        ensures
            *final(self) == old(self).after(*event),
            out.orbit == Self::orbit_action(*event),
            out.pan == Self::pan_action(*event),
            out.result.processed == Self::processes(*event),
            out.result.requests@ == (if Self::orbit_action(*event) == DragAction::Start {
                seq![CameraControllerRequest::RequestOrbitPoint]
            } else {
                seq![]
            }),
    {
        match event {
            WindowEvent::KeyboardInput { state, keycode: Some(keycode) } => {
                let is_pressed = match state {
                    ElementState::Pressed => true,
                    ElementState::Released => false,
                };
                let result = match keycode {
                    KeyCode::W | KeyCode::Up => {
                        self.is_forward_pressed = is_pressed;
                        EventResult::processed([])
                    },
                    KeyCode::A | KeyCode::Left => {
                        self.is_left_pressed = is_pressed;
                        EventResult::processed([])
                    },
                    KeyCode::S | KeyCode::Down => {
                        self.is_backward_pressed = is_pressed;
                        EventResult::processed([])
                    },
                    KeyCode::D | KeyCode::Right => {
                        self.is_right_pressed = is_pressed;
                        EventResult::processed([])
                    },
                    KeyCode::Other => EventResult::unprocessed([]),
                };
                ControllerOutput { result, orbit: DragAction::Keep, pan: DragAction::Keep }
            },
            WindowEvent::CursorMoved => ControllerOutput {
                result: EventResult::processed([]),
                orbit: DragAction::Follow,
                pan: DragAction::Follow,
            },
            WindowEvent::MouseInput { state, button } => {
                match button {
                    MouseButton::Right => match state {
                        ElementState::Pressed => {
                            self.orbiting = true;
                            let result = EventResult::processed(
                                [CameraControllerRequest::RequestOrbitPoint],
                            );
                            assert(result.requests@ =~= seq![
                                CameraControllerRequest::RequestOrbitPoint,
                            ]);
                            ControllerOutput { result, orbit: DragAction::Start, pan: DragAction::Keep }
                        },
                        ElementState::Released => {
                            self.orbiting = false;
                            ControllerOutput {
                                result: EventResult::processed([]),
                                orbit: DragAction::Stop,
                                pan: DragAction::Keep,
                            }
                        },
                    },
                    MouseButton::Middle => match state {
                        ElementState::Pressed => {
                            self.panning = true;
                            ControllerOutput {
                                result: EventResult::processed([]),
                                orbit: DragAction::Keep,
                                pan: DragAction::Start,
                            }
                        },
                        ElementState::Released => {
                            self.panning = false;
                            ControllerOutput {
                                result: EventResult::processed([]),
                                orbit: DragAction::Keep,
                                pan: DragAction::Stop,
                            }
                        },
                    },
                    _ => ControllerOutput {
                        result: EventResult::processed([]),
                        orbit: DragAction::Keep,
                        pan: DragAction::Keep,
                    },
                }
            },
            WindowEvent::MouseWheel => ControllerOutput {
                result: EventResult::processed([]),
                orbit: DragAction::Keep,
                pan: DragAction::Keep,
            },
            _ => ControllerOutput {
                result: EventResult::unprocessed([]),
                orbit: DragAction::Keep,
                pan: DragAction::Keep,
            },
        }
    }
}

/// Pressing a movement key and releasing it again leaves its flag as it was
/// before it was pressed, if it was up then.
pub proof fn lemma_key_press_release(c: CameraController, keycode: KeyCode)
    requires
        !c.is_forward_pressed && !c.is_backward_pressed && !c.is_left_pressed && !c.is_right_pressed,
    ensures
        ({
            let down = c.after(
                WindowEvent::KeyboardInput { state: ElementState::Pressed, keycode: Some(keycode) },
            );
            let up = down.after(
                WindowEvent::KeyboardInput { state: ElementState::Released, keycode: Some(keycode) },
            );
            up == c
        }),
{
}

/// An orbit point is asked for exactly when the right button goes down.
pub proof fn lemma_orbit_request_on_right_press(event: WindowEvent)
    ensures
        CameraController::orbit_action(event) == DragAction::Start <==> event
            == (WindowEvent::MouseInput { state: ElementState::Pressed, button: MouseButton::Right }),
{
}

/// A movement key sets exactly its own flag to whether it went down: W or Up
/// the forward flag, S or Down the backward flag, A or Left the left flag, D
/// or Right the right flag; the other flags and both drags stay, and any
/// other key changes nothing.
pub proof fn lemma_movement_keys(c: CameraController, state: ElementState, keycode: KeyCode)
    ensures
        ({
            let a = c.after(WindowEvent::KeyboardInput { state, keycode: Some(keycode) });
            let p = state == ElementState::Pressed;
            &&& a.orbiting == c.orbiting && a.panning == c.panning
            &&& (keycode == KeyCode::W || keycode == KeyCode::Up) ==> a.is_forward_pressed == p
                && a.is_backward_pressed == c.is_backward_pressed && a.is_left_pressed
                == c.is_left_pressed && a.is_right_pressed == c.is_right_pressed
            &&& (keycode == KeyCode::S || keycode == KeyCode::Down) ==> a.is_backward_pressed == p
                && a.is_forward_pressed == c.is_forward_pressed && a.is_left_pressed
                == c.is_left_pressed && a.is_right_pressed == c.is_right_pressed
            &&& (keycode == KeyCode::A || keycode == KeyCode::Left) ==> a.is_left_pressed == p
                && a.is_forward_pressed == c.is_forward_pressed && a.is_backward_pressed
                == c.is_backward_pressed && a.is_right_pressed == c.is_right_pressed
            &&& (keycode == KeyCode::D || keycode == KeyCode::Right) ==> a.is_right_pressed == p
                && a.is_forward_pressed == c.is_forward_pressed && a.is_backward_pressed
                == c.is_backward_pressed && a.is_left_pressed == c.is_left_pressed
            &&& keycode == KeyCode::Other ==> a == c
        }),
{
}

} // verus!
