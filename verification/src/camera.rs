use vstd::prelude::*;
use crate::input::{InputEvent, Key, MouseButton};

verus! {

/// Something the camera controls ask of their owner after an event.
#[derive(Debug, Clone, Copy, PartialEq, Eq, Structural)]
pub enum CameraControllerRequest {
    /// Find the point the camera should orbit around and hand it back.
    RequestOrbitPoint,
}

/// Whether an orbit drag asks for a fresh orbit point when it starts.
#[derive(Debug, Clone, Copy, PartialEq, Eq, Structural)]
pub enum OrbitPointMode {
    Locked,
    Adaptive,
}

/// What the controls made of an event: whether they used it, and what they ask for.
#[derive(Debug)]
pub struct EventResult {
    pub processed: bool,
    pub requests: Vec<CameraControllerRequest>,
}

impl EventResult {
    /// The event was used; the requests are handed on in order.
    pub fn processed<const N: usize>(requests: [CameraControllerRequest; N]) -> (r: Self)
        ensures
            r.processed,
            r.requests@ == requests@,
    {
        EventResult { processed: true, requests: requests_to_vec(&requests) }
    }

    /// The event was not used; the requests are handed on in order.
    pub fn unprocessed<const N: usize>(requests: [CameraControllerRequest; N]) -> (r: Self)
        ensures
            !r.processed,
            r.requests@ == requests@,
    {
        EventResult { processed: false, requests: requests_to_vec(&requests) }
    }
}

fn requests_to_vec<const N: usize>(requests: &[CameraControllerRequest; N]) -> (r: Vec<
    CameraControllerRequest,
>)
    ensures
        r@ == requests@,
{
    let mut v: Vec<CameraControllerRequest> = Vec::new();
    let mut i: usize = 0;
    while i < N
        invariant
            i <= N,
            requests@.len() == N,
            v@ == requests@.subrange(0, i as int),
        decreases N - i,
    {
        v.push(requests[i]);
        i = i + 1;
    }
    assert(requests@.subrange(0, N as int) =~= requests@);
    v
}

/// What an event does to one of the two mouse drags (orbit, pan).
#[derive(Debug, Clone, Copy, PartialEq, Eq, Structural)]
pub enum DragAction {
    /// The drag is left as it was.
    Keep,
    /// A drag starts afresh at the current pointer position.
    Start,
    /// The running drag follows the pointer to its new position.
    Follow,
    /// The drag ends (or stays ended).
    Stop,
}

/// The result of feeding one event to the controls: the event result and
/// what happens to each drag.
#[derive(Debug)]
pub struct ControllerOutput {
    pub result: EventResult,
    pub orbit: DragAction,
    pub pan: DragAction,
}

/// Mouse and keyboard camera controls: the control key, the orbit drag
/// (secondary button) and the pan drag (auxiliary button, or secondary
/// button with control held).
#[derive(Debug)]
pub struct CameraController {
    size: (u32, u32),
    orbit_point_mode: OrbitPointMode,
    is_ctrl_pressed: bool,
    orbiting: bool,
    panning: bool,
}

/// Whether a drag runs after the given action was applied to it.
pub open spec fn drag_after(running: bool, action: DragAction) -> bool {
    match action {
        DragAction::Keep => running,
        DragAction::Start => true,
        DragAction::Follow => running,
        DragAction::Stop => false,
    }
}

impl CameraController {
    pub closed spec fn spec_size(&self) -> (u32, u32) {
        self.size
    }

    pub closed spec fn spec_mode(&self) -> OrbitPointMode {
        self.orbit_point_mode
    }

    pub closed spec fn spec_ctrl(&self) -> bool {
        self.is_ctrl_pressed
    }

    pub closed spec fn spec_orbiting(&self) -> bool {
        self.orbiting
    }

    pub closed spec fn spec_panning(&self) -> bool {
        self.panning
    }

    /// What the event does to the orbit drag.
    pub open spec fn orbit_action(&self, event: InputEvent) -> DragAction {
        match event {
            InputEvent::KeyUp(key) => if key == Key::Control {
                DragAction::Stop
            } else {
                DragAction::Keep
            },
            InputEvent::CursorMoved => if self.spec_orbiting() {
                DragAction::Follow
            } else {
                DragAction::Keep
            },
            InputEvent::MouseDown(button) => match button {
                MouseButton::Secondary => if self.spec_ctrl() {
                    DragAction::Stop
                } else {
                    DragAction::Start
                },
                MouseButton::Aux => DragAction::Stop,
                MouseButton::Primary => DragAction::Keep,
            },
            InputEvent::MouseUp(button) => match button {
                MouseButton::Secondary => if self.spec_ctrl() {
                    DragAction::Keep
                } else {
                    DragAction::Stop
                },
                _ => DragAction::Keep,
            },
            _ => DragAction::Keep,
        }
    }

    /// What the event does to the pan drag.
    pub open spec fn pan_action(&self, event: InputEvent) -> DragAction {
        match event {
            InputEvent::KeyUp(key) => if key == Key::Control {
                DragAction::Stop
            } else {
                DragAction::Keep
            },
            InputEvent::CursorMoved => if self.spec_panning() {
                DragAction::Follow
            } else {
                DragAction::Keep
            },
            InputEvent::MouseDown(button) => match button {
                MouseButton::Secondary => if self.spec_ctrl() {
                    DragAction::Start
                } else {
                    DragAction::Stop
                },
                MouseButton::Aux => DragAction::Start,
                MouseButton::Primary => DragAction::Stop,
            },
            InputEvent::MouseUp(button) => match button {
                MouseButton::Secondary => if self.spec_ctrl() {
                    DragAction::Stop
                } else {
                    DragAction::Keep
                },
                _ => DragAction::Stop,
            },
            _ => DragAction::Keep,
        }
    }

    /// Whether the control key is held after the event.
    pub open spec fn ctrl_after(&self, event: InputEvent) -> bool {
        match event {
            InputEvent::KeyDown(key) => if key == Key::Control {
                true
            } else {
                self.spec_ctrl()
            },
            InputEvent::KeyUp(key) => if key == Key::Control {
                false
            } else {
                self.spec_ctrl()
            },
            _ => self.spec_ctrl(),
        }
    }

    /// Whether the controls use the event.
    pub open spec fn processes(event: InputEvent) -> bool {
        match event {
            InputEvent::ModifiersChanged(_) => false,
            InputEvent::Unhandled => false,
            _ => true,
        }
    }

    /// What the controls ask for after the event: an orbit point, when an orbit
    /// drag starts in adaptive mode; nothing otherwise.
    pub open spec fn requests_for(&self, event: InputEvent) -> Seq<CameraControllerRequest> {
        if self.orbit_action(event) == DragAction::Start && self.spec_mode()
            == OrbitPointMode::Adaptive {
            seq![CameraControllerRequest::RequestOrbitPoint]
        } else {
            seq![]
        }
    }

    /// Controls at rest: no key held, no drag, adaptive orbit point, no size yet.
    pub fn new() -> (r: Self)
        ensures
            r.spec_size() == (0u32, 0u32),
            r.spec_mode() == OrbitPointMode::Adaptive,
            !r.spec_ctrl(),
            !r.spec_orbiting(),
            !r.spec_panning(),
    {
        CameraController {
            size: (0, 0),
            orbit_point_mode: OrbitPointMode::Adaptive,
            is_ctrl_pressed: false,
            orbiting: false,
            panning: false,
        }
    }

    /// Records the size of the view in pixels.
    pub fn resize(&mut self, size: (u32, u32))
        ensures
            final(self).spec_size() == size,
            final(self).spec_mode() == old(self).spec_mode(),
            final(self).spec_ctrl() == old(self).spec_ctrl(),
            final(self).spec_orbiting() == old(self).spec_orbiting(),
            final(self).spec_panning() == old(self).spec_panning(),
    {
        self.size = size;
    }

    /// The size of the view in pixels.
    pub fn size(&self) -> (r: (u32, u32))
        ensures
            r == self.spec_size(),
    {
        self.size
    }

    pub fn set_orbit_point_mode(&mut self, mode: OrbitPointMode)
        ensures
            final(self).spec_mode() == mode,
            final(self).spec_size() == old(self).spec_size(),
            final(self).spec_ctrl() == old(self).spec_ctrl(),
            final(self).spec_orbiting() == old(self).spec_orbiting(),
            final(self).spec_panning() == old(self).spec_panning(),
    {
        self.orbit_point_mode = mode;
    }

    pub fn orbit_point_mode(&self) -> (r: OrbitPointMode)
        ensures
            r == self.spec_mode(),
    {
        self.orbit_point_mode
    }

    /// An orbit drag is running.
    pub fn is_orbiting(&self) -> (r: bool)
        ensures
            r == self.spec_orbiting(),
    {
        self.orbiting
    }

    /// A pan drag is running.
    pub fn is_panning(&self) -> (r: bool)
        ensures
            r == self.spec_panning(),
    {
        self.panning
    }

    /// The control key is held.
    pub fn is_ctrl_pressed(&self) -> (r: bool)
        ensures
            r == self.spec_ctrl(),
    {
        self.is_ctrl_pressed
    }

    fn orbit_action_of(&self, event: &InputEvent) -> (r: DragAction)
        ensures
            r == self.orbit_action(*event),
    {
        match event {
            InputEvent::KeyUp(key) => if key.is_control() {
                DragAction::Stop
            } else {
                DragAction::Keep
            },
            InputEvent::CursorMoved => if self.orbiting {
                DragAction::Follow
            } else {
                DragAction::Keep
            },
            InputEvent::MouseDown(button) => match button {
                MouseButton::Secondary => if self.is_ctrl_pressed {
                    DragAction::Stop
                } else {
                    DragAction::Start
                },
                MouseButton::Aux => DragAction::Stop,
                MouseButton::Primary => DragAction::Keep,
            },
            InputEvent::MouseUp(button) => match button {
                MouseButton::Secondary => if self.is_ctrl_pressed {
                    DragAction::Keep
                } else {
                    DragAction::Stop
                },
                _ => DragAction::Keep,
            },
            _ => DragAction::Keep,
        }
    }

    fn pan_action_of(&self, event: &InputEvent) -> (r: DragAction)
        ensures
            r == self.pan_action(*event),
    {
        match event {
            InputEvent::KeyUp(key) => if key.is_control() {
                DragAction::Stop
            } else {
                DragAction::Keep
            },
            InputEvent::CursorMoved => if self.panning {
                DragAction::Follow
            } else {
                DragAction::Keep
            },
            InputEvent::MouseDown(button) => match button {
                MouseButton::Secondary => if self.is_ctrl_pressed {
                    DragAction::Start
                } else {
                    DragAction::Stop
                },
                MouseButton::Aux => DragAction::Start,
                MouseButton::Primary => DragAction::Stop,
            },
            InputEvent::MouseUp(button) => match button {
                MouseButton::Secondary => if self.is_ctrl_pressed {
                    DragAction::Stop
                } else {
                    DragAction::Keep
                },
                _ => DragAction::Stop,
            },
            _ => DragAction::Keep,
        }
    }

    /// Feeds one event to the controls. The key state and both drags change
    /// as the event asks; the result says whether the event was used and asks
    /// for an orbit point when an orbit drag starts in adaptive mode.
    pub fn process_events(&mut self, event: &InputEvent) -> (out: ControllerOutput)
        ensures
            out.orbit == old(self).orbit_action(*event),
            out.pan == old(self).pan_action(*event),
            out.result.processed == Self::processes(*event),
            out.result.requests@ == old(self).requests_for(*event),
            final(self).spec_ctrl() == old(self).ctrl_after(*event),
            final(self).spec_orbiting() == drag_after(
                old(self).spec_orbiting(),
                old(self).orbit_action(*event),
            ),
            final(self).spec_panning() == drag_after(
                old(self).spec_panning(),
                old(self).pan_action(*event),
            ),
            final(self).spec_size() == old(self).spec_size(),
            final(self).spec_mode() == old(self).spec_mode(),
    {
        let orbit = self.orbit_action_of(event);
        let pan = self.pan_action_of(event);

        let result = match event {
            InputEvent::ModifiersChanged(_) => EventResult::unprocessed([]),
            InputEvent::Unhandled => EventResult::unprocessed([]),
            _ => {
                let wants_point = match orbit {
                    DragAction::Start => match self.orbit_point_mode {
                        OrbitPointMode::Adaptive => true,
                        OrbitPointMode::Locked => false,
                    },
                    _ => false,
                };
                if wants_point {
                    EventResult::processed([CameraControllerRequest::RequestOrbitPoint])
                } else {
                    EventResult::processed([])
                }
            },
        };

        match event {
            InputEvent::KeyDown(key) => {
                if key.is_control() {
                    self.is_ctrl_pressed = true;
                }
            },
            InputEvent::KeyUp(key) => {
                if key.is_control() {
                    self.is_ctrl_pressed = false;
                }
            },
            _ => {},
        }

        match orbit {
            DragAction::Start => {
                self.orbiting = true;
            },
            DragAction::Stop => {
                self.orbiting = false;
            },
            _ => {},
        }
        match pan {
            DragAction::Start => {
                self.panning = true;
            },
            DragAction::Stop => {
                self.panning = false;
            },
            _ => {},
        }

        proof {
            assert(result.requests@ =~= old(self).requests_for(*event));
        }
        ControllerOutput { result, orbit, pan }
    }
}

/// The controls never orbit and pan at the same time: if they do not before an
/// event, they do not after it.
pub proof fn lemma_never_orbit_and_pan(c: CameraController, event: InputEvent)
    requires
        !(c.spec_orbiting() && c.spec_panning()),
    ensures
        !(drag_after(c.spec_orbiting(), c.orbit_action(event)) && drag_after(
            c.spec_panning(),
            c.pan_action(event),
        )),
{
}

/// Starting one drag ends the other.
pub proof fn lemma_start_ends_other_drag(c: CameraController, event: InputEvent)
    ensures
        c.orbit_action(event) == DragAction::Start ==> c.pan_action(event) == DragAction::Stop,
        c.pan_action(event) == DragAction::Start ==> c.orbit_action(event) == DragAction::Stop,
{
}

/// Releasing the control key ends both drags and leaves the key released.
pub proof fn lemma_ctrl_release_stops_drags(c: CameraController)
    ensures
        !drag_after(c.spec_orbiting(), c.orbit_action(InputEvent::KeyUp(Key::Control))),
        !drag_after(c.spec_panning(), c.pan_action(InputEvent::KeyUp(Key::Control))),
        !c.ctrl_after(InputEvent::KeyUp(Key::Control)),
{
}

/// An orbit point is asked for exactly when an orbit drag starts in adaptive
/// mode, and never more than once per event.
pub proof fn lemma_orbit_point_request(c: CameraController, event: InputEvent)
    ensures
        c.requests_for(event).len() <= 1,
        c.requests_for(event).len() == 1 <==> (c.orbit_action(event) == DragAction::Start
            && c.spec_mode() == OrbitPointMode::Adaptive),
        c.spec_mode() == OrbitPointMode::Locked ==> c.requests_for(event).len() == 0,
{
}

/// Releasing a mouse button ends the drag it started: releasing any button
/// but the secondary one ends the pan drag; releasing the secondary button
/// ends the orbit drag when control is up and the pan drag when it is held.
pub proof fn lemma_button_release_ends_drags(c: CameraController, button: MouseButton)
    ensures
        button != MouseButton::Secondary ==> !drag_after(
            c.spec_panning(),
            c.pan_action(InputEvent::MouseUp(button)),
        ),
        button == MouseButton::Secondary && !c.spec_ctrl() ==> !drag_after(
            c.spec_orbiting(),
            c.orbit_action(InputEvent::MouseUp(button)),
        ),
        button == MouseButton::Secondary && c.spec_ctrl() ==> !drag_after(
            c.spec_panning(),
            c.pan_action(InputEvent::MouseUp(button)),
        ),
{
}

/// Pressing the auxiliary button starts a pan drag and releasing it again
/// ends it, whatever came before.
pub proof fn lemma_aux_press_release_pans(c: CameraController)
    ensures
        drag_after(c.spec_panning(), c.pan_action(InputEvent::MouseDown(MouseButton::Aux))),
        c.pan_action(InputEvent::MouseUp(MouseButton::Aux)) == DragAction::Stop,
{
}

} // verus!
