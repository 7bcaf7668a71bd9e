use render::camera::{CameraController, CameraControllerRequest, DragAction, EventResult, OrbitPointMode};
use render::input::{InputEvent, Key, Modifiers, MouseButton};

#[test]
fn modifiers_either_side() {
    let m = Modifiers { l_ctrl: false, r_ctrl: true, l_shift: true, r_shift: false, l_alt: false, r_alt: false };
    assert!(m.ctrl());
    assert!(m.shift());
    assert!(!m.alt());
}

#[test]
fn event_result_constructors() {
    let r = EventResult::processed([CameraControllerRequest::RequestOrbitPoint]);
    assert!(r.processed);
    assert_eq!(r.requests, vec![CameraControllerRequest::RequestOrbitPoint]);
    let r = EventResult::unprocessed([]);
    assert!(!r.processed);
    assert!(r.requests.is_empty());
}

#[test]
fn secondary_button_orbits_and_requests_point() {
    let mut c = CameraController::new();
    let out = c.process_events(&InputEvent::MouseDown(MouseButton::Secondary));
    assert!(out.result.processed);
    assert_eq!(out.result.requests, vec![CameraControllerRequest::RequestOrbitPoint]);
    assert_eq!(out.orbit, DragAction::Start);
    assert_eq!(out.pan, DragAction::Stop);
    assert!(c.is_orbiting());
    assert!(!c.is_panning());

    let out = c.process_events(&InputEvent::CursorMoved);
    assert_eq!(out.orbit, DragAction::Follow);
    assert_eq!(out.pan, DragAction::Keep);

    let out = c.process_events(&InputEvent::MouseUp(MouseButton::Secondary));
    assert_eq!(out.orbit, DragAction::Stop);
    assert!(!c.is_orbiting());
}

#[test]
fn locked_mode_does_not_request_point() {
    let mut c = CameraController::new();
    c.set_orbit_point_mode(OrbitPointMode::Locked);
    let out = c.process_events(&InputEvent::MouseDown(MouseButton::Secondary));
    assert!(out.result.requests.is_empty());
    assert!(c.is_orbiting());
}

#[test]
fn ctrl_secondary_pans_and_release_stops() {
    let mut c = CameraController::new();
    c.process_events(&InputEvent::KeyDown(Key::Control));
    assert!(c.is_ctrl_pressed());
    let out = c.process_events(&InputEvent::MouseDown(MouseButton::Secondary));
    assert_eq!(out.pan, DragAction::Start);
    assert!(out.result.requests.is_empty());
    assert!(c.is_panning());
    assert!(!c.is_orbiting());
    c.process_events(&InputEvent::KeyUp(Key::Control));
    assert!(!c.is_ctrl_pressed());
    assert!(!c.is_panning());
    assert!(!c.is_orbiting());
}

#[test]
fn aux_pans_primary_stops_pan() {
    let mut c = CameraController::new();
    c.process_events(&InputEvent::MouseDown(MouseButton::Secondary));
    c.process_events(&InputEvent::MouseDown(MouseButton::Aux));
    assert!(c.is_panning());
    assert!(!c.is_orbiting());
    c.process_events(&InputEvent::MouseDown(MouseButton::Primary));
    assert!(!c.is_panning());
}

#[test]
fn unhandled_events_are_not_processed() {
    let mut c = CameraController::new();
    let out = c.process_events(&InputEvent::Unhandled);
    assert!(!out.result.processed);
    let m = Modifiers { l_ctrl: true, r_ctrl: false, l_shift: false, r_shift: false, l_alt: false, r_alt: false };
    let out = c.process_events(&InputEvent::ModifiersChanged(m));
    assert!(!out.result.processed);
    assert!(!c.is_ctrl_pressed());
    let out = c.process_events(&InputEvent::MouseWheel);
    assert!(out.result.processed);
}

#[test]
fn never_orbits_and_pans_together() {
    let events = [
        InputEvent::MouseDown(MouseButton::Secondary),
        InputEvent::KeyDown(Key::Control),
        InputEvent::MouseDown(MouseButton::Aux),
        InputEvent::CursorMoved,
        InputEvent::MouseDown(MouseButton::Secondary),
        InputEvent::KeyUp(Key::Other),
        InputEvent::MouseUp(MouseButton::Primary),
        InputEvent::KeyUp(Key::Control),
        InputEvent::MouseDown(MouseButton::Secondary),
    ];
    let mut c = CameraController::new();
    for e in events.iter() {
        c.process_events(e);
        assert!(!(c.is_orbiting() && c.is_panning()));
    }
}

#[test]
fn resize_keeps_size() {
    let mut c = CameraController::new();
    assert_eq!(c.size(), (0, 0));
    c.resize((640, 480));
    assert_eq!(c.size(), (640, 480));
    assert_eq!(c.orbit_point_mode(), OrbitPointMode::Adaptive);
}
