use vstd::prelude::*;

verus! {

/// A mouse button, named by its role.
#[derive(Debug, Clone, Copy, PartialEq, Eq, Structural)]
pub enum MouseButton {
    /// Main mouse button, usually left.
    Primary,
    /// Secondary mouse button, usually right.
    Secondary,
    /// Auxiliary mouse button, usually middle or the mouse wheel button.
    Aux,
}

/// Which modifier keys are held, left and right apart.
#[derive(Debug, Clone, Copy, PartialEq, Eq, Structural)]
pub struct Modifiers {
    pub l_ctrl: bool,
    pub r_ctrl: bool,
    pub l_shift: bool,
    pub r_shift: bool,
    pub l_alt: bool,
    pub r_alt: bool,
}

impl Modifiers {
    /// Either control key is held.
    pub fn ctrl(&self) -> (r: bool)
        ensures
            r == (self.l_ctrl || self.r_ctrl),
    {
        self.l_ctrl || self.r_ctrl
    }

    /// Either alt key is held.
    pub fn alt(&self) -> (r: bool)
        ensures
            r == (self.l_alt || self.r_alt),
    {
        self.l_alt || self.r_alt
    }

    /// Either shift key is held.
    pub fn shift(&self) -> (r: bool)
        ensures
            r == (self.l_shift || self.r_shift),
    {
        self.l_shift || self.r_shift
    }
}

/// A keyboard key, as far as the camera controls tell keys apart.
#[derive(Debug, Clone, Copy, PartialEq, Eq, Structural)]
pub enum Key {
    Control,
    Other,
}

impl Key {
    /// The key is a control key.
    pub fn is_control(&self) -> (r: bool)
        ensures
            r == (*self == Key::Control),
    {
        match self {
            Key::Control => true,
            Key::Other => false,
        }
    }
}

/// An input event. Pointer positions and wheel deltas are carried by the
/// caller beside the event; the controls here decide on the event's kind.
#[derive(Debug, Clone, Copy, PartialEq, Eq, Structural)]
pub enum InputEvent {
    ModifiersChanged(Modifiers),
    KeyDown(Key),
    KeyUp(Key),
    CursorMoved,
    MouseDown(MouseButton),
    MouseUp(MouseButton),
    MouseWheel,
    Unhandled,
}

} // verus!
