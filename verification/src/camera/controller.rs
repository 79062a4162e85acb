//! The state machine that turns raw pointer input into camera commands.
//!
//! The controller remembers which buttons are held. A motion of the pointer
//! orbits the camera only while the rotate button is held; a turn of the wheel
//! always zooms, by one step whatever its size.

use vstd::prelude::*;

verus! {

/// The window host's number for the left button.
pub const LEFT_BUTTON: u32 = 1;

/// The window host's number for the middle button, which drags the camera round.
pub const ROTATE_BUTTON: u32 = 2;

/// The window host's number for the right button.
pub const RIGHT_BUTTON: u32 = 3;

/// A raw input event, reduced to what the controller reads of it.
#[derive(Clone, Copy, Debug, PartialEq, Eq, Structural)]
pub enum InputEvent {
    /// A button went down (`pressed`) or up.
    Button { button: u32, pressed: bool },
    /// The wheel turned; `positive` is the sign of the scroll amount.
    MouseWheel { positive: bool },
    /// The pointer moved.
    MouseMotion,
    /// Any other event.
    Other,
}

/// What the camera is asked to do after an event.
#[derive(Clone, Copy, Debug, PartialEq, Eq, Structural)]
pub enum CameraCommand {
    /// Leave the camera as it is.
    Idle,
    /// Add `steps` times the zoom step to the distance.
    Zoom { steps: i32 },
    /// Add `yaw_factor * dx * rotate_speed` to the yaw and
    /// `pitch_factor * dy * rotate_speed` to the pitch, for a pointer motion
    /// of `(dx, dy)`.
    Orbit { yaw_factor: i32, pitch_factor: i32 },
}

/// The buttons that are held.
pub struct HeldButtons {
    pub drag_rotate: bool,
    pub left: bool,
    pub right: bool,
}

impl HeldButtons {
    /// The held buttons after `event`.
    pub open spec fn after(self, event: InputEvent) -> HeldButtons {
        match event {
            InputEvent::Button { button, pressed } => {
                if button == ROTATE_BUTTON {
                    HeldButtons { drag_rotate: pressed, ..self }
                } else if button == LEFT_BUTTON {
                    HeldButtons { left: pressed, ..self }
                } else if button == RIGHT_BUTTON {
                    HeldButtons { right: pressed, ..self }
                } else {
                    self
                }
            },
            _ => self,
        }
    }

    /// The command that `event` gives while these buttons are held.
    pub open spec fn command(self, event: InputEvent) -> CameraCommand {
        match event {
            InputEvent::MouseWheel { positive } => CameraCommand::Zoom {
                steps: if positive {
                    1i32
                } else {
                    -1i32
                },
            },
            InputEvent::MouseMotion => if self.drag_rotate {
                CameraCommand::Orbit { yaw_factor: -1i32, pitch_factor: 1i32 }
            } else {
                CameraCommand::Idle
            },
            _ => CameraCommand::Idle,
        }
    }
}

impl CameraCommand {
    /// Whether the command changes what is on screen, so that a redraw is due.
    pub open spec fn changes_view(self) -> bool {
        !(self is Idle)
    }

    /// Whether a redraw has to be requested after this command.
    pub fn requests_redraw(&self) -> (redraw: bool)
        ensures
            redraw == self.changes_view(),
    {
        match self {
            CameraCommand::Idle => false,
            _ => true,
        }
    }
}

/// Interprets pointer input for the orbit camera.
#[derive(Clone, Copy, Debug)]
pub struct CameraController {
    is_drag_rotate: bool,
    is_left_down: bool,
    is_right_down: bool,
}

impl View for CameraController {
    type V = HeldButtons;

    closed spec fn view(&self) -> HeldButtons {
        HeldButtons {
            drag_rotate: self.is_drag_rotate,
            left: self.is_left_down,
            right: self.is_right_down,
        }
    }
}

impl CameraController {
    /// A controller with no button held.
    pub fn new() -> (controller: Self)
        ensures
            controller@ == (HeldButtons { drag_rotate: false, left: false, right: false }),
    {
        Self { is_drag_rotate: false, is_left_down: false, is_right_down: false }
    }

    /// Whether the rotate button is held.
    pub fn is_drag_rotate(&self) -> (held: bool)
        ensures
            held == self@.drag_rotate,
    {
        self.is_drag_rotate
    }

    /// Whether the left button is held.
    pub fn is_left_down(&self) -> (held: bool)
        ensures
            held == self@.left,
    {
        self.is_left_down
    }

    /// Whether the right button is held.
    pub fn is_right_down(&self) -> (held: bool)
        ensures
            held == self@.right,
    {
        self.is_right_down
    }

    /// Takes one event: updates the held buttons and says what the camera
    /// has to do.
    ///
    /// A motion is passed on only while the rotate button is held, and then
    /// turns the yaw against the horizontal motion and the pitch with the
    /// vertical one. The wheel zooms by one step in the direction of its sign.
    pub fn process_events(&mut self, event: &InputEvent) -> (command: CameraCommand)
        ensures
            final(self)@ == old(self)@.after(*event),
            command == old(self)@.command(*event),
            *event is MouseMotion && !old(self)@.drag_rotate ==> command is Idle,
            *event is MouseMotion && old(self)@.drag_rotate ==> command == (CameraCommand::Orbit {
                yaw_factor: -1i32,
                pitch_factor: 1i32,
            }),
            !(*event is Button) ==> final(self)@ == old(self)@,
    {
        match *event {
            InputEvent::Button { button, pressed } => {
                if button == ROTATE_BUTTON {
                    self.is_drag_rotate = pressed;
                } else if button == LEFT_BUTTON {
                    self.is_left_down = pressed;
                } else if button == RIGHT_BUTTON {
                    self.is_right_down = pressed;
                }
                CameraCommand::Idle
            },
            InputEvent::MouseWheel { positive } => {
                if positive {
                    CameraCommand::Zoom { steps: 1 }
                } else {
                    CameraCommand::Zoom { steps: -1 }
                }
            },
            InputEvent::MouseMotion => {
                if self.is_drag_rotate {
                    CameraCommand::Orbit { yaw_factor: -1, pitch_factor: 1 }
                } else {
                    CameraCommand::Idle
                }
            },
            InputEvent::Other => CameraCommand::Idle,
        }
    }
}

} // verus!
