//! The application's state machine: it waits for the renderer to be
//! initialized, and drops the events that arrive before it is.

use crate::camera::controller::{CameraCommand, InputEvent};
use crate::graphics::{
    color_target,
    frame_commands,
    frame_updates,
    Graphics,
    GraphicsView,
    RenderPass,
    UniformWrite,
    MSAA_SAMPLE_COUNT,
};
use crate::surface::PhysicalSize;
use vstd::prelude::*;

verus! {

/// A window event, reduced to what the application reads of it.
#[derive(Clone, Copy, Debug, PartialEq, Eq, Structural)]
pub enum WindowEvent {
    /// The window has a new size.
    Resized(PhysicalSize),
    /// The window asks to be drawn.
    RedrawRequested,
    /// The user asked to close the window.
    CloseRequested,
    /// The pointer moved over the window.
    CursorMoved,
    /// Any other event.
    Other,
}

/// What the window host has to do after a window event.
#[derive(Clone, Copy, Debug, PartialEq, Eq, Structural)]
pub enum WindowAction {
    /// Nothing: the event was dropped.
    Ignore,
    /// Recreate the depth and multisample buffers and configure the surface
    /// anew, as the renderer's state now describes them.
    Resize,
    /// Update the uniforms, then draw a frame.
    Redraw,
    /// Note where the pointer is.
    TrackCursor,
    /// Leave the event loop.
    Exit,
}

/// The state of the application, as contracts see it.
pub enum AppView {
    /// Initialization has not been started.
    Uninitialized,
    /// Initialization was started and has not delivered the renderer yet.
    Initializing,
    /// The renderer is ready.
    Ready(GraphicsView),
}

impl AppView {
    /// The state after the host resumed the application.
    pub open spec fn resumed(self) -> AppView {
        match self {
            AppView::Uninitialized => AppView::Initializing,
            _ => self,
        }
    }

    /// Whether initialization starts when the host resumes the application.
    pub open spec fn launches(self) -> bool {
        self is Uninitialized
    }

    /// The state after a window event.
    pub open spec fn after_window_event(self, event: WindowEvent) -> AppView {
        match (self, event) {
            (AppView::Ready(graphics), WindowEvent::Resized(size)) => AppView::Ready(
                graphics.resized(size),
            ),
            _ => self,
        }
    }

    /// What the host has to do after a window event.
    pub open spec fn window_action(self, event: WindowEvent) -> WindowAction {
        match event {
            WindowEvent::CloseRequested => WindowAction::Exit,
            WindowEvent::Resized(size) => if self is Ready {
                WindowAction::Resize
            } else {
                WindowAction::Ignore
            },
            WindowEvent::RedrawRequested => if self is Ready {
                WindowAction::Redraw
            } else {
                WindowAction::Ignore
            },
            WindowEvent::CursorMoved => if self is Ready {
                WindowAction::TrackCursor
            } else {
                WindowAction::Ignore
            },
            WindowEvent::Other => WindowAction::Ignore,
        }
    }

    /// The state after an input event.
    pub open spec fn after_device_event(self, event: InputEvent) -> AppView {
        match self {
            AppView::Ready(graphics) => AppView::Ready(graphics.after_input(event)),
            _ => self,
        }
    }

    /// What the camera has to do after an input event.
    pub open spec fn camera_command(self, event: InputEvent) -> CameraCommand {
        match self {
            AppView::Ready(graphics) => graphics.held.command(event),
            _ => CameraCommand::Idle,
        }
    }
}

/// The renderer becomes ready only by the delivery of its state: resuming,
/// window events and input events leave an application that is not ready as
/// it is but for the start of initialization, and one that is ready, ready.
pub proof fn lemma_events_keep_readiness(state: AppView, window: WindowEvent, input: InputEvent)
    ensures
        state.resumed() is Ready <==> state is Ready,
        state.after_window_event(window) is Ready <==> state is Ready,
        state.after_device_event(input) is Ready <==> state is Ready,
        !(state is Ready) ==> state.after_window_event(window) == state,
        !(state is Ready) ==> state.after_device_event(input) == state,
{
}

/// Before the renderer is ready every event is dropped: nothing is resized,
/// updated or drawn and the camera is left alone. Only a request to close is
/// answered.
pub proof fn lemma_unready_drops_events(state: AppView, window: WindowEvent, input: InputEvent)
    requires
        !(state is Ready),
    ensures
        state.camera_command(input) is Idle,
        window is CloseRequested ==> state.window_action(window) is Exit,
        !(window is CloseRequested) ==> state.window_action(window) is Ignore,
{
}

/// A renderer that is ready stays well formed under every event.
pub proof fn lemma_ready_stays_well_formed(
    graphics: GraphicsView,
    window: WindowEvent,
    input: InputEvent,
)
    requires
        graphics.wf(),
    ensures
        AppView::Ready(graphics).resumed() == AppView::Ready(graphics),
        AppView::Ready(graphics).after_window_event(window) matches AppView::Ready(next)
            && next.wf(),
        AppView::Ready(graphics).after_device_event(input) matches AppView::Ready(next)
            && next.wf(),
{
}

enum State {
    Uninitialized,
    Initializing,
    Ready(Graphics),
}

/// The application: either waiting for the renderer, or holding it.
pub struct App {
    state: State,
}

impl View for App {
    type V = AppView;

    closed spec fn view(&self) -> AppView {
        match self.state {
            State::Uninitialized => AppView::Uninitialized,
            State::Initializing => AppView::Initializing,
            State::Ready(graphics) => AppView::Ready(graphics@),
        }
    }
}

impl App {
    /// An application whose renderer has not been initialized.
    pub fn new() -> (app: Self)
        ensures
            app@ is Uninitialized,
    {
        Self { state: State::Uninitialized }
    }

    /// The renderer's state, once it is ready.
    pub fn graphics(&self) -> (graphics: Option<&Graphics>)
        ensures
            match self@ {
                AppView::Ready(view) => graphics matches Some(ready) && ready@ == view,
                _ => graphics is None,
            },
    {
        match &self.state {
            State::Ready(graphics) => Some(graphics),
            _ => None,
        }
    }

    /// The host resumed the application. Returns whether the window has to
    /// be created and initialization started now: the first time only.
    pub fn resumed(&mut self) -> (launch: bool)
        ensures
            launch == old(self)@.launches(),
            final(self)@ == old(self)@.resumed(),
    {
        match self.state {
            State::Uninitialized => {
                self.state = State::Initializing;
                true
            },
            _ => false,
        }
    }

    /// Initialization is complete: takes the renderer over.
    pub fn user_event(&mut self, graphics: Graphics)
        ensures
            final(self)@ == AppView::Ready(graphics@),
    {
        self.state = State::Ready(graphics);
    }

    /// Plans the frame, if the renderer is ready.
    pub fn draw(&self) -> (pass: Option<RenderPass>)
        ensures
            match self@ {
                AppView::Ready(view) => pass matches Some(planned) && planned.color_target
                    == color_target(MSAA_SAMPLE_COUNT) && planned.commands@ == frame_commands(
                    view.num_indices,
                ),
                _ => pass is None,
            },
    {
        match &self.state {
            State::Ready(graphics) => Some(graphics.draw()),
            _ => None,
        }
    }

    /// Takes a new window size, if the renderer is ready. Returns whether
    /// it was.
    pub fn resized(&mut self, size: PhysicalSize) -> (applied: bool)
        ensures
            applied == (old(self)@ is Ready),
            final(self)@ == old(self)@.after_window_event(WindowEvent::Resized(size)),
    {
        match &mut self.state {
            State::Ready(graphics) => {
                graphics.resize(size);
                true
            },
            _ => false,
        }
    }

    /// Plans the frame's update, if the renderer is ready.
    pub fn update(&self) -> (writes: Option<Vec<UniformWrite>>)
        ensures
            match self@ {
                AppView::Ready(view) => writes matches Some(planned) && planned@
                    == frame_updates(),
                _ => writes is None,
            },
    {
        match &self.state {
            State::Ready(graphics) => Some(graphics.update()),
            _ => None,
        }
    }

    /// Whether the pointer's position is to be noted: only when the
    /// renderer is ready.
    pub fn update_cursor_position(&self) -> (due: bool)
        ensures
            due == (self@ is Ready),
    {
        match &self.state {
            State::Ready(_) => true,
            _ => false,
        }
    }

    /// Hands an input event to the camera, if the renderer is ready.
    pub fn process_camera_event(&mut self, event: &InputEvent) -> (command: CameraCommand)
        ensures
            final(self)@ == old(self)@.after_device_event(*event),
            command == old(self)@.camera_command(*event),
            !(old(self)@ is Ready) ==> command is Idle && final(self)@ == old(self)@,
    {
        match &mut self.state {
            State::Ready(graphics) => graphics.process_camera_event(event),
            _ => CameraCommand::Idle,
        }
    }

    /// Takes a window event and says what the host has to do.
    ///
    /// Before the renderer is ready every event but a request to close is
    /// dropped. A request to redraw asks for an update followed by a draw.
    pub fn window_event(&mut self, event: WindowEvent) -> (action: WindowAction)
        ensures
            final(self)@ == old(self)@.after_window_event(event),
            action == old(self)@.window_action(event),
            !(old(self)@ is Ready) ==> final(self)@ == old(self)@ && (action is Ignore
                || action is Exit),
    {
        match event {
            WindowEvent::Resized(size) => {
                if self.resized(size) {
                    WindowAction::Resize
                } else {
                    WindowAction::Ignore
                }
            },
            WindowEvent::RedrawRequested => {
                if self.update().is_some() {
                    WindowAction::Redraw
                } else {
                    WindowAction::Ignore
                }
            },
            WindowEvent::CloseRequested => WindowAction::Exit,
            WindowEvent::CursorMoved => {
                if self.update_cursor_position() {
                    WindowAction::TrackCursor
                } else {
                    WindowAction::Ignore
                }
            },
            WindowEvent::Other => WindowAction::Ignore,
        }
    }

    /// Takes a raw input event and says what the camera has to do.
    pub fn device_event(&mut self, event: &InputEvent) -> (command: CameraCommand)
        ensures
            final(self)@ == old(self)@.after_device_event(*event),
            command == old(self)@.camera_command(*event),
    {
        self.process_camera_event(event)
    }
}

} // verus!
