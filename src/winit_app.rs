//! The interface an event-loop driver uses to run a windowed GUI.
use vstd::prelude::*;
use std::sync::Arc;
use egui::ViewportId;
use winit::event::Event;
use winit::event_loop::ActiveEventLoop;
use winit::window::{Window, WindowId};
use crate::event::{EventResult, UserEvent};

verus! {

/// A failure of the window system, fatal to the operation that met it.
#[derive(Debug)]
pub enum Error {
    Winit(winit::error::OsError),
}

/// A windowed GUI application driven by a native event loop. Implementations
/// keep their viewports in a `ViewportRegistry` and delegate the bookkeeping
/// and scheduling decisions to it.
pub trait WinitApp {
    /// The current frame number of a viewport; 0 if unknown.
    fn frame_nr(&self, viewport_id: ViewportId) -> u64;

    /// The handle of a live window.
    fn window(&self, window_id: WindowId) -> Option<Arc<Window>>;

    /// The window in which a viewport is shown.
    fn window_id_from_viewport_id(&self, id: ViewportId) -> Option<WindowId>;

    /// Persists the GUI memory, then releases every window. Idempotent.
    fn save_and_destroy(&mut self);

    /// Runs one UI pass of a window and says what to do next.
    fn run_ui_and_paint(&mut self, event_loop: &ActiveEventLoop, window_id: WindowId) -> EventResult;

    /// Handles one event of the loop.
    fn on_event(&mut self, event_loop: &ActiveEventLoop, event: &Event<UserEvent>) -> Result<
        EventResult,
        Error,
    >;
}

} // verus!
