//! The events this layer posts to itself, the outcomes it hands to the event
//! loop, and short labels for diagnostics.
use vstd::prelude::*;
use std::time::Instant;
use egui::accesskit::ActionRequest;
use egui::ViewportId;
use egui_winit::accesskit_winit;
use winit::event::{DeviceEvent, Event, WindowEvent};
use winit::window::WindowId;

verus! {

/// The custom event posted into the native event loop.
#[derive(Debug)]
pub enum UserEvent {
    /// A repaint is requested.
    RequestRepaint {
        /// What to repaint.
        viewport_id: ViewportId,
        /// When to repaint.
        when: Instant,
        /// What the frame number was when the repaint was requested.
        frame_nr: u64,
    },
    /// An accessibility action to be handled by the UI pass of a window.
    AccessKitActionRequest { request: ActionRequest, window_id: WindowId },
    /// An accessibility event that asks nothing of this layer: a request for
    /// the initial tree, or a deactivation. The GUI context builds and drops
    /// its accessibility tree on its own, so these are ignored.
    AccessKitIgnored { window_id: WindowId },
}

/// What the event loop should do next.
#[derive(Clone, Copy, Debug, PartialEq, Eq)]
pub enum EventResult {
    /// Nothing pending: sleep until the next event.
    Wait,
    /// Repaint synchronously inside the current event handler. Only for
    /// urgent repaints that the platform forces, such as some resizes.
    RepaintNow(WindowId),
    /// Repaint on the next redraw, so that several input events share a frame.
    RepaintNext(WindowId),
    /// Wake up and repaint at the given instant.
    RepaintAt(WindowId, Instant),
    /// Leave the event loop.
    Exit,
}

/// The label of a posted event.
pub open spec fn user_event_label(e: UserEvent) -> Seq<char> {
    match e {
        UserEvent::RequestRepaint { .. } => "UserEvent::RequestRepaint"@,
        UserEvent::AccessKitActionRequest { .. } => "UserEvent::AccessKitActionRequest"@,
        UserEvent::AccessKitIgnored { .. } => "UserEvent::AccessKitIgnored"@,
    }
}

/// Short, allocation-free label of a posted event.
pub fn user_event_description(e: &UserEvent) -> (r: &'static str)
    ensures
        r@ == user_event_label(*e),
{
    match e {
        UserEvent::RequestRepaint { .. } => "UserEvent::RequestRepaint",
        UserEvent::AccessKitActionRequest { .. } => "UserEvent::AccessKitActionRequest",
        UserEvent::AccessKitIgnored { .. } => "UserEvent::AccessKitIgnored",
    }
}

/// The posted event for an accessibility event of the platform adapter:
/// action requests carry work for the UI pass of their window; a request for
/// the initial tree and a deactivation are marked as ignored.
pub open spec fn accesskit_user_event(event: accesskit_winit::Event) -> UserEvent {
    match event.window_event {
        accesskit_winit::WindowEvent::ActionRequested(request) => UserEvent::AccessKitActionRequest {
            request,
            window_id: event.window_id,
        },
        _ => UserEvent::AccessKitIgnored { window_id: event.window_id },
    }
}

impl From<accesskit_winit::Event> for UserEvent {
    fn from(event: accesskit_winit::Event) -> Self {
        match event.window_event {
            accesskit_winit::WindowEvent::ActionRequested(request) => {
                UserEvent::AccessKitActionRequest { request, window_id: event.window_id }
            },
            accesskit_winit::WindowEvent::InitialTreeRequested => {
                UserEvent::AccessKitIgnored { window_id: event.window_id }
            },
            accesskit_winit::WindowEvent::AccessibilityDeactivated => {
                UserEvent::AccessKitIgnored { window_id: event.window_id }
            },
        }
    }
}

impl vstd::std_specs::convert::FromSpecImpl<accesskit_winit::Event> for UserEvent {
    open spec fn obeys_from_spec() -> bool {
        true
    }

    open spec fn from_spec(event: accesskit_winit::Event) -> Self {
        accesskit_user_event(event)
    }
}

/// The labels that window events are described by.
pub open spec fn is_window_event_label(s: Seq<char>) -> bool {
        s == "WindowEvent::ActivationTokenDone"@
        || s == "WindowEvent::Resized"@
        || s == "WindowEvent::Moved"@
        || s == "WindowEvent::CloseRequested"@
        || s == "WindowEvent::Destroyed"@
        || s == "WindowEvent::DroppedFile"@
        || s == "WindowEvent::HoveredFile"@
        || s == "WindowEvent::HoveredFileCancelled"@
        || s == "WindowEvent::Focused"@
        || s == "WindowEvent::KeyboardInput"@
        || s == "WindowEvent::ModifiersChanged"@
        || s == "WindowEvent::Ime"@
        || s == "WindowEvent::CursorMoved"@
        || s == "WindowEvent::CursorEntered"@
        || s == "WindowEvent::CursorLeft"@
        || s == "WindowEvent::MouseWheel"@
        || s == "WindowEvent::MouseInput"@
        || s == "WindowEvent::PinchGesture"@
        || s == "WindowEvent::RedrawRequested"@
        || s == "WindowEvent::DoubleTapGesture"@
        || s == "WindowEvent::RotationGesture"@
        || s == "WindowEvent::TouchpadPressure"@
        || s == "WindowEvent::AxisMotion"@
        || s == "WindowEvent::Touch"@
        || s == "WindowEvent::ScaleFactorChanged"@
        || s == "WindowEvent::ThemeChanged"@
        || s == "WindowEvent::Occluded"@
        || s == "WindowEvent::PanGesture"@
}

/// The labels that device events are described by.
pub open spec fn is_device_event_label(s: Seq<char>) -> bool {
        s == "DeviceEvent::Added"@
        || s == "DeviceEvent::Removed"@
        || s == "DeviceEvent::MouseMotion"@
        || s == "DeviceEvent::MouseWheel"@
        || s == "DeviceEvent::Motion"@
        || s == "DeviceEvent::Button"@
        || s == "DeviceEvent::Key"@
}

/// The label of a window event.
pub uninterp spec fn window_event_label(event: WindowEvent) -> Seq<char>;

/// The label of a device event.
pub uninterp spec fn device_event_label(event: DeviceEvent) -> Seq<char>;

/// Relies on `egui_winit::short_window_event_description`: a fixed label per
/// window event kind, one of those it lists.
#[verifier::external_body]
fn window_event_description(event: &WindowEvent) -> (r: &'static str)
    ensures
        r@ == window_event_label(*event),
        is_window_event_label(r@),
{
    egui_winit::short_window_event_description(event)
}

/// Relies on `egui_winit::short_device_event_description`: a fixed label per
/// device event kind, one of those it lists.
#[verifier::external_body]
fn device_event_description(event: &DeviceEvent) -> (r: &'static str)
    ensures
        r@ == device_event_label(*event),
        is_device_event_label(r@),
{
    egui_winit::short_device_event_description(event)
}

/// The label of an event of the loop: posted events have their own, window
/// and device events the one of their kind, the others a fixed one each.
pub open spec fn event_label(event: Event<UserEvent>) -> Seq<char> {
    match event {
        Event::UserEvent(u) => user_event_label(u),
        Event::WindowEvent { event, .. } => window_event_label(event),
        Event::DeviceEvent { event, .. } => device_event_label(event),
        Event::NewEvents(_) => "Event::NewEvents"@,
        Event::Suspended => "Event::Suspended"@,
        Event::Resumed => "Event::Resumed"@,
        Event::AboutToWait => "Event::AboutToWait"@,
        Event::LoopExiting => "Event::LoopExiting"@,
        Event::MemoryWarning => "Event::MemoryWarning"@,
    }
}

/// Short and fast description of an event, for logging and profiling: a
/// literal label, total over all events.
pub fn short_event_description(event: &Event<UserEvent>) -> (r: &'static str)
    ensures
        r@ == event_label(*event),
        event matches Event::WindowEvent { .. } ==> is_window_event_label(r@),
        event matches Event::DeviceEvent { .. } ==> is_device_event_label(r@),
{
    match event {
        Event::UserEvent(u) => user_event_description(u),
        Event::WindowEvent { event, .. } => window_event_description(event),
        Event::DeviceEvent { event, .. } => device_event_description(event),
        Event::NewEvents(_) => "Event::NewEvents",
        Event::Suspended => "Event::Suspended",
        Event::Resumed => "Event::Resumed",
        Event::AboutToWait => "Event::AboutToWait",
        Event::LoopExiting => "Event::LoopExiting",
        Event::MemoryWarning => "Event::MemoryWarning",
    }
}

} // verus!
