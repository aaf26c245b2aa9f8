//! Declarations of the windowing and GUI types this library carries through.
use vstd::prelude::*;

verus! {

/// A native window identifier, opaque here.
#[verifier::external_type_specification]
#[verifier::external_body]
pub struct ExWindowId(winit::window::WindowId);

/// A GUI viewport identifier, opaque here.
#[verifier::external_type_specification]
#[verifier::external_body]
pub struct ExViewportId(egui::ViewportId);

/// A point in time, opaque here.
#[verifier::external_type_specification]
#[verifier::external_body]
pub struct ExInstant(std::time::Instant);

/// An accessibility action request, opaque here.
#[verifier::external_type_specification]
#[verifier::external_body]
pub struct ExActionRequest(egui::accesskit::ActionRequest);

/// The accessibility event subtypes delivered by the platform adapter.
#[verifier::external_type_specification]
pub struct ExAccessKitWindowEvent(egui_winit::accesskit_winit::WindowEvent);

/// An accessibility event, tagged with the window it concerns.
#[verifier::external_type_specification]
pub struct ExAccessKitEvent(egui_winit::accesskit_winit::Event);

/// The theme reported by the window system.
#[verifier::external_type_specification]
pub struct ExWinitTheme(winit::window::Theme);

/// A native window, opaque here.
#[verifier::external_type_specification]
#[verifier::external_body]
pub struct ExWindow(winit::window::Window);

} // verus!

verus! {

/// An event of the native event loop, told apart by its variants.
#[verifier::external_type_specification]
#[verifier::reject_recursive_types(T)]
pub struct ExEvent<T: 'static>(winit::event::Event<T>);

/// Why the event loop woke up, opaque here.
#[verifier::external_type_specification]
#[verifier::external_body]
pub struct ExStartCause(winit::event::StartCause);

/// A native input device identifier, opaque here.
#[verifier::external_type_specification]
#[verifier::external_body]
pub struct ExDeviceId(winit::event::DeviceId);

/// A native window event, opaque here.
#[verifier::external_type_specification]
#[verifier::external_body]
pub struct ExWindowEvent(winit::event::WindowEvent);

/// A native device event, opaque here.
#[verifier::external_type_specification]
#[verifier::external_body]
pub struct ExDeviceEvent(winit::event::DeviceEvent);

} // verus!

verus! {

/// A GUI context, opaque here.
#[verifier::external_type_specification]
#[verifier::external_body]
pub struct ExContext(egui::Context);

/// The GUI memory (layout, scroll positions, ...), opaque here.
#[verifier::external_type_specification]
#[verifier::external_body]
pub struct ExMemory(egui::Memory);

/// The running native event loop, opaque here.
#[verifier::external_type_specification]
#[verifier::external_body]
pub struct ExActiveEventLoop(winit::event_loop::ActiveEventLoop);

/// An error of the window system, opaque here.
#[verifier::external_type_specification]
#[verifier::external_body]
pub struct ExOsError(winit::error::OsError);

} // verus!
