//! Integer keys of viewport and window identifiers, by which they are compared.
use vstd::prelude::*;
use egui::ViewportId;
use winit::window::WindowId;

verus! {

/// The integer that identifies a viewport; two viewport ids are equal
/// exactly when their keys are.
pub uninterp spec fn viewport_key(id: ViewportId) -> u64;

/// The integer that identifies a native window; two window ids are equal
/// exactly when their keys are.
pub uninterp spec fn window_key(id: WindowId) -> u64;

/// Relies on `egui::Id::value`: the raw integer of the id inside the viewport
/// id. A viewport id is nothing but that non-zero integer, so no other id has it.
#[verifier::external_body]
pub(crate) fn viewport_key_of(id: &ViewportId) -> (r: u64)
    ensures
        r == viewport_key(*id),
        forall|other: ViewportId| viewport_key(other) == r ==> other == *id,
{
    id.0.value()
}

/// Relies on `From<WindowId> for u64`: the raw integer of the window id, which
/// is all the window id holds, so no other window id has it.
#[verifier::external_body]
pub(crate) fn window_key_of(id: &WindowId) -> (r: u64)
    ensures
        r == window_key(*id),
        forall|other: WindowId| window_key(other) == r ==> other == *id,
{
    u64::from(*id)
}

} // verus!
