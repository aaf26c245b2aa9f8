//! Creating the GUI context, restoring what an earlier session saved.
use vstd::prelude::*;

verus! {

/// The platform the program runs on, as far as viewports are concerned.
#[derive(Clone, Copy, Debug, PartialEq, Eq)]
pub enum Platform {
    FreeBsd,
    Linux,
    MacOs,
    OpenBsd,
    Windows,
    Android,
    Ios,
    Web,
    Other,
}

/// Desktop platforms show each viewport in a native window of its own.
pub open spec fn is_desktop(p: Platform) -> bool {
    match p {
        Platform::FreeBsd | Platform::Linux | Platform::MacOs | Platform::OpenBsd
        | Platform::Windows => true,
        _ => false,
    }
}

/// Whether all viewports are embedded in one native window on `platform`:
/// so everywhere but on desktop platforms.
pub fn embed_viewports(platform: Platform) -> (r: bool)
    ensures
        r == !is_desktop(platform),
{
    match platform {
        Platform::FreeBsd | Platform::Linux | Platform::MacOs | Platform::OpenBsd
        | Platform::Windows => false,
        _ => true,
    }
}

/// Relies on `egui::Context::default`: a fresh context.
#[verifier::external_body]
fn new_context() -> egui::Context {
    egui::Context::default()
}

/// Relies on `egui::Context::set_embed_viewports`.
#[verifier::external_body]
fn set_embed_viewports(ctx: &egui::Context, value: bool) {
    ctx.set_embed_viewports(value)
}

/// Relies on `egui::Context::memory_mut`: replaces the context's memory.
#[verifier::external_body]
fn set_memory(ctx: &egui::Context, memory: egui::Memory) {
    ctx.memory_mut(|mem| *mem = memory)
}

/// A GUI context together with the policy it was created with.
pub struct GuiContext {
    /// The context itself.
    pub ctx: egui::Context,
    /// Whether all viewports are embedded in one native window.
    pub embeds_viewports: bool,
    /// Whether memory saved by an earlier session was restored into it; if
    /// not, the context holds the default (empty) memory.
    pub restored_memory: bool,
}

/// Creates a GUI context for `platform`. Viewports are embedded in one window
/// exactly when the platform is not a desktop one; the memory an earlier
/// session saved is restored when there is one, else the context starts with
/// the default memory. Never fails.
pub fn create_egui_context(platform: Platform, memory: Option<egui::Memory>) -> (r: GuiContext)
    ensures
        r.embeds_viewports == !is_desktop(platform),
        r.restored_memory == (memory is Some),
{
    let ctx = new_context();
    let embeds_viewports = embed_viewports(platform);
    set_embed_viewports(&ctx, embeds_viewports);
    let restored_memory = match memory {
        Some(memory) => {
            set_memory(&ctx, memory);
            true
        },
        None => false,
    };
    GuiContext { ctx, embeds_viewports, restored_memory }
}

} // verus!
