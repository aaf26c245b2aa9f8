use std::time::Instant;

use egui::accesskit::{Action, ActionRequest, NodeId};
use egui::ViewportId;
use egui_winit::accesskit_winit;
use winit::event::{Event, WindowEvent};
use winit::window::WindowId;
use winit_integration::context::{create_egui_context, embed_viewports, Platform};
use winit_integration::event::{short_event_description, user_event_description, UserEvent};
use winit_integration::theme::{resolve_system_theme, theme_from_winit_theme, AppTheme, NativeOptions};

fn repaint_event() -> UserEvent {
    UserEvent::RequestRepaint { viewport_id: ViewportId::ROOT, when: Instant::now(), frame_nr: 0 }
}

fn action_request() -> ActionRequest {
    ActionRequest { action: Action::Default, target: NodeId(3), data: None }
}

#[test]
fn user_event_labels() {
    assert_eq!(user_event_description(&repaint_event()), "UserEvent::RequestRepaint");
    let e = UserEvent::AccessKitActionRequest { request: action_request(), window_id: WindowId::from(4u64) };
    assert_eq!(user_event_description(&e), "UserEvent::AccessKitActionRequest");
    let ignored = UserEvent::AccessKitIgnored { window_id: WindowId::from(4u64) };
    assert_eq!(user_event_description(&ignored), "UserEvent::AccessKitIgnored");
}

#[test]
fn short_description_of_posted_and_native_events() {
    assert_eq!(short_event_description(&Event::UserEvent(repaint_event())), "UserEvent::RequestRepaint");
    let resumed: Event<UserEvent> = Event::Resumed;
    assert_eq!(short_event_description(&resumed), "Event::Resumed");
    let close: Event<UserEvent> =
        Event::WindowEvent { window_id: WindowId::from(1u64), event: WindowEvent::CloseRequested };
    assert_eq!(short_event_description(&close), "WindowEvent::CloseRequested");
    let waiting: Event<UserEvent> = Event::AboutToWait;
    assert_eq!(short_event_description(&waiting), "Event::AboutToWait");
}

#[test]
fn accesskit_action_becomes_user_event() {
    let event = accesskit_winit::Event {
        window_id: WindowId::from(6u64),
        window_event: accesskit_winit::WindowEvent::ActionRequested(action_request()),
    };
    match UserEvent::from(event) {
        UserEvent::AccessKitActionRequest { request, window_id } => {
            assert_eq!(request, action_request());
            assert_eq!(window_id, WindowId::from(6u64));
        }
        _ => panic!("expected an action request"),
    }
}

#[test]
fn accesskit_tree_events_are_ignored() {
    let initial = accesskit_winit::Event {
        window_id: WindowId::from(6u64),
        window_event: accesskit_winit::WindowEvent::InitialTreeRequested,
    };
    assert!(matches!(
        UserEvent::from(initial),
        UserEvent::AccessKitIgnored { window_id } if window_id == WindowId::from(6u64)
    ));
    let off = accesskit_winit::Event {
        window_id: WindowId::from(6u64),
        window_event: accesskit_winit::WindowEvent::AccessibilityDeactivated,
    };
    assert!(matches!(UserEvent::from(off), UserEvent::AccessKitIgnored { .. }));
}

#[test]
fn theme_ignored_unless_followed() {
    let off = NativeOptions { follow_system_theme: false };
    assert_eq!(resolve_system_theme(&off, Some(winit::window::Theme::Dark)), None);
    assert_eq!(resolve_system_theme(&off, Some(winit::window::Theme::Light)), None);
    assert_eq!(resolve_system_theme(&off, None), None);
}

#[test]
fn theme_followed() {
    let on = NativeOptions { follow_system_theme: true };
    assert_eq!(resolve_system_theme(&on, Some(winit::window::Theme::Dark)), Some(AppTheme::Dark));
    assert_eq!(resolve_system_theme(&on, Some(winit::window::Theme::Light)), Some(AppTheme::Light));
    assert_eq!(resolve_system_theme(&on, None), None);
    assert_eq!(theme_from_winit_theme(winit::window::Theme::Light), AppTheme::Light);
}

#[test]
fn embedding_by_platform() {
    for p in [Platform::Linux, Platform::Windows, Platform::MacOs, Platform::FreeBsd, Platform::OpenBsd] {
        assert!(!embed_viewports(p));
    }
    for p in [Platform::Android, Platform::Ios, Platform::Web, Platform::Other] {
        assert!(embed_viewports(p));
    }
}

#[test]
fn context_embedding_follows_platform() {
    let desktop = create_egui_context(Platform::Linux, None);
    assert!(!desktop.embeds_viewports);
    assert!(!desktop.restored_memory);
    assert!(!desktop.ctx.embed_viewports());
    let phone = create_egui_context(Platform::Android, None);
    assert!(phone.embeds_viewports);
    assert!(phone.ctx.embed_viewports());
}

#[test]
fn context_without_memory_has_default_memory() {
    let created = create_egui_context(Platform::Windows, None);
    let default_zoom = egui::Memory::default().options.zoom_factor;
    assert_eq!(created.ctx.options(|o| o.zoom_factor), default_zoom);
}

#[test]
fn context_restores_memory() {
    let mut memory = egui::Memory::default();
    memory.options.zoom_factor = 2.0;
    let created = create_egui_context(Platform::Linux, Some(memory));
    assert!(created.restored_memory);
    let ctx = created.ctx;
    assert_eq!(ctx.options(|o| o.zoom_factor), 2.0);
}
