use std::sync::Arc;
use std::time::{Duration, Instant};

use egui::accesskit::{Action, ActionRequest, NodeId};
use egui::ViewportId;
use winit::window::WindowId;
use winit_integration::event::{EventResult, UserEvent};
use winit_integration::registry::{PassOutcome, ViewportRegistry, WindowEventKind};

fn wid(n: u64) -> WindowId {
    WindowId::from(n)
}

fn vid(name: &str) -> ViewportId {
    ViewportId::from_hash_of(name)
}

fn registry_with_two() -> ViewportRegistry<&'static str> {
    let mut reg = ViewportRegistry::new(ViewportId::ROOT);
    assert!(reg.add_window(ViewportId::ROOT, wid(1), Arc::new("root window")));
    assert!(reg.add_window(vid("child"), wid(2), Arc::new("child window")));
    reg
}

fn action_request() -> ActionRequest {
    ActionRequest { action: Action::Focus, target: NodeId(7), data: None }
}

#[test]
fn new_registry_is_empty() {
    let reg: ViewportRegistry<u8> = ViewportRegistry::new(ViewportId::ROOT);
    assert_eq!(reg.frame_nr(ViewportId::ROOT), 0);
    assert_eq!(reg.window_id_from_viewport_id(ViewportId::ROOT), None);
    assert!(reg.window(wid(1)).is_none());
}

#[test]
fn lookups_agree_both_ways() {
    let reg = registry_with_two();
    assert_eq!(reg.window_id_from_viewport_id(vid("child")), Some(wid(2)));
    assert_eq!(reg.viewport_id_from_window_id(wid(2)), Some(vid("child")));
    assert_eq!(reg.window_id_from_viewport_id(ViewportId::ROOT), Some(wid(1)));
    assert_eq!(reg.viewport_id_from_window_id(wid(1)), Some(ViewportId::ROOT));
    assert_eq!(reg.window(wid(2)).map(|w| *w), Some("child window"));
    assert_eq!(reg.window(wid(1)).map(|w| *w), Some("root window"));
    assert!(reg.window(wid(3)).is_none());
    assert_eq!(reg.viewport_id_from_window_id(wid(3)), None);
    assert_eq!(reg.window_id_from_viewport_id(vid("other")), None);
}

#[test]
fn window_handle_is_shared() {
    let reg = registry_with_two();
    let handle = reg.window(wid(2)).unwrap();
    assert_eq!(Arc::strong_count(&handle), 2);
}

#[test]
fn add_window_refuses_duplicates() {
    let mut reg = registry_with_two();
    assert!(!reg.add_window(vid("child"), wid(9), Arc::new("again")));
    assert!(!reg.add_window(vid("new"), wid(2), Arc::new("again")));
    assert_eq!(reg.window_id_from_viewport_id(vid("new")), None);
    assert_eq!(reg.viewport_id_from_window_id(wid(9)), None);
    assert_eq!(reg.window(wid(2)).map(|w| *w), Some("child window"));
}

#[test]
fn remove_window_keeps_lookups_consistent() {
    let mut reg = registry_with_two();
    assert_eq!(reg.remove_window(wid(2)), Some(vid("child")));
    assert_eq!(reg.window_id_from_viewport_id(vid("child")), None);
    assert!(reg.window(wid(2)).is_none());
    assert_eq!(reg.viewport_id_from_window_id(wid(1)), Some(ViewportId::ROOT));
    assert_eq!(reg.remove_window(wid(2)), None);
}

#[test]
fn pass_increments_only_its_viewport() {
    let mut reg = registry_with_two();
    assert_eq!(reg.record_pass(wid(2), PassOutcome::Idle), EventResult::Wait);
    assert_eq!(reg.frame_nr(vid("child")), 1);
    assert_eq!(reg.frame_nr(ViewportId::ROOT), 0);
    assert_eq!(reg.record_pass(wid(2), PassOutcome::RepaintNext), EventResult::RepaintNext(wid(2)));
    assert_eq!(reg.frame_nr(vid("child")), 2);
    assert_eq!(reg.record_pass(wid(1), PassOutcome::Exit), EventResult::Exit);
    assert_eq!(reg.frame_nr(ViewportId::ROOT), 1);
    assert_eq!(reg.frame_nr(vid("child")), 2);
}

#[test]
fn pass_outcome_repaint_at() {
    let mut reg = registry_with_two();
    let t = Instant::now() + Duration::from_millis(250);
    assert_eq!(reg.record_pass(wid(1), PassOutcome::RepaintAt(t)), EventResult::RepaintAt(wid(1), t));
}

#[test]
fn pass_of_unknown_window_is_ignored() {
    let mut reg = registry_with_two();
    assert_eq!(reg.record_pass(wid(5), PassOutcome::RepaintNext), EventResult::Wait);
    assert_eq!(reg.frame_nr(vid("child")), 0);
    assert_eq!(reg.frame_nr(ViewportId::ROOT), 0);
}

#[test]
fn fresh_then_stale_repaint_request() {
    let mut reg = registry_with_two();
    let v = vid("child");
    for _ in 0..3 {
        reg.record_pass(wid(2), PassOutcome::Idle);
    }
    assert_eq!(reg.frame_nr(v), 3);
    let t0 = Instant::now() + Duration::from_secs(1);
    let event = || UserEvent::RequestRepaint { viewport_id: v, when: t0, frame_nr: 3 };
    assert_eq!(reg.on_user_event(event()), EventResult::RepaintAt(wid(2), t0));
    reg.record_pass(wid(2), PassOutcome::Idle);
    assert_eq!(reg.frame_nr(v), 4);
    assert_eq!(reg.on_user_event(event()), EventResult::Wait);
}

#[test]
fn stale_request_never_repaints_immediately() {
    let mut reg = registry_with_two();
    for _ in 0..5 {
        reg.record_pass(wid(1), PassOutcome::Idle);
    }
    for n in 0..5u64 {
        let r = reg.on_user_event(UserEvent::RequestRepaint {
            viewport_id: ViewportId::ROOT,
            when: Instant::now(),
            frame_nr: n,
        });
        assert_eq!(r, EventResult::Wait);
    }
}

#[test]
fn repaint_request_without_window_waits() {
    let mut reg = registry_with_two();
    let r = reg.on_user_event(UserEvent::RequestRepaint {
        viewport_id: vid("nowhere"),
        when: Instant::now(),
        frame_nr: 0,
    });
    assert_eq!(r, EventResult::Wait);
}

#[test]
fn close_of_unknown_window_waits() {
    let mut reg = registry_with_two();
    assert_eq!(reg.on_window_event(wid(42), WindowEventKind::CloseRequested), EventResult::Wait);
    assert_eq!(reg.window_id_from_viewport_id(vid("child")), Some(wid(2)));
    assert_eq!(reg.window_id_from_viewport_id(ViewportId::ROOT), Some(wid(1)));
}

#[test]
fn close_of_root_exits() {
    let mut reg = registry_with_two();
    assert_eq!(reg.on_window_event(wid(1), WindowEventKind::CloseRequested), EventResult::Exit);
}

#[test]
fn close_of_child_forgets_it() {
    let mut reg = registry_with_two();
    assert_eq!(reg.on_window_event(wid(2), WindowEventKind::CloseRequested), EventResult::Wait);
    assert!(reg.window(wid(2)).is_none());
    assert_eq!(reg.window_id_from_viewport_id(vid("child")), None);
    assert_eq!(reg.on_window_event(wid(2), WindowEventKind::Resized), EventResult::Wait);
}

#[test]
fn destroyed_child_is_forgotten() {
    let mut reg = registry_with_two();
    assert_eq!(reg.on_window_event(wid(2), WindowEventKind::Destroyed), EventResult::Wait);
    assert_eq!(reg.viewport_id_from_window_id(wid(2)), None);
}

#[test]
fn redraw_now_and_input_next() {
    let mut reg = registry_with_two();
    assert_eq!(reg.on_window_event(wid(2), WindowEventKind::RedrawRequested), EventResult::RepaintNow(wid(2)));
    assert_eq!(reg.on_window_event(wid(2), WindowEventKind::Resized), EventResult::RepaintNext(wid(2)));
    assert_eq!(reg.on_window_event(wid(1), WindowEventKind::Input), EventResult::RepaintNext(wid(1)));
}

#[test]
fn accessibility_action_is_queued_for_its_window() {
    let mut reg = registry_with_two();
    let r = reg.on_user_event(UserEvent::AccessKitActionRequest { request: action_request(), window_id: wid(2) });
    assert_eq!(r, EventResult::RepaintNext(wid(2)));
    let r = reg.on_user_event(UserEvent::AccessKitActionRequest { request: action_request(), window_id: wid(8) });
    assert_eq!(r, EventResult::Wait);
    let pending = reg.take_pending_actions();
    assert_eq!(pending.len(), 1);
    assert_eq!(pending[0].window_id, wid(2));
    assert_eq!(pending[0].request, action_request());
    assert!(reg.take_pending_actions().is_empty());
}

#[test]
fn save_and_destroy_twice_is_harmless() {
    let mut reg = registry_with_two();
    reg.record_pass(wid(2), PassOutcome::Idle);
    let handle = reg.window(wid(2)).unwrap();
    assert!(reg.save_and_destroy());
    assert_eq!(Arc::strong_count(&handle), 1);
    assert!(reg.window(wid(1)).is_none());
    assert_eq!(reg.window_id_from_viewport_id(vid("child")), None);
    assert_eq!(reg.frame_nr(vid("child")), 1);
    assert!(!reg.save_and_destroy());
    assert!(reg.window(wid(1)).is_none());
    assert_eq!(reg.frame_nr(vid("child")), 1);
}

#[test]
fn no_window_after_shutdown() {
    let mut reg = registry_with_two();
    reg.save_and_destroy();
    assert!(!reg.add_window(vid("late"), wid(3), Arc::new("late")));
    assert_eq!(reg.record_pass(wid(1), PassOutcome::RepaintNext), EventResult::Wait);
    assert_eq!(reg.frame_nr(ViewportId::ROOT), 0);
}

#[test]
fn ignored_accessibility_event_changes_nothing() {
    let mut reg = registry_with_two();
    let r = reg.on_user_event(UserEvent::AccessKitIgnored { window_id: wid(2) });
    assert_eq!(r, EventResult::Wait);
    assert!(reg.take_pending_actions().is_empty());
    assert_eq!(reg.window_id_from_viewport_id(vid("child")), Some(wid(2)));
}
