use break_reminder::window_config::{WindowConfig, WindowKind};
use break_reminder::window_manager::{
    Replacement, WindowError, WindowManager, WindowStep,
};

#[test]
fn default_window_starts_hidden() {
    let c = WindowConfig::default();
    assert_eq!(c.label, "");
    assert_eq!(c.url, "");
    assert_eq!(c.title, "");
    assert_eq!((c.width, c.height), (400, 300));
    assert!(!c.fullscreen);
    assert!(!c.always_on_top);
    assert!(c.decorations);
    assert!(c.resizable);
    assert!(c.focused);
    assert!(!c.visible);
    assert!(!c.skip_taskbar);
    assert!(!c.maximized);
    assert!(!c.transparent);
    assert!(c.shadow);
    assert_eq!(c.position, None);
}

#[test]
fn force_break_descriptor() {
    let c = WindowConfig::force_break(300);
    assert_eq!(c.label, "force_break");
    assert_eq!(c.url, "force_break.html?duration=300");
    assert_eq!(c.title, "Break Time");
    assert_eq!((c.width, c.height), (1920, 1080));
    assert!(c.fullscreen);
    assert!(c.always_on_top);
    assert!(!c.decorations);
    assert!(!c.resizable);
    assert!(c.focused);
    assert!(!c.visible);
    assert!(c.skip_taskbar);
    assert!(c.maximized);
    assert!(!c.transparent);
    assert!(!c.shadow);
    assert_eq!(c.position, None);
}

#[test]
fn notify_descriptor_is_centred() {
    let c = WindowConfig::notify(Some((1920, 1080)), 600);
    assert_eq!(c.label, "notify");
    assert_eq!(c.url, "notify.html?duration=600");
    assert_eq!(c.title, "Break Time - Break Reminder Pro");
    assert_eq!((c.width, c.height), (480, 350));
    assert!(!c.fullscreen);
    assert!(c.always_on_top);
    assert!(c.decorations);
    assert!(!c.resizable);
    assert!(c.focused);
    assert!(!c.visible);
    assert!(!c.skip_taskbar);
    assert!(!c.maximized);
    assert!(!c.transparent);
    assert!(c.shadow);
    assert_eq!(c.position, Some((720, 365)));
}

#[test]
fn notify_descriptor_without_display_uses_the_fallback() {
    let c = WindowConfig::notify(None, 0);
    assert_eq!(c.url, "notify.html?duration=0");
    assert_eq!(c.position, Some((720, 365)));
}

#[test]
fn pre_break_descriptor_is_at_the_bottom() {
    let c = WindowConfig::pre_break(Some((1920, 1080)), 30);
    assert_eq!(c.label, "pre_break");
    assert_eq!(c.url, "pre_break.html?seconds=30");
    assert_eq!(c.title, "Pre-Break Warning");
    assert_eq!((c.width, c.height), (220, 90));
    assert!(!c.fullscreen);
    assert!(c.always_on_top);
    assert!(!c.decorations);
    assert!(!c.resizable);
    assert!(!c.focused);
    assert!(!c.visible);
    assert!(c.skip_taskbar);
    assert!(!c.maximized);
    assert!(c.transparent);
    assert!(!c.shadow);
    assert_eq!(c.position, Some((850, 870)));
}

#[test]
fn meeting_notification_descriptor_is_above_the_warning() {
    let c = WindowConfig::meeting_notification(Some((1920, 1080)));
    assert_eq!(c.label, "meeting_notification");
    assert_eq!(c.url, "meeting_notification.html");
    assert_eq!(c.title, "Meeting Detected");
    assert_eq!((c.width, c.height), (240, 90));
    assert!(c.always_on_top);
    assert!(!c.decorations);
    assert!(!c.focused);
    assert!(!c.visible);
    assert!(c.skip_taskbar);
    assert!(c.transparent);
    assert!(!c.shadow);
    assert_eq!(c.position, Some((840, 770)));
}

#[test]
fn update_notification_descriptor_encodes_its_values() {
    let c = WindowConfig::update_notification(
        Some((1920, 1080)),
        "1.2.0 beta".to_string(),
        "Fixes & more: 100%".to_string(),
        "https://example.com/d?x=1".to_string(),
        "2024-01-02T03:04:05Z".to_string(),
    );
    assert_eq!(c.label, "update_notification");
    assert_eq!(
        c.url,
        "update_notification.html?version=1.2.0%20beta&notes=Fixes%20%26%20more%3A%20100%25&url=https%3A%2F%2Fexample.com%2Fd%3Fx%3D1&date=2024-01-02T03%3A04%3A05Z"
    );
    assert_eq!(c.title, "Update Available");
    assert_eq!((c.width, c.height), (450, 300));
    assert!(c.always_on_top);
    assert!(c.decorations);
    assert!(!c.resizable);
    assert!(c.focused);
    assert!(!c.visible);
    assert!(c.shadow);
    assert_eq!(c.position, Some((735, 390)));
}

#[test]
fn update_notification_keeps_unreserved_and_encodes_utf8_bytes() {
    let c = WindowConfig::update_notification(
        None,
        "a-b_c.d~E9".to_string(),
        "caf\u{e9} \u{2713}".to_string(),
        String::new(),
        "+".to_string(),
    );
    assert_eq!(
        c.url,
        "update_notification.html?version=a-b_c.d~E9&notes=caf%C3%A9%20%E2%9C%93&url=&date=%2B"
    );
}

#[test]
fn debug_test_descriptor() {
    let c = WindowConfig::debug_test();
    assert_eq!(c.label, "debug_test");
    assert_eq!(c.url, "test.html");
    assert_eq!(c.title, "Debug Test Window - Using test.html");
    assert_eq!((c.width, c.height), (500, 400));
    assert!(!c.visible);
    assert!(c.always_on_top);
    assert!(c.resizable);
    assert_eq!(c.position, Some((200, 200)));
}

#[test]
fn window_kind_labels() {
    assert_eq!(WindowKind::ForceBreak.label(), "force_break");
    assert_eq!(WindowKind::Notify.label(), "notify");
    assert_eq!(WindowKind::PreBreak.label(), "pre_break");
    assert_eq!(WindowKind::MeetingNotification.label(), "meeting_notification");
    assert_eq!(WindowKind::UpdateNotification.label(), "update_notification");
}

#[test]
fn materialize_positions_before_showing() {
    let c = WindowConfig::notify(Some((1920, 1080)), 60);
    let steps = WindowManager::materialize_steps(&c);
    assert_eq!(
        steps,
        vec![
            WindowStep::Build,
            WindowStep::SignalPositioned,
            WindowStep::SetPosition { x: 720, y: 365 },
            WindowStep::Show,
            WindowStep::SetAlwaysOnTop,
            WindowStep::SetFocus,
        ]
    );
}

#[test]
fn materialize_without_anchor_or_focus() {
    let c = WindowConfig::force_break(60);
    assert_eq!(
        WindowManager::materialize_steps(&c),
        vec![
            WindowStep::Build,
            WindowStep::Show,
            WindowStep::SetAlwaysOnTop,
            WindowStep::SetFocus,
        ]
    );
    let p = WindowConfig::pre_break(None, 5);
    assert_eq!(
        WindowManager::materialize_steps(&p),
        vec![
            WindowStep::Build,
            WindowStep::SignalPositioned,
            WindowStep::SetPosition { x: 850, y: 870 },
            WindowStep::Show,
            WindowStep::SetAlwaysOnTop,
        ]
    );
    let d = WindowConfig::default();
    assert_eq!(
        WindowManager::materialize_steps(&d),
        vec![WindowStep::Build, WindowStep::Show, WindowStep::SetFocus]
    );
}

#[test]
fn plan_steps_with_anchor_and_ready_signal() {
    let c = WindowConfig::force_break(60);
    assert_eq!(
        WindowManager::plan_steps(&c, Some((10, -20)), true),
        vec![
            WindowStep::Build,
            WindowStep::SignalPositioned,
            WindowStep::SetPosition { x: 10, y: -20 },
            WindowStep::Show,
            WindowStep::SetAlwaysOnTop,
            WindowStep::SetFocus,
            WindowStep::SignalReady,
        ]
    );
    assert_eq!(
        WindowManager::plan_steps(&c, None, true),
        vec![
            WindowStep::Build,
            WindowStep::Show,
            WindowStep::SetAlwaysOnTop,
            WindowStep::SetFocus,
            WindowStep::SignalReady,
        ]
    );
}

#[test]
fn plan_steps_bring_the_anchor_into_32_bits() {
    let c = WindowConfig::default();
    assert_eq!(
        WindowManager::plan_steps(&c, Some((5_000_000_000, -5_000_000_000)), false),
        vec![
            WindowStep::Build,
            WindowStep::SignalPositioned,
            WindowStep::SetPosition { x: i32::MAX, y: i32::MIN },
            WindowStep::Show,
            WindowStep::SetFocus,
        ]
    );
}

#[test]
fn scripts_of_the_signal_steps() {
    assert_eq!(WindowStep::SignalPositioned.script(), Some("window.RUST_POSITIONED = true;"));
    assert_eq!(
        WindowStep::SignalReady.script(),
        Some("document.body.style.opacity = '1'; window.WINDOW_READY = true;")
    );
    assert_eq!(WindowStep::Build.script(), None);
    assert_eq!(WindowStep::Show.script(), None);
    assert_eq!(WindowStep::SetPosition { x: 1, y: 2 }.script(), None);
    assert_eq!(WindowStep::SetAlwaysOnTop.script(), None);
    assert_eq!(WindowStep::SetFocus.script(), None);
}

#[test]
fn every_window_is_built_hidden() {
    let mut m = WindowManager::new();
    let mut shown = WindowConfig::notify(Some((1920, 1080)), 60);
    shown.visible = true;
    let request = m.create_window(shown).unwrap();
    assert!(!request.config.visible);
    assert_eq!(request.config.label, "notify");
    assert_eq!(request.config.url, "notify.html?duration=60");
    assert_eq!((request.config.width, request.config.height), (480, 350));
    assert_eq!(request.config.position, Some((720, 365)));
    assert!(request.config.always_on_top && request.config.focused);
    assert_eq!(
        request.steps,
        vec![
            WindowStep::Build,
            WindowStep::SignalPositioned,
            WindowStep::SetPosition { x: 720, y: 365 },
            WindowStep::Show,
            WindowStep::SetAlwaysOnTop,
            WindowStep::SetFocus,
        ]
    );
    let mut other = WindowConfig::default();
    other.visible = true;
    other.label = "other".to_string();
    let request = m.request_window(other, Some((1, 2)), true).unwrap();
    assert!(!request.config.visible);
    assert_eq!(request.steps.iter().filter(|s| **s == WindowStep::Show).count(), 1);
}

#[test]
fn new_registry_is_empty() {
    let m = WindowManager::new();
    assert_eq!(m.len(), 0);
    assert!(!m.is_open("notify"));
    assert_eq!(m.live_count("notify"), 0);
}

#[test]
fn ensure_singleton_twice_leaves_one_window() {
    let mut m = WindowManager::new();
    let first = m.ensure_singleton("notify");
    assert_eq!(first, Ok(Replacement { closed: None, opened: 0 }));
    let second = m.ensure_singleton("notify");
    assert_eq!(second, Ok(Replacement { closed: Some(0), opened: 1 }));
    assert_eq!(m.live_count("notify"), 1);
    assert_eq!(m.len(), 1);
    assert!(m.is_open("notify"));
}

#[test]
fn ensure_singleton_leaves_other_labels_alone() {
    let mut m = WindowManager::new();
    assert_eq!(m.ensure_singleton("pre_break"), Ok(Replacement { closed: None, opened: 0 }));
    assert_eq!(m.ensure_singleton("notify"), Ok(Replacement { closed: None, opened: 1 }));
    assert_eq!(m.ensure_singleton("pre_break"), Ok(Replacement { closed: Some(0), opened: 2 }));
    assert_eq!(m.len(), 2);
    assert_eq!(m.live_count("pre_break"), 1);
    assert_eq!(m.live_count("notify"), 1);
    assert!(m.confirm_created("notify", 1));
    assert!(m.confirm_created("pre_break", 2));
}

#[test]
fn close_is_idempotent() {
    let mut m = WindowManager::new();
    assert_eq!(m.close_existing_window("notify"), None);
    assert_eq!(m.ensure_singleton("notify"), Ok(Replacement { closed: None, opened: 0 }));
    assert_eq!(m.close_existing_window("notify"), Some(0));
    assert_eq!(m.close_existing_window("notify"), None);
    assert_eq!(m.len(), 0);
    assert!(!m.is_open("notify"));
}

#[test]
fn close_removes_only_the_label() {
    let mut m = WindowManager::new();
    let _ = m.ensure_singleton("a");
    let _ = m.ensure_singleton("b");
    let _ = m.ensure_singleton("c");
    assert_eq!(m.close_existing_window("b"), Some(1));
    assert_eq!(m.len(), 2);
    assert!(m.is_open("a"));
    assert!(!m.is_open("b"));
    assert!(m.is_open("c"));
    assert!(m.confirm_created("a", 0));
    assert!(m.confirm_created("c", 2));
}

#[test]
fn create_window_registers_and_plans() {
    let mut m = WindowManager::new();
    let request = m.create_window(WindowConfig::pre_break(None, 30)).unwrap();
    assert_eq!(request.close_first, None);
    assert_eq!(request.ticket, 0);
    assert_eq!(request.config.label, "pre_break");
    assert_eq!(request.config.url, "pre_break.html?seconds=30");
    assert_eq!(
        request.steps,
        vec![
            WindowStep::Build,
            WindowStep::SignalPositioned,
            WindowStep::SetPosition { x: 850, y: 870 },
            WindowStep::Show,
            WindowStep::SetAlwaysOnTop,
        ]
    );
    assert!(!request.config.visible);
    assert!(m.is_open("pre_break"));
    let again = m.create_window(WindowConfig::pre_break(None, 29)).unwrap();
    assert_eq!(again.close_first, Some(0));
    assert_eq!(again.ticket, 1);
    assert_eq!(m.live_count("pre_break"), 1);
}

#[test]
fn creation_that_was_overtaken_is_not_kept() {
    let mut m = WindowManager::new();
    let first = m.create_window(WindowConfig::force_break(10)).unwrap();
    assert!(m.confirm_created("force_break", first.ticket));
    let second = m.create_window(WindowConfig::force_break(10)).unwrap();
    assert!(!m.confirm_created("force_break", first.ticket));
    assert!(m.confirm_created("force_break", second.ticket));
    assert_eq!(m.close_existing_window("force_break"), Some(second.ticket));
    assert!(!m.confirm_created("force_break", second.ticket));
    assert!(!m.confirm_created("notify", 0));
}

#[test]
fn failed_window_leaves_the_registry() {
    let mut m = WindowManager::new();
    let first = m.create_window(WindowConfig::force_break(10)).unwrap();
    let second = m.create_window(WindowConfig::force_break(10)).unwrap();
    assert!(!m.discard_failed("force_break", first.ticket));
    assert!(m.is_open("force_break"));
    assert!(m.discard_failed("force_break", second.ticket));
    assert!(!m.is_open("force_break"));
    assert!(!m.discard_failed("force_break", second.ticket));
}

#[test]
fn requests_are_turned_down_when_tickets_run_out() {
    let mut m = WindowManager::starting_at(u64::MAX - 1);
    assert_eq!(m.ensure_singleton("notify"), Ok(Replacement { closed: None, opened: u64::MAX - 1 }));
    assert_eq!(m.ensure_singleton("notify"), Err(WindowError::TicketsExhausted));
    assert!(matches!(
        m.create_window(WindowConfig::force_break(1)),
        Err(WindowError::TicketsExhausted)
    ));
    assert_eq!(m.len(), 1);
    assert!(m.confirm_created("notify", u64::MAX - 1));
    assert!(!m.is_open("force_break"));
    assert_eq!(WindowError::TicketsExhausted.message(), "No window ticket is left");
    assert_eq!(m.close_existing_window("notify"), Some(u64::MAX - 1));
}
