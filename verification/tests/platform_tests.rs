use break_reminder::capability::{
    chime_command, control_media, lock_screen, media_key, parse_media_action, play_chime,
    Capability, CapabilityError, ChimeMethod, ChimeStep, MediaAction, MediaKey, PlatformCommand,
};
use break_reminder::commands::{
    debug_test_window, dispatch, force_break_window, meeting_detected_notification, notify_window,
    pre_break_notification_window, warning_seconds, PlatformRequest,
    DEFAULT_FORCE_BREAK_SECONDS, DEFAULT_NOTIFY_SECONDS, MEETING_TOAST_MARGIN,
    MEETING_TOAST_SECONDS, NOTIFY_ANCHOR_HEIGHT, NOTIFY_ANCHOR_WIDTH,
};
use break_reminder::config::{AppSettings, BreakConfig, BreakMode, SettingsError};
use break_reminder::scheduler::{SchedulerAction, SchedulerError};
use break_reminder::text::same_text;
use break_reminder::tray::{click_action, close_requested_action, menu_action, TrayAction};
use break_reminder::window_config::WindowKind;
use break_reminder::window_manager::{WindowManager, WindowStep};

fn settings() -> BreakConfig {
    BreakConfig {
        break_minutes: 20,
        break_seconds: 0,
        break_duration_minutes: 5,
        break_duration_seconds: 0,
        break_mode: BreakMode::Notify,
        auto_pause: true,
        meeting_detect: true,
        pre_break: true,
        pre_break_minutes: 0,
        pre_break_seconds: 30,
        break_chime: false,
        recurring: true,
        autostart: false,
        auto_start_timer: false,
    }
}

#[test]
fn same_text_compares_whole_texts() {
    assert!(same_text("pause", "pause"));
    assert!(same_text("", ""));
    assert!(!same_text("pause", "paus"));
    assert!(!same_text("Pause", "pause"));
}

#[test]
fn mode_names_round_trip() {
    assert_eq!(BreakMode::Notify.name(), "notify");
    assert_eq!(BreakMode::Force.name(), "force");
    assert_eq!(BreakMode::from_name("notify"), Some(BreakMode::Notify));
    assert_eq!(BreakMode::from_name("force"), Some(BreakMode::Force));
    for mode in [BreakMode::Notify, BreakMode::Force] {
        assert_eq!(BreakMode::from_name(mode.name()), Some(mode));
    }
}

#[test]
fn unknown_mode_names_are_not_read() {
    assert_eq!(BreakMode::from_name(""), None);
    assert_eq!(BreakMode::from_name("Force"), None);
    assert_eq!(BreakMode::from_name("lock"), None);
}

#[test]
fn durations_in_seconds() {
    let c = settings();
    assert_eq!(c.interval_seconds(), 1200);
    assert_eq!(c.duration_seconds(), 300);
    assert_eq!(c.lead_seconds(), 30);
    let odd = BreakConfig { break_minutes: 1, break_seconds: 75, ..settings() };
    assert_eq!(odd.interval_seconds(), 135);
    let huge = BreakConfig { break_minutes: u32::MAX, break_seconds: u32::MAX, ..settings() };
    assert_eq!(huge.interval_seconds(), 261993004995);
}

#[test]
fn validity_of_settings() {
    assert!(settings().is_valid());
    let equal = BreakConfig { pre_break_minutes: 20, pre_break_seconds: 0, ..settings() };
    assert!(equal.is_valid());
    let late = BreakConfig { pre_break_minutes: 20, pre_break_seconds: 1, ..settings() };
    assert!(!late.is_valid());
    let off = BreakConfig { pre_break: false, ..late };
    assert!(off.is_valid());
    let edge = BreakConfig { break_minutes: 71582788, break_seconds: 15, ..settings() };
    assert_eq!(edge.interval_seconds(), 4294967295);
    assert!(edge.is_valid());
    let over = BreakConfig { break_minutes: 71582788, break_seconds: 16, ..settings() };
    assert!(!over.is_valid());
    let long_break = BreakConfig { break_duration_minutes: 71582788, break_duration_seconds: 16, ..settings() };
    assert!(!long_break.is_valid());
}

#[test]
fn force_break_command_defaults_to_five_minutes() {
    let mut windows = WindowManager::new();
    let request = force_break_window(&mut windows, None).unwrap();
    assert_eq!(DEFAULT_FORCE_BREAK_SECONDS, 300);
    assert_eq!(request.config.url, "force_break.html?duration=300");
    assert_eq!(request.config.label, "force_break");
    assert!(!request.config.visible);
    assert_eq!(request.close_first, None);
    assert_eq!(
        request.steps,
        vec![
            WindowStep::Build,
            WindowStep::Show,
            WindowStep::SetAlwaysOnTop,
            WindowStep::SetFocus,
            WindowStep::SignalReady,
        ]
    );
    assert!(windows.is_open("force_break"));
    let again = force_break_window(&mut windows, Some(45)).unwrap();
    assert_eq!(again.config.url, "force_break.html?duration=45");
    assert_eq!(again.close_first, Some(request.ticket));
    assert_eq!(windows.live_count("force_break"), 1);
}

#[test]
fn notify_command_defaults_to_ten_minutes() {
    let mut windows = WindowManager::new();
    let request = notify_window(&mut windows, Some((1920, 1080)), None).unwrap();
    assert_eq!(DEFAULT_NOTIFY_SECONDS, 600);
    assert_eq!(request.config.url, "notify.html?duration=600");
    let short = notify_window(&mut windows, None, Some(90)).unwrap();
    assert_eq!(short.config.url, "notify.html?duration=90");
    assert_eq!(short.close_first, Some(request.ticket));
}

#[test]
fn notify_command_positions_the_reminder_for_its_content() {
    let mut windows = WindowManager::new();
    let request = notify_window(&mut windows, Some((1920, 1080)), Some(600)).unwrap();
    assert_eq!((NOTIFY_ANCHOR_WIDTH, NOTIFY_ANCHOR_HEIGHT), (480, 320));
    assert_eq!(request.config.label, "notify");
    assert!(!request.config.visible);
    assert_eq!((request.config.width, request.config.height), (480, 350));
    assert_eq!(request.config.position, Some((720, 365)));
    assert_eq!(
        request.steps,
        vec![
            WindowStep::Build,
            WindowStep::SignalPositioned,
            WindowStep::SetPosition { x: 720, y: 380 },
            WindowStep::Show,
            WindowStep::SetAlwaysOnTop,
            WindowStep::SetFocus,
        ]
    );
    let other = notify_window(&mut windows, Some((2560, 1440)), Some(600)).unwrap();
    assert_eq!(other.config.position, Some((1040, 545)));
    assert_eq!(other.steps[2], WindowStep::SetPosition { x: 1040, y: 560 });
}

#[test]
fn pre_break_command_replaces_an_open_warning() {
    let mut windows = WindowManager::new();
    let config = settings();
    let first = pre_break_notification_window(&mut windows, None, Some(30), &config).unwrap();
    let second = pre_break_notification_window(&mut windows, None, Some(29), &config).unwrap();
    assert_eq!(first.config.url, "pre_break.html?seconds=30");
    assert_eq!(second.config.url, "pre_break.html?seconds=29");
    assert_eq!(second.close_first, Some(first.ticket));
    assert_eq!(second.config.position, Some((850, 870)));
    assert_eq!(second.steps[2], WindowStep::SetPosition { x: 850, y: 870 });
    assert_eq!(windows.live_count("pre_break"), 1);
}

#[test]
fn pre_break_command_shows_the_lead_time_where_no_seconds_are_given() {
    let mut windows = WindowManager::new();
    let config = BreakConfig { pre_break_minutes: 1, pre_break_seconds: 15, ..settings() };
    let request = pre_break_notification_window(&mut windows, None, None, &config).unwrap();
    assert_eq!(request.config.url, "pre_break.html?seconds=75");
    assert_eq!(warning_seconds(None, &config), 75);
    assert_eq!(warning_seconds(Some(3), &config), 3);
    assert_eq!(warning_seconds(Some(0), &config), 0);
    let edge = BreakConfig { pre_break_minutes: 71582788, pre_break_seconds: 15, ..settings() };
    assert_eq!(warning_seconds(None, &edge), u32::MAX);
    let over = BreakConfig { pre_break_minutes: 71582788, pre_break_seconds: 16, ..settings() };
    assert_eq!(warning_seconds(None, &over), u32::MAX);
    let huge = BreakConfig { pre_break_minutes: u32::MAX, pre_break_seconds: u32::MAX, ..settings() };
    assert_eq!(warning_seconds(None, &huge), u32::MAX);
}

#[test]
fn meeting_toast_closes_by_itself() {
    let mut windows = WindowManager::new();
    let toast = meeting_detected_notification(&mut windows, Some((1920, 1080))).unwrap();
    assert_eq!(MEETING_TOAST_SECONDS, 4);
    assert_eq!(MEETING_TOAST_MARGIN, 250);
    assert_eq!(toast.close_after_seconds, 4);
    assert_eq!(toast.request.config.label, "meeting_notification");
    assert_eq!(toast.request.config.url, "meeting_notification.html");
    assert_eq!((toast.request.config.width, toast.request.config.height), (240, 90));
    assert!(!toast.request.config.visible);
    assert!(!toast.request.config.focused);
    assert_eq!(toast.request.config.position, Some((840, 740)));
    assert_eq!(toast.request.close_first, None);
    assert_eq!(
        toast.request.steps,
        vec![
            WindowStep::Build,
            WindowStep::SignalPositioned,
            WindowStep::SetPosition { x: 840, y: 740 },
            WindowStep::Show,
            WindowStep::SetAlwaysOnTop,
        ]
    );
    assert!(windows.is_open("meeting_notification"));
    let again = meeting_detected_notification(&mut windows, None).unwrap();
    assert_eq!(again.request.close_first, Some(toast.request.ticket));
    assert_eq!(again.request.config.position, Some((840, 740)));
}

#[test]
fn debug_window_command() {
    let mut windows = WindowManager::new();
    let request = debug_test_window(&mut windows).unwrap();
    assert_eq!(request.config.label, "debug_test");
    assert!(!request.config.visible);
    assert_eq!(
        request.steps,
        vec![
            WindowStep::Build,
            WindowStep::SignalPositioned,
            WindowStep::SetPosition { x: 200, y: 200 },
            WindowStep::Show,
            WindowStep::SetAlwaysOnTop,
            WindowStep::SetFocus,
        ]
    );
}

#[test]
fn dispatch_opens_the_window_that_is_asked_for() {
    let mut windows = WindowManager::new();
    let screen = Some((1920, 1080));
    match dispatch(&mut windows, screen, SchedulerAction::ShowPreBreak { remaining_seconds: 30 }) {
        Ok(Some(PlatformRequest::Open { request })) => {
            assert_eq!(request.config.label, "pre_break");
            assert_eq!(request.config.url, "pre_break.html?seconds=30");
            assert_eq!(request.ticket, 0);
            assert_eq!(request.steps[2], WindowStep::SetPosition { x: 850, y: 870 });
        }
        other => panic!("unexpected {:?}", other),
    }
    let force = SchedulerAction::ShowBreak { mode: BreakMode::Force, duration_seconds: 120 };
    match dispatch(&mut windows, screen, force) {
        Ok(Some(PlatformRequest::Open { request })) => {
            assert_eq!(request.config.url, "force_break.html?duration=120");
            assert!(request.config.fullscreen);
            assert_eq!(request.steps.last(), Some(&WindowStep::SignalReady));
        }
        other => panic!("unexpected {:?}", other),
    }
    let notify = SchedulerAction::ShowBreak { mode: BreakMode::Notify, duration_seconds: 60 };
    match dispatch(&mut windows, screen, notify) {
        Ok(Some(PlatformRequest::Open { request })) => {
            assert_eq!(request.config.url, "notify.html?duration=60");
            assert_eq!(request.config.position, Some((720, 365)));
            assert_eq!(request.steps[2], WindowStep::SetPosition { x: 720, y: 380 });
            assert_eq!(request.ticket, 2);
        }
        other => panic!("unexpected {:?}", other),
    }
    assert_eq!(windows.len(), 3);
}

#[test]
fn dispatch_closes_only_what_is_live() {
    let mut windows = WindowManager::new();
    let close = SchedulerAction::CloseWindow { kind: WindowKind::PreBreak };
    assert!(matches!(dispatch(&mut windows, None, close), Ok(None)));
    let _ = pre_break_notification_window(&mut windows, None, Some(10), &settings()).unwrap();
    assert!(matches!(
        dispatch(&mut windows, None, close),
        Ok(Some(PlatformRequest::Close { kind: WindowKind::PreBreak, ticket: 0 }))
    ));
    assert!(!windows.is_open("pre_break"));
    assert!(matches!(dispatch(&mut windows, None, close), Ok(None)));
}

#[test]
fn dispatch_hands_the_chime_on() {
    let mut windows = WindowManager::new();
    assert!(matches!(
        dispatch(&mut windows, None, SchedulerAction::PlayChime),
        Ok(Some(PlatformRequest::PlayChime))
    ));
    assert_eq!(windows.len(), 0);
}

#[test]
fn media_actions_by_name() {
    assert_eq!(parse_media_action("pause"), Ok(MediaAction::Pause));
    assert_eq!(parse_media_action("playpause"), Ok(MediaAction::PlayPauseToggle));
    assert_eq!(
        parse_media_action("stop"),
        Err(CapabilityError::Unsupported { capability: Capability::MediaKey })
    );
    assert_eq!(media_key(MediaAction::Pause), MediaKey::Stop);
    assert_eq!(media_key(MediaAction::PlayPauseToggle), MediaKey::PlayPause);
}

#[test]
fn control_media_picks_the_key() {
    assert_eq!(control_media("pause"), Ok(MediaKey::Stop));
    assert_eq!(control_media("playpause"), Ok(MediaKey::PlayPause));
    let unknown = control_media("PAUSE").unwrap_err();
    assert_eq!(unknown, CapabilityError::Unsupported { capability: Capability::MediaKey });
    assert_eq!(unknown.message(), "Unsupported media action");
}

#[test]
fn lock_screen_only_on_windows() {
    assert_eq!(
        lock_screen(true),
        Ok(PlatformCommand {
            program: "rundll32.exe".to_string(),
            args: vec!["user32.dll,LockWorkStation".to_string()],
        })
    );
    let refused = lock_screen(false).unwrap_err();
    assert_eq!(refused, CapabilityError::Unsupported { capability: Capability::LockScreen });
    assert_eq!(refused.message(), "Lock screen only supported on Windows");
}

#[test]
fn chime_tries_two_ways_and_reports_both_failures() {
    let mut failures: Vec<String> = Vec::new();
    assert_eq!(play_chime(true, &failures), ChimeStep::Run { method: ChimeMethod::SystemSounds });
    failures.push("no powershell".to_string());
    assert_eq!(play_chime(true, &failures), ChimeStep::Run { method: ChimeMethod::MessageBeep });
    failures.push("no rundll32".to_string());
    match play_chime(true, &failures) {
        ChimeStep::Failed { error } => {
            assert_eq!(
                error,
                CapabilityError::OsError {
                    capability: Capability::Chime,
                    detail: "SystemSounds error: no powershell, MessageBeep error: no rundll32"
                        .to_string(),
                }
            );
            assert_eq!(
                error.message(),
                "Failed to play chime: SystemSounds error: no powershell, MessageBeep error: no rundll32"
            );
        }
        other => panic!("unexpected {:?}", other),
    }
}

#[test]
fn chime_is_not_supported_off_windows() {
    let step = play_chime(false, &Vec::new());
    assert_eq!(
        step,
        ChimeStep::Failed { error: CapabilityError::Unsupported { capability: Capability::Chime } }
    );
    match step {
        ChimeStep::Failed { error } => {
            assert_eq!(error.message(), "Chime playback only supported on Windows")
        }
        other => panic!("unexpected {:?}", other),
    }
}

#[test]
fn chime_commands() {
    assert_eq!(
        chime_command(ChimeMethod::SystemSounds),
        PlatformCommand {
            program: "powershell".to_string(),
            args: vec![
                "-Command".to_string(),
                "[System.Media.SystemSounds]::Beep.Play()".to_string()
            ],
        }
    );
    assert_eq!(
        chime_command(ChimeMethod::MessageBeep),
        PlatformCommand {
            program: "rundll32".to_string(),
            args: vec!["user32.dll,MessageBeep".to_string(), "0".to_string()],
        }
    );
}

#[test]
fn capability_failures_in_words() {
    let lock = CapabilityError::OsError {
        capability: Capability::LockScreen,
        detail: "access denied".to_string(),
    };
    assert_eq!(lock.message(), "Failed to lock screen: access denied");
    let key = CapabilityError::OsError {
        capability: Capability::MediaKey,
        detail: String::new(),
    };
    assert_eq!(key.message(), "Failed to send media key: ");
}

#[test]
fn tray_menu_entries() {
    assert_eq!(menu_action("quit"), Some(TrayAction::Quit));
    assert_eq!(menu_action("show"), Some(TrayAction::ShowMain));
    assert_eq!(menu_action("hide"), Some(TrayAction::HideMain));
    assert_eq!(menu_action("about"), None);
    assert_eq!(menu_action(""), None);
}

#[test]
fn tray_click_toggles_the_main_window() {
    assert_eq!(click_action(true), TrayAction::HideMain);
    assert_eq!(click_action(false), TrayAction::ShowMain);
    assert_eq!(close_requested_action(), TrayAction::HideMain);
}

#[test]
fn settings_are_stored_field_by_field() {
    let stored = settings().to_settings();
    assert_eq!(
        stored,
        AppSettings {
            break_minutes: 20,
            break_seconds: 0,
            break_duration_minutes: 5,
            break_duration_seconds: 0,
            break_mode: "notify".to_string(),
            auto_pause: true,
            meeting_detect: true,
            pre_break: true,
            pre_break_minutes: 0,
            pre_break_seconds: 30,
            break_chime: false,
            recurring: true,
            autostart: false,
            auto_start_timer: false,
        }
    );
}

#[test]
fn stored_settings_round_trip() {
    let all_set = BreakConfig {
        break_minutes: 1,
        break_seconds: 2,
        break_duration_minutes: 3,
        break_duration_seconds: 4,
        break_mode: BreakMode::Force,
        auto_pause: false,
        meeting_detect: false,
        pre_break: false,
        pre_break_minutes: 5,
        pre_break_seconds: 6,
        break_chime: true,
        recurring: false,
        autostart: true,
        auto_start_timer: true,
    };
    for config in [settings(), all_set] {
        assert_eq!(BreakConfig::from_settings(&config.to_settings()), Ok(config));
    }
}

#[test]
fn stored_settings_with_unknown_mode_are_turned_down() {
    let mut stored = settings().to_settings();
    stored.break_mode = "lock".to_string();
    assert_eq!(BreakConfig::from_settings(&stored), Err(SettingsError::UnknownMode));
    assert_eq!(SettingsError::UnknownMode.message(), "Unknown break mode");
}

#[test]
fn scheduler_errors_in_words() {
    assert_eq!(SchedulerError::InvalidConfig.message(), "Settings cannot be run");
    assert_eq!(SchedulerError::AlreadyRunning.message(), "Timer is already running");
}

#[test]
fn dispatch_reports_exhausted_tickets() {
    let mut windows = WindowManager::starting_at(u64::MAX);
    let show = SchedulerAction::ShowPreBreak { remaining_seconds: 5 };
    assert!(matches!(
        dispatch(&mut windows, None, show),
        Err(break_reminder::window_manager::WindowError::TicketsExhausted)
    ));
    assert_eq!(windows.len(), 0);
}

#[test]
fn default_settings_can_be_run() {
    let config = BreakConfig::default();
    assert!(config.is_valid());
    assert_eq!(config.interval_seconds(), 1200);
    assert_eq!(config.duration_seconds(), 300);
    assert_eq!(config.lead_seconds(), 30);
    assert_eq!(config.break_mode, BreakMode::Notify);
    assert!(config.pre_break && config.recurring && config.break_chime);
    assert!(config.auto_pause && config.meeting_detect);
    assert!(!config.autostart && !config.auto_start_timer);
    assert!(break_reminder::scheduler::BreakScheduler::new(config).is_ok());
}

#[test]
fn skip_closes_the_break_family_and_nothing_else() {
    let mut windows = WindowManager::new();
    let screen = Some((1920, 1080));
    let _ = windows.ensure_singleton("main").unwrap();
    let _ = meeting_detected_notification(&mut windows, screen).unwrap();
    let _ = pre_break_notification_window(&mut windows, screen, Some(5), &settings()).unwrap();
    let _ = notify_window(&mut windows, screen, None).unwrap();
    let mut scheduler = break_reminder::scheduler::BreakScheduler::new(settings()).unwrap();
    let mut closed = Vec::new();
    for action in scheduler.skip_break() {
        match dispatch(&mut windows, screen, action) {
            Ok(Some(PlatformRequest::Close { kind, .. })) => closed.push(kind),
            Ok(None) => {}
            other => panic!("unexpected {:?}", other),
        }
    }
    assert_eq!(closed, vec![WindowKind::PreBreak, WindowKind::Notify]);
    assert!(!windows.is_open("pre_break"));
    assert!(!windows.is_open("force_break"));
    assert!(!windows.is_open("notify"));
    assert!(windows.is_open("main"));
    assert!(windows.is_open("meeting_notification"));
    assert_eq!(windows.len(), 2);
    for action in scheduler.skip_break() {
        assert!(matches!(dispatch(&mut windows, screen, action), Ok(None)));
    }
    assert_eq!(windows.len(), 2);
}
