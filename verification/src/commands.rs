//! The commands that turn requests into work for the platform: the window
//! commands of the user interface, and the dispatch of what the scheduler
//! emits to the window orchestrator.

use crate::config::{BreakConfig, BreakMode};
use crate::scheduler::SchedulerAction;
use crate::window_config::{
    as_position, debug_test_spec, force_break_spec, meeting_notification_spec, notify_spec,
    pre_break_spec, screen_bottom_center_spec, screen_center_spec, WindowConfig,
    WindowConfigView, WindowKind,
};
use crate::window_manager::{
    created, materialize_steps_spec, requested, steps_spec, ticket_of, without_label, WindowError,
    WindowManager, WindowRequest, WindowStep,
};
use vstd::prelude::*;

verus! {

/// Length in seconds of a forced break where none is given.
pub const DEFAULT_FORCE_BREAK_SECONDS: u32 = 300;

/// Length in seconds of a break reminder where none is given.
pub const DEFAULT_NOTIFY_SECONDS: u32 = 600;

/// Seconds after which the meeting toast closes by itself.
pub const MEETING_TOAST_SECONDS: u32 = 4;

/// Width of the break reminder as it is centred.
pub const NOTIFY_ANCHOR_WIDTH: u32 = 480;

/// Height of the break reminder as it is centred: that of its content. The
/// inner height of the window holds 30 more for the title bar.
pub const NOTIFY_ANCHOR_HEIGHT: u32 = 320;

/// Distance of the meeting toast from the lower edge of the screen.
pub const MEETING_TOAST_MARGIN: u32 = 250;

/// Work for the platform.
#[derive(Debug)]
pub enum PlatformRequest {
    /// Materialise a window.
    Open { request: WindowRequest },
    /// Close the window of `kind` that was registered under `ticket`.
    Close { kind: WindowKind, ticket: u64 },
    /// Sound the chime.
    PlayChime,
}

/// A request for a window that closes by itself.
#[derive(Debug)]
pub struct ToastRequest {
    pub request: WindowRequest,
    /// Seconds after which the window is to be closed.
    pub close_after_seconds: u32,
}

/// The given number of seconds, or `fallback` where none is given.
pub open spec fn seconds_or(duration: Option<u32>, fallback: u32) -> u32 {
    match duration {
        Some(seconds) => seconds,
        None => fallback,
    }
}

/// The seconds that the warning shows: those given, or, where none are
/// given, the lead time of the settings, at most what 32 bits hold.
pub open spec fn warning_seconds_spec(given: Option<u32>, config: BreakConfig) -> u32 {
    match given {
        Some(seconds) => seconds,
        None => if config.lead_spec() <= u32::MAX {
            config.lead_spec() as u32
        } else {
            u32::MAX
        },
    }
}

/// Where the break reminder is moved before it is shown: the centre of the
/// screen for a window of the size of its content.
pub open spec fn notify_anchor_spec(screen: Option<(u32, u32)>) -> (i64, i64) {
    as_position(screen_center_spec(screen, NOTIFY_ANCHOR_WIDTH, NOTIFY_ANCHOR_HEIGHT))
}

/// The steps of the break reminder: those of its descriptor, anchored at the
/// centre for its content.
pub open spec fn notify_steps_spec(screen: Option<(u32, u32)>, duration: u32) -> Seq<WindowStep> {
    steps_spec(notify_spec(screen, duration), Some(notify_anchor_spec(screen)), false)
}

/// The steps of the forced break: those of its descriptor, and at the end
/// the signal that the window is on the screen.
pub open spec fn force_break_steps_spec(duration: u32) -> Seq<WindowStep> {
    steps_spec(force_break_spec(duration), None, true)
}

/// The descriptor of the meeting toast as the command shows it: that of the
/// meeting notification, `MEETING_TOAST_MARGIN` above the lower edge.
pub open spec fn meeting_toast_spec(screen: Option<(u32, u32)>) -> WindowConfigView {
    WindowConfigView {
        position: Some(
            as_position(screen_bottom_center_spec(screen, 240, 90, MEETING_TOAST_MARGIN)),
        ),
        ..meeting_notification_spec(screen)
    }
}

/// The descriptor and the steps of the window that `action` asks to show, if
/// it asks for one.
pub open spec fn plan_of(action: SchedulerAction, screen: Option<(u32, u32)>) -> Option<
    (WindowConfigView, Seq<WindowStep>),
> {
    match action {
        SchedulerAction::ShowPreBreak { remaining_seconds } => Some(
            (
                pre_break_spec(screen, remaining_seconds),
                materialize_steps_spec(pre_break_spec(screen, remaining_seconds)),
            ),
        ),
        SchedulerAction::ShowBreak { mode: BreakMode::Force, duration_seconds } => Some(
            (force_break_spec(duration_seconds), force_break_steps_spec(duration_seconds)),
        ),
        SchedulerAction::ShowBreak { mode: BreakMode::Notify, duration_seconds } => Some(
            (notify_spec(screen, duration_seconds), notify_steps_spec(screen, duration_seconds)),
        ),
        _ => None,
    }
}

/// What dispatching `action` comes to. A request to show a window is taken
/// as the window's own command takes it. A request to close takes the window
/// out of the registry and names it for closing, or does nothing where the
/// window is not live. The chime is handed on.
pub open spec fn dispatched(
    before: WindowManager,
    after: WindowManager,
    screen: Option<(u32, u32)>,
    action: SchedulerAction,
    outcome: Result<Option<PlatformRequest>, WindowError>,
) -> bool {
    match action {
        SchedulerAction::CloseWindow { kind } => {
            &&& after@ == without_label(before@, kind.label_spec())
            &&& after.next_ticket() == before.next_ticket()
            &&& outcome is Ok
            &&& match ticket_of(before@, kind.label_spec()) {
                Some(ticket) => outcome->Ok_0 matches Some(
                    PlatformRequest::Close { kind: k, ticket: t },
                ) && k == kind && t == ticket,
                None => outcome->Ok_0 is None,
            }
        },
        SchedulerAction::PlayChime => {
            &&& after@ == before@
            &&& after.next_ticket() == before.next_ticket()
            &&& outcome matches Ok(Some(PlatformRequest::PlayChime))
        },
        _ => {
            let (config, steps) = plan_of(action, screen)->0;
            match outcome {
                Ok(Some(PlatformRequest::Open { request })) => requested(
                    before,
                    after,
                    config,
                    steps,
                    Ok(request),
                ),
                Err(e) => requested(before, after, config, steps, Err(e)),
                _ => false,
            }
        },
    }
}

/// The seconds that the warning shows: those given, or, where none are
/// given, the lead time of the settings.
pub fn warning_seconds(given: Option<u32>, config: &BreakConfig) -> (seconds: u32)
    ensures
        seconds == warning_seconds_spec(given, *config),
{
    match given {
        Some(seconds) => seconds,
        None => {
            let lead: u64 = config.lead_seconds();
            if lead <= 0xffff_ffff {
                lead as u32
            } else {
                u32::MAX
            }
        },
    }
}

/// Requests the fullscreen break window for a break of `duration` seconds,
/// five minutes where none is given. When the window is on the screen its
/// content is told so.
pub fn force_break_window(windows: &mut WindowManager, duration: Option<u32>) -> (outcome: Result<
    WindowRequest,
    WindowError,
>)
    ensures
        requested(
            *old(windows),
            *final(windows),
            force_break_spec(seconds_or(duration, DEFAULT_FORCE_BREAK_SECONDS)),
            force_break_steps_spec(seconds_or(duration, DEFAULT_FORCE_BREAK_SECONDS)),
            outcome,
        ),
{
    let seconds: u32 = match duration {
        Some(seconds) => seconds,
        None => DEFAULT_FORCE_BREAK_SECONDS,
    };
    windows.request_window(WindowConfig::force_break(seconds), None, true)
}

/// Requests the break reminder for a break of `duration` seconds, ten
/// minutes where none is given. A reminder that is still open is replaced.
/// Before it is shown the reminder is moved to the centre of the screen for
/// its content of `NOTIFY_ANCHOR_WIDTH` by `NOTIFY_ANCHOR_HEIGHT`.
pub fn notify_window(
    windows: &mut WindowManager,
    screen: Option<(u32, u32)>,
    duration: Option<u32>,
) -> (outcome: Result<WindowRequest, WindowError>)
    ensures
        requested(
            *old(windows),
            *final(windows),
            notify_spec(screen, seconds_or(duration, DEFAULT_NOTIFY_SECONDS)),
            notify_steps_spec(screen, seconds_or(duration, DEFAULT_NOTIFY_SECONDS)),
            outcome,
        ),
{
    let seconds: u32 = match duration {
        Some(seconds) => seconds,
        None => DEFAULT_NOTIFY_SECONDS,
    };
    let anchor = WindowManager::get_screen_center_position(
        screen,
        NOTIFY_ANCHOR_WIDTH,
        NOTIFY_ANCHOR_HEIGHT,
    );
    windows.request_window(WindowConfig::notify(screen, seconds), Some(anchor), false)
}

/// Requests the warning ahead of a break. It shows `remaining_seconds`, or
/// the lead time of `config` where none are given. A warning that is still
/// open is replaced.
pub fn pre_break_notification_window(
    windows: &mut WindowManager,
    screen: Option<(u32, u32)>,
    remaining_seconds: Option<u32>,
    config: &BreakConfig,
) -> (outcome: Result<WindowRequest, WindowError>)
    ensures
        created(
            *old(windows),
            *final(windows),
            pre_break_spec(screen, warning_seconds_spec(remaining_seconds, *config)),
            outcome,
        ),
{
    let seconds = warning_seconds(remaining_seconds, config);
    windows.create_window(WindowConfig::pre_break(screen, seconds))
}

/// Requests the toast that tells of a detected meeting,
/// `MEETING_TOAST_MARGIN` above the lower edge of the screen. A toast that
/// is still open is replaced. The toast closes by itself after
/// `MEETING_TOAST_SECONDS`.
pub fn meeting_detected_notification(windows: &mut WindowManager, screen: Option<(u32, u32)>) -> (outcome:
    Result<ToastRequest, WindowError>)
    ensures
        match outcome {
            Ok(toast) => toast.close_after_seconds == MEETING_TOAST_SECONDS && created(
                *old(windows),
                *final(windows),
                meeting_toast_spec(screen),
                Ok(toast.request),
            ),
            Err(e) => created(*old(windows), *final(windows), meeting_toast_spec(screen), Err(e)),
        },
{
    let mut config = WindowConfig::meeting_notification(screen);
    config.position = Some(
        WindowManager::get_bottom_center_position(screen, 240, 90, MEETING_TOAST_MARGIN),
    );
    match windows.create_window(config) {
        Ok(request) => Ok(ToastRequest { request, close_after_seconds: MEETING_TOAST_SECONDS }),
        Err(e) => Err(e),
    }
}

/// Requests the window that shows whether windows come up at all.
pub fn debug_test_window(windows: &mut WindowManager) -> (outcome: Result<
    WindowRequest,
    WindowError,
>)
    ensures
        created(*old(windows), *final(windows), debug_test_spec(), outcome),
{
    windows.create_window(WindowConfig::debug_test())
}

/// Hands one request of the scheduler to the orchestrator and returns the
/// work that it leaves for the platform, if any.
pub fn dispatch(
    windows: &mut WindowManager,
    screen: Option<(u32, u32)>,
    action: SchedulerAction,
) -> (outcome: Result<Option<PlatformRequest>, WindowError>)
    ensures
        dispatched(*old(windows), *final(windows), screen, action, outcome),
{
    match action {
        SchedulerAction::ShowPreBreak { remaining_seconds } => {
            match windows.create_window(WindowConfig::pre_break(screen, remaining_seconds)) {
                Ok(request) => Ok(Some(PlatformRequest::Open { request })),
                Err(e) => Err(e),
            }
        },
        SchedulerAction::ShowBreak { mode, duration_seconds } => {
            let taken = match mode {
                BreakMode::Force => force_break_window(windows, Some(duration_seconds)),
                BreakMode::Notify => notify_window(windows, screen, Some(duration_seconds)),
            };
            match taken {
                Ok(request) => Ok(Some(PlatformRequest::Open { request })),
                Err(e) => Err(e),
            }
        },
        SchedulerAction::CloseWindow { kind } => {
            match windows.close_existing_window(kind.label()) {
                Some(ticket) => Ok(Some(PlatformRequest::Close { kind, ticket })),
                None => Ok(None),
            }
        },
        SchedulerAction::PlayChime => Ok(Some(PlatformRequest::PlayChime)),
    }
}

} // verus!
