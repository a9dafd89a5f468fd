//! Descriptors of the transient windows: everything that is needed to
//! materialise one of them.

use crate::geometry::{bottom_center_spec, center_spec, resolve_screen_spec};
use crate::text::{decimal_digits, decimal_string, percent_encode, percent_encoded};
use crate::window_manager::WindowManager;
use vstd::prelude::*;
use vstd::string::*;

verus! {

/// The transient windows that the application shows.
#[derive(Clone, Copy, Debug, PartialEq, Eq, Structural)]
pub enum WindowKind {
    /// The fullscreen break.
    ForceBreak,
    /// The break reminder that can be dismissed.
    Notify,
    /// The warning ahead of a break.
    PreBreak,
    /// The toast that tells of a detected meeting.
    MeetingNotification,
    /// The toast that tells of a new version.
    UpdateNotification,
}

impl WindowKind {
    /// The label under which a window of this kind is registered.
    pub open spec fn label_spec(self) -> Seq<char> {
        match self {
            WindowKind::ForceBreak => "force_break"@,
            WindowKind::Notify => "notify"@,
            WindowKind::PreBreak => "pre_break"@,
            WindowKind::MeetingNotification => "meeting_notification"@,
            WindowKind::UpdateNotification => "update_notification"@,
        }
    }

    /// The label under which a window of this kind is registered.
    pub fn label(self) -> (label: &'static str)
        ensures
            label@ == self.label_spec(),
    {
        match self {
            WindowKind::ForceBreak => "force_break",
            WindowKind::Notify => "notify",
            WindowKind::PreBreak => "pre_break",
            WindowKind::MeetingNotification => "meeting_notification",
            WindowKind::UpdateNotification => "update_notification",
        }
    }
}

/// What one transient window is made from.
#[derive(Clone, Debug)]
pub struct WindowConfig {
    /// Key of the window: one live window per label.
    pub label: String,
    /// Address of the content, relative to the application's pages.
    pub url: String,
    pub title: String,
    /// Inner width in pixels.
    pub width: u32,
    /// Inner height in pixels.
    pub height: u32,
    pub fullscreen: bool,
    pub always_on_top: bool,
    /// Whether the window has a native frame.
    pub decorations: bool,
    pub resizable: bool,
    /// Whether the window takes the input focus when it is shown.
    pub focused: bool,
    /// Whether the window is visible from the moment it is built.
    pub visible: bool,
    pub skip_taskbar: bool,
    pub maximized: bool,
    pub transparent: bool,
    pub shadow: bool,
    /// Where the upper left corner goes; `None` leaves it to the platform.
    pub position: Option<(i64, i64)>,
}

/// A window descriptor as a mathematical value.
pub struct WindowConfigView {
    pub label: Seq<char>,
    pub url: Seq<char>,
    pub title: Seq<char>,
    pub width: u32,
    pub height: u32,
    pub fullscreen: bool,
    pub always_on_top: bool,
    pub decorations: bool,
    pub resizable: bool,
    pub focused: bool,
    pub visible: bool,
    pub skip_taskbar: bool,
    pub maximized: bool,
    pub transparent: bool,
    pub shadow: bool,
    pub position: Option<(i64, i64)>,
}

impl View for WindowConfig {
    type V = WindowConfigView;

    open spec fn view(&self) -> WindowConfigView {
        WindowConfigView {
            label: self.label@,
            url: self.url@,
            title: self.title@,
            width: self.width,
            height: self.height,
            fullscreen: self.fullscreen,
            always_on_top: self.always_on_top,
            decorations: self.decorations,
            resizable: self.resizable,
            focused: self.focused,
            visible: self.visible,
            skip_taskbar: self.skip_taskbar,
            maximized: self.maximized,
            transparent: self.transparent,
            shadow: self.shadow,
            position: self.position,
        }
    }
}

/// The position that centres a window on the resolved screen.
pub open spec fn screen_center_spec(screen: Option<(u32, u32)>, width: u32, height: u32) -> (
    int,
    int,
) {
    let size = resolve_screen_spec(screen);
    center_spec(size.0 as int, size.1 as int, width as int, height as int)
}

/// The position at the bottom centre of the resolved screen.
pub open spec fn screen_bottom_center_spec(
    screen: Option<(u32, u32)>,
    width: u32,
    height: u32,
    margin_bottom: u32,
) -> (int, int) {
    let size = resolve_screen_spec(screen);
    bottom_center_spec(
        size.0 as int,
        size.1 as int,
        width as int,
        height as int,
        margin_bottom as int,
    )
}

/// A pair of coordinates as machine integers.
pub open spec fn as_position(p: (int, int)) -> (i64, i64) {
    (p.0 as i64, p.1 as i64)
}

/// The descriptor that `WindowConfig::default` builds.
pub open spec fn default_spec() -> WindowConfigView {
    WindowConfigView {
        label: Seq::empty(),
        url: Seq::empty(),
        title: Seq::empty(),
        width: 400,
        height: 300,
        fullscreen: false,
        always_on_top: false,
        decorations: true,
        resizable: true,
        focused: true,
        visible: false,
        skip_taskbar: false,
        maximized: false,
        transparent: false,
        shadow: true,
        position: None,
    }
}

/// The fullscreen break window for a break of `duration` seconds.
pub open spec fn force_break_spec(duration: u32) -> WindowConfigView {
    WindowConfigView {
        label: "force_break"@,
        url: "force_break.html?duration="@ + decimal_digits(duration as nat),
        title: "Break Time"@,
        width: 1920,
        height: 1080,
        fullscreen: true,
        always_on_top: true,
        decorations: false,
        resizable: false,
        focused: true,
        visible: false,
        skip_taskbar: true,
        maximized: true,
        transparent: false,
        shadow: false,
        position: None,
    }
}

/// The break reminder for a break of `duration` seconds, centred on the screen.
pub open spec fn notify_spec(screen: Option<(u32, u32)>, duration: u32) -> WindowConfigView {
    WindowConfigView {
        label: "notify"@,
        url: "notify.html?duration="@ + decimal_digits(duration as nat),
        title: "Break Time - Break Reminder Pro"@,
        width: 480,
        height: 350,
        fullscreen: false,
        always_on_top: true,
        decorations: true,
        resizable: false,
        focused: true,
        visible: false,
        skip_taskbar: false,
        maximized: false,
        transparent: false,
        shadow: true,
        position: Some(as_position(screen_center_spec(screen, 480, 350))),
    }
}

/// The warning that a break begins in `remaining_seconds`, at the bottom
/// centre of the screen.
pub open spec fn pre_break_spec(screen: Option<(u32, u32)>, remaining_seconds: u32) -> WindowConfigView {
    WindowConfigView {
        label: "pre_break"@,
        url: "pre_break.html?seconds="@ + decimal_digits(remaining_seconds as nat),
        title: "Pre-Break Warning"@,
        width: 220,
        height: 90,
        fullscreen: false,
        always_on_top: true,
        decorations: false,
        resizable: false,
        focused: false,
        visible: false,
        skip_taskbar: true,
        maximized: false,
        transparent: true,
        shadow: false,
        position: Some(as_position(screen_bottom_center_spec(screen, 220, 90, 120))),
    }
}

/// The toast that tells of a detected meeting, above the place of the
/// pre-break warning.
pub open spec fn meeting_notification_spec(screen: Option<(u32, u32)>) -> WindowConfigView {
    WindowConfigView {
        label: "meeting_notification"@,
        url: "meeting_notification.html"@,
        title: "Meeting Detected"@,
        width: 240,
        height: 90,
        fullscreen: false,
        always_on_top: true,
        decorations: false,
        resizable: false,
        focused: false,
        visible: false,
        skip_taskbar: true,
        maximized: false,
        transparent: true,
        shadow: false,
        position: Some(as_position(screen_bottom_center_spec(screen, 240, 90, 220))),
    }
}

/// The address of the update toast: its four values percent-encoded.
pub open spec fn update_url_spec(
    version: Seq<char>,
    notes: Seq<char>,
    download_url: Seq<char>,
    published_at: Seq<char>,
) -> Seq<char> {
    "update_notification.html?version="@ + percent_encoded(vstd::utf8::encode_utf8(version))
        + "&notes="@ + percent_encoded(vstd::utf8::encode_utf8(notes)) + "&url="@
        + percent_encoded(vstd::utf8::encode_utf8(download_url)) + "&date="@ + percent_encoded(
        vstd::utf8::encode_utf8(published_at),
    )
}

/// The toast that tells of a new version, centred on the screen.
pub open spec fn update_notification_spec(
    screen: Option<(u32, u32)>,
    version: Seq<char>,
    notes: Seq<char>,
    download_url: Seq<char>,
    published_at: Seq<char>,
) -> WindowConfigView {
    WindowConfigView {
        label: "update_notification"@,
        url: update_url_spec(version, notes, download_url, published_at),
        title: "Update Available"@,
        width: 450,
        height: 300,
        fullscreen: false,
        always_on_top: true,
        decorations: true,
        resizable: false,
        focused: true,
        visible: false,
        skip_taskbar: false,
        maximized: false,
        transparent: false,
        shadow: true,
        position: Some(as_position(screen_center_spec(screen, 450, 300))),
    }
}

/// The window that shows whether windows come up at all.
pub open spec fn debug_test_spec() -> WindowConfigView {
    WindowConfigView {
        label: "debug_test"@,
        url: "test.html"@,
        title: "Debug Test Window - Using test.html"@,
        width: 500,
        height: 400,
        fullscreen: false,
        always_on_top: true,
        decorations: true,
        resizable: true,
        focused: true,
        visible: false,
        skip_taskbar: false,
        maximized: false,
        transparent: false,
        shadow: true,
        position: Some((200i64, 200i64)),
    }
}

impl Default for WindowConfig {
    /// A plain window of 400 by 300 that starts hidden.
    fn default() -> (config: WindowConfig)
        ensures
            config@ == default_spec(),
    {
        WindowConfig {
            label: String::new(),
            url: String::new(),
            title: String::new(),
            width: 400,
            height: 300,
            fullscreen: false,
            always_on_top: false,
            decorations: true,
            resizable: true,
            focused: true,
            visible: false,
            skip_taskbar: false,
            maximized: false,
            transparent: false,
            shadow: true,
            position: None,
        }
    }
}

impl WindowConfig {
    /// The fullscreen break window for a break of `duration` seconds.
    pub fn force_break(duration: u32) -> (config: WindowConfig)
        ensures
            config@ == force_break_spec(duration),
    {
        let mut url = String::from_str("force_break.html?duration=");
        let digits = decimal_string(duration);
        url.append(digits.as_str());
        WindowConfig {
            label: String::from_str(WindowKind::ForceBreak.label()),
            url,
            title: String::from_str("Break Time"),
            width: 1920,
            height: 1080,
            fullscreen: true,
            always_on_top: true,
            decorations: false,
            resizable: false,
            focused: true,
            visible: false,
            skip_taskbar: true,
            maximized: true,
            transparent: false,
            shadow: false,
            position: None,
        }
    }

    /// The break reminder for a break of `duration` seconds, centred on the
    /// screen.
    pub fn notify(screen: Option<(u32, u32)>, duration: u32) -> (config: WindowConfig)
        ensures
            config@ == notify_spec(screen, duration),
    {
        let width: u32 = 480;
        let height: u32 = 350;
        let position = WindowManager::get_screen_center_position(screen, width, height);
        let mut url = String::from_str("notify.html?duration=");
        let digits = decimal_string(duration);
        url.append(digits.as_str());
        WindowConfig {
            label: String::from_str(WindowKind::Notify.label()),
            url,
            title: String::from_str("Break Time - Break Reminder Pro"),
            width,
            height,
            fullscreen: false,
            always_on_top: true,
            decorations: true,
            resizable: false,
            focused: true,
            visible: false,
            skip_taskbar: false,
            maximized: false,
            transparent: false,
            shadow: true,
            position: Some(position),
        }
    }

    /// The warning that a break begins in `remaining_seconds`, at the bottom
    /// centre of the screen.
    pub fn pre_break(screen: Option<(u32, u32)>, remaining_seconds: u32) -> (config: WindowConfig)
        ensures
            config@ == pre_break_spec(screen, remaining_seconds),
    {
        let width: u32 = 220;
        let height: u32 = 90;
        let position = WindowManager::get_bottom_center_position(screen, width, height, 120);
        let mut url = String::from_str("pre_break.html?seconds=");
        let digits = decimal_string(remaining_seconds);
        url.append(digits.as_str());
        WindowConfig {
            label: String::from_str(WindowKind::PreBreak.label()),
            url,
            title: String::from_str("Pre-Break Warning"),
            width,
            height,
            fullscreen: false,
            always_on_top: true,
            decorations: false,
            resizable: false,
            focused: false,
            visible: false,
            skip_taskbar: true,
            maximized: false,
            transparent: true,
            shadow: false,
            position: Some(position),
        }
    }

    /// The toast that tells of a detected meeting.
    pub fn meeting_notification(screen: Option<(u32, u32)>) -> (config: WindowConfig)
        ensures
            config@ == meeting_notification_spec(screen),
    {
        let width: u32 = 240;
        let height: u32 = 90;
        let position = WindowManager::get_bottom_center_position(screen, width, height, 220);
        WindowConfig {
            label: String::from_str(WindowKind::MeetingNotification.label()),
            url: String::from_str("meeting_notification.html"),
            title: String::from_str("Meeting Detected"),
            width,
            height,
            fullscreen: false,
            always_on_top: true,
            decorations: false,
            resizable: false,
            focused: false,
            visible: false,
            skip_taskbar: true,
            maximized: false,
            transparent: true,
            shadow: false,
            position: Some(position),
        }
    }

    /// The toast that tells of a new version. The four texts go into the
    /// address percent-encoded.
    pub fn update_notification(
        screen: Option<(u32, u32)>,
        version: String,
        notes: String,
        download_url: String,
        published_at: String,
    ) -> (config: WindowConfig)
        ensures
            config@ == update_notification_spec(
                screen,
                version@,
                notes@,
                download_url@,
                published_at@,
            ),
    {
        let width: u32 = 450;
        let height: u32 = 300;
        let position = WindowManager::get_screen_center_position(screen, width, height);
        let encoded_version = percent_encode(version.as_str());
        let encoded_notes = percent_encode(notes.as_str());
        let encoded_url = percent_encode(download_url.as_str());
        let encoded_date = percent_encode(published_at.as_str());
        let mut url = String::from_str("update_notification.html?version=");
        url.append(encoded_version.as_str());
        url.append("&notes=");
        url.append(encoded_notes.as_str());
        url.append("&url=");
        url.append(encoded_url.as_str());
        url.append("&date=");
        url.append(encoded_date.as_str());
        WindowConfig {
            label: String::from_str(WindowKind::UpdateNotification.label()),
            url,
            title: String::from_str("Update Available"),
            width,
            height,
            fullscreen: false,
            always_on_top: true,
            decorations: true,
            resizable: false,
            focused: true,
            visible: false,
            skip_taskbar: false,
            maximized: false,
            transparent: false,
            shadow: true,
            position: Some(position),
        }
    }

    /// The window that shows whether windows come up at all, at a fixed
    /// place.
    pub fn debug_test() -> (config: WindowConfig)
        ensures
            config@ == debug_test_spec(),
    {
        WindowConfig {
            label: String::from_str("debug_test"),
            url: String::from_str("test.html"),
            title: String::from_str("Debug Test Window - Using test.html"),
            width: 500,
            height: 400,
            fullscreen: false,
            always_on_top: true,
            decorations: true,
            resizable: true,
            focused: true,
            visible: false,
            skip_taskbar: false,
            maximized: false,
            transparent: false,
            shadow: true,
            position: Some((200, 200)),
        }
    }
}

} // verus!