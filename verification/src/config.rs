//! The settings of the break cycle.

use crate::text::same_text;
use vstd::prelude::*;
use vstd::string::*;

verus! {

/// How a break is presented.
#[derive(Clone, Copy, Debug, PartialEq, Eq, Structural)]
pub enum BreakMode {
    /// A reminder that the user may dismiss early.
    Notify,
    /// A fullscreen break that blocks input.
    Force,
}

/// The mode that a settings file names with `name`.
pub open spec fn mode_of_name(name: Seq<char>) -> Option<BreakMode> {
    if name == "notify"@ {
        Some(BreakMode::Notify)
    } else if name == "force"@ {
        Some(BreakMode::Force)
    } else {
        None
    }
}

impl BreakMode {
    /// The name of the mode in a settings file.
    pub open spec fn name_spec(self) -> Seq<char> {
        match self {
            BreakMode::Notify => "notify"@,
            BreakMode::Force => "force"@,
        }
    }

    /// The name of the mode in a settings file.
    pub fn name(self) -> (name: &'static str)
        ensures
            name@ == self.name_spec(),
    {
        match self {
            BreakMode::Notify => "notify",
            BreakMode::Force => "force",
        }
    }

    /// Reads a mode from its name in a settings file; `None` for any other
    /// text.
    pub fn from_name(name: &str) -> (mode: Option<BreakMode>)
        ensures
            mode == mode_of_name(name@),
    {
        if same_text(name, "notify") {
            Some(BreakMode::Notify)
        } else if same_text(name, "force") {
            Some(BreakMode::Force)
        } else {
            None
        }
    }
}

/// Every mode is read back from its own name.
pub proof fn lemma_mode_name_round_trip(mode: BreakMode)
    ensures
        mode_of_name(mode.name_spec()) == Some(mode),
{
    reveal_strlit("notify");
    reveal_strlit("force");
    assert("force"@.len() != "notify"@.len());
}

/// The length in seconds of a duration given as minutes and seconds.
pub open spec fn total_seconds(minutes: u32, seconds: u32) -> int {
    minutes * 60 + seconds
}

/// The settings of the break cycle.
#[derive(Clone, Copy, Debug, PartialEq, Eq, Structural)]
pub struct BreakConfig {
    /// Time from one break to the next: minutes.
    pub break_minutes: u32,
    /// Time from one break to the next: seconds on top of the minutes.
    pub break_seconds: u32,
    /// Length of a break: minutes.
    pub break_duration_minutes: u32,
    /// Length of a break: seconds on top of the minutes.
    pub break_duration_seconds: u32,
    pub break_mode: BreakMode,
    /// Whether a detected meeting suspends the countdown.
    pub auto_pause: bool,
    /// Whether meetings are looked for at all.
    pub meeting_detect: bool,
    /// Whether a warning is shown ahead of a break.
    pub pre_break: bool,
    /// How long ahead of a break the warning is shown: minutes.
    pub pre_break_minutes: u32,
    /// How long ahead of a break the warning is shown: seconds on top.
    pub pre_break_seconds: u32,
    /// Whether a chime sounds when a break begins.
    pub break_chime: bool,
    /// Whether the countdown starts again after a break.
    pub recurring: bool,
    /// Whether the application starts with the session.
    pub autostart: bool,
    /// Whether the countdown starts with the application.
    pub auto_start_timer: bool,
}

impl BreakConfig {
    /// Seconds from one break to the next.
    pub open spec fn interval_spec(self) -> int {
        total_seconds(self.break_minutes, self.break_seconds)
    }

    /// Seconds that a break lasts.
    pub open spec fn duration_spec(self) -> int {
        total_seconds(self.break_duration_minutes, self.break_duration_seconds)
    }

    /// Seconds ahead of a break at which the warning is shown.
    pub open spec fn lead_spec(self) -> int {
        total_seconds(self.pre_break_minutes, self.pre_break_seconds)
    }

    /// The settings can be run: the interval and the length of a break fit
    /// in 32 bits of seconds, and, where warnings are on, the warning does
    /// not come before the countdown starts.
    pub open spec fn is_valid_spec(self) -> bool {
        &&& self.interval_spec() <= u32::MAX
        &&& self.duration_spec() <= u32::MAX
        &&& self.pre_break ==> self.lead_spec() <= self.interval_spec()
    }

    /// Seconds from one break to the next.
    pub fn interval_seconds(&self) -> (seconds: u64)
        ensures
            seconds == self.interval_spec(),
    {
        self.break_minutes as u64 * 60 + self.break_seconds as u64
    }

    /// Seconds that a break lasts.
    pub fn duration_seconds(&self) -> (seconds: u64)
        ensures
            seconds == self.duration_spec(),
    {
        self.break_duration_minutes as u64 * 60 + self.break_duration_seconds as u64
    }

    /// Seconds ahead of a break at which the warning is shown.
    pub fn lead_seconds(&self) -> (seconds: u64)
        ensures
            seconds == self.lead_spec(),
    {
        self.pre_break_minutes as u64 * 60 + self.pre_break_seconds as u64
    }

    /// Whether the settings can be run.
    pub fn is_valid(&self) -> (valid: bool)
        ensures
            valid == self.is_valid_spec(),
    {
        let limit: u64 = u32::MAX as u64;
        self.interval_seconds() <= limit && self.duration_seconds() <= limit && (!self.pre_break
            || self.lead_seconds() <= self.interval_seconds())
    }
}

/// The settings that apply where none are stored.
pub open spec fn default_config() -> BreakConfig {
    BreakConfig {
        break_minutes: 20,
        break_seconds: 0,
        break_duration_minutes: 5,
        break_duration_seconds: 0,
        break_mode: BreakMode::Notify,
        auto_pause: true,
        meeting_detect: true,
        pre_break: true,
        pre_break_minutes: 0,
        pre_break_seconds: 30,
        break_chime: true,
        recurring: true,
        autostart: false,
        auto_start_timer: false,
    }
}

impl Default for BreakConfig {
    /// A reminder every twenty minutes for a break of five, announced half a
    /// minute ahead, paused during meetings. These settings can be run.
    fn default() -> (config: BreakConfig)
        ensures
            config == default_config(),
            config.is_valid_spec(),
    {
        BreakConfig {
            break_minutes: 20,
            break_seconds: 0,
            break_duration_minutes: 5,
            break_duration_seconds: 0,
            break_mode: BreakMode::Notify,
            auto_pause: true,
            meeting_detect: true,
            pre_break: true,
            pre_break_minutes: 0,
            pre_break_seconds: 30,
            break_chime: true,
            recurring: true,
            autostart: false,
            auto_start_timer: false,
        }
    }
}

/// The settings as they are stored: the fields of `BreakConfig`, with the
/// mode by its name.
#[derive(Clone, Debug, PartialEq, Eq)]
pub struct AppSettings {
    pub break_minutes: u32,
    pub break_seconds: u32,
    pub break_duration_minutes: u32,
    pub break_duration_seconds: u32,
    pub break_mode: String,
    pub auto_pause: bool,
    pub meeting_detect: bool,
    pub pre_break: bool,
    pub pre_break_minutes: u32,
    pub pre_break_seconds: u32,
    pub break_chime: bool,
    pub recurring: bool,
    pub autostart: bool,
    pub auto_start_timer: bool,
}

/// Stored settings as a mathematical value.
pub struct AppSettingsView {
    pub break_minutes: u32,
    pub break_seconds: u32,
    pub break_duration_minutes: u32,
    pub break_duration_seconds: u32,
    pub break_mode: Seq<char>,
    pub auto_pause: bool,
    pub meeting_detect: bool,
    pub pre_break: bool,
    pub pre_break_minutes: u32,
    pub pre_break_seconds: u32,
    pub break_chime: bool,
    pub recurring: bool,
    pub autostart: bool,
    pub auto_start_timer: bool,
}

impl View for AppSettings {
    type V = AppSettingsView;

    open spec fn view(&self) -> AppSettingsView {
        AppSettingsView {
            break_minutes: self.break_minutes,
            break_seconds: self.break_seconds,
            break_duration_minutes: self.break_duration_minutes,
            break_duration_seconds: self.break_duration_seconds,
            break_mode: self.break_mode@,
            auto_pause: self.auto_pause,
            meeting_detect: self.meeting_detect,
            pre_break: self.pre_break,
            pre_break_minutes: self.pre_break_minutes,
            pre_break_seconds: self.pre_break_seconds,
            break_chime: self.break_chime,
            recurring: self.recurring,
            autostart: self.autostart,
            auto_start_timer: self.auto_start_timer,
        }
    }
}

/// Why stored settings could not be taken.
#[derive(Clone, Copy, Debug, PartialEq, Eq, Structural)]
pub enum SettingsError {
    /// The mode is named by a text that names no mode.
    UnknownMode,
}

impl SettingsError {
    /// The error in words.
    pub open spec fn message_spec(self) -> Seq<char> {
        match self {
            SettingsError::UnknownMode => "Unknown break mode"@,
        }
    }

    /// The error in words.
    pub fn message(&self) -> (text: String)
        ensures
            text@ == self.message_spec(),
    {
        match self {
            SettingsError::UnknownMode => String::from_str("Unknown break mode"),
        }
    }
}

/// The stored form of `config`: every field as it is, the mode by its name.
pub open spec fn stored(config: BreakConfig) -> AppSettingsView {
    AppSettingsView {
        break_minutes: config.break_minutes,
        break_seconds: config.break_seconds,
        break_duration_minutes: config.break_duration_minutes,
        break_duration_seconds: config.break_duration_seconds,
        break_mode: config.break_mode.name_spec(),
        auto_pause: config.auto_pause,
        meeting_detect: config.meeting_detect,
        pre_break: config.pre_break,
        pre_break_minutes: config.pre_break_minutes,
        pre_break_seconds: config.pre_break_seconds,
        break_chime: config.break_chime,
        recurring: config.recurring,
        autostart: config.autostart,
        auto_start_timer: config.auto_start_timer,
    }
}

/// The settings that `settings` store, where their mode is known.
pub open spec fn restored(settings: AppSettingsView) -> Result<BreakConfig, SettingsError> {
    match mode_of_name(settings.break_mode) {
        Some(mode) => Ok(
            BreakConfig {
                break_minutes: settings.break_minutes,
                break_seconds: settings.break_seconds,
                break_duration_minutes: settings.break_duration_minutes,
                break_duration_seconds: settings.break_duration_seconds,
                break_mode: mode,
                auto_pause: settings.auto_pause,
                meeting_detect: settings.meeting_detect,
                pre_break: settings.pre_break,
                pre_break_minutes: settings.pre_break_minutes,
                pre_break_seconds: settings.pre_break_seconds,
                break_chime: settings.break_chime,
                recurring: settings.recurring,
                autostart: settings.autostart,
                auto_start_timer: settings.auto_start_timer,
            },
        ),
        None => Err(SettingsError::UnknownMode),
    }
}

impl BreakConfig {
    /// The stored form of the settings.
    pub fn to_settings(&self) -> (settings: AppSettings)
        ensures
            settings@ == stored(*self),
    {
        AppSettings {
            break_minutes: self.break_minutes,
            break_seconds: self.break_seconds,
            break_duration_minutes: self.break_duration_minutes,
            break_duration_seconds: self.break_duration_seconds,
            break_mode: String::from_str(self.break_mode.name()),
            auto_pause: self.auto_pause,
            meeting_detect: self.meeting_detect,
            pre_break: self.pre_break,
            pre_break_minutes: self.pre_break_minutes,
            pre_break_seconds: self.pre_break_seconds,
            break_chime: self.break_chime,
            recurring: self.recurring,
            autostart: self.autostart,
            auto_start_timer: self.auto_start_timer,
        }
    }

    /// Takes stored settings. Every field is taken as it is; a mode that is
    /// named by an unknown text is an error.
    pub fn from_settings(settings: &AppSettings) -> (config: Result<BreakConfig, SettingsError>)
        ensures
            config == restored(settings@),
    {
        match BreakMode::from_name(settings.break_mode.as_str()) {
            Some(mode) => Ok(
                BreakConfig {
                    break_minutes: settings.break_minutes,
                    break_seconds: settings.break_seconds,
                    break_duration_minutes: settings.break_duration_minutes,
                    break_duration_seconds: settings.break_duration_seconds,
                    break_mode: mode,
                    auto_pause: settings.auto_pause,
                    meeting_detect: settings.meeting_detect,
                    pre_break: settings.pre_break,
                    pre_break_minutes: settings.pre_break_minutes,
                    pre_break_seconds: settings.pre_break_seconds,
                    break_chime: settings.break_chime,
                    recurring: settings.recurring,
                    autostart: settings.autostart,
                    auto_start_timer: settings.auto_start_timer,
                },
            ),
            None => Err(SettingsError::UnknownMode),
        }
    }
}

/// Storing settings and taking them back gives every field as it was.
pub proof fn lemma_settings_round_trip(config: BreakConfig)
    ensures
        restored(stored(config)) == Ok::<BreakConfig, SettingsError>(config),
{
    lemma_mode_name_round_trip(config.break_mode);
}

/// Stored settings whose mode is known are stored again as they were.
pub proof fn lemma_stored_settings_are_kept(settings: AppSettingsView)
    requires
        restored(settings) is Ok,
    ensures
        stored(restored(settings)->Ok_0) == settings,
{
}

} // verus!
