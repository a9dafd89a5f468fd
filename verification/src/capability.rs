//! The capabilities of the platform that the core asks for: locking the
//! screen, sounding a chime, sending a media key. The core decides what to
//! ask for and what a failure means; the asking itself is done outside.

use crate::text::{same_text, texts};
use vstd::prelude::*;
use vstd::string::*;

verus! {

/// A capability of the platform.
#[derive(Clone, Copy, Debug, PartialEq, Eq, Structural)]
pub enum Capability {
    LockScreen,
    Chime,
    MediaKey,
}

/// Why a capability could not be used.
#[derive(Clone, Debug, PartialEq, Eq)]
pub enum CapabilityError {
    /// The platform does not offer the capability, or not what was asked of
    /// it.
    Unsupported { capability: Capability },
    /// The platform was asked and failed; `detail` is what it said.
    OsError { capability: Capability, detail: String },
}

/// What is said where a capability is not offered.
pub open spec fn unsupported_text(capability: Capability) -> Seq<char> {
    match capability {
        Capability::LockScreen => "Lock screen only supported on Windows"@,
        Capability::Chime => "Chime playback only supported on Windows"@,
        Capability::MediaKey => "Unsupported media action"@,
    }
}

/// What is said before the platform's own words where a capability failed.
pub open spec fn failure_text(capability: Capability) -> Seq<char> {
    match capability {
        Capability::LockScreen => "Failed to lock screen: "@,
        Capability::Chime => "Failed to play chime: "@,
        Capability::MediaKey => "Failed to send media key: "@,
    }
}

impl CapabilityError {
    /// The error in words.
    pub open spec fn message_spec(self) -> Seq<char> {
        match self {
            CapabilityError::Unsupported { capability } => unsupported_text(capability),
            CapabilityError::OsError { capability, detail } => failure_text(capability) + detail@,
        }
    }

    /// The error in words.
    pub fn message(&self) -> (text: String)
        ensures
            text@ == self.message_spec(),
    {
        match self {
            CapabilityError::Unsupported { capability } => {
                let words: &'static str = match capability {
                    Capability::LockScreen => "Lock screen only supported on Windows",
                    Capability::Chime => "Chime playback only supported on Windows",
                    Capability::MediaKey => "Unsupported media action",
                };
                String::from_str(words)
            },
            CapabilityError::OsError { capability, detail } => {
                let words: &'static str = match capability {
                    Capability::LockScreen => "Failed to lock screen: ",
                    Capability::Chime => "Failed to play chime: ",
                    Capability::MediaKey => "Failed to send media key: ",
                };
                let mut text = String::from_str(words);
                text.append(detail.as_str());
                text
            },
        }
    }
}

/// What to do to what is playing.
#[derive(Clone, Copy, Debug, PartialEq, Eq, Structural)]
pub enum MediaAction {
    /// Make it stop, and leave it alone if it is not playing.
    Pause,
    /// Toggle between playing and paused.
    PlayPauseToggle,
}

/// A media key.
#[derive(Clone, Copy, Debug, PartialEq, Eq, Structural)]
pub enum MediaKey {
    Stop,
    PlayPause,
}

/// The media action that the user interface names with `name`.
pub open spec fn media_action_of(name: Seq<char>) -> Option<MediaAction> {
    if name == "pause"@ {
        Some(MediaAction::Pause)
    } else if name == "playpause"@ {
        Some(MediaAction::PlayPauseToggle)
    } else {
        None
    }
}

/// The key that carries out a media action. Pausing sends the stop key,
/// which does nothing where nothing plays; the play/pause key would start
/// what was paused.
pub open spec fn media_key_of(action: MediaAction) -> MediaKey {
    match action {
        MediaAction::Pause => MediaKey::Stop,
        MediaAction::PlayPauseToggle => MediaKey::PlayPause,
    }
}

/// Reads a media action from its name; any other name is not supported.
pub fn parse_media_action(name: &str) -> (parsed: Result<MediaAction, CapabilityError>)
    ensures
        match media_action_of(name@) {
            Some(action) => parsed == Ok::<MediaAction, CapabilityError>(action),
            None => parsed == Err::<MediaAction, CapabilityError>(
                CapabilityError::Unsupported { capability: Capability::MediaKey },
            ),
        },
{
    if same_text(name, "pause") {
        Ok(MediaAction::Pause)
    } else if same_text(name, "playpause") {
        Ok(MediaAction::PlayPauseToggle)
    } else {
        Err(CapabilityError::Unsupported { capability: Capability::MediaKey })
    }
}

/// The key that carries out a media action.
pub fn media_key(action: MediaAction) -> (key: MediaKey)
    ensures
        key == media_key_of(action),
{
    match action {
        MediaAction::Pause => MediaKey::Stop,
        MediaAction::PlayPauseToggle => MediaKey::PlayPause,
    }
}

/// The key to send for the media action that `action` names; a name that is
/// not known is not supported.
pub fn control_media(action: &str) -> (key: Result<MediaKey, CapabilityError>)
    ensures
        match media_action_of(action@) {
            Some(known) => key == Ok::<MediaKey, CapabilityError>(media_key_of(known)),
            None => key == Err::<MediaKey, CapabilityError>(
                CapabilityError::Unsupported { capability: Capability::MediaKey },
            ),
        },
{
    match parse_media_action(action) {
        Ok(known) => Ok(media_key(known)),
        Err(e) => Err(e),
    }
}

/// A program to run, with its arguments.
#[derive(Clone, Debug, PartialEq, Eq)]
pub struct PlatformCommand {
    pub program: String,
    pub args: Vec<String>,
}

/// A program to run, with its arguments, as a mathematical value.
pub struct PlatformCommandView {
    pub program: Seq<char>,
    pub args: Seq<Seq<char>>,
}

impl View for PlatformCommand {
    type V = PlatformCommandView;

    open spec fn view(&self) -> PlatformCommandView {
        PlatformCommandView { program: self.program@, args: texts(self.args@) }
    }
}

/// The command that locks the workstation.
pub open spec fn lock_command() -> PlatformCommandView {
    PlatformCommandView { program: "rundll32.exe"@, args: seq!["user32.dll,LockWorkStation"@] }
}

/// How to lock the screen: on Windows the command to run; elsewhere locking
/// is not supported.
pub fn lock_screen(on_windows: bool) -> (plan: Result<PlatformCommand, CapabilityError>)
    ensures
        on_windows ==> plan is Ok && plan->Ok_0@ == lock_command(),
        !on_windows ==> plan == Err::<PlatformCommand, CapabilityError>(
            CapabilityError::Unsupported { capability: Capability::LockScreen },
        ),
{
    if on_windows {
        let mut args: Vec<String> = Vec::new();
        args.push(String::from_str("user32.dll,LockWorkStation"));
        let command = PlatformCommand { program: String::from_str("rundll32.exe"), args };
        assert(command@.args =~= lock_command().args);
        Ok(command)
    } else {
        Err(CapabilityError::Unsupported { capability: Capability::LockScreen })
    }
}

/// A way to sound the chime.
#[derive(Clone, Copy, Debug, PartialEq, Eq, Structural)]
pub enum ChimeMethod {
    /// The system's beep, through PowerShell.
    SystemSounds,
    /// The message beep of the user library.
    MessageBeep,
}

/// The next step in sounding the chime.
#[derive(Clone, Debug, PartialEq, Eq)]
pub enum ChimeStep {
    /// Try this method.
    Run { method: ChimeMethod },
    /// Give up with this error.
    Failed { error: CapabilityError },
}

/// What is reported when both ways of sounding the chime failed.
pub open spec fn chime_failure_detail(first: Seq<char>, second: Seq<char>) -> Seq<char> {
    "SystemSounds error: "@ + first + ", MessageBeep error: "@ + second
}

/// The command that sounds the chime by `method`.
pub open spec fn chime_command_spec(method: ChimeMethod) -> PlatformCommandView {
    match method {
        ChimeMethod::SystemSounds => PlatformCommandView {
            program: "powershell"@,
            args: seq!["-Command"@, "[System.Media.SystemSounds]::Beep.Play()"@],
        },
        ChimeMethod::MessageBeep => PlatformCommandView {
            program: "rundll32"@,
            args: seq!["user32.dll,MessageBeep"@, "0"@],
        },
    }
}

/// `step` is the next step in sounding the chime after `failures`.
pub open spec fn is_chime_step(on_windows: bool, failures: Seq<Seq<char>>, step: ChimeStep) -> bool {
    if !on_windows {
        step == (ChimeStep::Failed {
            error: CapabilityError::Unsupported { capability: Capability::Chime },
        })
    } else if failures.len() == 0 {
        step == (ChimeStep::Run { method: ChimeMethod::SystemSounds })
    } else if failures.len() == 1 {
        step == (ChimeStep::Run { method: ChimeMethod::MessageBeep })
    } else {
        match step {
            ChimeStep::Failed { error: CapabilityError::OsError { capability, detail } } => {
                capability == Capability::Chime && detail@ == chime_failure_detail(
                    failures[0],
                    failures[1],
                )
            },
            _ => false,
        }
    }
}

/// The next step in sounding the chime, given what the methods tried so far
/// said when they failed, in the order of trying. Off Windows the chime is
/// not supported. On Windows the system's beep is tried first and the
/// message beep second; when both have failed the error names both failures.
pub fn play_chime(on_windows: bool, failures: &Vec<String>) -> (step: ChimeStep)
    ensures
        is_chime_step(on_windows, texts(failures@), step),
{
    if !on_windows {
        ChimeStep::Failed { error: CapabilityError::Unsupported { capability: Capability::Chime } }
    } else if failures.len() == 0 {
        ChimeStep::Run { method: ChimeMethod::SystemSounds }
    } else if failures.len() == 1 {
        ChimeStep::Run { method: ChimeMethod::MessageBeep }
    } else {
        let mut detail = String::from_str("SystemSounds error: ");
        detail.append(failures[0].as_str());
        detail.append(", MessageBeep error: ");
        detail.append(failures[1].as_str());
        ChimeStep::Failed {
            error: CapabilityError::OsError { capability: Capability::Chime, detail },
        }
    }
}

/// The command that sounds the chime by `method`.
pub fn chime_command(method: ChimeMethod) -> (command: PlatformCommand)
    ensures
        command@ == chime_command_spec(method),
{
    let mut args: Vec<String> = Vec::new();
    match method {
        ChimeMethod::SystemSounds => {
            args.push(String::from_str("-Command"));
            args.push(String::from_str("[System.Media.SystemSounds]::Beep.Play()"));
            let command = PlatformCommand { program: String::from_str("powershell"), args };
            assert(command@.args =~= chime_command_spec(method).args);
            command
        },
        ChimeMethod::MessageBeep => {
            args.push(String::from_str("user32.dll,MessageBeep"));
            args.push(String::from_str("0"));
            let command = PlatformCommand { program: String::from_str("rundll32"), args };
            assert(command@.args =~= chime_command_spec(method).args);
            command
        },
    }
}

} // verus!
