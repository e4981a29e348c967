//! Settings given on the command line. Each is optional: one that is absent
//! leaves the value of the configuration files, or the built-in default.

use vstd::prelude::*;
use crate::image::BackgroundImageScale;
use crate::util::{text_is, BackgroundType, FontSlant, FontWeight, Rgba};

verus! {

/// The level type of the `tracing` framework, taken as it is: nothing is
/// known of what is inside a value of it.
#[verifier::external_type_specification]
#[verifier::external_body]
pub struct ExLevel(tracing::Level);

/// The text that `tracing::Level::as_str` gives for a level.
pub uninterp spec fn level_name(level: tracing::Level) -> Seq<char>;

/// How much the program logs.
#[derive(Copy, Clone, Debug, PartialEq, Eq, Structural)]
pub enum LogLevel {
    Trace,
    Debug,
    Info,
    Warn,
    Error,
}

/// Hands out the constant `tracing::Level::TRACE`. Trusted: that it prints
/// as `TRACE`.
#[verifier::external_body]
fn level_trace() -> (r: tracing::Level)
    ensures
        level_name(r) == "TRACE"@,
{
    tracing::Level::TRACE
}

/// Hands out the constant `tracing::Level::DEBUG`. Trusted: that it prints
/// as `DEBUG`.
#[verifier::external_body]
fn level_debug() -> (r: tracing::Level)
    ensures
        level_name(r) == "DEBUG"@,
{
    tracing::Level::DEBUG
}

/// Hands out the constant `tracing::Level::INFO`. Trusted: that it prints
/// as `INFO`.
#[verifier::external_body]
fn level_info() -> (r: tracing::Level)
    ensures
        level_name(r) == "INFO"@,
{
    tracing::Level::INFO
}

/// Hands out the constant `tracing::Level::WARN`. Trusted: that it prints
/// as `WARN`.
#[verifier::external_body]
fn level_warn() -> (r: tracing::Level)
    ensures
        level_name(r) == "WARN"@,
{
    tracing::Level::WARN
}

/// Hands out the constant `tracing::Level::ERROR`. Trusted: that it prints
/// as `ERROR`.
#[verifier::external_body]
fn level_error() -> (r: tracing::Level)
    ensures
        level_name(r) == "ERROR"@,
{
    tracing::Level::ERROR
}

impl LogLevel {
    /// The level's name in capitals.
    pub open spec fn name(self) -> Seq<char> {
        match self {
            LogLevel::Trace => "TRACE"@,
            LogLevel::Debug => "DEBUG"@,
            LogLevel::Info => "INFO"@,
            LogLevel::Warn => "WARN"@,
            LogLevel::Error => "ERROR"@,
        }
    }

    /// The name of the level on the command line.
    pub open spec fn option_name(self) -> Seq<char> {
        match self {
            LogLevel::Trace => "trace"@,
            LogLevel::Debug => "debug"@,
            LogLevel::Info => "info"@,
            LogLevel::Warn => "warn"@,
            LogLevel::Error => "error"@,
        }
    }

    /// The level of a name on the command line, if it is one.
    pub open spec fn of_name(name: Seq<char>) -> Option<LogLevel> {
        if name == "trace"@ {
            Some(LogLevel::Trace)
        } else if name == "debug"@ {
            Some(LogLevel::Debug)
        } else if name == "info"@ {
            Some(LogLevel::Info)
        } else if name == "warn"@ {
            Some(LogLevel::Warn)
        } else if name == "error"@ {
            Some(LogLevel::Error)
        } else {
            None
        }
    }

    /// Reads a level from its name on the command line.
    pub fn from_name(name: &str) -> (r: Option<LogLevel>)
        ensures
            r == LogLevel::of_name(name@),
    {
        if text_is(name, "trace") {
            Some(LogLevel::Trace)
        } else if text_is(name, "debug") {
            Some(LogLevel::Debug)
        } else if text_is(name, "info") {
            Some(LogLevel::Info)
        } else if text_is(name, "warn") {
            Some(LogLevel::Warn)
        } else if text_is(name, "error") {
            Some(LogLevel::Error)
        } else {
            None
        }
    }

    /// The level of the logging framework with the same name.
    pub fn to_level(self) -> (r: tracing::Level)
        ensures
            level_name(r) == self.name(),
    {
        match self {
            LogLevel::Trace => level_trace(),
            LogLevel::Debug => level_debug(),
            LogLevel::Info => level_info(),
            LogLevel::Warn => level_warn(),
            LogLevel::Error => level_error(),
        }
    }
}

/// Every level is read back from its name on the command line.
pub proof fn lemma_level_names_round_trip(level: LogLevel)
    ensures
        LogLevel::of_name(level.option_name()) == Some(level),
{
    reveal_strlit("trace");
    reveal_strlit("debug");
    reveal_strlit("info");
    reveal_strlit("warn");
    reveal_strlit("error");
    assert("debug"@[0] != "trace"@[0]);
    assert("warn"@.len() != "trace"@.len() && "warn"@[0] != "info"@[0]);
}

/// Colour overrides.
#[derive(Clone, Debug)]
pub struct NLockArgsColors {
    pub bg: Option<Rgba>,
    pub text: Option<Rgba>,
    pub input_bg: Option<Rgba>,
    pub input_border: Option<Rgba>,
    pub frame_border_idle: Option<Rgba>,
    pub frame_border_success: Option<Rgba>,
    pub frame_border_fail: Option<Rgba>,
}

/// Font overrides. The size is in millionths of a point.
#[derive(Clone, Debug)]
pub struct NLockArgsFont {
    pub size: Option<i64>,
    pub family: Option<String>,
    pub slant: Option<FontSlant>,
    pub weight: Option<FontWeight>,
}

/// Overrides for the password box. Relative sizes are in millionths of the
/// buffer's size, the border in millionths of a pixel.
#[derive(Clone, Debug)]
pub struct NLockArgsInput {
    pub mask_char: Option<String>,
    pub width: Option<i64>,
    pub padding_x: Option<i64>,
    pub padding_y: Option<i64>,
    pub radius: Option<i64>,
    pub border: Option<i64>,
    pub hide_when_empty: Option<bool>,
    pub fit_to_content: Option<bool>,
}

/// Overrides for the frame, in millionths of a pixel.
#[derive(Clone, Debug)]
pub struct NLockArgsFrame {
    pub border: Option<i64>,
    pub radius: Option<i64>,
}

/// Overrides for the general switches.
#[derive(Clone, Debug)]
pub struct NLockArgsGeneral {
    pub pwd_allow_empty: Option<bool>,
    pub hide_cursor: Option<bool>,
    pub bg_type: Option<BackgroundType>,
}

/// Overrides for the background image.
#[derive(Clone, Debug)]
pub struct NLockArgsImage {
    pub path: Option<String>,
    pub scale: Option<BackgroundImageScale>,
}

/// Everything the command line can say.
#[derive(Clone, Debug)]
pub struct NLockArgs {
    pub log_level: LogLevel,
    pub config_file: Option<String>,
    pub colors: NLockArgsColors,
    pub font: NLockArgsFont,
    pub input: NLockArgsInput,
    pub frame: NLockArgsFrame,
    pub general: NLockArgsGeneral,
    pub image: NLockArgsImage,
}

impl NLockArgsColors {
    /// The group with no setting given.
    pub open spec fn none_spec() -> NLockArgsColors {
        NLockArgsColors {
            bg: None,
            text: None,
            input_bg: None,
            input_border: None,
            frame_border_idle: None,
            frame_border_success: None,
            frame_border_fail: None,
        }
    }

    /// No setting given.
    pub fn none() -> (r: NLockArgsColors)
        ensures
            r == NLockArgsColors::none_spec(),
    {
        NLockArgsColors {
            bg: None,
            text: None,
            input_bg: None,
            input_border: None,
            frame_border_idle: None,
            frame_border_success: None,
            frame_border_fail: None,
        }
    }
}

impl NLockArgsFont {
    /// The group with no setting given.
    pub open spec fn none_spec() -> NLockArgsFont {
        NLockArgsFont { size: None, family: None, slant: None, weight: None }
    }

    /// No setting given.
    pub fn none() -> (r: NLockArgsFont)
        ensures
            r == NLockArgsFont::none_spec(),
    {
        NLockArgsFont { size: None, family: None, slant: None, weight: None }
    }
}

impl NLockArgsInput {
    /// The group with no setting given.
    pub open spec fn none_spec() -> NLockArgsInput {
        NLockArgsInput {
            mask_char: None,
            width: None,
            padding_x: None,
            padding_y: None,
            radius: None,
            border: None,
            hide_when_empty: None,
            fit_to_content: None,
        }
    }

    /// No setting given.
    pub fn none() -> (r: NLockArgsInput)
        ensures
            r == NLockArgsInput::none_spec(),
    {
        NLockArgsInput {
            mask_char: None,
            width: None,
            padding_x: None,
            padding_y: None,
            radius: None,
            border: None,
            hide_when_empty: None,
            fit_to_content: None,
        }
    }
}

impl NLockArgsFrame {
    /// The group with no setting given.
    pub open spec fn none_spec() -> NLockArgsFrame {
        NLockArgsFrame { border: None, radius: None }
    }

    /// No setting given.
    pub fn none() -> (r: NLockArgsFrame)
        ensures
            r == NLockArgsFrame::none_spec(),
    {
        NLockArgsFrame { border: None, radius: None }
    }
}

impl NLockArgsGeneral {
    /// The group with no setting given.
    pub open spec fn none_spec() -> NLockArgsGeneral {
        NLockArgsGeneral { pwd_allow_empty: None, hide_cursor: None, bg_type: None }
    }

    /// No setting given.
    pub fn none() -> (r: NLockArgsGeneral)
        ensures
            r == NLockArgsGeneral::none_spec(),
    {
        NLockArgsGeneral { pwd_allow_empty: None, hide_cursor: None, bg_type: None }
    }
}

impl NLockArgsImage {
    /// The group with no setting given.
    pub open spec fn none_spec() -> NLockArgsImage {
        NLockArgsImage { path: None, scale: None }
    }

    /// No setting given.
    pub fn none() -> (r: NLockArgsImage)
        ensures
            r == NLockArgsImage::none_spec(),
    {
        NLockArgsImage { path: None, scale: None }
    }
}

impl NLockArgs {
    /// Whether the command line overrides no setting.
    pub open spec fn sets_nothing(self) -> bool {
        &&& self.colors == NLockArgsColors::none_spec()
        &&& self.font == NLockArgsFont::none_spec()
        &&& self.input == NLockArgsInput::none_spec()
        &&& self.frame == NLockArgsFrame::none_spec()
        &&& self.general == NLockArgsGeneral::none_spec()
        &&& self.image == NLockArgsImage::none_spec()
    }
}

} // verus!
