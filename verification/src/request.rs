//! What a caller asks for: the insertion strategy, the cursor pre-positioning,
//! the wait windows, and the errors an insertion can end with.

use vstd::prelude::*;
use vstd::string::StringExecFns;

verus! {

/// Wait between staging text on the clipboard and injecting the paste
/// shortcut, in milliseconds, unless the caller sets another.
pub const DEFAULT_COPY_WAIT_MS: u64 = 5;

/// Wait between injecting the paste shortcut and writing the previous
/// clipboard content back, in milliseconds, unless the caller sets another.
pub const DEFAULT_PASTE_WAIT_MS: u64 = 30;

/// Wait after an arrow click posted at the event-tap layer, in milliseconds.
pub const EVENT_TAP_SETTLE_MS: u64 = 20;

/// How the text is delivered to the focused field.
#[derive(Clone, Copy, Debug, PartialEq, Eq, Structural)]
pub enum Mode {
    /// The text is synthesized as one logical text-insertion action.
    Direct,
    /// The text is staged on the clipboard and pasted.
    Paste,
}

/// An arrow key that moves the cursor by one position.
#[derive(Clone, Copy, Debug, PartialEq, Eq, Structural)]
pub enum ArrowDirection {
    Left,
    Right,
}

/// Which of the two interchangeable key-event injectors is in use.
#[derive(Clone, Copy, Debug, PartialEq, Eq, Structural)]
pub enum Platform {
    /// Key events go through the general-purpose synthesized-input primitive;
    /// the paste modifier is Control.
    Generic,
    /// Arrow clicks and the paste shortcut are posted as key-down and key-up
    /// events at the event-tap layer; the paste modifier is Command.
    EventTap,
}

/// What becomes of the saved clipboard content when an effect is refused
/// after the snapshot was taken.
#[derive(Clone, Copy, Debug, PartialEq, Eq, Structural)]
pub enum RestorePolicy {
    /// The content is written back on every way out: after the paste, and
    /// also when an effect is refused once the snapshot is held.
    Guaranteed,
    /// The content is written back after the paste only.  An insertion that
    /// is refused after the text was staged leaves the text on the
    /// clipboard.
    AfterSuccess,
}

/// Why an insertion ended without completing.
#[derive(Clone, Copy, Debug, PartialEq, Eq, Structural)]
pub enum InsertError {
    /// No handle to the input-simulation subsystem could be acquired.
    InputInjectorUnavailable,
    /// The system clipboard could not be opened, read or written.
    ClipboardUnavailable,
    /// A key or text event could not be posted.
    EventInjectionFailed,
}

/// Options of one insertion.
#[derive(Clone, Copy, Debug, PartialEq, Eq)]
pub struct InsertOptions {
    pub mode: Mode,
    /// Arrow key to click once before anything else is sent to the field.
    pub pre_click_arrow: Option<ArrowDirection>,
    /// Wait after staging the text and before the paste shortcut.
    pub copy_wait_ms: u64,
    /// Wait after the paste shortcut and before the clipboard is restored.
    pub paste_wait_ms: u64,
    /// Whether the clipboard is restored when the insertion is refused.
    pub restore: RestorePolicy,
}

/// Options of a bare paste.
#[derive(Clone, Copy, Debug, PartialEq, Eq)]
pub struct PasteOptions {
    /// Arrow key to click once before the paste shortcut.
    pub pre_click_arrow: Option<ArrowDirection>,
}

/// The arrow direction that a name stands for: `"left"` and `"right"` name
/// one, every other name names none.
pub open spec fn arrow_named(name: Seq<char>) -> Option<ArrowDirection> {
    if name == "left"@ {
        Some(ArrowDirection::Left)
    } else if name == "right"@ {
        Some(ArrowDirection::Right)
    } else {
        None
    }
}

/// The options that a loosely typed argument list stands for.  A missing
/// flag means direct insertion, a missing or unknown arrow name means no
/// arrow click, and a missing wait means [`DEFAULT_PASTE_WAIT_MS`]; the copy
/// wait is always [`DEFAULT_COPY_WAIT_MS`], and the clipboard is restored on
/// every way out.
pub open spec fn options_of_arguments(
    insert_with_paste: Option<bool>,
    arrow_key: Option<Seq<char>>,
    paste_wait_time_ms: Option<u32>,
) -> InsertOptions {
    InsertOptions {
        mode: if insert_with_paste == Some(true) {
            Mode::Paste
        } else {
            Mode::Direct
        },
        pre_click_arrow: match arrow_key {
            Some(name) => arrow_named(name),
            None => None,
        },
        copy_wait_ms: DEFAULT_COPY_WAIT_MS,
        paste_wait_ms: match paste_wait_time_ms {
            Some(ms) => ms as u64,
            None => DEFAULT_PASTE_WAIT_MS,
        },
        restore: RestorePolicy::Guaranteed,
    }
}

impl ArrowDirection {
    /// Decodes an arrow name.
    pub fn from_name(name: &str) -> (direction: Option<ArrowDirection>)
        ensures
            direction == arrow_named(name@),
    {
        let given = name.to_owned();
        if given == String::from_str("left") {
            Some(ArrowDirection::Left)
        } else if given == String::from_str("right") {
            Some(ArrowDirection::Right)
        } else {
            None
        }
    }
}

impl Default for InsertOptions {
    fn default() -> (options: InsertOptions)
        ensures
            options == (InsertOptions {
                mode: Mode::Direct,
                pre_click_arrow: None,
                copy_wait_ms: DEFAULT_COPY_WAIT_MS,
                paste_wait_ms: DEFAULT_PASTE_WAIT_MS,
                restore: RestorePolicy::Guaranteed,
            }),
    {
        InsertOptions {
            mode: Mode::Direct,
            pre_click_arrow: None,
            copy_wait_ms: DEFAULT_COPY_WAIT_MS,
            paste_wait_ms: DEFAULT_PASTE_WAIT_MS,
            restore: RestorePolicy::Guaranteed,
        }
    }
}

impl InsertOptions {
    /// Decodes a loosely typed argument list.
    pub fn from_arguments(
        insert_with_paste: Option<bool>,
        arrow_key: Option<String>,
        paste_wait_time_ms: Option<u32>,
    ) -> (options: InsertOptions)
        ensures
            options == options_of_arguments(
                insert_with_paste,
                match arrow_key {
                    Some(name) => Some(name@),
                    None => None,
                },
                paste_wait_time_ms,
            ),
    {
        let mode = match insert_with_paste {
            Some(true) => Mode::Paste,
            _ => Mode::Direct,
        };
        let pre_click_arrow = match &arrow_key {
            Some(name) => ArrowDirection::from_name(name.as_str()),
            None => None,
        };
        let paste_wait_ms: u64 = match paste_wait_time_ms {
            Some(ms) => ms as u64,
            None => DEFAULT_PASTE_WAIT_MS,
        };
        InsertOptions {
            mode,
            pre_click_arrow,
            copy_wait_ms: DEFAULT_COPY_WAIT_MS,
            paste_wait_ms,
            restore: RestorePolicy::Guaranteed,
        }
    }
}

impl Default for PasteOptions {
    fn default() -> (options: PasteOptions)
        ensures
            options == (PasteOptions { pre_click_arrow: None }),
    {
        PasteOptions { pre_click_arrow: None }
    }
}

impl PasteOptions {
    /// Decodes the arrow name of a bare paste; a missing or unknown name
    /// means no arrow click.
    pub fn from_arguments(arrow_key: Option<String>) -> (options: PasteOptions)
        ensures
            options.pre_click_arrow == match arrow_key {
                Some(name) => arrow_named(name@),
                None => None,
            },
    {
        let pre_click_arrow = match &arrow_key {
            Some(name) => ArrowDirection::from_name(name.as_str()),
            None => None,
        };
        PasteOptions { pre_click_arrow }
    }
}

impl InsertError {
    /// A sentence that describes the error.
    pub fn message(&self) -> (text: String)
        ensures
            text@ == error_message(*self)@,
    {
        String::from_str(error_message_text(*self))
    }
}

/// The sentence that describes an error.
pub open spec fn error_message(error: InsertError) -> &'static str {
    match error {
        InsertError::InputInjectorUnavailable => "the input-simulation subsystem is not available",
        InsertError::ClipboardUnavailable => "the system clipboard is not available",
        InsertError::EventInjectionFailed => "a key event could not be posted",
    }
}

fn error_message_text(error: InsertError) -> (text: &'static str)
    ensures
        text == error_message(error),
{
    match error {
        InsertError::InputInjectorUnavailable => "the input-simulation subsystem is not available",
        InsertError::ClipboardUnavailable => "the system clipboard is not available",
        InsertError::EventInjectionFailed => "a key event could not be posted",
    }
}

} // verus!
