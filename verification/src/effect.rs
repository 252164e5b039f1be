//! The boundary between the session and the operating system: the effects a
//! session asks its caller to perform, and the outcomes the caller reports.

use vstd::prelude::*;
use crate::request::InsertError;

verus! {

/// A key of the general-purpose synthesized-input primitive.
#[derive(Clone, Copy, Debug, PartialEq, Eq, Structural)]
pub enum Key {
    Control,
    LetterV,
    LeftArrow,
    RightArrow,
}

/// What is done with a key of the general-purpose primitive.
#[derive(Clone, Copy, Debug, PartialEq, Eq, Structural)]
pub enum KeyMotion {
    Press,
    Release,
    /// A press followed by a release.
    Click,
}

/// A key of the event-tap layer.
#[derive(Clone, Copy, Debug, PartialEq, Eq, Structural)]
pub enum TapKey {
    LetterV,
    LeftArrow,
    RightArrow,
    Command,
}

/// The modifier-flag bitmask of an event posted at the event-tap layer.
#[derive(Clone, Copy, Debug, PartialEq, Eq, Structural)]
pub enum TapFlags {
    /// The event keeps the flags it was created with.
    Untouched,
    /// The flags are set to the Command modifier.
    Command,
    /// The flags are set to the empty bitmask.
    Cleared,
}

/// An image as the clipboard holds it: its size in pixels and its pixel
/// bytes.
#[derive(Debug, PartialEq, Eq)]
pub struct ImageBuffer {
    pub width: usize,
    pub height: usize,
    pub bytes: Vec<u8>,
}

/// The mathematical value of an [`ImageBuffer`].
pub struct ImageView {
    pub width: nat,
    pub height: nat,
    pub bytes: Seq<u8>,
}

impl View for ImageBuffer {
    type V = ImageView;

    open spec fn view(&self) -> ImageView {
        ImageView { width: self.width as nat, height: self.height as nat, bytes: self.bytes@ }
    }
}

impl Clone for ImageBuffer {
    fn clone(&self) -> (copy: ImageBuffer)
        ensures
            copy@ == self@,
    {
        ImageBuffer { width: self.width, height: self.height, bytes: self.bytes.clone() }
    }
}

/// One operation on the operating system that a session asks for.
#[derive(Debug, PartialEq, Eq)]
pub enum Effect {
    /// Acquire the handle of the general-purpose input primitive.
    AcquireInjector,
    /// Acquire an event source for the event-tap layer.
    AcquireEventSource,
    /// Send one key through the general-purpose input primitive.
    SendKey { key: Key, motion: KeyMotion },
    /// Create one keyboard event, set its flags as told, and post it at the
    /// event-tap layer.
    PostKeyEvent { tap_key: TapKey, key_down: bool, flags: TapFlags },
    /// Synthesize the text as one logical text-insertion action.
    TypeText { text: String },
    /// Open the system clipboard.
    OpenClipboard,
    /// Read the clipboard as text.
    ReadClipboardText,
    /// Read the clipboard as an image.
    ReadClipboardImage,
    /// Clear the clipboard.
    ClearClipboard,
    /// Replace the clipboard content with the text.
    WriteClipboardText { text: String },
    /// Replace the clipboard content with the image.
    WriteClipboardImage { image: ImageBuffer },
    /// Block for at least the given number of milliseconds.
    Wait { millis: u64 },
}

/// The mathematical value of an [`Effect`].
pub enum EffectView {
    AcquireInjector,
    AcquireEventSource,
    SendKey { key: Key, motion: KeyMotion },
    PostKeyEvent { tap_key: TapKey, key_down: bool, flags: TapFlags },
    TypeText { text: Seq<char> },
    OpenClipboard,
    ReadClipboardText,
    ReadClipboardImage,
    ClearClipboard,
    WriteClipboardText { text: Seq<char> },
    WriteClipboardImage { image: ImageView },
    Wait { millis: u64 },
}

impl View for Effect {
    type V = EffectView;

    open spec fn view(&self) -> EffectView {
        match *self {
            Effect::AcquireInjector => EffectView::AcquireInjector,
            Effect::AcquireEventSource => EffectView::AcquireEventSource,
            Effect::SendKey { key, motion } => EffectView::SendKey { key, motion },
            Effect::PostKeyEvent { tap_key, key_down, flags } => EffectView::PostKeyEvent {
                tap_key,
                key_down,
                flags,
            },
            Effect::TypeText { text } => EffectView::TypeText { text: text@ },
            Effect::OpenClipboard => EffectView::OpenClipboard,
            Effect::ReadClipboardText => EffectView::ReadClipboardText,
            Effect::ReadClipboardImage => EffectView::ReadClipboardImage,
            Effect::ClearClipboard => EffectView::ClearClipboard,
            Effect::WriteClipboardText { text } => EffectView::WriteClipboardText { text: text@ },
            Effect::WriteClipboardImage { image } => EffectView::WriteClipboardImage {
                image: image@,
            },
            Effect::Wait { millis } => EffectView::Wait { millis },
        }
    }
}

impl Clone for Effect {
    fn clone(&self) -> (copy: Effect)
        ensures
            copy@ == self@,
    {
        match self {
            Effect::AcquireInjector => Effect::AcquireInjector,
            Effect::AcquireEventSource => Effect::AcquireEventSource,
            Effect::SendKey { key, motion } => Effect::SendKey { key: *key, motion: *motion },
            Effect::PostKeyEvent { tap_key, key_down, flags } => Effect::PostKeyEvent {
                tap_key: *tap_key,
                key_down: *key_down,
                flags: *flags,
            },
            Effect::TypeText { text } => Effect::TypeText { text: text.clone() },
            Effect::OpenClipboard => Effect::OpenClipboard,
            Effect::ReadClipboardText => Effect::ReadClipboardText,
            Effect::ReadClipboardImage => Effect::ReadClipboardImage,
            Effect::ClearClipboard => Effect::ClearClipboard,
            Effect::WriteClipboardText { text } => Effect::WriteClipboardText {
                text: text.clone(),
            },
            Effect::WriteClipboardImage { image } => Effect::WriteClipboardImage {
                image: image.clone(),
            },
            Effect::Wait { millis } => Effect::Wait { millis: *millis },
        }
    }
}

/// The mathematical values of a sequence of effects, one for one.
pub open spec fn views(effects: Seq<Effect>) -> Seq<EffectView> {
    Seq::new(effects.len(), |i: int| effects[i]@)
}

/// What the caller reports after it has performed an effect.
#[derive(Debug, PartialEq, Eq)]
pub enum Outcome {
    /// The operation was carried out; a read found nothing in the format it
    /// asked for.
    Completed,
    /// The operating system refused the operation.
    Failed,
    /// A text read found this text.
    Text { text: String },
    /// An image read found this image.
    Image { image: ImageBuffer },
}

/// The mathematical value of an [`Outcome`].
pub enum OutcomeView {
    Completed,
    Failed,
    Text { text: Seq<char> },
    Image { image: ImageView },
}

impl View for Outcome {
    type V = OutcomeView;

    open spec fn view(&self) -> OutcomeView {
        match *self {
            Outcome::Completed => OutcomeView::Completed,
            Outcome::Failed => OutcomeView::Failed,
            Outcome::Text { text } => OutcomeView::Text { text: text@ },
            Outcome::Image { image } => OutcomeView::Image { image: image@ },
        }
    }
}

impl Clone for Outcome {
    fn clone(&self) -> (copy: Outcome)
        ensures
            copy@ == self@,
    {
        match self {
            Outcome::Completed => Outcome::Completed,
            Outcome::Failed => Outcome::Failed,
            Outcome::Text { text } => Outcome::Text { text: text.clone() },
            Outcome::Image { image } => Outcome::Image { image: image.clone() },
        }
    }
}

/// The error that an insertion ends with when the effect is refused.  A wait
/// cannot be refused.
pub open spec fn failure_of(effect: EffectView) -> Option<InsertError> {
    match effect {
        EffectView::AcquireInjector | EffectView::AcquireEventSource => Some(
            InsertError::InputInjectorUnavailable,
        ),
        EffectView::SendKey { .. } | EffectView::PostKeyEvent { .. } | EffectView::TypeText {
            ..
        } => Some(InsertError::EventInjectionFailed),
        EffectView::OpenClipboard
        | EffectView::ReadClipboardText
        | EffectView::ReadClipboardImage
        | EffectView::ClearClipboard
        | EffectView::WriteClipboardText { .. }
        | EffectView::WriteClipboardImage { .. } => Some(InsertError::ClipboardUnavailable),
        EffectView::Wait { .. } => None,
    }
}

impl Effect {
    /// The error that an insertion ends with when this effect is refused.
    pub fn failure(&self) -> (error: Option<InsertError>)
        ensures
            error == failure_of(self@),
    {
        match self {
            Effect::AcquireInjector | Effect::AcquireEventSource => Some(
                InsertError::InputInjectorUnavailable,
            ),
            Effect::SendKey { .. } | Effect::PostKeyEvent { .. } | Effect::TypeText { .. } => Some(
                InsertError::EventInjectionFailed,
            ),
            Effect::OpenClipboard
            | Effect::ReadClipboardText
            | Effect::ReadClipboardImage
            | Effect::ClearClipboard
            | Effect::WriteClipboardText { .. }
            | Effect::WriteClipboardImage { .. } => Some(InsertError::ClipboardUnavailable),
            Effect::Wait { .. } => None,
        }
    }
}

} // verus!
