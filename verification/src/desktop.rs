//! A model of the desktop that an insertion acts on: the clipboard, the
//! focused field, the keyboard, and a clock.
//!
//! The model says what each effect does where the operating system carries
//! it out, and what a read of the clipboard then answers.  At which effects
//! the operating system refuses is left open: a run is told the positions.
//! The model exists in proofs only.  The laws of this crate are statements
//! about sessions that are resumed with the answers of this model.

use vstd::prelude::*;
use crate::clipboard::ClipboardContent;
use crate::effect::{failure_of, EffectView, Key, KeyMotion, OutcomeView, TapFlags, TapKey};
use crate::request::ArrowDirection;
use crate::session::SessionView;

verus! {

/// The desktop at one moment.
pub struct Desktop {
    /// What the clipboard holds.
    pub clipboard: ClipboardContent,
    /// The characters that the focused field has received.
    pub field: Seq<char>,
    /// Whether the paste modifier key is held down.
    pub modifier_held: bool,
    /// How many clicks of the left arrow key the field has received.
    pub left_clicks: nat,
    /// How many clicks of the right arrow key the field has received.
    pub right_clicks: nat,
    /// The milliseconds that have been waited out so far.  Only a wait moves
    /// the clock, so that a difference of two readings is the least time
    /// that can have passed between them.
    pub clock: nat,
    /// The clock readings at which something was written to the clipboard.
    pub written_at: Seq<nat>,
    /// The clock readings at which the field was told to paste.
    pub pasted_at: Seq<nat>,
    /// How many times the clipboard was opened, read, cleared or written.
    pub clipboard_accesses: nat,
}

/// Whether the effect reads the clipboard.
pub open spec fn is_read(effect: EffectView) -> bool {
    effect is ReadClipboardText || effect is ReadClipboardImage
}

/// Whether the effect opens, reads, clears or writes the clipboard.
pub open spec fn touches_clipboard(effect: EffectView) -> bool {
    effect is OpenClipboard || effect is ReadClipboardText || effect is ReadClipboardImage
        || effect is ClearClipboard || effect is WriteClipboardText
        || effect is WriteClipboardImage
}

impl Desktop {
    /// The text that a paste delivers: the text on the clipboard, and
    /// nothing where the clipboard holds no text.
    pub open spec fn pasteable(self) -> Seq<char> {
        match self.clipboard {
            ClipboardContent::Text(text) => text,
            _ => Seq::empty(),
        }
    }

    /// The desktop after the field was told to paste.
    pub open spec fn pasted(self) -> Desktop {
        Desktop {
            field: self.field + self.pasteable(),
            pasted_at: self.pasted_at.push(self.clock),
            ..self
        }
    }

    /// The desktop after the V key went down: a paste where the paste
    /// modifier applies, else the letter.
    pub open spec fn struck_v(self, with_modifier: bool) -> Desktop {
        if with_modifier {
            self.pasted()
        } else {
            Desktop { field: self.field.push('v'), ..self }
        }
    }

    /// The desktop after an arrow key went down.
    pub open spec fn arrowed(self, direction: ArrowDirection) -> Desktop {
        match direction {
            ArrowDirection::Left => Desktop { left_clicks: self.left_clicks + 1, ..self },
            ArrowDirection::Right => Desktop { right_clicks: self.right_clicks + 1, ..self },
        }
    }

    /// The desktop after the clipboard was accessed and now holds the
    /// content.
    pub open spec fn accessed(self, content: ClipboardContent) -> Desktop {
        Desktop { clipboard: content, clipboard_accesses: self.clipboard_accesses + 1, ..self }
    }

    /// The desktop after a key of the general-purpose primitive was sent.  A
    /// key acts when it goes down; a click leaves it released.
    pub open spec fn keyed(self, key: Key, motion: KeyMotion) -> Desktop {
        match key {
            Key::Control => Desktop { modifier_held: motion is Press, ..self },
            Key::LetterV => if motion is Release {
                self
            } else {
                self.struck_v(self.modifier_held)
            },
            Key::LeftArrow => if motion is Release {
                self
            } else {
                self.arrowed(ArrowDirection::Left)
            },
            Key::RightArrow => if motion is Release {
                self
            } else {
                self.arrowed(ArrowDirection::Right)
            },
        }
    }

    /// The desktop after a key event was posted at the event-tap layer.  The
    /// flags of the event decide whether the paste modifier applies; an
    /// event with untouched flags goes by the modifier key.
    pub open spec fn tapped(self, key: TapKey, key_down: bool, flags: TapFlags) -> Desktop {
        match key {
            TapKey::Command => Desktop { modifier_held: key_down, ..self },
            TapKey::LetterV => if key_down {
                self.struck_v(flags is Command || (flags is Untouched && self.modifier_held))
            } else {
                self
            },
            TapKey::LeftArrow => if key_down {
                self.arrowed(ArrowDirection::Left)
            } else {
                self
            },
            TapKey::RightArrow => if key_down {
                self.arrowed(ArrowDirection::Right)
            } else {
                self
            },
        }
    }

    /// The desktop after the effect was carried out.
    pub open spec fn perform(self, effect: EffectView) -> Desktop {
        match effect {
            EffectView::AcquireInjector | EffectView::AcquireEventSource => self,
            EffectView::SendKey { key, motion } => self.keyed(key, motion),
            EffectView::PostKeyEvent { tap_key, key_down, flags } => self.tapped(
                tap_key,
                key_down,
                flags,
            ),
            EffectView::TypeText { text } => Desktop { field: self.field + text, ..self },
            EffectView::OpenClipboard
            | EffectView::ReadClipboardText
            | EffectView::ReadClipboardImage => self.accessed(self.clipboard),
            EffectView::ClearClipboard => self.accessed(ClipboardContent::Empty),
            EffectView::WriteClipboardText { text } => Desktop {
                written_at: self.written_at.push(self.clock),
                ..self.accessed(ClipboardContent::Text(text))
            },
            EffectView::WriteClipboardImage { image } => Desktop {
                written_at: self.written_at.push(self.clock),
                ..self.accessed(ClipboardContent::Image(image))
            },
            EffectView::Wait { millis } => Desktop {
                clock: self.clock + millis as nat,
                ..self
            },
        }
    }

    /// What the desktop answers when the effect is carried out.  A read
    /// answers with what the clipboard holds in the format it asks for;
    /// nothing is ever refused.
    pub open spec fn respond(self, effect: EffectView) -> OutcomeView {
        match effect {
            EffectView::ReadClipboardText => match self.clipboard {
                ClipboardContent::Text(text) => OutcomeView::Text { text },
                _ => OutcomeView::Completed,
            },
            EffectView::ReadClipboardImage => match self.clipboard {
                ClipboardContent::Image(image) => OutcomeView::Image { image },
                _ => OutcomeView::Completed,
            },
            _ => OutcomeView::Completed,
        }
    }

    /// The desktop after the effects were carried out, the first one first.
    #[verifier::opaque]
    pub open spec fn perform_all(self, effects: Seq<EffectView>) -> Desktop
        decreases effects.len(),
    {
        if effects.len() == 0 {
            self
        } else {
            self.perform_all(effects.drop_last()).perform(effects.last())
        }
    }
}

impl SessionView {
    /// A bound on the number of effects that the session can still ask for.
    pub open spec fn remaining(self) -> nat {
        if self.pending() is None {
            0
        } else if self.restoring {
            (self.script.len() - self.cursor) as nat
        } else {
            (self.script.len() - self.cursor + 2) as nat
        }
    }
}

/// Whether the effect at the position of the script is refused: the
/// position is one of those at which the operating system refuses, and the
/// effect is one that can be refused.
pub open spec fn refuses(refused: Set<nat>, script: Seq<EffectView>, position: nat) -> bool {
    refused.contains(position) && position < script.len() && failure_of(
        script[position as int],
    ) is Some
}

/// Whether none of the first effects of the script is refused.
pub open spec fn spared(refused: Set<nat>, script: Seq<EffectView>, count: nat) -> bool {
    forall|position: nat| position < count ==> !#[trigger] refuses(refused, script, position)
}

/// The session and the desktop at the end, when every pending effect is
/// handed to the desktop and the session is resumed with the answer, until
/// the session has ended.  An effect that is refused leaves the desktop as
/// it was; every other effect is carried out, and answered as the desktop
/// answers.
#[verifier::opaque]
pub open spec fn drive(session: SessionView, desktop: Desktop, refused: Set<nat>) -> (
    SessionView,
    Desktop,
)
    decreases session.remaining(),
{
    match session.pending() {
        None => (session, desktop),
        Some(effect) => if refuses(refused, session.script, session.cursor) {
            drive(session.resume(OutcomeView::Failed), desktop, refused)
        } else {
            drive(session.resume(desktop.respond(effect)), desktop.perform(effect), refused)
        },
    }
}

/// The session after it was resumed with each of the outcomes in turn,
/// whatever they are.
pub open spec fn replay(session: SessionView, outcomes: Seq<OutcomeView>) -> SessionView
    decreases outcomes.len(),
{
    if outcomes.len() == 0 {
        session
    } else {
        replay(session, outcomes.drop_last()).resume(outcomes.last())
    }
}

} // verus!
