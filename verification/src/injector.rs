//! The key and text events of an insertion, for each of the two injectors.
//!
//! The generic injector sends every key through the general-purpose
//! synthesized-input primitive.  The event-tap injector posts arrow clicks
//! and the paste shortcut as key-down and key-up events at the lowest event
//! layer, and sets and clears the modifier flags around the keystroke itself.

use vstd::prelude::*;
use crate::effect::{views, Effect, EffectView, Key, KeyMotion, TapFlags, TapKey};
use crate::request::{ArrowDirection, Platform, EVENT_TAP_SETTLE_MS};

verus! {

/// The key of the general-purpose primitive for an arrow direction.
pub open spec fn arrow_key(direction: ArrowDirection) -> Key {
    match direction {
        ArrowDirection::Left => Key::LeftArrow,
        ArrowDirection::Right => Key::RightArrow,
    }
}

/// The key of the event-tap layer for an arrow direction.
pub open spec fn arrow_tap_key(direction: ArrowDirection) -> TapKey {
    match direction {
        ArrowDirection::Left => TapKey::LeftArrow,
        ArrowDirection::Right => TapKey::RightArrow,
    }
}

/// The effects of one click of an arrow key.
///
/// The generic injector sends a single click.  The event-tap injector
/// acquires an event source, posts the key-down and the key-up event with
/// their flags untouched, and lets the events settle.
pub open spec fn arrow_click(platform: Platform, direction: ArrowDirection) -> Seq<EffectView> {
    match platform {
        Platform::Generic => seq![
            EffectView::SendKey { key: arrow_key(direction), motion: KeyMotion::Click },
        ],
        Platform::EventTap => seq![
            EffectView::AcquireEventSource,
            EffectView::PostKeyEvent {
                tap_key: arrow_tap_key(direction),
                key_down: true,
                flags: TapFlags::Untouched,
            },
            EffectView::PostKeyEvent {
                tap_key: arrow_tap_key(direction),
                key_down: false,
                flags: TapFlags::Untouched,
            },
            EffectView::Wait { millis: EVENT_TAP_SETTLE_MS },
        ],
    }
}

/// The effects of the paste shortcut.
///
/// The generic injector presses Control, clicks V and releases Control.
/// The event-tap injector acquires an event source, posts the key-down
/// event of V with the Command flag set, posts the key-up event of V with
/// the flags cleared, and then releases the Command key itself.
pub open spec fn paste_chord(platform: Platform) -> Seq<EffectView> {
    match platform {
        Platform::Generic => seq![
            EffectView::SendKey { key: Key::Control, motion: KeyMotion::Press },
            EffectView::SendKey { key: Key::LetterV, motion: KeyMotion::Click },
            EffectView::SendKey { key: Key::Control, motion: KeyMotion::Release },
        ],
        Platform::EventTap => seq![
            EffectView::AcquireEventSource,
            EffectView::PostKeyEvent {
                tap_key: TapKey::LetterV,
                key_down: true,
                flags: TapFlags::Command,
            },
            EffectView::PostKeyEvent {
                tap_key: TapKey::LetterV,
                key_down: false,
                flags: TapFlags::Cleared,
            },
            EffectView::PostKeyEvent {
                tap_key: TapKey::Command,
                key_down: false,
                flags: TapFlags::Untouched,
            },
        ],
    }
}

/// The effect that delivers the text as one logical insertion.  Both
/// injectors use the general-purpose primitive for it.
pub open spec fn text_entry(text: Seq<char>) -> Seq<EffectView> {
    seq![EffectView::TypeText { text }]
}

/// The effects of one click of an arrow key.
pub fn click_arrow(platform: Platform, direction: ArrowDirection) -> (script: Vec<Effect>)
    ensures
        views(script@) == arrow_click(platform, direction),
{
    let script = match platform {
        Platform::Generic => {
            let key = match direction {
                ArrowDirection::Left => Key::LeftArrow,
                ArrowDirection::Right => Key::RightArrow,
            };
            vec![Effect::SendKey { key, motion: KeyMotion::Click }]
        },
        Platform::EventTap => {
            let tap_key = match direction {
                ArrowDirection::Left => TapKey::LeftArrow,
                ArrowDirection::Right => TapKey::RightArrow,
            };
            vec![
                Effect::AcquireEventSource,
                Effect::PostKeyEvent { tap_key, key_down: true, flags: TapFlags::Untouched },
                Effect::PostKeyEvent { tap_key, key_down: false, flags: TapFlags::Untouched },
                Effect::Wait { millis: EVENT_TAP_SETTLE_MS },
            ]
        },
    };
    assert(views(script@) =~= arrow_click(platform, direction));
    script
}

/// The effects of the paste shortcut.
pub fn paste_keystroke(platform: Platform) -> (script: Vec<Effect>)
    ensures
        views(script@) == paste_chord(platform),
{
    let script = match platform {
        Platform::Generic => vec![
            Effect::SendKey { key: Key::Control, motion: KeyMotion::Press },
            Effect::SendKey { key: Key::LetterV, motion: KeyMotion::Click },
            Effect::SendKey { key: Key::Control, motion: KeyMotion::Release },
        ],
        Platform::EventTap => vec![
            Effect::AcquireEventSource,
            Effect::PostKeyEvent {
                tap_key: TapKey::LetterV,
                key_down: true,
                flags: TapFlags::Command,
            },
            Effect::PostKeyEvent {
                tap_key: TapKey::LetterV,
                key_down: false,
                flags: TapFlags::Cleared,
            },
            Effect::PostKeyEvent {
                tap_key: TapKey::Command,
                key_down: false,
                flags: TapFlags::Untouched,
            },
        ],
    };
    assert(views(script@) =~= paste_chord(platform));
    script
}

/// The effect that delivers the text as one logical insertion.
pub fn synthesize_text(text: String) -> (script: Vec<Effect>)
    ensures
        views(script@) == text_entry(text@),
{
    let script = vec![Effect::TypeText { text }];
    assert(views(script@) =~= text_entry(text@));
    script
}

} // verus!
