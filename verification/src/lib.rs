//! Orchestration of text insertion into the input field that holds keyboard
//! focus.
//!
//! Text reaches the field either as synthesized text events or through the
//! system clipboard: the text is staged on the clipboard, a paste shortcut is
//! injected, and the previous clipboard content is written back.
//!
//! The crate performs no input or output itself.  An insertion is a
//! [`Insertion`] session: it names the next [`Effect`] that the caller has to
//! perform on the operating system, and is resumed with the [`Outcome`] of
//! that effect.  Which effects are asked for, in which order, and what the
//! session reports at the end, is what this crate decides and proves.
//!
//! ```text
//! let mut session = insert_text(text, options, platform);
//! while let Some(effect) = session.pending() {
//!     let outcome = perform(effect);
//!     session = session.resume(outcome);
//! }
//! session.verdict()
//! ```
//!
//! # What the caller owes
//!
//! The clipboard and the focused field belong to the whole desktop, and
//! nothing here locks them.  A caller carries out one session at a time, and
//! every effect of it before it begins the next: two sessions whose effects
//! interleave overwrite each other's staged text and restore each other's
//! snapshots.  A wait blocks for at least its duration; it is never cut
//! short, and nothing tells the session that the paste was consumed.
//!
//! Where the operating system gates input injection behind a permission,
//! events of a process without it are dropped in silence.  The caller
//! reports such an effect as completed, and the session cannot tell.
//!
//! # Modules
//!
//! - [`request`]: modes, options, defaults and errors.
//! - [`effect`]: the effects and outcomes that cross the boundary.
//! - [`clipboard`]: the snapshot of the clipboard and the writes around it.
//! - [`injector`]: the key events of the two injectors.
//! - [`session`]: the state machine.
//! - [`desktop`]: the model of the desktop that the laws speak of.
//! - [`laws`]: what is proved of every insertion.

pub mod request;
pub mod effect;
pub mod clipboard;
pub mod injector;
pub mod session;
pub mod desktop;
pub mod laws;
mod lemmas;

pub use clipboard::{ClipboardContent, ClipboardSnapshot, SnapshotKind};
pub use effect::{
    Effect, EffectView, ImageBuffer, ImageView, Key, KeyMotion, Outcome, OutcomeView, TapFlags,
    TapKey,
};
pub use session::{insert_text, paste, Insertion, SessionView};
pub use request::{
    ArrowDirection, InsertError, InsertOptions, Mode, PasteOptions, Platform, RestorePolicy,
};
