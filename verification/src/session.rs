//! The insertion session: the state machine that sequences the effects of
//! one insertion and decides, from the outcome of each, what comes next.
//!
//! A session holds a script of effects and a cursor into it.  The script is
//! laid out when the session begins; the one part that depends on what the
//! caller reports, the restoring of the clipboard, is added when the rest of
//! the script has been carried out.
//!
//! The first refused effect ends the insertion with the error of that
//! effect: the rest of the script is dropped, nothing is retried, and what
//! had been done stays done.  What becomes of a clipboard that was already
//! saved is the caller's choice.  Under [`RestorePolicy::Guaranteed`] the
//! session still asks for the saved content to be written back before it
//! ends with that error.  Under [`RestorePolicy::AfterSuccess`] it ends at
//! once, so that an insertion that is refused after the text was staged
//! leaves the text on the clipboard.

use vstd::prelude::*;
use crate::clipboard::{
    captured, snapshot, snapshot_reads, text_write, write_back, ClipboardContent,
    ClipboardSnapshot,
};
use crate::effect::{failure_of, views, Effect, EffectView, Outcome, OutcomeView};
use crate::injector::{
    arrow_click, click_arrow, paste_chord, paste_keystroke, synthesize_text, text_entry,
};
use crate::request::{
    ArrowDirection, InsertError, InsertOptions, Mode, PasteOptions, Platform, RestorePolicy,
    DEFAULT_COPY_WAIT_MS, DEFAULT_PASTE_WAIT_MS,
};

verus! {

/// The effects that open every session: the injector is acquired, and the
/// arrow key, if one was asked for, is clicked once.
pub open spec fn positioning(platform: Platform, arrow: Option<ArrowDirection>) -> Seq<
    EffectView,
> {
    seq![EffectView::AcquireInjector] + match arrow {
        Some(direction) => arrow_click(platform, direction),
        None => Seq::empty(),
    }
}

/// The effects that stage the text on the clipboard and give the clipboard
/// time to take it.
pub open spec fn staging(text: Seq<char>, copy_wait_ms: u64) -> Seq<EffectView> {
    text_write(text) + seq![EffectView::Wait { millis: copy_wait_ms }]
}

/// The effects that put a saved content back once the paste has had time to
/// be consumed; none where nothing was saved.
pub open spec fn restoration(content: ClipboardContent, paste_wait_ms: u64) -> Seq<EffectView> {
    match write_back(content) {
        Some(write) => seq![EffectView::Wait { millis: paste_wait_ms }, write],
        None => Seq::empty(),
    }
}

/// The script that a session begins with.
///
/// After the positioning, a direct insertion synthesizes the text.  A
/// paste-mode insertion of the empty text only injects the paste shortcut:
/// the clipboard is neither read nor written.  A paste-mode insertion of any
/// other text reads the clipboard, stages the text, and injects the paste
/// shortcut.
pub open spec fn opening(text: Seq<char>, options: InsertOptions, platform: Platform) -> Seq<
    EffectView,
> {
    positioning(platform, options.pre_click_arrow) + match options.mode {
        Mode::Direct => text_entry(text),
        Mode::Paste => if text.len() == 0 {
            paste_chord(platform)
        } else {
            snapshot_reads() + staging(text, options.copy_wait_ms) + paste_chord(platform)
        },
    }
}

/// The options under which a bare paste runs.
pub open spec fn paste_request(options: PasteOptions) -> InsertOptions {
    InsertOptions {
        mode: Mode::Paste,
        pre_click_arrow: options.pre_click_arrow,
        copy_wait_ms: DEFAULT_COPY_WAIT_MS,
        paste_wait_ms: DEFAULT_PASTE_WAIT_MS,
        restore: RestorePolicy::Guaranteed,
    }
}

/// The text that an outcome carries.
pub open spec fn text_of(outcome: OutcomeView) -> Option<Seq<char>> {
    match outcome {
        OutcomeView::Text { text } => Some(text),
        _ => None,
    }
}

/// The image that an outcome carries.
pub open spec fn image_of(outcome: OutcomeView) -> Option<crate::effect::ImageView> {
    match outcome {
        OutcomeView::Image { image } => Some(image),
        _ => None,
    }
}

/// The mathematical value of a session.
pub struct SessionView {
    /// The effects of the session, those carried out and those to come.
    pub script: Seq<EffectView>,
    /// How many effects of the script have been carried out.
    pub cursor: nat,
    /// What the text read of the clipboard found, until the snapshot is taken.
    pub clipboard_text: Option<Seq<char>>,
    /// The snapshot of the clipboard, from when it is taken until the script
    /// has been carried out.
    pub snapshot: Option<ClipboardContent>,
    /// The wait before the clipboard is restored.
    pub paste_wait_ms: u64,
    /// What becomes of the snapshot when an effect is refused.
    pub restore: RestorePolicy,
    /// Whether the effects that restore the clipboard have joined the script.
    pub restoring: bool,
    /// The error of the refused effect, while the clipboard is restored
    /// after a refusal.
    pub deferred: Option<InsertError>,
    /// How the session ended, once it has.
    pub verdict: Option<Result<(), InsertError>>,
}

impl SessionView {
    /// The session of an insertion before any effect was carried out.
    pub open spec fn begin(text: Seq<char>, options: InsertOptions, platform: Platform) -> SessionView {
        SessionView {
            script: opening(text, options, platform),
            cursor: 0,
            clipboard_text: None,
            snapshot: None,
            paste_wait_ms: options.paste_wait_ms,
            restore: options.restore,
            restoring: false,
            deferred: None,
            verdict: None,
        }
    }

    /// A session that has not ended has an effect to carry out.
    pub open spec fn wf(self) -> bool {
        self.verdict is None ==> self.cursor < self.script.len()
    }

    /// The effect that the session waits for, while it has not ended.
    pub open spec fn pending(self) -> Option<EffectView> {
        if self.verdict is None && self.cursor < self.script.len() {
            Some(self.script[self.cursor as int])
        } else {
            None
        }
    }

    /// The session after the caller has reported the outcome of the pending
    /// effect.  A session that has ended stays as it is.
    pub open spec fn resume(self, outcome: OutcomeView) -> SessionView {
        match self.pending() {
            None => self,
            Some(effect) => if outcome is Failed && failure_of(effect) is Some {
                self.refused(failure_of(effect)->0)
            } else {
                self.absorb(effect, outcome).advance()
            },
        }
    }

    /// The error that the session ends with when an effect is refused with
    /// the given error: the error of the first effect that was refused.
    pub open spec fn blamed(self, error: InsertError) -> InsertError {
        match self.deferred {
            Some(first) => first,
            None => error,
        }
    }

    /// The session after the pending effect was refused.  The rest of the
    /// script is dropped.  Where the clipboard is owed a write and the
    /// policy guarantees it, the effects that restore the clipboard take the
    /// place of the rest, and the error is kept for the end; else the
    /// session ends with the error.
    pub open spec fn refused(self, error: InsertError) -> SessionView {
        if self.restore is Guaranteed && self.owed() is Some {
            SessionView {
                script: self.script.subrange(0, (self.cursor + 1) as int).push(
                    EffectView::Wait { millis: self.paste_wait_ms },
                ).push(self.owed()->0),
                cursor: self.cursor + 1,
                snapshot: None,
                restoring: true,
                deferred: Some(self.blamed(error)),
                ..self
            }
        } else {
            SessionView { verdict: Some(Err(self.blamed(error))), ..self }
        }
    }

    /// How a session ends when its script has been carried out: in success,
    /// unless it was restoring the clipboard after a refusal.
    pub open spec fn conclusion(self) -> Result<(), InsertError> {
        match self.deferred {
            Some(first) => Err(first),
            None => Ok(()),
        }
    }

    /// The session after it has taken in what a read of the clipboard found.
    /// The text read is kept until the image read completes the snapshot.
    pub open spec fn absorb(self, effect: EffectView, outcome: OutcomeView) -> SessionView {
        match effect {
            EffectView::ReadClipboardText => SessionView {
                clipboard_text: text_of(outcome),
                ..self
            },
            EffectView::ReadClipboardImage => SessionView {
                clipboard_text: None,
                snapshot: Some(captured(self.clipboard_text, image_of(outcome))),
                ..self
            },
            _ => self,
        }
    }

    /// The write that is still owed to the clipboard when the script has
    /// been carried out.
    pub open spec fn owed(self) -> Option<EffectView> {
        if self.restoring || self.snapshot is None {
            None
        } else {
            write_back(self.snapshot->0)
        }
    }

    /// The session after the pending effect has been carried out.  When the
    /// last effect of the script is done and a snapshot with a payload is
    /// held, the effects that restore it join the script; else the session
    /// ends.
    pub open spec fn advance(self) -> SessionView {
        if self.cursor + 1 < self.script.len() {
            SessionView { cursor: self.cursor + 1, ..self }
        } else if self.owed() is Some {
            SessionView {
                script: self.script.push(EffectView::Wait { millis: self.paste_wait_ms }).push(
                    self.owed()->0,
                ),
                cursor: self.cursor + 1,
                snapshot: None,
                restoring: true,
                ..self
            }
        } else {
            SessionView {
                cursor: self.cursor + 1,
                snapshot: None,
                verdict: Some(self.conclusion()),
                ..self
            }
        }
    }
}

/// One insertion in progress.
pub struct Insertion {
    script: Vec<Effect>,
    cursor: usize,
    clipboard_text: Option<String>,
    snapshot: Option<ClipboardSnapshot>,
    paste_wait_ms: u64,
    restore: RestorePolicy,
    restoring: bool,
    deferred: Option<InsertError>,
    verdict: Option<Result<(), InsertError>>,
}

impl View for Insertion {
    type V = SessionView;

    closed spec fn view(&self) -> SessionView {
        SessionView {
            script: views(self.script@),
            cursor: self.cursor as nat,
            clipboard_text: match self.clipboard_text {
                Some(text) => Some(text@),
                None => None,
            },
            snapshot: match self.snapshot {
                Some(snapshot) => Some(snapshot@),
                None => None,
            },
            paste_wait_ms: self.paste_wait_ms,
            restore: self.restore,
            restoring: self.restoring,
            deferred: self.deferred,
            verdict: self.verdict,
        }
    }
}

/// The values of a script that was put together from two.
proof fn lemma_views_add(first: Seq<Effect>, second: Seq<Effect>)
    ensures
        views(first + second) == views(first) + views(second),
{
    assert(views(first + second) =~= views(first) + views(second));
}

/// The values of a script that grew by one effect.
proof fn lemma_views_push(script: Seq<Effect>, effect: Effect)
    ensures
        views(script.push(effect)) == views(script).push(effect@),
{
    assert(views(script.push(effect)) =~= views(script).push(effect@));
}

/// Appends a script to another.
fn extend(script: &mut Vec<Effect>, more: Vec<Effect>)
    ensures
        views(final(script)@) == views(old(script)@) + views(more@),
{
    let mut more = more;
    proof {
        lemma_views_add(script@, more@);
    }
    script.append(&mut more);
}

/// Begins the insertion of a text into the focused field.
///
/// The session that comes back has carried out nothing yet; its first
/// pending effect acquires the injector.
pub fn insert_text(text: String, options: InsertOptions, platform: Platform) -> (session:
    Insertion)
    ensures
        session@ == SessionView::begin(text@, options, platform),
{
    let ghost wanted = text@;
    let mut script = vec![Effect::AcquireInjector];
    assert(views(script@) =~= seq![EffectView::AcquireInjector]);
    match options.pre_click_arrow {
        Some(direction) => {
            extend(&mut script, click_arrow(platform, direction));
        },
        None => {
            assert(views(script@) =~= positioning(platform, options.pre_click_arrow));
        },
    }
    assert(views(script@) == positioning(platform, options.pre_click_arrow));
    match options.mode {
        Mode::Direct => {
            extend(&mut script, synthesize_text(text));
        },
        Mode::Paste => {
            if text.as_str().is_empty() {
                extend(&mut script, paste_keystroke(platform));
            } else {
                let mut body = snapshot();
                extend(&mut body, crate::clipboard::write(text));
                let ghost written = body@;
                let wait = Effect::Wait { millis: options.copy_wait_ms };
                body.push(wait);
                proof {
                    lemma_views_push(written, wait);
                }
                extend(&mut body, paste_keystroke(platform));
                assert(views(body@) =~= snapshot_reads() + staging(wanted, options.copy_wait_ms)
                    + paste_chord(platform));
                extend(&mut script, body);
            }
        },
    }
    assert(views(script@) == opening(wanted, options, platform));
    Insertion {
        script,
        cursor: 0,
        clipboard_text: None,
        snapshot: None,
        paste_wait_ms: options.paste_wait_ms,
        restore: options.restore,
        restoring: false,
        deferred: None,
        verdict: None,
    }
}

/// Begins a bare paste: the arrow click, if one was asked for, and the paste
/// shortcut.  The clipboard is left to the caller.
pub fn paste(options: PasteOptions, platform: Platform) -> (session: Insertion)
    ensures
        session@ == SessionView::begin(Seq::empty(), paste_request(options), platform),
{
    let request = InsertOptions {
        mode: Mode::Paste,
        pre_click_arrow: options.pre_click_arrow,
        copy_wait_ms: DEFAULT_COPY_WAIT_MS,
        paste_wait_ms: DEFAULT_PASTE_WAIT_MS,
        restore: RestorePolicy::Guaranteed,
    };
    insert_text(String::new(), request, platform)
}

impl Insertion {
    #[verifier::type_invariant]
    spec fn inv(&self) -> bool {
        self.verdict is None ==> self.cursor < self.script.len()
    }

    /// The effect that the caller has to carry out next; none once the
    /// session has ended.
    pub fn pending(&self) -> (effect: Option<&Effect>)
        ensures
            match effect {
                Some(effect) => self@.pending() == Some(effect@),
                None => self@.pending() is None,
            },
            effect is None <==> self@.verdict is Some,
    {
        proof {
            use_type_invariant(self);
        }
        if self.verdict.is_none() {
            Some(&self.script[self.cursor])
        } else {
            None
        }
    }

    /// Whether the session has ended.
    pub fn is_finished(&self) -> (finished: bool)
        ensures
            finished == self@.verdict is Some,
    {
        self.verdict.is_some()
    }

    /// How the session ended, once it has: in success when every effect of
    /// the script was carried out, else with the error of the effect that
    /// was refused.
    pub fn verdict(&self) -> (verdict: Option<Result<(), InsertError>>)
        ensures
            verdict == self@.verdict,
    {
        self.verdict
    }

    /// Takes the outcome of the pending effect and moves the session on.
    pub fn resume(self, outcome: Outcome) -> (next: Insertion)
        ensures
            next@ == self@.resume(outcome@),
    {
        proof {
            use_type_invariant(&self);
        }
        let ghost before = self@;
        let Insertion {
            script,
            cursor,
            clipboard_text,
            snapshot,
            paste_wait_ms,
            restore,
            restoring,
            deferred,
            verdict,
        } = self;
        if verdict.is_some() {
            return Insertion {
                script,
                cursor,
                clipboard_text,
                snapshot,
                paste_wait_ms,
                restore,
                restoring,
                deferred,
                verdict,
            };
        }
        let ghost effect = script@[cursor as int]@;
        assert(before.pending() == Some(effect));
        let refusal = match outcome {
            Outcome::Failed => script[cursor].failure(),
            _ => None,
        };
        match refusal {
            Some(error) => {
                let blamed = match deferred {
                    Some(first) => first,
                    None => error,
                };
                let owed = match restore {
                    RestorePolicy::Guaranteed => owed_write(restoring, snapshot),
                    RestorePolicy::AfterSuccess => {
                        return Insertion {
                            script,
                            cursor,
                            clipboard_text,
                            snapshot,
                            paste_wait_ms,
                            restore,
                            restoring,
                            deferred,
                            verdict: Some(Err(blamed)),
                        };
                    },
                };
                return match owed {
                    (Some(write), _) => {
                        let mut script = script;
                        let ghost whole = script@;
                        script.truncate(cursor + 1);
                        let ghost carried = script@;
                        assert(views(carried) =~= views(whole).subrange(0, cursor + 1));
                        let wait = Effect::Wait { millis: paste_wait_ms };
                        script.push(wait);
                        script.push(write);
                        proof {
                            lemma_views_push(carried, wait);
                            lemma_views_push(carried.push(wait), write);
                        }
                        Insertion {
                            script,
                            cursor: cursor + 1,
                            clipboard_text,
                            snapshot: None,
                            paste_wait_ms,
                            restore,
                            restoring: true,
                            deferred: Some(blamed),
                            verdict: None,
                        }
                    },
                    (None, snapshot) => Insertion {
                        script,
                        cursor,
                        clipboard_text,
                        snapshot,
                        paste_wait_ms,
                        restore,
                        restoring,
                        deferred,
                        verdict: Some(Err(blamed)),
                    },
                };
            },
            None => {},
        }
        let (clipboard_text, snapshot) = match &script[cursor] {
            Effect::ReadClipboardText => {
                let found = match outcome {
                    Outcome::Text { text } => Some(text),
                    _ => None,
                };
                (found, snapshot)
            },
            Effect::ReadClipboardImage => {
                let found = match outcome {
                    Outcome::Image { image } => Some(image),
                    _ => None,
                };
                (None, Some(ClipboardSnapshot::capture(clipboard_text, found)))
            },
            _ => (clipboard_text, snapshot),
        };
        let ghost absorbed = before.absorb(effect, outcome@);
        assert(absorbed.clipboard_text == match clipboard_text {
            Some(text) => Some(text@),
            None => None,
        });
        assert(absorbed.snapshot == match snapshot {
            Some(snapshot) => Some(snapshot@),
            None => None,
        });
        let cursor = cursor + 1;
        if cursor < script.len() {
            return Insertion {
                script,
                cursor,
                clipboard_text,
                snapshot,
                paste_wait_ms,
                restore,
                restoring,
                deferred,
                verdict: None,
            };
        }
        match owed_write(restoring, snapshot) {
            (Some(write), _) => {
                let mut script = script;
                let ghost carried = script@;
                let wait = Effect::Wait { millis: paste_wait_ms };
                script.push(wait);
                script.push(write);
                proof {
                    lemma_views_push(carried, wait);
                    lemma_views_push(carried.push(wait), write);
                }
                Insertion {
                    script,
                    cursor,
                    clipboard_text,
                    snapshot: None,
                    paste_wait_ms,
                    restore,
                    restoring: true,
                    deferred,
                    verdict: None,
                }
            },
            (None, _) => {
                let conclusion = match deferred {
                    Some(first) => Err(first),
                    None => Ok(()),
                };
                Insertion {
                    script,
                    cursor,
                    clipboard_text,
                    snapshot: None,
                    paste_wait_ms,
                    restore,
                    restoring,
                    deferred,
                    verdict: Some(conclusion),
                }
            },
        }
    }
}

/// The write that is owed to the clipboard, taken out of the snapshot; where
/// none is owed, the snapshot comes back as it was.
fn owed_write(restoring: bool, snapshot: Option<ClipboardSnapshot>) -> (owed: (
    Option<Effect>,
    Option<ClipboardSnapshot>,
))
    ensures
        crate::clipboard::view_of(owed.0) == if restoring || snapshot is None {
            None
        } else {
            write_back(snapshot->0@)
        },
        owed.0 is None ==> owed.1 == snapshot,
{
    if restoring {
        return (None, snapshot);
    }
    match snapshot {
        Some(ClipboardSnapshot::Text(text)) => (Some(Effect::WriteClipboardText { text }), None),
        Some(ClipboardSnapshot::Image(image)) => (
            Some(Effect::WriteClipboardImage { image }),
            None,
        ),
        Some(ClipboardSnapshot::Empty) => (None, Some(ClipboardSnapshot::Empty)),
        None => (None, None),
    }
}

} // verus!
