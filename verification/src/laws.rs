//! What holds of every insertion, on whatever desktop it is carried out and
//! whatever the operating system refuses.
//!
//! The public proof functions of this module are the laws of the crate.
//! Each is a statement about [`insertion`], the run of a session on the
//! model of [`crate::desktop`], or about [`replay`], the session after
//! arbitrary outcomes.

use vstd::prelude::*;
use crate::clipboard::ClipboardContent;
use crate::desktop::{drive, refuses, replay, spared, touches_clipboard, Desktop};
use crate::effect::{failure_of, EffectView, OutcomeView};
use crate::injector::paste_chord;
use crate::lemmas::{
    lemma_clipboard_untouched, lemma_first_refusal, lemma_perform_add,
    lemma_replay_without_clipboard, lemma_restored, lemma_run_refused, lemma_run_spared,
    lemma_trace_performed,
};
use crate::request::{
    ArrowDirection, InsertError, InsertOptions, Mode, Platform, EVENT_TAP_SETTLE_MS,
};
use crate::session::{opening, positioning, restoration, SessionView};

verus! {

/// The session and the desktop at the end of an insertion that is carried
/// out on the desktop, with the operating system refusing at the given
/// positions of the script.
pub open spec fn insertion(
    text: Seq<char>,
    options: InsertOptions,
    platform: Platform,
    desktop: Desktop,
    refused: Set<nat>,
) -> (SessionView, Desktop) {
    drive(SessionView::begin(text, options, platform), desktop, refused)
}

/// Whether the insertion stages its text on the clipboard.
pub open spec fn stages(text: Seq<char>, options: InsertOptions) -> bool {
    options.mode is Paste && text.len() > 0
}

/// Every effect that an insertion carries out when nothing is refused, in
/// order: the script that the session begins with and, where the clipboard
/// was read, the effects that restore what it held.
pub open spec fn trace(
    text: Seq<char>,
    options: InsertOptions,
    platform: Platform,
    clipboard: ClipboardContent,
) -> Seq<EffectView> {
    if stages(text, options) {
        opening(text, options, platform) + restoration(
            clipboard.normal(),
            options.paste_wait_ms,
        )
    } else {
        opening(text, options, platform)
    }
}

/// Whether the effect replaces what the clipboard holds.
pub open spec fn overwrites_clipboard(effect: EffectView) -> bool {
    effect is ClearClipboard || effect is WriteClipboardText || effect is WriteClipboardImage
}

/// The wait that an arrow click ends with.
pub open spec fn settle_ms(platform: Platform) -> nat {
    match platform {
        Platform::Generic => 0,
        Platform::EventTap => EVENT_TAP_SETTLE_MS as nat,
    }
}

/// The desktop after the positioning of a session.
pub open spec fn positioned(
    desktop: Desktop,
    platform: Platform,
    arrow: Option<ArrowDirection>,
) -> Desktop {
    match arrow {
        Some(direction) => Desktop {
            clock: desktop.clock + settle_ms(platform),
            ..desktop.arrowed(direction)
        },
        None => desktop,
    }
}

/// The desktop after the paste shortcut.
pub open spec fn chorded(desktop: Desktop) -> Desktop {
    Desktop { modifier_held: false, ..desktop.pasted() }
}

/// The first effects of a script.
pub open spec fn prefix(script: Seq<EffectView>, count: nat) -> Seq<EffectView> {
    script.subrange(0, count as int)
}

/// The desktop after the text was staged on the clipboard.
pub open spec fn staged(desktop: Desktop, text: Seq<char>, copy_wait_ms: u64) -> Desktop {
    Desktop {
        clipboard: ClipboardContent::Text(text),
        clipboard_accesses: desktop.clipboard_accesses + 2,
        written_at: desktop.written_at.push(desktop.clock),
        clock: desktop.clock + copy_wait_ms as nat,
        ..desktop
    }
}

/// The desktop after a saved content was put back; the same desktop where
/// nothing was saved.
pub open spec fn restored(desktop: Desktop, content: ClipboardContent, paste_wait_ms: u64) -> Desktop {
    if content is Empty {
        desktop
    } else {
        Desktop {
            clipboard: content,
            clipboard_accesses: desktop.clipboard_accesses + 1,
            written_at: desktop.written_at.push(desktop.clock + paste_wait_ms as nat),
            clock: desktop.clock + paste_wait_ms as nat,
            ..desktop
        }
    }
}

/// The desktop at the end of an insertion, written out.
pub open spec fn expected(
    text: Seq<char>,
    options: InsertOptions,
    platform: Platform,
    desktop: Desktop,
) -> Desktop {
    let placed = positioned(desktop, platform, options.pre_click_arrow);
    match options.mode {
        Mode::Direct => Desktop { field: placed.field + text, ..placed },
        Mode::Paste => if text.len() == 0 {
            chorded(placed)
        } else {
            let read = Desktop { clipboard_accesses: placed.clipboard_accesses + 3, ..placed };
            restored(
                chorded(staged(read, text, options.copy_wait_ms)),
                desktop.clipboard.normal(),
                options.paste_wait_ms,
            )
        },
    }
}

/// Whether a refusal at the position finds the session holding a snapshot
/// that it is bound to put back: the insertion stages its text, the
/// clipboard held something worth saving, the policy guarantees the
/// restoring, and the position lies behind the reads of the clipboard and
/// before the end of the script that the session began with.
pub open spec fn restores_after_refusal(
    text: Seq<char>,
    options: InsertOptions,
    platform: Platform,
    clipboard: ClipboardContent,
    at: nat,
) -> bool {
    &&& stages(text, options)
    &&& options.restore is Guaranteed
    &&& clipboard.present()
    &&& positioning(platform, options.pre_click_arrow).len() + 3 <= at
    &&& at < opening(text, options, platform).len()
}

/// Every effect that an insertion carries out when the effect at the
/// position is the first to be refused: the effects before the position
/// and, where the session is bound to put the snapshot back, the wait and
/// the write that do so; the write is left out where it is refused in turn.
pub open spec fn refused_trace(
    text: Seq<char>,
    options: InsertOptions,
    platform: Platform,
    clipboard: ClipboardContent,
    at: nat,
    write_refused: bool,
) -> Seq<EffectView> {
    let carried = prefix(trace(text, options, platform, clipboard), at);
    if restores_after_refusal(text, options, platform, clipboard, at) {
        if write_refused {
            carried.push(EffectView::Wait { millis: options.paste_wait_ms })
        } else {
            carried + restoration(clipboard.normal(), options.paste_wait_ms)
        }
    } else {
        carried
    }
}

/// Whether the insertion ends in success.
pub open spec fn succeeds(
    text: Seq<char>,
    options: InsertOptions,
    platform: Platform,
    desktop: Desktop,
    refused: Set<nat>,
) -> bool {
    insertion(text, options, platform, desktop, refused).0.verdict == Some(
        Ok::<(), InsertError>(()),
    )
}

/// An insertion ends in success if and only if none of the effects of its
/// trace is refused.
pub proof fn law_success_is_owed(
    text: Seq<char>,
    options: InsertOptions,
    platform: Platform,
    desktop: Desktop,
    refused: Set<nat>,
)
    ensures
        succeeds(text, options, platform, desktop, refused) <==> spared(
            refused,
            trace(text, options, platform, desktop.clipboard),
            trace(text, options, platform, desktop.clipboard).len(),
        ),
{
    let full = trace(text, options, platform, desktop.clipboard);
    if spared(refused, full, full.len()) {
        lemma_run_spared(text, options, platform, desktop, refused);
    } else {
        let at = lemma_first_refusal(refused, full, full.len());
        lemma_run_refused(text, options, platform, desktop, refused, at);
    }
}

/// An insertion that ends in success has carried out the effects of its
/// trace, each once and in order, and nothing else.
pub proof fn law_insertion_completes(
    text: Seq<char>,
    options: InsertOptions,
    platform: Platform,
    desktop: Desktop,
    refused: Set<nat>,
)
    requires
        succeeds(text, options, platform, desktop, refused),
    ensures
        insertion(text, options, platform, desktop, refused).0.script == trace(
            text,
            options,
            platform,
            desktop.clipboard,
        ),
        insertion(text, options, platform, desktop, refused).1 == desktop.perform_all(
            trace(text, options, platform, desktop.clipboard),
        ),
        insertion(text, options, platform, desktop, refused).1 == expected(
            text,
            options,
            platform,
            desktop,
        ),
{
    law_success_is_owed(text, options, platform, desktop, refused);
    lemma_run_spared(text, options, platform, desktop, refused);
    lemma_trace_performed(text, options, platform, desktop);
}

/// The effect that is refused first ends the insertion with its error, and
/// the rest of the script is not carried out.  Only where the session is
/// bound to put a snapshot back does it still do so.
pub proof fn law_first_refusal_ends_insertion(
    text: Seq<char>,
    options: InsertOptions,
    platform: Platform,
    desktop: Desktop,
    refused: Set<nat>,
    at: nat,
)
    requires
        refuses(refused, trace(text, options, platform, desktop.clipboard), at),
        spared(refused, trace(text, options, platform, desktop.clipboard), at),
    ensures
        insertion(text, options, platform, desktop, refused).0.verdict == Some(
            Err::<(), InsertError>(
                failure_of(trace(text, options, platform, desktop.clipboard)[at as int])->0,
            ),
        ),
        insertion(text, options, platform, desktop, refused).1 == desktop.perform_all(
            refused_trace(
                text,
                options,
                platform,
                desktop.clipboard,
                at,
                refused.contains(at + 2),
            ),
        ),
{
    lemma_run_refused(text, options, platform, desktop, refused, at);
}

/// Under guaranteed restoring, an insertion that is refused while it holds
/// a snapshot leaves the clipboard holding what it held before, provided
/// the write that puts it back is not refused in turn.
pub proof fn law_clipboard_restored_despite_refusal(
    text: Seq<char>,
    options: InsertOptions,
    platform: Platform,
    desktop: Desktop,
    refused: Set<nat>,
    at: nat,
)
    requires
        restores_after_refusal(text, options, platform, desktop.clipboard, at),
        refuses(refused, trace(text, options, platform, desktop.clipboard), at),
        spared(refused, trace(text, options, platform, desktop.clipboard), at),
        !refused.contains(at + 2),
    ensures
        insertion(text, options, platform, desktop, refused).0.verdict is Some,
        insertion(text, options, platform, desktop, refused).0.verdict->0 is Err,
        insertion(text, options, platform, desktop, refused).1.clipboard == desktop.clipboard,
{
    let carried = prefix(trace(text, options, platform, desktop.clipboard), at);
    let saved = desktop.clipboard.normal();
    lemma_run_refused(text, options, platform, desktop, refused, at);
    lemma_perform_add(desktop, carried, restoration(saved, options.paste_wait_ms));
    lemma_restored(desktop.perform_all(carried), saved, options.paste_wait_ms);
}

/// After a successful paste-mode insertion of a text that is not empty, a
/// clipboard that held text or an image holds what it held before.
pub proof fn law_clipboard_restored(
    text: Seq<char>,
    options: InsertOptions,
    platform: Platform,
    desktop: Desktop,
    refused: Set<nat>,
)
    requires
        options.mode is Paste,
        text.len() > 0,
        desktop.clipboard.present(),
        succeeds(text, options, platform, desktop, refused),
    ensures
        insertion(text, options, platform, desktop, refused).1.clipboard == desktop.clipboard,
{
    law_insertion_completes(text, options, platform, desktop, refused);
}

/// Where the clipboard held nothing worth saving, a successful paste-mode
/// insertion of a text that is not empty writes to the clipboard once, to
/// stage the text, and nothing is written back: the clipboard is left
/// holding the text.
pub proof fn law_empty_clipboard_gets_no_write_back(
    text: Seq<char>,
    options: InsertOptions,
    platform: Platform,
    desktop: Desktop,
    refused: Set<nat>,
)
    requires
        options.mode is Paste,
        text.len() > 0,
        !desktop.clipboard.present(),
        succeeds(text, options, platform, desktop, refused),
    ensures
        insertion(text, options, platform, desktop, refused).1.written_at.len()
            == desktop.written_at.len() + 1,
        insertion(text, options, platform, desktop, refused).1.clipboard
            == ClipboardContent::Text(text),
        trace(text, options, platform, desktop.clipboard) == opening(text, options, platform),
{
    law_insertion_completes(text, options, platform, desktop, refused);
    assert(trace(text, options, platform, desktop.clipboard) =~= opening(
        text,
        options,
        platform,
    ));
}

/// A successful paste-mode insertion of the empty text injects the paste
/// shortcut and has nothing to do with the clipboard: the clipboard is not
/// opened, read, cleared or written, and holds at the end what it held
/// before.
pub proof fn law_empty_text_is_bare_paste(
    options: InsertOptions,
    platform: Platform,
    desktop: Desktop,
    refused: Set<nat>,
)
    requires
        options.mode is Paste,
        succeeds(Seq::empty(), options, platform, desktop, refused),
    ensures
        ({
            let (session, after) = insertion(Seq::empty(), options, platform, desktop, refused);
            &&& session.script == positioning(platform, options.pre_click_arrow) + paste_chord(
                platform,
            )
            &&& after.clipboard == desktop.clipboard
            &&& after.clipboard_accesses == desktop.clipboard_accesses
            &&& after.written_at == desktop.written_at
            &&& after.pasted_at == desktop.pasted_at.push(after.clock)
        }),
{
    law_insertion_completes(Seq::empty(), options, platform, desktop, refused);
}

/// A successful insertion clicks the arrow key that it was asked to click
/// exactly once, and no other arrow key, whatever the mode.
pub proof fn law_arrow_clicked_once(
    text: Seq<char>,
    options: InsertOptions,
    platform: Platform,
    desktop: Desktop,
    refused: Set<nat>,
)
    requires
        succeeds(text, options, platform, desktop, refused),
    ensures
        ({
            let after = insertion(text, options, platform, desktop, refused).1;
            &&& after.left_clicks == desktop.left_clicks + if options.pre_click_arrow == Some(
                ArrowDirection::Left,
            ) {
                1nat
            } else {
                0nat
            }
            &&& after.right_clicks == desktop.right_clicks + if options.pre_click_arrow == Some(
                ArrowDirection::Right,
            ) {
                1nat
            } else {
                0nat
            }
        }),
{
    law_insertion_completes(text, options, platform, desktop, refused);
}

/// In a successful paste-mode insertion of a text that is not empty, at
/// least the copy wait passes between the write that stages the text and
/// the paste, and where something is written back, at least the paste wait
/// passes between the paste and that write.
pub proof fn law_waits_are_kept(
    text: Seq<char>,
    options: InsertOptions,
    platform: Platform,
    desktop: Desktop,
    refused: Set<nat>,
)
    requires
        options.mode is Paste,
        text.len() > 0,
        succeeds(text, options, platform, desktop, refused),
    ensures
        ({
            let after = insertion(text, options, platform, desktop, refused).1;
            let w = desktop.written_at.len() as int;
            let p = desktop.pasted_at.len() as int;
            &&& after.pasted_at.len() == p + 1
            &&& after.written_at.len() == if desktop.clipboard.present() {
                w + 2
            } else {
                w + 1
            }
            &&& after.pasted_at[p] - after.written_at[w] >= options.copy_wait_ms
            &&& desktop.clipboard.present() ==> after.written_at[w + 1] - after.pasted_at[p]
                >= options.paste_wait_ms
        }),
{
    law_insertion_completes(text, options, platform, desktop, refused);
}

/// A direct insertion has nothing to do with the clipboard, whether it
/// succeeds or is refused: the clipboard is not opened, read, cleared or
/// written, and holds at the end what it held before.
pub proof fn law_direct_leaves_clipboard_alone(
    text: Seq<char>,
    options: InsertOptions,
    platform: Platform,
    desktop: Desktop,
    refused: Set<nat>,
)
    requires
        options.mode is Direct,
    ensures
        ({
            let after = insertion(text, options, platform, desktop, refused).1;
            &&& after.clipboard == desktop.clipboard
            &&& after.clipboard_accesses == desktop.clipboard_accesses
            &&& after.written_at == desktop.written_at
        }),
{
    let full = trace(text, options, platform, desktop.clipboard);
    lemma_replay_without_clipboard(text, options, platform, Seq::empty());
    if spared(refused, full, full.len()) {
        lemma_run_spared(text, options, platform, desktop, refused);
        lemma_clipboard_untouched(desktop, full);
    } else {
        let at = lemma_first_refusal(refused, full, full.len());
        lemma_run_refused(text, options, platform, desktop, refused, at);
        lemma_clipboard_untouched(desktop, prefix(full, at));
    }
}

/// Whatever a session is told of its effects, it has an effect to carry out
/// for as long as it has not ended.
pub proof fn law_session_ends_or_asks(
    text: Seq<char>,
    options: InsertOptions,
    platform: Platform,
    outcomes: Seq<OutcomeView>,
)
    ensures
        replay(SessionView::begin(text, options, platform), outcomes).wf(),
        replay(SessionView::begin(text, options, platform), outcomes).pending() is None
            <==> replay(SessionView::begin(text, options, platform), outcomes).verdict is Some,
    decreases outcomes.len(),
{
    if outcomes.len() > 0 {
        law_session_ends_or_asks(text, options, platform, outcomes.drop_last());
    }
}

/// Whatever a direct insertion, or a paste-mode insertion of the empty text,
/// is told of its effects, it never asks for the clipboard to be opened,
/// read, cleared or written.
pub proof fn law_clipboard_never_asked_for(
    text: Seq<char>,
    options: InsertOptions,
    platform: Platform,
    outcomes: Seq<OutcomeView>,
)
    requires
        options.mode is Direct || text.len() == 0,
    ensures
        ({
            let session = replay(SessionView::begin(text, options, platform), outcomes);
            forall|i: int|
                0 <= i < session.script.len() ==> !touches_clipboard(#[trigger] session.script[i])
        }),
{
    lemma_replay_without_clipboard(text, options, platform, outcomes);
}

/// The text of a successful insertion reaches the focused field, once and
/// unchanged: typed by a direct insertion, pasted by a paste-mode insertion.
pub proof fn law_text_reaches_field(
    text: Seq<char>,
    options: InsertOptions,
    platform: Platform,
    desktop: Desktop,
    refused: Set<nat>,
)
    requires
        options.mode is Direct || text.len() > 0,
        succeeds(text, options, platform, desktop, refused),
    ensures
        insertion(text, options, platform, desktop, refused).1.field == desktop.field + text,
{
    law_insertion_completes(text, options, platform, desktop, refused);
}

/// The two injectors are interchangeable: where the same insertion succeeds
/// on both, it leaves the same clipboard, the same field and the same arrow
/// clicks behind, and the paste modifier released.
pub proof fn law_injectors_agree(
    text: Seq<char>,
    options: InsertOptions,
    desktop: Desktop,
    refused: Set<nat>,
)
    requires
        succeeds(text, options, Platform::Generic, desktop, refused),
        succeeds(text, options, Platform::EventTap, desktop, refused),
    ensures
        ({
            let generic = insertion(text, options, Platform::Generic, desktop, refused).1;
            let tapped = insertion(text, options, Platform::EventTap, desktop, refused).1;
            &&& generic.clipboard == tapped.clipboard
            &&& generic.field == tapped.field
            &&& generic.left_clicks == tapped.left_clicks
            &&& generic.right_clicks == tapped.right_clicks
            &&& generic.clipboard_accesses == tapped.clipboard_accesses
            &&& options.mode is Paste ==> !generic.modifier_held && !tapped.modifier_held
        }),
{
    law_insertion_completes(text, options, Platform::Generic, desktop, refused);
    law_insertion_completes(text, options, Platform::EventTap, desktop, refused);
}

} // verus!
