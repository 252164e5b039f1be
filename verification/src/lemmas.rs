//! The proofs behind the laws: how the run of a session unfolds on the
//! desktop, one stretch of its script after another.

use vstd::prelude::*;
use crate::clipboard::{snapshot_reads, write_back, ClipboardContent};
use crate::desktop::{drive, is_read, refuses, replay, spared, touches_clipboard, Desktop};
use crate::effect::{failure_of, EffectView, OutcomeView};
use crate::injector::{arrow_click, paste_chord, text_entry};
use crate::laws::{
    chorded, expected, insertion, overwrites_clipboard, positioned, prefix, refused_trace,
    restored, staged, stages, trace,
};
use crate::request::{ArrowDirection, InsertError, InsertOptions, Mode, Platform};
use crate::session::{opening, positioning, restoration, staging, text_of, SessionView};

verus! {

/// No effects leave the desktop as it is.
pub(crate) proof fn lemma_perform_none(desktop: Desktop)
    ensures
        desktop.perform_all(Seq::empty()) == desktop,
{
    reveal(Desktop::perform_all);
}

/// One more effect is carried out after the others.
pub(crate) proof fn lemma_perform_push(
    desktop: Desktop,
    effects: Seq<EffectView>,
    effect: EffectView,
)
    ensures
        desktop.perform_all(effects.push(effect)) == desktop.perform_all(effects).perform(effect),
{
    reveal(Desktop::perform_all);
    assert(effects.push(effect).drop_last() =~= effects);
}

/// Two scripts in a row are carried out one after the other.
pub(crate) proof fn lemma_perform_add(
    desktop: Desktop,
    first: Seq<EffectView>,
    second: Seq<EffectView>,
)
    ensures
        desktop.perform_all(first + second) == desktop.perform_all(first).perform_all(second),
    decreases second.len(),
{
    reveal(Desktop::perform_all);
    if second.len() == 0 {
        assert(first + second =~= first);
    } else {
        lemma_perform_add(desktop, first, second.drop_last());
        assert((first + second).drop_last() =~= first + second.drop_last());
    }
}

/// A script of one effect.
pub(crate) proof fn lemma_perform_one(desktop: Desktop, a: EffectView)
    ensures
        desktop.perform_all(seq![a]) == desktop.perform(a),
{
    lemma_perform_none(desktop);
    lemma_perform_push(desktop, Seq::empty(), a);
    assert(seq![a] =~= Seq::empty().push(a));
}

/// A script of two effects.
pub(crate) proof fn lemma_perform_two(desktop: Desktop, a: EffectView, b: EffectView)
    ensures
        desktop.perform_all(seq![a, b]) == desktop.perform(a).perform(b),
{
    lemma_perform_one(desktop, a);
    lemma_perform_push(desktop, seq![a], b);
    assert(seq![a, b] =~= seq![a].push(b));
}

/// A script of three effects.
pub(crate) proof fn lemma_perform_three(desktop: Desktop, a: EffectView, b: EffectView, c: EffectView)
    ensures
        desktop.perform_all(seq![a, b, c]) == desktop.perform(a).perform(b).perform(c),
{
    lemma_perform_two(desktop, a, b);
    lemma_perform_push(desktop, seq![a, b], c);
    assert(seq![a, b, c] =~= seq![a, b].push(c));
}

/// A script of four effects.
pub(crate) proof fn lemma_perform_four(
    desktop: Desktop,
    a: EffectView,
    b: EffectView,
    c: EffectView,
    d: EffectView,
)
    ensures
        desktop.perform_all(seq![a, b, c, d]) == desktop.perform(a).perform(b).perform(c).perform(
            d,
        ),
{
    lemma_perform_three(desktop, a, b, c);
    lemma_perform_push(desktop, seq![a, b, c], d);
    assert(seq![a, b, c, d] =~= seq![a, b, c].push(d));
}

/// Effects that do not overwrite the clipboard leave its content alone.
pub(crate) proof fn lemma_clipboard_kept(desktop: Desktop, effects: Seq<EffectView>)
    requires
        forall|i: int| 0 <= i < effects.len() ==> !overwrites_clipboard(#[trigger] effects[i]),
    ensures
        desktop.perform_all(effects).clipboard == desktop.clipboard,
    decreases effects.len(),
{
    reveal(Desktop::perform_all);
    if effects.len() > 0 {
        lemma_clipboard_kept(desktop, effects.drop_last());
    }
}

/// The positioning has nothing to do with the clipboard.
pub(crate) proof fn lemma_positioning_plain(platform: Platform, arrow: Option<ArrowDirection>)
    ensures
        positioning(platform, arrow).len() >= 1,
        forall|i: int|
            0 <= i < positioning(platform, arrow).len() ==> !touches_clipboard(
                #[trigger] positioning(platform, arrow)[i],
            ),
{
}

/// The paste shortcut has nothing to do with the clipboard.
pub(crate) proof fn lemma_chord_plain(platform: Platform)
    ensures
        paste_chord(platform).len() >= 3,
        forall|i: int|
            0 <= i < paste_chord(platform).len() ==> !touches_clipboard(
                #[trigger] paste_chord(platform)[i],
            ),
{
}

/// What the positioning does to the desktop.
pub(crate) proof fn lemma_positioned(desktop: Desktop, platform: Platform, arrow: Option<ArrowDirection>)
    ensures
        desktop.perform_all(positioning(platform, arrow)) == positioned(desktop, platform, arrow),
{
    let click = match arrow {
        Some(direction) => arrow_click(platform, direction),
        None => Seq::empty(),
    };
    lemma_perform_add(desktop, seq![EffectView::AcquireInjector], click);
    lemma_perform_one(desktop, EffectView::AcquireInjector);
    match arrow {
        Some(direction) => {
            match platform {
                Platform::Generic => {
                    lemma_perform_one(desktop, click[0]);
                    assert(click =~= seq![click[0]]);
                },
                Platform::EventTap => {
                    lemma_perform_four(desktop, click[0], click[1], click[2], click[3]);
                    assert(click =~= seq![click[0], click[1], click[2], click[3]]);
                },
            }
        },
        None => {},
    }
}

/// What the paste shortcut does to the desktop, on either injector.
pub(crate) proof fn lemma_chorded(desktop: Desktop, platform: Platform)
    ensures
        desktop.perform_all(paste_chord(platform)) == chorded(desktop),
{
    let chord = paste_chord(platform);
    match platform {
        Platform::Generic => {
            lemma_perform_three(desktop, chord[0], chord[1], chord[2]);
            assert(chord =~= seq![chord[0], chord[1], chord[2]]);
        },
        Platform::EventTap => {
            lemma_perform_four(desktop, chord[0], chord[1], chord[2], chord[3]);
            assert(chord =~= seq![chord[0], chord[1], chord[2], chord[3]]);
        },
    }
}

/// What the staging does to the desktop.
pub(crate) proof fn lemma_staged(desktop: Desktop, text: Seq<char>, copy_wait_ms: u64)
    ensures
        desktop.perform_all(staging(text, copy_wait_ms)) == staged(desktop, text, copy_wait_ms),
{
    let write = EffectView::WriteClipboardText { text };
    let wait = EffectView::Wait { millis: copy_wait_ms };
    lemma_perform_three(desktop, EffectView::ClearClipboard, write, wait);
    assert(staging(text, copy_wait_ms) =~= seq![EffectView::ClearClipboard, write, wait]);
}

/// What the reads of the clipboard do to the desktop.
pub(crate) proof fn lemma_read(desktop: Desktop)
    ensures
        desktop.perform_all(snapshot_reads()) == (Desktop {
            clipboard_accesses: desktop.clipboard_accesses + 3,
            ..desktop
        }),
{
    lemma_perform_three(
        desktop,
        EffectView::OpenClipboard,
        EffectView::ReadClipboardText,
        EffectView::ReadClipboardImage,
    );
}

/// What the restoring does to the desktop.
pub(crate) proof fn lemma_restored(desktop: Desktop, content: ClipboardContent, paste_wait_ms: u64)
    ensures
        desktop.perform_all(restoration(content, paste_wait_ms)) == restored(
            desktop,
            content,
            paste_wait_ms,
        ),
{
    if content is Empty {
        lemma_perform_none(desktop);
    } else {
        lemma_perform_two(
            desktop,
            EffectView::Wait { millis: paste_wait_ms },
            write_back(content)->0,
        );
    }
}

/// The desktop after every effect of the trace.
pub(crate) proof fn lemma_trace_performed(
    text: Seq<char>,
    options: InsertOptions,
    platform: Platform,
    desktop: Desktop,
)
    ensures
        desktop.perform_all(trace(text, options, platform, desktop.clipboard)) == expected(
            text,
            options,
            platform,
            desktop,
        ),
{
    let lead = positioning(platform, options.pre_click_arrow);
    let placed = positioned(desktop, platform, options.pre_click_arrow);
    lemma_positioned(desktop, platform, options.pre_click_arrow);
    match options.mode {
        Mode::Direct => {
            lemma_perform_add(desktop, lead, text_entry(text));
            lemma_perform_one(placed, EffectView::TypeText { text });
        },
        Mode::Paste => {
            let chord = paste_chord(platform);
            if text.len() == 0 {
                lemma_perform_add(desktop, lead, chord);
                lemma_chorded(placed, platform);
            } else {
                let reads = snapshot_reads();
                let stage = staging(text, options.copy_wait_ms);
                let tail = restoration(desktop.clipboard.normal(), options.paste_wait_ms);
                let read = placed.perform_all(reads);
                lemma_read(placed);
                lemma_staged(read, text, options.copy_wait_ms);
                lemma_chorded(read.perform_all(stage), platform);
                lemma_restored(
                    read.perform_all(stage).perform_all(chord),
                    desktop.clipboard.normal(),
                    options.paste_wait_ms,
                );
                lemma_perform_add(placed, reads, stage);
                lemma_perform_add(placed, reads + stage, chord);
                lemma_perform_add(desktop, lead, reads + stage + chord);
                lemma_perform_add(desktop, lead + (reads + stage + chord), tail);
            }
        },
    }
}

/// Effects that have nothing to do with the clipboard leave it as it was,
/// unopened and unwritten.
pub(crate) proof fn lemma_clipboard_untouched(desktop: Desktop, effects: Seq<EffectView>)
    requires
        forall|i: int| 0 <= i < effects.len() ==> !touches_clipboard(#[trigger] effects[i]),
    ensures
        desktop.perform_all(effects).clipboard == desktop.clipboard,
        desktop.perform_all(effects).clipboard_accesses == desktop.clipboard_accesses,
        desktop.perform_all(effects).written_at == desktop.written_at,
    decreases effects.len(),
{
    reveal(Desktop::perform_all);
    if effects.len() > 0 {
        lemma_clipboard_untouched(desktop, effects.drop_last());
    }
}

/// A session that has ended stays where it is.
pub(crate) proof fn lemma_drive_done(session: SessionView, desktop: Desktop, refused: Set<nat>)
    requires
        session.pending() is None,
    ensures
        drive(session, desktop, refused) == (session, desktop),
{
    reveal(drive);
}

/// One effect of a run that is carried out.
pub(crate) proof fn lemma_drive_next(session: SessionView, desktop: Desktop, refused: Set<nat>)
    requires
        session.pending() is Some,
        !refuses(refused, session.script, session.cursor),
    ensures
        drive(session, desktop, refused) == drive(
            session.resume(desktop.respond(session.script[session.cursor as int])),
            desktop.perform(session.script[session.cursor as int]),
            refused,
        ),
{
    reveal(drive);
}

/// One effect of a run that is refused.
pub(crate) proof fn lemma_drive_refused(session: SessionView, desktop: Desktop, refused: Set<nat>)
    requires
        session.pending() is Some,
        refuses(refused, session.script, session.cursor),
    ensures
        drive(session, desktop, refused) == drive(
            session.resume(OutcomeView::Failed),
            desktop,
            refused,
        ),
{
    reveal(drive);
}

/// One effect of a run that is carried out, with the desktop written as what
/// became of the desktop that the run started on.
pub(crate) proof fn lemma_drive_ahead(session: SessionView, origin: Desktop, refused: Set<nat>)
    requires
        session.pending() is Some,
        !refuses(refused, session.script, session.cursor),
    ensures
        ({
            let desktop = origin.perform_all(prefix(session.script, session.cursor));
            let effect = session.script[session.cursor as int];
            drive(session, desktop, refused) == drive(
                session.resume(desktop.respond(effect)),
                origin.perform_all(prefix(session.script, session.cursor + 1)),
                refused,
            )
        }),
{
    lemma_drive_next(
        session,
        origin.perform_all(prefix(session.script, session.cursor)),
        refused,
    );
    lemma_perform_push(
        origin,
        prefix(session.script, session.cursor),
        session.script[session.cursor as int],
    );
    assert(prefix(session.script, session.cursor + 1) =~= prefix(
        session.script,
        session.cursor,
    ).push(session.script[session.cursor as int]));
}

/// A stretch of a run in which nothing is refused, and which neither reads
/// the clipboard nor reaches the end of the script.
pub(crate) proof fn lemma_drive_plain(
    session: SessionView,
    origin: Desktop,
    refused: Set<nat>,
    count: nat,
)
    requires
        session.verdict is None,
        session.cursor + count < session.script.len(),
        forall|i: int|
            session.cursor <= i < session.cursor + count ==> !is_read(
                #[trigger] session.script[i],
            ),
        forall|i: nat|
            session.cursor <= i < session.cursor + count ==> !#[trigger] refuses(
                refused,
                session.script,
                i,
            ),
    ensures
        drive(session, origin.perform_all(prefix(session.script, session.cursor)), refused)
            == drive(
            SessionView { cursor: session.cursor + count, ..session },
            origin.perform_all(prefix(session.script, session.cursor + count)),
            refused,
        ),
    decreases count,
{
    if count == 0 {
        assert(SessionView { cursor: session.cursor + count, ..session } == session);
    } else {
        let shorter = (count - 1) as nat;
        lemma_drive_plain(session, origin, refused, shorter);
        let mid = SessionView { cursor: session.cursor + shorter, ..session };
        assert(!refuses(refused, session.script, session.cursor + shorter));
        lemma_drive_ahead(mid, origin, refused);
        let effect = session.script[(session.cursor + shorter) as int];
        assert(!is_read(effect));
        assert(mid.resume(OutcomeView::Completed) == SessionView {
            cursor: session.cursor + count,
            ..session
        });
    }
}

/// What is spared in a trace is spared in the script that the trace begins
/// with, and the other way round.
pub(crate) proof fn lemma_spared_alike(
    refused: Set<nat>,
    first: Seq<EffectView>,
    second: Seq<EffectView>,
    count: nat,
)
    requires
        spared(refused, first, count),
        count <= first.len(),
        count <= second.len(),
        forall|i: int| 0 <= i < count ==> first[i] == second[i],
    ensures
        spared(refused, second, count),
{
    assert forall|position: nat| position < count implies !#[trigger] refuses(
        refused,
        second,
        position,
    ) by {
        assert(!refuses(refused, first, position));
        assert(first[position as int] == second[position as int]);
    }
}

/// Where the effects of a script that stages a text stand.
pub(crate) proof fn lemma_opening_layout(text: Seq<char>, options: InsertOptions, platform: Platform)
    requires
        options.mode is Paste,
        text.len() > 0,
    ensures
        ({
            let script = opening(text, options, platform);
            let p = positioning(platform, options.pre_click_arrow).len();
            let k = paste_chord(platform).len();
            &&& p >= 1
            &&& k >= 3
            &&& script.len() == p + 6 + k
            &&& forall|i: int|
                0 <= i <= p ==> !overwrites_clipboard(#[trigger] script[i]) && !is_read(script[i])
            &&& script[(p + 1) as int] == EffectView::ReadClipboardText
            &&& script[(p + 2) as int] == EffectView::ReadClipboardImage
            &&& forall|i: int| p + 3 <= i < p + 6 + k ==> !is_read(#[trigger] script[i])
        }),
{
    let script = opening(text, options, platform);
    let lead = positioning(platform, options.pre_click_arrow);
    let chord = paste_chord(platform);
    let p = lead.len();
    let k = chord.len();
    lemma_positioning_plain(platform, options.pre_click_arrow);
    lemma_chord_plain(platform);
    assert forall|i: int| 0 <= i <= p implies !overwrites_clipboard(#[trigger] script[i])
        && !is_read(script[i]) by {
        if i < p {
            assert(script[i] == lead[i]);
        }
    }
    assert forall|i: int| p + 3 <= i < p + 6 + k implies !is_read(#[trigger] script[i]) by {
        if i >= p + 6 {
            assert(script[i] == chord[i - p - 6]);
        }
    }
}

/// A session that has no need of the clipboard never comes to hold a
/// snapshot, and its script stays the one it began with.
pub(crate) proof fn lemma_replay_without_clipboard(
    text: Seq<char>,
    options: InsertOptions,
    platform: Platform,
    outcomes: Seq<OutcomeView>,
)
    requires
        options.mode is Direct || text.len() == 0,
    ensures
        replay(SessionView::begin(text, options, platform), outcomes).script == opening(
            text,
            options,
            platform,
        ),
        replay(SessionView::begin(text, options, platform), outcomes).snapshot is None,
        forall|i: int|
            0 <= i < opening(text, options, platform).len() ==> !touches_clipboard(
                #[trigger] opening(text, options, platform)[i],
            ),
    decreases outcomes.len(),
{
    lemma_positioning_plain(platform, options.pre_click_arrow);
    lemma_chord_plain(platform);
    if outcomes.len() > 0 {
        lemma_replay_without_clipboard(text, options, platform, outcomes.drop_last());
    }
}

/// The session of a staging insertion once the snapshot is taken.
pub open spec fn at_staging(
    text: Seq<char>,
    options: InsertOptions,
    platform: Platform,
    clipboard: ClipboardContent,
) -> SessionView {
    SessionView {
        cursor: positioning(platform, options.pre_click_arrow).len() + 3,
        snapshot: Some(clipboard.normal()),
        ..SessionView::begin(text, options, platform)
    }
}

/// The session of a staging insertion once the script it began with has
/// been carried out: ended where nothing was saved, else about to restore.
pub open spec fn at_restoring(
    text: Seq<char>,
    options: InsertOptions,
    platform: Platform,
    clipboard: ClipboardContent,
) -> SessionView {
    let start = SessionView::begin(text, options, platform);
    if clipboard.normal() is Empty {
        SessionView {
            cursor: start.script.len(),
            snapshot: None,
            verdict: Some(Ok(())),
            ..at_staging(text, options, platform, clipboard)
        }
    } else {
        SessionView {
            script: trace(text, options, platform, clipboard),
            cursor: start.script.len(),
            snapshot: None,
            restoring: true,
            ..at_staging(text, options, platform, clipboard)
        }
    }
}

/// The run of an insertion that does not stage, with nothing refused.
pub(crate) proof fn lemma_run_without_clipboard(
    text: Seq<char>,
    options: InsertOptions,
    platform: Platform,
    desktop: Desktop,
    refused: Set<nat>,
)
    requires
        !stages(text, options),
        spared(
            refused,
            opening(text, options, platform),
            opening(text, options, platform).len(),
        ),
    ensures
        ({
            let (session, after) = insertion(text, options, platform, desktop, refused);
            &&& session.verdict == Some(Ok::<(), InsertError>(()))
            &&& session.script == trace(text, options, platform, desktop.clipboard)
            &&& after == desktop.perform_all(session.script)
        }),
{
    let start = SessionView::begin(text, options, platform);
    let script = start.script;
    lemma_positioning_plain(platform, options.pre_click_arrow);
    lemma_chord_plain(platform);
    let last = (script.len() - 1) as nat;
    lemma_perform_none(desktop);
    assert(prefix(script, 0) =~= Seq::empty());
    lemma_drive_plain(start, desktop, refused, last);
    let near = SessionView { cursor: last, ..start };
    assert(!refuses(refused, script, last));
    lemma_drive_ahead(near, desktop, refused);
    assert(prefix(script, last + 1) =~= script);
    lemma_drive_done(
        near.resume(OutcomeView::Completed),
        desktop.perform_all(script),
        refused,
    );
}

/// The run of an insertion that is refused before it has read the
/// clipboard, or that never reads it.
pub(crate) proof fn lemma_refused_early(
    text: Seq<char>,
    options: InsertOptions,
    platform: Platform,
    desktop: Desktop,
    refused: Set<nat>,
    at: nat,
)
    requires
        at < opening(text, options, platform).len(),
        stages(text, options) ==> at <= positioning(platform, options.pre_click_arrow).len() + 1,
        spared(refused, opening(text, options, platform), at),
        refuses(refused, opening(text, options, platform), at),
    ensures
        ({
            let (session, after) = insertion(text, options, platform, desktop, refused);
            let script = opening(text, options, platform);
            &&& session.verdict == Some(Err::<(), InsertError>(failure_of(script[at as int])->0))
            &&& after == desktop.perform_all(prefix(script, at))
        }),
{
    let start = SessionView::begin(text, options, platform);
    let script = start.script;
    lemma_positioning_plain(platform, options.pre_click_arrow);
    lemma_chord_plain(platform);
    if stages(text, options) {
        lemma_opening_layout(text, options, platform);
    }
    lemma_perform_none(desktop);
    assert(prefix(script, 0) =~= Seq::empty());
    lemma_drive_plain(start, desktop, refused, at);
    let there = SessionView { cursor: at, ..start };
    lemma_drive_refused(there, desktop.perform_all(prefix(script, at)), refused);
    lemma_drive_done(
        there.resume(OutcomeView::Failed),
        desktop.perform_all(prefix(script, at)),
        refused,
    );
}

/// The session of a staging insertion once the clipboard was read as text.
pub open spec fn at_image_read(
    text: Seq<char>,
    options: InsertOptions,
    platform: Platform,
    desktop: Desktop,
) -> SessionView {
    let script = opening(text, options, platform);
    let p = positioning(platform, options.pre_click_arrow).len();
    SessionView {
        cursor: p + 2,
        clipboard_text: text_of(
            desktop.perform_all(prefix(script, p + 1)).respond(EffectView::ReadClipboardText),
        ),
        ..SessionView::begin(text, options, platform)
    }
}

/// The run of a staging insertion until the clipboard was read as text.
pub(crate) proof fn lemma_run_to_image_read(
    text: Seq<char>,
    options: InsertOptions,
    platform: Platform,
    desktop: Desktop,
    refused: Set<nat>,
)
    requires
        stages(text, options),
        spared(
            refused,
            opening(text, options, platform),
            positioning(platform, options.pre_click_arrow).len() + 2,
        ),
    ensures
        insertion(text, options, platform, desktop, refused) == drive(
            at_image_read(text, options, platform, desktop),
            desktop.perform_all(
                prefix(
                    opening(text, options, platform),
                    positioning(platform, options.pre_click_arrow).len() + 2,
                ),
            ),
            refused,
        ),
        desktop.perform_all(
            prefix(
                opening(text, options, platform),
                positioning(platform, options.pre_click_arrow).len() + 1,
            ),
        ).clipboard == desktop.clipboard,
        desktop.perform_all(
            prefix(
                opening(text, options, platform),
                positioning(platform, options.pre_click_arrow).len() + 2,
            ),
        ).clipboard == desktop.clipboard,
{
    let start = SessionView::begin(text, options, platform);
    let script = start.script;
    let p = positioning(platform, options.pre_click_arrow).len();
    lemma_opening_layout(text, options, platform);
    lemma_perform_none(desktop);
    assert(prefix(script, 0) =~= Seq::empty());
    lemma_drive_plain(start, desktop, refused, p + 1);
    let at_text = SessionView { cursor: p + 1, ..start };
    lemma_clipboard_kept(desktop, prefix(script, p + 1));
    lemma_clipboard_kept(desktop, prefix(script, p + 2));
    assert(!refuses(refused, script, p + 1));
    lemma_drive_ahead(at_text, desktop, refused);
    let found_text = desktop.perform_all(prefix(script, p + 1)).respond(
        EffectView::ReadClipboardText,
    );
    assert(at_text.resume(found_text) == at_image_read(text, options, platform, desktop));
}

/// The run of a staging insertion until the snapshot is taken.
pub(crate) proof fn lemma_run_to_staging(
    text: Seq<char>,
    options: InsertOptions,
    platform: Platform,
    desktop: Desktop,
    refused: Set<nat>,
)
    requires
        stages(text, options),
        spared(
            refused,
            opening(text, options, platform),
            positioning(platform, options.pre_click_arrow).len() + 3,
        ),
    ensures
        insertion(text, options, platform, desktop, refused) == drive(
            at_staging(text, options, platform, desktop.clipboard),
            desktop.perform_all(
                prefix(
                    opening(text, options, platform),
                    positioning(platform, options.pre_click_arrow).len() + 3,
                ),
            ),
            refused,
        ),
{
    let script = opening(text, options, platform);
    let p = positioning(platform, options.pre_click_arrow).len();
    lemma_opening_layout(text, options, platform);
    lemma_run_to_image_read(text, options, platform, desktop, refused);
    let at_image = at_image_read(text, options, platform, desktop);
    assert(!refuses(refused, script, p + 2));
    lemma_drive_ahead(at_image, desktop, refused);
    let found_image = desktop.perform_all(prefix(script, p + 2)).respond(
        EffectView::ReadClipboardImage,
    );
    assert(at_image.resume(found_image) == at_staging(
        text,
        options,
        platform,
        desktop.clipboard,
    ));
}

/// The run of a staging insertion whose read of the clipboard as an image
/// is refused.
pub(crate) proof fn lemma_refused_image_read(
    text: Seq<char>,
    options: InsertOptions,
    platform: Platform,
    desktop: Desktop,
    refused: Set<nat>,
)
    requires
        stages(text, options),
        spared(
            refused,
            opening(text, options, platform),
            positioning(platform, options.pre_click_arrow).len() + 2,
        ),
        refuses(
            refused,
            opening(text, options, platform),
            positioning(platform, options.pre_click_arrow).len() + 2,
        ),
    ensures
        ({
            let (session, after) = insertion(text, options, platform, desktop, refused);
            let script = opening(text, options, platform);
            let at = positioning(platform, options.pre_click_arrow).len() + 2;
            &&& session.verdict == Some(Err::<(), InsertError>(failure_of(script[at as int])->0))
            &&& after == desktop.perform_all(prefix(script, at))
        }),
{
    let script = opening(text, options, platform);
    let p = positioning(platform, options.pre_click_arrow).len();
    lemma_opening_layout(text, options, platform);
    lemma_run_to_image_read(text, options, platform, desktop, refused);
    let at_image = at_image_read(text, options, platform, desktop);
    lemma_drive_refused(at_image, desktop.perform_all(prefix(script, p + 2)), refused);
    lemma_drive_done(
        at_image.resume(OutcomeView::Failed),
        desktop.perform_all(prefix(script, p + 2)),
        refused,
    );
}

/// The run of a staging insertion up to a position at which the session
/// holds the snapshot.
pub(crate) proof fn lemma_run_to_holding(
    text: Seq<char>,
    options: InsertOptions,
    platform: Platform,
    desktop: Desktop,
    refused: Set<nat>,
    at: nat,
)
    requires
        stages(text, options),
        positioning(platform, options.pre_click_arrow).len() + 3 <= at < opening(
            text,
            options,
            platform,
        ).len(),
        spared(refused, opening(text, options, platform), at),
    ensures
        insertion(text, options, platform, desktop, refused) == drive(
            SessionView { cursor: at, ..at_staging(text, options, platform, desktop.clipboard) },
            desktop.perform_all(prefix(opening(text, options, platform), at)),
            refused,
        ),
{
    let p = positioning(platform, options.pre_click_arrow).len();
    lemma_opening_layout(text, options, platform);
    lemma_run_to_staging(text, options, platform, desktop, refused);
    lemma_drive_plain(
        at_staging(text, options, platform, desktop.clipboard),
        desktop,
        refused,
        (at - (p + 3)) as nat,
    );
}

/// The run of a staging insertion to the end of the script that the session
/// began with.
pub(crate) proof fn lemma_run_to_restoring(
    text: Seq<char>,
    options: InsertOptions,
    platform: Platform,
    desktop: Desktop,
    refused: Set<nat>,
)
    requires
        stages(text, options),
        spared(
            refused,
            opening(text, options, platform),
            opening(text, options, platform).len(),
        ),
    ensures
        insertion(text, options, platform, desktop, refused) == drive(
            at_restoring(text, options, platform, desktop.clipboard),
            desktop.perform_all(opening(text, options, platform)),
            refused,
        ),
{
    let at_stage = at_staging(text, options, platform, desktop.clipboard);
    let script = opening(text, options, platform);
    let p = positioning(platform, options.pre_click_arrow).len();
    let k = paste_chord(platform).len();
    let saved = desktop.clipboard.normal();
    lemma_opening_layout(text, options, platform);
    lemma_run_to_holding(text, options, platform, desktop, refused, p + 5 + k);
    let at_last = SessionView { cursor: p + 5 + k, ..at_stage };
    assert(!refuses(refused, script, p + 5 + k));
    lemma_drive_ahead(at_last, desktop, refused);
    assert(prefix(script, p + 5 + k + 1) =~= script);
    assert(at_last.pending() == Some(script[(p + 5 + k) as int]));
    assert(!is_read(script[(p + 5 + k) as int]));
    let beyond = at_last.absorb(script[(p + 5 + k) as int], OutcomeView::Completed).advance();
    assert(at_last.resume(OutcomeView::Completed) == beyond);
    if saved !is Empty {
        let wait = EffectView::Wait { millis: options.paste_wait_ms };
        assert(at_last.owed() == write_back(saved));
        assert(trace(text, options, platform, desktop.clipboard) =~= script.push(wait).push(
            write_back(saved)->0,
        ));
    }
}

/// The end of the run of a staging insertion, with nothing refused.
pub(crate) proof fn lemma_run_restoring(
    text: Seq<char>,
    options: InsertOptions,
    platform: Platform,
    desktop: Desktop,
    refused: Set<nat>,
)
    requires
        stages(text, options),
        spared(
            refused,
            trace(text, options, platform, desktop.clipboard),
            trace(text, options, platform, desktop.clipboard).len(),
        ),
    ensures
        ({
            let (session, after) = drive(
                at_restoring(text, options, platform, desktop.clipboard),
                desktop.perform_all(opening(text, options, platform)),
                refused,
            );
            &&& session.verdict == Some(Ok::<(), InsertError>(()))
            &&& session.script == trace(text, options, platform, desktop.clipboard)
            &&& after == desktop.perform_all(session.script)
        }),
{
    let script = opening(text, options, platform);
    let full = trace(text, options, platform, desktop.clipboard);
    let n = script.len();
    let saved = desktop.clipboard.normal();
    let beyond = at_restoring(text, options, platform, desktop.clipboard);
    if saved is Empty {
        assert(full =~= script);
        lemma_drive_done(beyond, desktop.perform_all(script), refused);
    } else {
        let wait = EffectView::Wait { millis: options.paste_wait_ms };
        let write = write_back(saved)->0;
        assert(full =~= script.push(wait).push(write));
        assert(full.len() == n + 2);
        assert(full[n as int] == wait);
        assert(full[(n + 1) as int] == write);
        assert(prefix(full, n) =~= script);
        assert(!refuses(refused, full, n));
        lemma_drive_plain(beyond, desktop, refused, 1);
        let at_write = SessionView { cursor: n + 1, ..beyond };
        assert(!refuses(refused, full, n + 1));
        lemma_drive_ahead(at_write, desktop, refused);
        assert(prefix(full, n + 2) =~= full);
        let done = SessionView { cursor: n + 2, verdict: Some(Ok(())), ..at_write };
        assert(at_write.resume(OutcomeView::Completed) == done);
        lemma_drive_done(done, desktop.perform_all(full), refused);
    }
}

/// The run of an insertion of which nothing is refused.
pub(crate) proof fn lemma_run_spared(
    text: Seq<char>,
    options: InsertOptions,
    platform: Platform,
    desktop: Desktop,
    refused: Set<nat>,
)
    requires
        spared(
            refused,
            trace(text, options, platform, desktop.clipboard),
            trace(text, options, platform, desktop.clipboard).len(),
        ),
    ensures
        ({
            let (session, after) = insertion(text, options, platform, desktop, refused);
            &&& session.verdict == Some(Ok::<(), InsertError>(()))
            &&& session.script == trace(text, options, platform, desktop.clipboard)
            &&& after == desktop.perform_all(session.script)
        }),
{
    let script = opening(text, options, platform);
    let full = trace(text, options, platform, desktop.clipboard);
    if stages(text, options) {
        lemma_spared_alike(refused, full, script, script.len());
        lemma_run_to_restoring(text, options, platform, desktop, refused);
        lemma_run_restoring(text, options, platform, desktop, refused);
    } else {
        lemma_run_without_clipboard(text, options, platform, desktop, refused);
    }
}

/// The run of a staging insertion that is refused while the session holds
/// the snapshot.
pub(crate) proof fn lemma_refused_holding(
    text: Seq<char>,
    options: InsertOptions,
    platform: Platform,
    desktop: Desktop,
    refused: Set<nat>,
    at: nat,
)
    requires
        stages(text, options),
        positioning(platform, options.pre_click_arrow).len() + 3 <= at < opening(
            text,
            options,
            platform,
        ).len(),
        spared(refused, opening(text, options, platform), at),
        refuses(refused, opening(text, options, platform), at),
    ensures
        ({
            let (session, after) = insertion(text, options, platform, desktop, refused);
            let script = opening(text, options, platform);
            let carried = prefix(script, at);
            let wait = EffectView::Wait { millis: options.paste_wait_ms };
            let saved = desktop.clipboard.normal();
            &&& session.verdict == Some(Err::<(), InsertError>(failure_of(script[at as int])->0))
            &&& after == desktop.perform_all(
                if options.restore is Guaranteed && saved !is Empty {
                    if refused.contains(at + 2) {
                        carried.push(wait)
                    } else {
                        carried.push(wait).push(write_back(saved)->0)
                    }
                } else {
                    carried
                },
            )
        }),
{
    let script = opening(text, options, platform);
    let carried = prefix(script, at);
    let saved = desktop.clipboard.normal();
    let error = failure_of(script[at as int])->0;
    lemma_run_to_holding(text, options, platform, desktop, refused, at);
    let there = SessionView {
        cursor: at,
        ..at_staging(text, options, platform, desktop.clipboard)
    };
    let before = desktop.perform_all(carried);
    lemma_drive_refused(there, before, refused);
    let turned = there.resume(OutcomeView::Failed);
    assert(turned == there.refused(error));
    if options.restore is Guaranteed && saved !is Empty {
        let wait = EffectView::Wait { millis: options.paste_wait_ms };
        let write = write_back(saved)->0;
        let rest = prefix(script, at + 1).push(wait).push(write);
        assert(turned == SessionView {
            script: rest,
            cursor: at + 1,
            snapshot: None,
            restoring: true,
            deferred: Some(error),
            ..there
        });
        assert(rest[(at + 1) as int] == wait);
        assert(rest[(at + 2) as int] == write);
        assert(!refuses(refused, rest, at + 1));
        lemma_drive_next(turned, before, refused);
        let waited = SessionView { cursor: at + 2, ..turned };
        assert(turned.resume(OutcomeView::Completed) == waited);
        lemma_perform_push(desktop, carried, wait);
        if refused.contains(at + 2) {
            lemma_drive_refused(waited, before.perform(wait), refused);
            lemma_drive_done(waited.resume(OutcomeView::Failed), before.perform(wait), refused);
        } else {
            lemma_drive_next(waited, before.perform(wait), refused);
            lemma_perform_push(desktop, carried.push(wait), write);
            lemma_drive_done(
                waited.resume(OutcomeView::Completed),
                before.perform(wait).perform(write),
                refused,
            );
        }
    } else {
        lemma_drive_done(turned, before, refused);
    }
}

/// The run of a staging insertion of which the write that restores the
/// clipboard is refused.
pub(crate) proof fn lemma_refused_restore(
    text: Seq<char>,
    options: InsertOptions,
    platform: Platform,
    desktop: Desktop,
    refused: Set<nat>,
)
    requires
        stages(text, options),
        desktop.clipboard.present(),
        spared(
            refused,
            trace(text, options, platform, desktop.clipboard),
            opening(text, options, platform).len() + 1,
        ),
        refuses(
            refused,
            trace(text, options, platform, desktop.clipboard),
            opening(text, options, platform).len() + 1,
        ),
    ensures
        ({
            let (session, after) = insertion(text, options, platform, desktop, refused);
            let full = trace(text, options, platform, desktop.clipboard);
            let at = opening(text, options, platform).len() + 1;
            &&& session.verdict == Some(Err::<(), InsertError>(failure_of(full[at as int])->0))
            &&& after == desktop.perform_all(prefix(full, at))
        }),
{
    let script = opening(text, options, platform);
    let full = trace(text, options, platform, desktop.clipboard);
    let n = script.len();
    let saved = desktop.clipboard.normal();
    let wait = EffectView::Wait { millis: options.paste_wait_ms };
    let write = write_back(saved)->0;
    assert(full =~= script.push(wait).push(write));
    lemma_spared_alike(refused, full, script, n);
    lemma_run_to_restoring(text, options, platform, desktop, refused);
    let beyond = at_restoring(text, options, platform, desktop.clipboard);
    assert(prefix(full, n) =~= script);
    assert(!refuses(refused, full, n));
    lemma_drive_plain(beyond, desktop, refused, 1);
    let at_write = SessionView { cursor: n + 1, ..beyond };
    lemma_drive_refused(at_write, desktop.perform_all(prefix(full, n + 1)), refused);
    lemma_drive_done(
        at_write.resume(OutcomeView::Failed),
        desktop.perform_all(prefix(full, n + 1)),
        refused,
    );
}

/// The run of an insertion of which an effect is refused.
pub(crate) proof fn lemma_run_refused(
    text: Seq<char>,
    options: InsertOptions,
    platform: Platform,
    desktop: Desktop,
    refused: Set<nat>,
    at: nat,
)
    requires
        spared(refused, trace(text, options, platform, desktop.clipboard), at),
        refuses(refused, trace(text, options, platform, desktop.clipboard), at),
    ensures
        ({
            let (session, after) = insertion(text, options, platform, desktop, refused);
            let full = trace(text, options, platform, desktop.clipboard);
            &&& session.verdict == Some(Err::<(), InsertError>(failure_of(full[at as int])->0))
            &&& after == desktop.perform_all(
                refused_trace(
                    text,
                    options,
                    platform,
                    desktop.clipboard,
                    at,
                    refused.contains(at + 2),
                ),
            )
        }),
{
    let script = opening(text, options, platform);
    let full = trace(text, options, platform, desktop.clipboard);
    let n = script.len();
    let p = positioning(platform, options.pre_click_arrow).len();
    let saved = desktop.clipboard.normal();
    if at < n {
        assert(full[at as int] == script[at as int]);
        assert(prefix(full, at) =~= prefix(script, at));
        lemma_spared_alike(refused, full, script, at);
        if !stages(text, options) || at <= p + 1 {
            lemma_refused_early(text, options, platform, desktop, refused, at);
        } else if at == p + 2 {
            lemma_refused_image_read(text, options, platform, desktop, refused);
        } else {
            lemma_refused_holding(text, options, platform, desktop, refused, at);
            if options.restore is Guaranteed && saved !is Empty {
                let wait = EffectView::Wait { millis: options.paste_wait_ms };
                assert(prefix(script, at).push(wait).push(write_back(saved)->0) =~= prefix(
                    full,
                    at,
                ) + restoration(saved, options.paste_wait_ms));
            }
        }
    } else {
        let wait = EffectView::Wait { millis: options.paste_wait_ms };
        assert(full =~= script.push(wait).push(write_back(saved)->0));
        assert(at == n + 1);
        lemma_refused_restore(text, options, platform, desktop, refused);
    }
}

/// The first position of a script at which an effect is refused.
pub(crate) proof fn lemma_first_refusal(
    refused: Set<nat>,
    script: Seq<EffectView>,
    bound: nat,
) -> (at: nat)
    requires
        !spared(refused, script, bound),
    ensures
        at < bound,
        refuses(refused, script, at),
        spared(refused, script, at),
    decreases bound,
{
    if bound == 0 {
        0
    } else if spared(refused, script, (bound - 1) as nat) {
        let last = (bound - 1) as nat;
        if !refuses(refused, script, last) {
            assert forall|position: nat| position < bound implies !#[trigger] refuses(
                refused,
                script,
                position,
            ) by {
                if position < last {
                }
            }
        }
        last
    } else {
        lemma_first_refusal(refused, script, (bound - 1) as nat)
    }
}

} // verus!
