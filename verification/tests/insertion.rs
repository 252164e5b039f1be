//! Whole insertions, carried out on a desk that keeps a clipboard, a focused
//! field and a clock.

use insert_text::{
    insert_text, paste, ArrowDirection, Effect, ImageBuffer, InsertError, InsertOptions, Insertion,
    Key, KeyMotion, Mode, Outcome, PasteOptions, Platform, RestorePolicy, TapFlags, TapKey,
};

#[derive(Clone, Debug, PartialEq, Eq)]
enum Held {
    Nothing,
    Text(String),
    Image(ImageBuffer),
}

struct Desk {
    clipboard: Held,
    field: String,
    modifier_held: bool,
    left_clicks: u32,
    right_clicks: u32,
    clock: u64,
    written_at: Vec<u64>,
    pasted_at: Vec<u64>,
    clipboard_accesses: u32,
    log: Vec<Effect>,
    refuse_at: Option<usize>,
}

fn desk(clipboard: Held) -> Desk {
    Desk {
        clipboard,
        field: String::new(),
        modifier_held: false,
        left_clicks: 0,
        right_clicks: 0,
        clock: 0,
        written_at: Vec::new(),
        pasted_at: Vec::new(),
        clipboard_accesses: 0,
        log: Vec::new(),
        refuse_at: None,
    }
}

fn strike_v(desk: &mut Desk, with_modifier: bool) {
    if with_modifier {
        if let Held::Text(text) = &desk.clipboard {
            desk.field.push_str(text);
        }
        desk.pasted_at.push(desk.clock);
    } else {
        desk.field.push('v');
    }
}

fn perform(desk: &mut Desk, effect: &Effect) -> Outcome {
    let position: usize = desk.log.len();
    desk.log.push(effect.clone());
    if desk.refuse_at == Some(position) {
        return Outcome::Failed;
    }
    match effect {
        Effect::AcquireInjector | Effect::AcquireEventSource => Outcome::Completed,
        Effect::SendKey { key, motion } => {
            match key {
                Key::Control => desk.modifier_held = *motion == KeyMotion::Press,
                Key::LetterV => {
                    if *motion != KeyMotion::Release {
                        let held = desk.modifier_held;
                        strike_v(desk, held);
                    }
                }
                Key::LeftArrow => {
                    if *motion != KeyMotion::Release {
                        desk.left_clicks += 1;
                    }
                }
                Key::RightArrow => {
                    if *motion != KeyMotion::Release {
                        desk.right_clicks += 1;
                    }
                }
            }
            Outcome::Completed
        }
        Effect::PostKeyEvent { tap_key, key_down, flags } => {
            match tap_key {
                TapKey::Command => desk.modifier_held = *key_down,
                TapKey::LetterV => {
                    if *key_down {
                        let with_modifier = *flags == TapFlags::Command
                            || (*flags == TapFlags::Untouched && desk.modifier_held);
                        strike_v(desk, with_modifier);
                    }
                }
                TapKey::LeftArrow => {
                    if *key_down {
                        desk.left_clicks += 1;
                    }
                }
                TapKey::RightArrow => {
                    if *key_down {
                        desk.right_clicks += 1;
                    }
                }
            }
            Outcome::Completed
        }
        Effect::TypeText { text } => {
            desk.field.push_str(text);
            Outcome::Completed
        }
        Effect::OpenClipboard => {
            desk.clipboard_accesses += 1;
            Outcome::Completed
        }
        Effect::ReadClipboardText => {
            desk.clipboard_accesses += 1;
            match &desk.clipboard {
                Held::Text(text) => Outcome::Text { text: text.clone() },
                _ => Outcome::Completed,
            }
        }
        Effect::ReadClipboardImage => {
            desk.clipboard_accesses += 1;
            match &desk.clipboard {
                Held::Image(image) => Outcome::Image { image: image.clone() },
                _ => Outcome::Completed,
            }
        }
        Effect::ClearClipboard => {
            desk.clipboard_accesses += 1;
            desk.clipboard = Held::Nothing;
            Outcome::Completed
        }
        Effect::WriteClipboardText { text } => {
            desk.clipboard_accesses += 1;
            desk.clipboard = Held::Text(text.clone());
            desk.written_at.push(desk.clock);
            Outcome::Completed
        }
        Effect::WriteClipboardImage { image } => {
            desk.clipboard_accesses += 1;
            desk.clipboard = Held::Image(image.clone());
            desk.written_at.push(desk.clock);
            Outcome::Completed
        }
        Effect::Wait { millis } => {
            desk.clock += *millis;
            Outcome::Completed
        }
    }
}

fn run(session: Insertion, desk: &mut Desk) -> Result<(), InsertError> {
    let mut session = session;
    let mut steps: u32 = 0;
    loop {
        let outcome = match session.pending() {
            Some(effect) => perform(desk, effect),
            None => break,
        };
        session = session.resume(outcome);
        steps += 1;
        assert!(steps < 100);
    }
    assert!(session.is_finished());
    session.verdict().unwrap()
}

fn options(mode: Mode, arrow: Option<ArrowDirection>, copy: u64, paste: u64) -> InsertOptions {
    InsertOptions {
        mode,
        pre_click_arrow: arrow,
        copy_wait_ms: copy,
        paste_wait_ms: paste,
        restore: RestorePolicy::Guaranteed,
    }
}

fn unguarded(options: InsertOptions) -> InsertOptions {
    InsertOptions { restore: RestorePolicy::AfterSuccess, ..options }
}

fn picture() -> ImageBuffer {
    ImageBuffer { width: 2, height: 1, bytes: vec![1, 2, 3, 4, 5, 6, 7, 8] }
}

fn text(value: &str) -> String {
    String::from(value)
}

#[test]
fn direct_insert_types_the_text_and_leaves_the_clipboard() {
    let mut desk = desk(Held::Text(text("kept")));
    let session = insert_text(text("hello"), options(Mode::Direct, None, 5, 30), Platform::Generic);
    assert_eq!(run(session, &mut desk), Ok(()));
    assert_eq!(desk.field, "hello");
    assert_eq!(desk.clipboard, Held::Text(text("kept")));
    assert_eq!(desk.clipboard_accesses, 0);
    assert_eq!(
        desk.log,
        vec![Effect::AcquireInjector, Effect::TypeText { text: text("hello") }]
    );
}

#[test]
fn paste_insert_restores_the_old_text() {
    let mut desk = desk(Held::Text(text("old")));
    let session = insert_text(text("new"), options(Mode::Paste, None, 5, 20), Platform::Generic);
    assert_eq!(run(session, &mut desk), Ok(()));
    assert_eq!(desk.field, "new");
    assert_eq!(desk.clipboard, Held::Text(text("old")));
    assert_eq!(
        desk.log,
        vec![
            Effect::AcquireInjector,
            Effect::OpenClipboard,
            Effect::ReadClipboardText,
            Effect::ReadClipboardImage,
            Effect::ClearClipboard,
            Effect::WriteClipboardText { text: text("new") },
            Effect::Wait { millis: 5 },
            Effect::SendKey { key: Key::Control, motion: KeyMotion::Press },
            Effect::SendKey { key: Key::LetterV, motion: KeyMotion::Click },
            Effect::SendKey { key: Key::Control, motion: KeyMotion::Release },
            Effect::Wait { millis: 20 },
            Effect::WriteClipboardText { text: text("old") },
        ]
    );
}

#[test]
fn paste_insert_restores_an_image() {
    let mut desk = desk(Held::Image(picture()));
    let session = insert_text(text("x"), options(Mode::Paste, None, 5, 30), Platform::Generic);
    assert_eq!(run(session, &mut desk), Ok(()));
    assert_eq!(desk.field, "x");
    assert_eq!(desk.clipboard, Held::Image(picture()));
    assert_eq!(desk.log.last(), Some(&Effect::WriteClipboardImage { image: picture() }));
}

#[test]
fn paste_insert_restores_on_the_event_tap_injector() {
    let mut desk = desk(Held::Text(text("old")));
    let session = insert_text(
        text("new"),
        options(Mode::Paste, Some(ArrowDirection::Right), 7, 11),
        Platform::EventTap,
    );
    assert_eq!(run(session, &mut desk), Ok(()));
    assert_eq!(desk.field, "new");
    assert_eq!(desk.clipboard, Held::Text(text("old")));
    assert!(!desk.modifier_held);
    assert_eq!(
        desk.log,
        vec![
            Effect::AcquireInjector,
            Effect::AcquireEventSource,
            Effect::PostKeyEvent {
                tap_key: TapKey::RightArrow,
                key_down: true,
                flags: TapFlags::Untouched
            },
            Effect::PostKeyEvent {
                tap_key: TapKey::RightArrow,
                key_down: false,
                flags: TapFlags::Untouched
            },
            Effect::Wait { millis: 20 },
            Effect::OpenClipboard,
            Effect::ReadClipboardText,
            Effect::ReadClipboardImage,
            Effect::ClearClipboard,
            Effect::WriteClipboardText { text: text("new") },
            Effect::Wait { millis: 7 },
            Effect::AcquireEventSource,
            Effect::PostKeyEvent {
                tap_key: TapKey::LetterV,
                key_down: true,
                flags: TapFlags::Command
            },
            Effect::PostKeyEvent {
                tap_key: TapKey::LetterV,
                key_down: false,
                flags: TapFlags::Cleared
            },
            Effect::PostKeyEvent {
                tap_key: TapKey::Command,
                key_down: false,
                flags: TapFlags::Untouched
            },
            Effect::Wait { millis: 11 },
            Effect::WriteClipboardText { text: text("old") },
        ]
    );
}

#[test]
fn empty_clipboard_gets_nothing_written_back() {
    let mut desk = desk(Held::Nothing);
    let session = insert_text(text("new"), options(Mode::Paste, None, 5, 30), Platform::Generic);
    assert_eq!(run(session, &mut desk), Ok(()));
    assert_eq!(desk.field, "new");
    assert_eq!(desk.written_at.len(), 1);
    assert_eq!(desk.clipboard, Held::Text(text("new")));
    assert_eq!(
        desk.log.last(),
        Some(&Effect::SendKey { key: Key::Control, motion: KeyMotion::Release })
    );
    assert_eq!(desk.clock, 5);
}

#[test]
fn clipboard_with_empty_text_counts_as_empty() {
    let mut desk = desk(Held::Text(String::new()));
    let session = insert_text(text("new"), options(Mode::Paste, None, 0, 30), Platform::Generic);
    assert_eq!(run(session, &mut desk), Ok(()));
    assert_eq!(desk.written_at.len(), 1);
    assert_eq!(desk.clipboard, Held::Text(text("new")));
}

#[test]
fn clipboard_with_an_image_without_columns_counts_as_empty() {
    let mut desk = desk(Held::Image(ImageBuffer { width: 0, height: 3, bytes: Vec::new() }));
    let session = insert_text(text("new"), options(Mode::Paste, None, 0, 30), Platform::EventTap);
    assert_eq!(run(session, &mut desk), Ok(()));
    assert_eq!(desk.written_at.len(), 1);
    assert_eq!(desk.clipboard, Held::Text(text("new")));
}

#[test]
fn empty_text_in_paste_mode_is_a_bare_paste() {
    let mut desk = desk(Held::Text(text("mine")));
    let session = insert_text(String::new(), options(Mode::Paste, None, 5, 30), Platform::Generic);
    assert_eq!(run(session, &mut desk), Ok(()));
    assert_eq!(desk.clipboard, Held::Text(text("mine")));
    assert_eq!(desk.clipboard_accesses, 0);
    assert_eq!(desk.field, "mine");
    assert_eq!(desk.clock, 0);
    assert_eq!(
        desk.log,
        vec![
            Effect::AcquireInjector,
            Effect::SendKey { key: Key::Control, motion: KeyMotion::Press },
            Effect::SendKey { key: Key::LetterV, motion: KeyMotion::Click },
            Effect::SendKey { key: Key::Control, motion: KeyMotion::Release },
        ]
    );
}

#[test]
fn bare_paste_is_the_paste_mode_insertion_of_nothing() {
    let mut first = desk(Held::Text(text("mine")));
    let mut second = desk(Held::Text(text("mine")));
    let bare = paste(PasteOptions { pre_click_arrow: Some(ArrowDirection::Left) }, Platform::EventTap);
    let empty = insert_text(
        String::new(),
        options(Mode::Paste, Some(ArrowDirection::Left), 5, 30),
        Platform::EventTap,
    );
    assert_eq!(run(bare, &mut first), Ok(()));
    assert_eq!(run(empty, &mut second), Ok(()));
    assert_eq!(first.log, second.log);
    assert_eq!(first.field, "mine");
    assert_eq!(first.left_clicks, 1);
    assert_eq!(first.clipboard_accesses, 0);
}

#[test]
fn arrow_is_clicked_once_in_every_mode_on_either_injector() {
    for platform in [Platform::Generic, Platform::EventTap] {
        for mode in [Mode::Direct, Mode::Paste] {
            let mut left = desk(Held::Text(text("old")));
            let session =
                insert_text(text("t"), options(mode, Some(ArrowDirection::Left), 1, 1), platform);
            assert_eq!(run(session, &mut left), Ok(()));
            assert_eq!((left.left_clicks, left.right_clicks), (1, 0));

            let mut right = desk(Held::Text(text("old")));
            let session =
                insert_text(text("t"), options(mode, Some(ArrowDirection::Right), 1, 1), platform);
            assert_eq!(run(session, &mut right), Ok(()));
            assert_eq!((right.left_clicks, right.right_clicks), (0, 1));

            let mut none = desk(Held::Text(text("old")));
            let session = insert_text(text("t"), options(mode, None, 1, 1), platform);
            assert_eq!(run(session, &mut none), Ok(()));
            assert_eq!((none.left_clicks, none.right_clicks), (0, 0));
        }
    }
}

#[test]
fn arrow_click_comes_before_the_text() {
    let mut desk = desk(Held::Nothing);
    let session = insert_text(
        text("hi"),
        options(Mode::Direct, Some(ArrowDirection::Left), 5, 30),
        Platform::Generic,
    );
    assert_eq!(run(session, &mut desk), Ok(()));
    assert_eq!(
        desk.log,
        vec![
            Effect::AcquireInjector,
            Effect::SendKey { key: Key::LeftArrow, motion: KeyMotion::Click },
            Effect::TypeText { text: text("hi") },
        ]
    );
}

#[test]
fn waits_separate_write_paste_and_restore() {
    let mut desk = desk(Held::Text(text("old")));
    let session = insert_text(text("new"), options(Mode::Paste, None, 40, 250), Platform::Generic);
    assert_eq!(run(session, &mut desk), Ok(()));
    assert_eq!(desk.written_at, vec![0, 290]);
    assert_eq!(desk.pasted_at, vec![40]);
    assert!(desk.pasted_at[0] - desk.written_at[0] >= 40);
    assert!(desk.written_at[1] - desk.pasted_at[0] >= 250);
}

#[test]
fn waits_of_zero_are_accepted() {
    let mut desk = desk(Held::Text(text("old")));
    let session = insert_text(text("new"), options(Mode::Paste, None, 0, 0), Platform::EventTap);
    assert_eq!(run(session, &mut desk), Ok(()));
    assert_eq!(desk.written_at, vec![0, 0]);
    assert_eq!(desk.pasted_at, vec![0]);
    assert_eq!(desk.clipboard, Held::Text(text("old")));
    assert_eq!(desk.field, "new");
}

#[test]
fn event_tap_arrow_click_settles_before_the_write() {
    let mut desk = desk(Held::Text(text("old")));
    let session = insert_text(
        text("new"),
        options(Mode::Paste, Some(ArrowDirection::Left), 5, 30),
        Platform::EventTap,
    );
    assert_eq!(run(session, &mut desk), Ok(()));
    assert_eq!(desk.written_at, vec![20, 55]);
    assert_eq!(desk.pasted_at, vec![25]);
}

#[test]
fn both_injectors_leave_the_same_desk() {
    let mut generic = desk(Held::Image(picture()));
    let mut tapped = desk(Held::Image(picture()));
    let request = options(Mode::Paste, Some(ArrowDirection::Right), 5, 30);
    assert_eq!(run(insert_text(text("abc"), request, Platform::Generic), &mut generic), Ok(()));
    assert_eq!(run(insert_text(text("abc"), request, Platform::EventTap), &mut tapped), Ok(()));
    assert_eq!(generic.clipboard, tapped.clipboard);
    assert_eq!(generic.field, tapped.field);
    assert_eq!(generic.right_clicks, tapped.right_clicks);
    assert_eq!(generic.modifier_held, tapped.modifier_held);
    assert_eq!(generic.clipboard_accesses, tapped.clipboard_accesses);
    assert_eq!(tapped.clock, generic.clock + 20);
}

#[test]
fn refused_injector_ends_the_insertion() {
    let mut desk = desk(Held::Text(text("old")));
    desk.refuse_at = Some(0);
    let session = insert_text(
        text("new"),
        options(Mode::Paste, Some(ArrowDirection::Left), 5, 30),
        Platform::Generic,
    );
    assert_eq!(run(session, &mut desk), Err(InsertError::InputInjectorUnavailable));
    assert_eq!(desk.log, vec![Effect::AcquireInjector]);
    assert_eq!(desk.left_clicks, 0);
}

#[test]
fn refused_event_source_ends_the_insertion() {
    let mut desk = desk(Held::Text(text("old")));
    desk.refuse_at = Some(1);
    let session = paste(PasteOptions { pre_click_arrow: None }, Platform::EventTap);
    assert_eq!(run(session, &mut desk), Err(InsertError::InputInjectorUnavailable));
    assert_eq!(desk.log, vec![Effect::AcquireInjector, Effect::AcquireEventSource]);
    assert_eq!(desk.field, "");
}

#[test]
fn refused_clipboard_ends_the_insertion() {
    for position in [1usize, 2, 3, 4, 5] {
        let mut desk = desk(Held::Text(text("old")));
        desk.refuse_at = Some(position);
        let session = insert_text(
            text("new"),
            unguarded(options(Mode::Paste, None, 5, 30)),
            Platform::Generic,
        );
        assert_eq!(run(session, &mut desk), Err(InsertError::ClipboardUnavailable));
        assert_eq!(desk.log.len(), position + 1);
        assert_eq!(desk.field, "");
    }
}

#[test]
fn refused_read_ends_the_insertion_before_anything_is_saved() {
    for position in [1usize, 2, 3] {
        let mut desk = desk(Held::Text(text("old")));
        desk.refuse_at = Some(position);
        let session =
            insert_text(text("new"), options(Mode::Paste, None, 5, 30), Platform::Generic);
        assert_eq!(run(session, &mut desk), Err(InsertError::ClipboardUnavailable));
        assert_eq!(desk.log.len(), position + 1);
        assert_eq!(desk.clipboard, Held::Text(text("old")));
        assert_eq!(desk.written_at.len(), 0);
    }
}

#[test]
fn guaranteed_restore_puts_the_clipboard_back_after_a_refusal() {
    for position in [4usize, 5, 7, 8, 9] {
        let mut desk = desk(Held::Text(text("old")));
        desk.refuse_at = Some(position);
        let session =
            insert_text(text("new"), options(Mode::Paste, None, 5, 20), Platform::Generic);
        let error = if position < 6 {
            InsertError::ClipboardUnavailable
        } else {
            InsertError::EventInjectionFailed
        };
        assert_eq!(run(session, &mut desk), Err(error));
        assert_eq!(desk.clipboard, Held::Text(text("old")));
        assert_eq!(desk.log.len(), position + 3);
        assert_eq!(desk.log[position + 1], Effect::Wait { millis: 20 });
        assert_eq!(desk.log[position + 2], Effect::WriteClipboardText { text: text("old") });
    }
}

#[test]
fn guaranteed_restore_puts_an_image_back_after_a_refusal() {
    let mut desk = desk(Held::Image(picture()));
    desk.refuse_at = Some(13);
    let session = insert_text(
        text("new"),
        options(Mode::Paste, Some(ArrowDirection::Left), 5, 30),
        Platform::EventTap,
    );
    assert_eq!(run(session, &mut desk), Err(InsertError::EventInjectionFailed));
    assert_eq!(desk.clipboard, Held::Image(picture()));
    assert_eq!(desk.log.len(), 16);
    assert_eq!(desk.log[15], Effect::WriteClipboardImage { image: picture() });
}

#[test]
fn guaranteed_restore_has_nothing_to_put_back_on_an_empty_clipboard() {
    let mut desk = desk(Held::Nothing);
    desk.refuse_at = Some(8);
    let session = insert_text(text("new"), options(Mode::Paste, None, 5, 30), Platform::Generic);
    assert_eq!(run(session, &mut desk), Err(InsertError::EventInjectionFailed));
    assert_eq!(desk.log.len(), 9);
    assert_eq!(desk.clipboard, Held::Text(text("new")));
}

#[test]
fn the_first_error_is_reported_when_the_restore_is_refused_too() {
    let mut session =
        insert_text(text("new"), options(Mode::Paste, None, 5, 30), Platform::Generic);
    let mut log: Vec<Effect> = Vec::new();
    loop {
        let outcome = match session.pending() {
            None => break,
            Some(effect) => {
                log.push(effect.clone());
                match effect {
                    Effect::ReadClipboardText => Outcome::Text { text: text("old") },
                    Effect::SendKey { .. } => Outcome::Failed,
                    Effect::WriteClipboardText { text } if text == "old" => Outcome::Failed,
                    _ => Outcome::Completed,
                }
            }
        };
        session = session.resume(outcome);
    }
    assert_eq!(session.verdict(), Some(Err(InsertError::EventInjectionFailed)));
    assert_eq!(log.len(), 10);
    assert_eq!(log[8], Effect::Wait { millis: 30 });
    assert_eq!(log[9], Effect::WriteClipboardText { text: text("old") });
}

#[test]
fn refused_key_ends_the_insertion() {
    let mut desk = desk(Held::Text(text("old")));
    desk.refuse_at = Some(1);
    let session = insert_text(
        text("new"),
        options(Mode::Direct, Some(ArrowDirection::Left), 5, 30),
        Platform::Generic,
    );
    assert_eq!(run(session, &mut desk), Err(InsertError::EventInjectionFailed));
    assert_eq!(desk.field, "");
}

#[test]
fn refused_text_ends_the_insertion_after_the_arrow_click() {
    let mut desk = desk(Held::Text(text("old")));
    desk.refuse_at = Some(2);
    let session = insert_text(
        text("new"),
        options(Mode::Direct, Some(ArrowDirection::Left), 5, 30),
        Platform::Generic,
    );
    assert_eq!(run(session, &mut desk), Err(InsertError::EventInjectionFailed));
    assert_eq!(desk.left_clicks, 1);
    assert_eq!(desk.field, "");
    assert_eq!(desk.clipboard, Held::Text(text("old")));
}

#[test]
fn without_the_guarantee_a_refused_paste_key_leaves_the_staged_text() {
    let mut desk = desk(Held::Text(text("old")));
    desk.refuse_at = Some(8);
    let session = insert_text(
        text("new"),
        unguarded(options(Mode::Paste, None, 5, 30)),
        Platform::Generic,
    );
    assert_eq!(run(session, &mut desk), Err(InsertError::EventInjectionFailed));
    assert_eq!(desk.log.len(), 9);
    assert_eq!(desk.clipboard, Held::Text(text("new")));
    assert_eq!(desk.written_at.len(), 1);
}

#[test]
fn refused_restore_is_reported() {
    let mut desk = desk(Held::Text(text("old")));
    desk.refuse_at = Some(11);
    let session = insert_text(text("new"), options(Mode::Paste, None, 5, 30), Platform::Generic);
    assert_eq!(run(session, &mut desk), Err(InsertError::ClipboardUnavailable));
    assert_eq!(desk.field, "new");
    assert_eq!(desk.clipboard, Held::Text(text("new")));
}

#[test]
fn a_wait_cannot_be_refused() {
    let mut desk = desk(Held::Text(text("old")));
    desk.refuse_at = Some(6);
    let session = insert_text(text("new"), options(Mode::Paste, None, 5, 30), Platform::Generic);
    assert_eq!(run(session, &mut desk), Ok(()));
    assert_eq!(desk.log.len(), 12);
    assert_eq!(desk.clipboard, Held::Text(text("old")));
}

#[test]
fn direct_insert_never_asks_for_the_clipboard_whatever_it_is_told() {
    for refused in [None, Some(0usize), Some(1), Some(2)] {
        let mut desk = desk(Held::Text(text("old")));
        desk.refuse_at = refused;
        let session = insert_text(
            text("new"),
            options(Mode::Direct, Some(ArrowDirection::Right), 5, 30),
            Platform::EventTap,
        );
        let _ = run(session, &mut desk);
        assert_eq!(desk.clipboard_accesses, 0);
        assert_eq!(desk.clipboard, Held::Text(text("old")));
    }
}

#[test]
fn a_new_session_waits_for_the_injector() {
    let session = insert_text(text("a"), InsertOptions::default(), Platform::Generic);
    assert!(!session.is_finished());
    assert_eq!(session.verdict(), None);
    assert_eq!(session.pending(), Some(&Effect::AcquireInjector));
}

#[test]
fn a_finished_session_stays_finished() {
    let session = insert_text(text("a"), InsertOptions::default(), Platform::Generic);
    let session = session.resume(Outcome::Failed);
    assert_eq!(session.verdict(), Some(Err(InsertError::InputInjectorUnavailable)));
    assert_eq!(session.pending(), None);
    let session = session.resume(Outcome::Completed);
    assert_eq!(session.verdict(), Some(Err(InsertError::InputInjectorUnavailable)));
    assert!(session.is_finished());
}

#[test]
fn an_answer_of_the_wrong_kind_counts_as_completion() {
    let session = insert_text(text("a"), InsertOptions::default(), Platform::Generic);
    let session = session.resume(Outcome::Text { text: text("stray") });
    assert_eq!(session.pending(), Some(&Effect::TypeText { text: text("a") }));
    let session = session.resume(Outcome::Image { image: picture() });
    assert_eq!(session.verdict(), Some(Ok(())));
}

#[test]
fn text_wins_over_an_image_in_the_snapshot() {
    let mut session =
        insert_text(text("new"), options(Mode::Paste, None, 5, 30), Platform::Generic);
    let mut log: Vec<Effect> = Vec::new();
    loop {
        let outcome = match session.pending() {
            None => break,
            Some(effect) => {
                log.push(effect.clone());
                match effect {
                    Effect::ReadClipboardText => Outcome::Text { text: text("old") },
                    Effect::ReadClipboardImage => Outcome::Image { image: picture() },
                    _ => Outcome::Completed,
                }
            }
        };
        session = session.resume(outcome);
    }
    assert_eq!(session.verdict(), Some(Ok(())));
    assert_eq!(log.last(), Some(&Effect::WriteClipboardText { text: text("old") }));
    assert_eq!(log.len(), 12);
}

#[test]
fn an_image_answer_to_the_text_read_is_not_taken_for_text() {
    let mut session =
        insert_text(text("new"), options(Mode::Paste, None, 5, 30), Platform::Generic);
    let mut log: Vec<Effect> = Vec::new();
    loop {
        let outcome = match session.pending() {
            None => break,
            Some(effect) => {
                log.push(effect.clone());
                match effect {
                    Effect::ReadClipboardText => Outcome::Image { image: picture() },
                    Effect::ReadClipboardImage => Outcome::Text { text: text("old") },
                    _ => Outcome::Completed,
                }
            }
        };
        session = session.resume(outcome);
    }
    assert_eq!(session.verdict(), Some(Ok(())));
    assert_eq!(log.len(), 10);
}
