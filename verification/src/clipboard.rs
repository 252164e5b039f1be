//! The clipboard discipline of a paste-mode insertion: what is saved before
//! the clipboard is overwritten, how the text is staged, and what is written
//! back afterwards.

use vstd::prelude::*;
use crate::effect::{views, Effect, EffectView, ImageBuffer, ImageView};

verus! {

/// What a clipboard holds, as far as an insertion can tell.
pub enum ClipboardContent {
    Empty,
    Text(Seq<char>),
    Image(ImageView),
}

/// Which payload a snapshot holds.
#[derive(Clone, Copy, Debug, PartialEq, Eq, Structural)]
pub enum SnapshotKind {
    Empty,
    Text,
    Image,
}

/// The state of the clipboard immediately before a paste-mode insertion
/// overwrites it.  A snapshot holds at most one payload.
#[derive(Debug, PartialEq, Eq)]
pub enum ClipboardSnapshot {
    /// Nothing that has to be written back.
    Empty,
    /// The text that the clipboard held.
    Text(String),
    /// The image that the clipboard held.
    Image(ImageBuffer),
}

impl View for ClipboardSnapshot {
    type V = ClipboardContent;

    open spec fn view(&self) -> ClipboardContent {
        match *self {
            ClipboardSnapshot::Empty => ClipboardContent::Empty,
            ClipboardSnapshot::Text(text) => ClipboardContent::Text(text@),
            ClipboardSnapshot::Image(image) => ClipboardContent::Image(image@),
        }
    }
}

impl Clone for ClipboardSnapshot {
    fn clone(&self) -> (copy: ClipboardSnapshot)
        ensures
            copy@ == self@,
    {
        match self {
            ClipboardSnapshot::Empty => ClipboardSnapshot::Empty,
            ClipboardSnapshot::Text(text) => ClipboardSnapshot::Text(text.clone()),
            ClipboardSnapshot::Image(image) => ClipboardSnapshot::Image(image.clone()),
        }
    }
}

impl ClipboardContent {
    /// Whether the content is worth saving: text of at least one character,
    /// or an image of at least one pixel column.  Every other content counts
    /// as an empty clipboard.
    pub open spec fn present(self) -> bool {
        match self {
            ClipboardContent::Empty => false,
            ClipboardContent::Text(text) => text.len() > 0,
            ClipboardContent::Image(image) => image.width > 0,
        }
    }

    /// The content with everything that is not worth saving taken as empty.
    pub open spec fn normal(self) -> ClipboardContent {
        if self.present() {
            self
        } else {
            ClipboardContent::Empty
        }
    }

    /// Which payload the content holds.
    pub open spec fn kind(self) -> SnapshotKind {
        match self {
            ClipboardContent::Empty => SnapshotKind::Empty,
            ClipboardContent::Text(_) => SnapshotKind::Text,
            ClipboardContent::Image(_) => SnapshotKind::Image,
        }
    }
}

/// The snapshot that two readings of the clipboard amount to: the text where
/// text was found, else the image where an image was found, else nothing.
pub open spec fn captured(text: Option<Seq<char>>, image: Option<ImageView>) -> ClipboardContent {
    if text is Some && text->0.len() > 0 {
        ClipboardContent::Text(text->0)
    } else if image is Some && image->0.width > 0 {
        ClipboardContent::Image(image->0)
    } else {
        ClipboardContent::Empty
    }
}

/// The effects that read the clipboard for a snapshot.
pub open spec fn snapshot_reads() -> Seq<EffectView> {
    seq![
        EffectView::OpenClipboard,
        EffectView::ReadClipboardText,
        EffectView::ReadClipboardImage,
    ]
}

/// The effects that replace the clipboard content with the text.  The
/// clipboard is cleared first, so that no format of an earlier image stays
/// behind.
pub open spec fn text_write(text: Seq<char>) -> Seq<EffectView> {
    seq![EffectView::ClearClipboard, EffectView::WriteClipboardText { text }]
}

/// The single write that puts a saved content back, if there is one to put
/// back.
pub open spec fn write_back(content: ClipboardContent) -> Option<EffectView> {
    match content {
        ClipboardContent::Empty => None,
        ClipboardContent::Text(text) => Some(EffectView::WriteClipboardText { text }),
        ClipboardContent::Image(image) => Some(EffectView::WriteClipboardImage { image }),
    }
}

/// The mathematical value of an effect that may be missing.
pub open spec fn view_of(effect: Option<Effect>) -> Option<EffectView> {
    match effect {
        Some(effect) => Some(effect@),
        None => None,
    }
}

/// The mathematical value of a text that may be missing.
pub open spec fn text_view_of(text: Option<String>) -> Option<Seq<char>> {
    match text {
        Some(text) => Some(text@),
        None => None,
    }
}

/// The mathematical value of an image that may be missing.
pub open spec fn image_view_of(image: Option<ImageBuffer>) -> Option<ImageView> {
    match image {
        Some(image) => Some(image@),
        None => None,
    }
}

impl ClipboardSnapshot {
    /// Whether the snapshot obeys its invariant: a text payload has at least
    /// one character and an image payload at least one pixel column.
    pub open spec fn wf(&self) -> bool {
        self@.normal() == self@
    }

    /// Builds the snapshot from what the two reads of the clipboard found.
    pub fn capture(text: Option<String>, image: Option<ImageBuffer>) -> (snapshot:
        ClipboardSnapshot)
        ensures
            snapshot@ == captured(text_view_of(text), image_view_of(image)),
            snapshot.wf(),
    {
        match text {
            Some(found) => {
                if !found.as_str().is_empty() {
                    return ClipboardSnapshot::Text(found);
                }
            },
            None => {},
        }
        match image {
            Some(found) => {
                if found.width > 0 {
                    return ClipboardSnapshot::Image(found);
                }
            },
            None => {},
        }
        ClipboardSnapshot::Empty
    }

    /// Which payload the snapshot holds.
    pub fn kind(&self) -> (kind: SnapshotKind)
        ensures
            kind == self@.kind(),
    {
        match self {
            ClipboardSnapshot::Empty => SnapshotKind::Empty,
            ClipboardSnapshot::Text(_) => SnapshotKind::Text,
            ClipboardSnapshot::Image(_) => SnapshotKind::Image,
        }
    }

    /// The write that puts the snapshot back on the clipboard.  An empty
    /// snapshot is put back by doing nothing: an empty clipboard needs no
    /// defensive overwrite.
    pub fn restore(self) -> (write: Option<Effect>)
        ensures
            view_of(write) == write_back(self@),
    {
        match self {
            ClipboardSnapshot::Empty => None,
            ClipboardSnapshot::Text(text) => Some(Effect::WriteClipboardText { text }),
            ClipboardSnapshot::Image(image) => Some(Effect::WriteClipboardImage { image }),
        }
    }
}

/// The effects that read the clipboard for a snapshot: it is opened, read as
/// text, and read as an image.
pub fn snapshot() -> (script: Vec<Effect>)
    ensures
        views(script@) == snapshot_reads(),
{
    let script = vec![Effect::OpenClipboard, Effect::ReadClipboardText, Effect::ReadClipboardImage];
    assert(views(script@) =~= snapshot_reads());
    script
}

/// The effects that replace the clipboard content with the text.
pub fn write(text: String) -> (script: Vec<Effect>)
    ensures
        views(script@) == text_write(text@),
{
    let script = vec![Effect::ClearClipboard, Effect::WriteClipboardText { text }];
    assert(views(script@) =~= text_write(text@));
    script
}

} // verus!
