//! Download item widget: one download with its state.
use vstd::prelude::*;

use super::{BaseView, EventContext, Widget, WidgetBase, WidgetId, WidgetIds, succ_id};
use crate::css::{cleared_state, ClassList, WidgetState};
use crate::event::{is_left, left_button, EventResult, MouseEventKind, PointerEvent};
use crate::text::{after_last, after_last_char, lowercase, owned, str_eq, to_lowercase};

verus! {

/// The state of a download.
#[derive(Debug, Clone, Copy, PartialEq, Eq, Structural)]
pub enum DownloadState {
    Pending,
    Downloading,
    Paused,
    Completed,
    Failed,
    Cancelled,
}

impl Default for DownloadState {
    fn default() -> (r: Self)
        ensures
            r == DownloadState::Pending,
    {
        DownloadState::Pending
    }
}

/// A download: what is fetched, from where, and how far it got.
#[derive(Debug, Clone)]
pub struct DownloadData {
    pub id: String,
    pub filename: String,
    pub url: String,
    pub state: DownloadState,
    pub downloaded_bytes: u64,
    pub total_bytes: Option<u64>,
    pub speed_bps: u64,
}

/// The lowercased extension of a file name: what follows its last dot
/// (the whole name when it has none).
pub open spec fn extension_of(filename: Seq<char>) -> Seq<char> {
    lowercase(after_last(filename, '.'))
}

/// The icon of a file extension.
pub open spec fn icon_for_extension(ext: Seq<char>) -> Seq<char> {
    if ext == "pdf"@ {
        "📄"@
    } else if ext == "doc"@ || ext == "docx"@ {
        "📝"@
    } else if ext == "xls"@ || ext == "xlsx"@ {
        "📊"@
    } else if ext == "mp3"@ || ext == "wav"@ || ext == "flac"@ {
        "🎵"@
    } else if ext == "mp4"@ || ext == "mkv"@ || ext == "avi"@ {
        "🎬"@
    } else if ext == "jpg"@ || ext == "jpeg"@ || ext == "png"@ || ext == "gif"@ {
        "🖼️"@
    } else if ext == "zip"@ || ext == "rar"@ || ext == "7z"@ {
        "📦"@
    } else if ext == "exe"@ || ext == "msi"@ || ext == "dmg"@ {
        "⚙️"@
    } else {
        "📁"@
    }
}

/// Whether `ext` is one of `names`.
fn ext_in(ext: &str, names: &[&str]) -> (r: bool)
    ensures
        r == exists|i: int| 0 <= i < names@.len() && #[trigger] names@[i]@ == ext@,
{
    let mut i: usize = 0;
    while i < names.len()
        invariant
            i <= names@.len(),
            forall|j: int| 0 <= j < i ==> (#[trigger] names@[j])@ != ext@,
        decreases names.len() - i,
    {
        if str_eq(names[i], ext) {
            return true;
        }
        i = i + 1;
    }
    false
}

impl DownloadData {
    /// A pending download of nothing yet.
    pub fn new(id: &str, filename: &str, url: &str) -> (r: Self)
        ensures
            r.id@ == id@,
            r.filename@ == filename@,
            r.url@ == url@,
            r.state == DownloadState::Pending,
            r.downloaded_bytes == 0,
            r.total_bytes is None,
            r.speed_bps == 0,
    {
        DownloadData {
            id: owned(id),
            filename: owned(filename),
            url: owned(url),
            state: DownloadState::Pending,
            downloaded_bytes: 0,
            total_bytes: None,
            speed_bps: 0,
        }
    }

    /// The icon of the file, by its extension (see `icon_for_extension`).
    pub fn file_icon(&self) -> (r: &'static str)
        ensures
            r@ == icon_for_extension(extension_of(self.filename@)),
    {
        let last = after_last_char(self.filename.as_str(), '.');
        let ext = to_lowercase(last.as_str());
        let e = ext.as_str();
        proof {
            reveal_strlit("pdf");
            reveal_strlit("doc");
            reveal_strlit("docx");
            reveal_strlit("xls");
            reveal_strlit("xlsx");
            reveal_strlit("mp3");
            reveal_strlit("wav");
            reveal_strlit("flac");
            reveal_strlit("mp4");
            reveal_strlit("mkv");
            reveal_strlit("avi");
            reveal_strlit("jpg");
            reveal_strlit("jpeg");
            reveal_strlit("png");
            reveal_strlit("gif");
            reveal_strlit("zip");
            reveal_strlit("rar");
            reveal_strlit("7z");
            reveal_strlit("exe");
            reveal_strlit("msi");
            reveal_strlit("dmg");
        }
        if str_eq(e, "pdf") {
            "📄"
        } else if ext_in(e, &["doc", "docx"]) {
            "📝"
        } else if ext_in(e, &["xls", "xlsx"]) {
            "📊"
        } else if ext_in(e, &["mp3", "wav", "flac"]) {
            "🎵"
        } else if ext_in(e, &["mp4", "mkv", "avi"]) {
            "🎬"
        } else if ext_in(e, &["jpg", "jpeg", "png", "gif"]) {
            "🖼️"
        } else if ext_in(e, &["zip", "rar", "7z"]) {
            "📦"
        } else if ext_in(e, &["exe", "msi", "dmg"]) {
            "⚙️"
        } else {
            "📁"
        }
    }
}

/// Abstract contents of a `DownloadItem`.
pub struct DownloadItemView {
    pub base: BaseView,
    pub data: DownloadData,
    pub is_hovered: bool,
}

/// A row showing one download.
#[derive(Debug)]
pub struct DownloadItem {
    base: WidgetBase,
    data: DownloadData,
    is_hovered: bool,
}

impl View for DownloadItem {
    type V = DownloadItemView;

    closed spec fn view(&self) -> DownloadItemView {
        DownloadItemView { base: self.base@, data: self.data, is_hovered: self.is_hovered }
    }
}

impl DownloadItem {
    /// An item for a download, not hovered.
    pub fn new(ids: &mut WidgetIds, data: DownloadData) -> (r: Self)
        ensures
            r@.base.id == old(ids)@,
            final(ids)@ == succ_id(old(ids)@),
            r@.base.classes == seq!["download-item"@],
            r@.base.element_id is None,
            r@.base.state == cleared_state(),
            r@.data == data,
            !r@.is_hovered,
    {
        DownloadItem { base: WidgetBase::new(ids).with_class("download-item"), data, is_hovered: false }
    }

    /// The download.
    pub fn data(&self) -> (r: &DownloadData)
        ensures
            *r == self@.data,
    {
        &self.data
    }

    /// Handles a pointer event: a move tracks whether the pointer is over
    /// the item; a left press on a hovered, completed download asks to
    /// open it (returning its id for the open handler).
    pub fn handle_pointer(&mut self, ev: PointerEvent, ctx: &mut EventContext) -> (r: (EventResult, Option<String>))
        ensures
            final(ctx).focus == old(ctx).focus,
            ({
                let v = old(self)@;
                match ev.kind {
                    MouseEventKind::Move => {
                        &&& final(self)@ == (DownloadItemView { is_hovered: ev.in_bounds, ..v })
                        &&& r.0 == EventResult::Ignored && r.1 is None
                        &&& final(ctx).should_redraw == (old(ctx).should_redraw || v.is_hovered != ev.in_bounds)
                    },
                    MouseEventKind::Down if is_left(ev.button) && v.is_hovered && v.data.state == DownloadState::Completed => {
                        &&& final(self)@ == v
                        &&& r.0 == EventResult::Handled
                        &&& r.1 matches Some(id) && id@ == v.data.id@
                        &&& final(ctx).should_redraw == old(ctx).should_redraw
                    },
                    _ => {
                        &&& final(self)@ == v
                        &&& r.0 == EventResult::Ignored && r.1 is None
                        &&& final(ctx).should_redraw == old(ctx).should_redraw
                    },
                }
            }),
    {
        match ev.kind {
            MouseEventKind::Move => {
                let was = self.is_hovered;
                self.is_hovered = ev.in_bounds;
                if was != self.is_hovered {
                    ctx.request_redraw();
                }
                (EventResult::Ignored, None)
            },
            MouseEventKind::Down => {
                if left_button(ev.button) && self.is_hovered && self.data.state == DownloadState::Completed {
                    (EventResult::Handled, Some(self.data.id.clone()))
                } else {
                    (EventResult::Ignored, None)
                }
            },
            _ => (EventResult::Ignored, None),
        }
    }
}

impl Widget for DownloadItem {
    fn id(&self) -> (r: WidgetId)
        ensures
            r == self@.base.id,
    {
        self.base.id
    }

    fn widget_type_name(&self) -> (r: &'static str)
        ensures
            r@ == "download-item"@,
    {
        "download-item"
    }

    fn element_id(&self) -> (r: Option<&str>)
        ensures
            match r {
                Some(s) => self@.base.element_id == Some(s@),
                None => self@.base.element_id is None,
            },
    {
        self.base.element_id_str()
    }

    fn classes(&self) -> (r: &ClassList)
        ensures
            r@ == self@.base.classes,
    {
        &self.base.classes
    }

    fn state(&self) -> (r: WidgetState)
        ensures
            r == self@.base.state,
    {
        self.base.state
    }
}

} // verus!
