//! Piece map widget: the download state of each piece of a torrent.
use vstd::prelude::*;

use super::{BaseView, EventContext, Widget, WidgetBase, WidgetId, WidgetIds, succ_id};
use crate::css::{added, cleared_state, ClassList, WidgetState};
use crate::event::{EventResult, MouseEventKind, PointerEvent};

verus! {

/// The download state of a piece.
#[derive(Debug, Clone, Copy, PartialEq, Eq, Structural)]
pub enum PieceState {
    Missing,
    Downloading,
    Complete,
    Failed,
    Requested,
}

impl Default for PieceState {
    fn default() -> (r: Self)
        ensures
            r == PieceState::Missing,
    {
        PieceState::Missing
    }
}

/// How the pieces are drawn.
#[derive(Debug, Clone, Copy, PartialEq, Eq, Structural)]
pub enum PieceMapMode {
    Grid,
    Bar,
    Compact,
}

impl Default for PieceMapMode {
    fn default() -> (r: Self)
        ensures
            r == PieceMapMode::Grid,
    {
        PieceMapMode::Grid
    }
}

/// How many pieces are in each state.
#[derive(Debug, Clone, Copy, PartialEq, Eq, Structural)]
pub struct PieceStats {
    pub total: usize,
    pub complete: usize,
    pub downloading: usize,
    pub missing: usize,
    pub failed: usize,
    pub requested: usize,
}

impl Default for PieceStats {
    fn default() -> (r: Self)
        ensures
            r == (PieceStats { total: 0, complete: 0, downloading: 0, missing: 0, failed: 0, requested: 0 }),
    {
        PieceStats { total: 0, complete: 0, downloading: 0, missing: 0, failed: 0, requested: 0 }
    }
}

/// The number of pieces of `s` in state `st`.
pub open spec fn count_state(s: Seq<PieceState>, st: PieceState) -> nat
    decreases s.len(),
{
    if s.len() == 0 {
        0
    } else {
        count_state(s.drop_last(), st) + if s.last() == st { 1nat } else { 0nat }
    }
}

/// Whether bit `i` of a bitfield is set: bits run from the high bit of the
/// first byte; bits past the end are unset.
pub open spec fn bit_set(bitfield: Seq<u8>, i: nat) -> bool {
    let byte_idx = i / 8;
    byte_idx < bitfield.len() && (bitfield[byte_idx as int] >> ((7 - i % 8) as u8)) & 1u8 == 1u8
}

/// The pieces a bitfield describes: complete where the bit is set, else
/// missing.
pub open spec fn pieces_of_bitfield(bitfield: Seq<u8>, total: nat) -> Seq<PieceState> {
    Seq::new(total, |i: int| if bit_set(bitfield, i as nat) { PieceState::Complete } else { PieceState::Missing })
}

/// Abstract contents of a `PieceMap`.
pub struct PieceMapView {
    pub base: BaseView,
    pub pieces: Seq<PieceState>,
    pub mode: PieceMapMode,
    pub hovered_piece: Option<usize>,
    pub show_tooltip: bool,
}

/// A map of piece states.
#[derive(Debug)]
pub struct PieceMap {
    base: WidgetBase,
    pieces: Vec<PieceState>,
    mode: PieceMapMode,
    hovered_piece: Option<usize>,
    show_tooltip: bool,
}

impl View for PieceMap {
    type V = PieceMapView;

    closed spec fn view(&self) -> PieceMapView {
        PieceMapView {
            base: self.base@,
            pieces: self.pieces@,
            mode: self.mode,
            hovered_piece: self.hovered_piece,
            show_tooltip: self.show_tooltip,
        }
    }
}

/// The piece in row `row` and column `col` of a grid `cols` wide, when the
/// map has it.
pub open spec fn piece_at(v: PieceMapView, cell: Option<(usize, usize, usize)>) -> Option<usize> {
    match cell {
        Some((row, col, cols)) => if cols > 0 && row * cols + col < v.pieces.len() {
            Some((row * cols + col) as usize)
        } else {
            None
        },
        None => None,
    }
}

/// Counting the states one by one over a piece list gives every piece
/// exactly one state.
pub proof fn lemma_counts_sum(s: Seq<PieceState>)
    ensures
        count_state(s, PieceState::Complete) + count_state(s, PieceState::Downloading)
            + count_state(s, PieceState::Missing) + count_state(s, PieceState::Failed)
            + count_state(s, PieceState::Requested) == s.len(),
    decreases s.len(),
{
    if s.len() > 0 {
        lemma_counts_sum(s.drop_last());
    }
}

/// No count exceeds the number of pieces.
proof fn lemma_count_bound(s: Seq<PieceState>, st: PieceState)
    ensures
        count_state(s, st) <= s.len(),
    decreases s.len(),
{
    if s.len() > 0 {
        lemma_count_bound(s.drop_last(), st);
    }
}

impl PieceMap {
    /// An empty grid map with tooltips.
    pub fn new(ids: &mut WidgetIds) -> (r: Self)
        ensures
            r@.base.id == old(ids)@,
            final(ids)@ == succ_id(old(ids)@),
            r@.base.classes == seq!["piece-map"@],
            r@.base.element_id is None,
            r@.base.state == cleared_state(),
            r@.pieces.len() == 0,
            r@.mode == PieceMapMode::Grid,
            r@.hovered_piece is None,
            r@.show_tooltip,
    {
        PieceMap {
            base: WidgetBase::new(ids).with_class("piece-map"),
            pieces: Vec::new(),
            mode: PieceMapMode::Grid,
            hovered_piece: None,
            show_tooltip: true,
        }
    }

    /// Set the pieces.
    pub fn pieces(self, pieces: Vec<PieceState>) -> (r: Self)
        ensures
            r@ == (PieceMapView { pieces: pieces@, ..self@ }),
    {
        PieceMap { pieces, ..self }
    }

    /// Set the pieces from a bitfield of `total_pieces` bits (see
    /// `pieces_of_bitfield`).
    pub fn from_bitfield(self, bitfield: &[u8], total_pieces: usize) -> (r: Self)
        ensures
            r@ == (PieceMapView { pieces: pieces_of_bitfield(bitfield@, total_pieces as nat), ..self@ }),
    {
        let mut pieces: Vec<PieceState> = Vec::new();
        let mut i: usize = 0;
        while i < total_pieces
            invariant
                i <= total_pieces,
                pieces@ == pieces_of_bitfield(bitfield@, i as nat),
            decreases total_pieces - i,
        {
            let byte_idx = i / 8;
            let bit_idx = (7 - i % 8) as u8;
            let has_piece = if byte_idx < bitfield.len() {
                (bitfield[byte_idx] >> bit_idx) & 1 == 1
            } else {
                false
            };
            assert(has_piece == bit_set(bitfield@, i as nat));
            pieces.push(if has_piece { PieceState::Complete } else { PieceState::Missing });
            i = i + 1;
            assert(pieces@ =~= pieces_of_bitfield(bitfield@, i as nat));
        }
        PieceMap { pieces, ..self }
    }

    /// Set the display mode.
    pub fn mode(self, mode: PieceMapMode) -> (r: Self)
        ensures
            r@ == (PieceMapView { mode, ..self@ }),
    {
        PieceMap { mode, ..self }
    }

    /// Show tooltips or not.
    pub fn show_tooltip(self, show: bool) -> (r: Self)
        ensures
            r@ == (PieceMapView { show_tooltip: show, ..self@ }),
    {
        PieceMap { show_tooltip: show, ..self }
    }

    /// Add a CSS class.
    pub fn class(self, class: &str) -> (r: Self)
        ensures
            r@ == (PieceMapView { base: BaseView { classes: added(self@.base.classes, class@), ..self@.base }, ..self@ }),
    {
        let mut m = self;
        m.base.classes.add(class);
        m
    }

    /// The pieces.
    pub fn get_pieces(&self) -> (r: &Vec<PieceState>)
        ensures
            r@ == self@.pieces,
    {
        &self.pieces
    }

    /// The hovered piece, if any.
    pub fn hovered_piece(&self) -> (r: Option<usize>)
        ensures
            r == self@.hovered_piece,
    {
        self.hovered_piece
    }

    /// How many pieces are in each state, and in all.
    pub fn stats(&self) -> (r: PieceStats)
        ensures
            r.total == self@.pieces.len(),
            r.complete == count_state(self@.pieces, PieceState::Complete),
            r.downloading == count_state(self@.pieces, PieceState::Downloading),
            r.missing == count_state(self@.pieces, PieceState::Missing),
            r.failed == count_state(self@.pieces, PieceState::Failed),
            r.requested == count_state(self@.pieces, PieceState::Requested),
    {
        let ghost s = self@.pieces;
        let mut stats = PieceStats { total: 0, complete: 0, downloading: 0, missing: 0, failed: 0, requested: 0 };
        let mut i: usize = 0;
        while i < self.pieces.len()
            invariant
                i <= s.len(),
                s == self.pieces@,
                stats.total == 0,
                stats.complete == count_state(s.take(i as int), PieceState::Complete),
                stats.downloading == count_state(s.take(i as int), PieceState::Downloading),
                stats.missing == count_state(s.take(i as int), PieceState::Missing),
                stats.failed == count_state(s.take(i as int), PieceState::Failed),
                stats.requested == count_state(s.take(i as int), PieceState::Requested),
            decreases s.len() - i,
        {
            proof {
                assert(s.take(i + 1).drop_last() =~= s.take(i as int));
                assert(s.take(i + 1).last() == s[i as int]);
                lemma_counts_sum(s.take(i as int));
            }
            match self.pieces[i] {
                PieceState::Complete => stats.complete = stats.complete + 1,
                PieceState::Downloading => stats.downloading = stats.downloading + 1,
                PieceState::Missing => stats.missing = stats.missing + 1,
                PieceState::Failed => stats.failed = stats.failed + 1,
                PieceState::Requested => stats.requested = stats.requested + 1,
            }
            i = i + 1;
        }
        assert(s.take(s.len() as int) =~= s);
        stats.total = self.pieces.len();
        stats
    }

    /// Handles a pointer event; `cell` is the grid cell under the pointer
    /// (row, column, columns) when the pointer lies in the map. A move
    /// tracks the hovered piece (returning it when it changes to a piece,
    /// for the hover handler); a leave drops it.
    pub fn handle_pointer(&mut self, ev: PointerEvent, cell: Option<(usize, usize, usize)>, ctx: &mut EventContext) -> (r: (EventResult, Option<(usize, PieceState)>))
        requires
            cell matches Some((row, col, cols)) ==> row * cols + col <= usize::MAX,
        ensures
            final(ctx).focus == old(ctx).focus,
            r.0 == EventResult::Ignored,
            ({
                let v = old(self)@;
                let p = piece_at(v, cell);
                match ev.kind {
                    MouseEventKind::Move => {
                        &&& final(self)@ == (PieceMapView { hovered_piece: p, ..v })
                        &&& r.1 == (if p != v.hovered_piece && p is Some {
                            Some((p->0, v.pieces[p->0 as int]))
                        } else {
                            None
                        })
                        &&& final(ctx).should_redraw == (old(ctx).should_redraw || p != v.hovered_piece)
                    },
                    MouseEventKind::Leave => {
                        &&& final(self)@ == (PieceMapView { hovered_piece: None, ..v })
                        &&& r.1 is None
                        &&& final(ctx).should_redraw == (old(ctx).should_redraw || v.hovered_piece is Some)
                    },
                    _ => {
                        &&& final(self)@ == v
                        &&& r.1 is None
                        &&& final(ctx).should_redraw == old(ctx).should_redraw
                    },
                }
            }),
    {
        let p: Option<usize> = match cell {
            Some((row, col, cols)) => {
                if cols > 0 {
                    let index = row * cols + col;
                    if index < self.pieces.len() { Some(index) } else { None }
                } else {
                    None
                }
            },
            None => None,
        };
        match ev.kind {
            MouseEventKind::Move => {
                if p != self.hovered_piece {
                    self.hovered_piece = p;
                    ctx.request_redraw();
                    match p {
                        Some(i) => (EventResult::Ignored, Some((i, self.pieces[i]))),
                        None => (EventResult::Ignored, None),
                    }
                } else {
                    (EventResult::Ignored, None)
                }
            },
            MouseEventKind::Leave => {
                if self.hovered_piece.is_some() {
                    self.hovered_piece = None;
                    ctx.request_redraw();
                }
                (EventResult::Ignored, None)
            },
            _ => (EventResult::Ignored, None),
        }
    }
}

impl Widget for PieceMap {
    fn id(&self) -> (r: WidgetId)
        ensures
            r == self@.base.id,
    {
        self.base.id
    }

    fn widget_type_name(&self) -> (r: &'static str)
        ensures
            r@ == "piece-map"@,
    {
        "piece-map"
    }

    fn element_id(&self) -> (r: Option<&str>)
        ensures
            match r {
                Some(s) => self@.base.element_id == Some(s@),
                None => self@.base.element_id is None,
            },
    {
        self.base.element_id_str()
    }

    fn classes(&self) -> (r: &ClassList)
        ensures
            r@ == self@.base.classes,
    {
        &self.base.classes
    }

    fn state(&self) -> (r: WidgetState)
        ensures
            r == self@.base.state,
    {
        self.base.state
    }
}

} // verus!
