//! Data table widget: columns, rows of cells, selection, sorting and
//! keyboard navigation. Column widths are of a type `W` and cell values of
//! a type `V` that the drawing side interprets.
use vstd::prelude::*;

use std::time::Instant;

use super::desktop::DOUBLE_CLICK_MILLIS;
use super::pointer::{no_click, second_click, ClickMemory, ClickMemoryView};
use super::{BaseView, EventContext, Widget, WidgetBase, WidgetId, WidgetIds, succ_id};
use crate::css::{added, cleared_state, ClassList, WidgetState};
use crate::event::{is_left, EventResult, Key, KeyEvent, KeyEventKind, MouseButton, MouseEventKind, PointerEvent};
use crate::text::{char_count, dec, decimal_string, opt_view, owned, push_str, str_eq, take_chars};
use crate::theme::{ColorAdjust, ColorChoice, ThemeColor};
use crate::time::instant_now;

verus! {

/// Horizontal alignment of a column's content.
#[derive(Debug, Clone, Copy, PartialEq, Eq, Structural)]
pub enum ColumnAlign {
    Left,
    Center,
    Right,
}

impl Default for ColumnAlign {
    fn default() -> (r: Self)
        ensures
            r == ColumnAlign::Left,
    {
        ColumnAlign::Left
    }
}

/// The direction a column is sorted in.
#[derive(Debug, Clone, Copy, PartialEq, Eq, Structural)]
pub enum SortDirection {
    Ascending,
    Descending,
}

/// The other direction.
pub open spec fn flipped(d: SortDirection) -> SortDirection {
    match d {
        SortDirection::Ascending => SortDirection::Descending,
        SortDirection::Descending => SortDirection::Ascending,
    }
}

/// The indicator of a direction.
pub open spec fn sort_icon(d: SortDirection) -> Seq<char> {
    match d {
        SortDirection::Ascending => "▲"@,
        SortDirection::Descending => "▼"@,
    }
}

impl SortDirection {
    /// The other direction.
    pub fn toggle(self) -> (r: Self)
        ensures
            r == flipped(self),
    {
        match self {
            SortDirection::Ascending => SortDirection::Descending,
            SortDirection::Descending => SortDirection::Ascending,
        }
    }

    /// The indicator arrow.
    pub fn icon(&self) -> (r: &'static str)
        ensures
            r@ == sort_icon(*self),
    {
        match self {
            SortDirection::Ascending => "▲",
            SortDirection::Descending => "▼",
        }
    }
}

/// Toggling the direction twice gives it back, and toggling always
/// changes it.
pub proof fn lemma_sort_toggle_involution(d: SortDirection)
    ensures
        flipped(flipped(d)) == d,
        flipped(d) != d,
{
}

/// The look of a badge cell.
#[derive(Debug, Clone, Copy, PartialEq, Eq, Structural)]
pub enum BadgeVariant {
    Default,
    Primary,
    Success,
    Warning,
    Danger,
    Info,
}

impl Default for BadgeVariant {
    fn default() -> (r: Self)
        ensures
            r == BadgeVariant::Default,
    {
        BadgeVariant::Default
    }
}

/// The color of a badge variant.
pub open spec fn badge_color(b: BadgeVariant) -> ThemeColor {
    match b {
        BadgeVariant::Default => ThemeColor::Muted,
        BadgeVariant::Primary => ThemeColor::Primary,
        BadgeVariant::Success => ThemeColor::Success,
        BadgeVariant::Warning => ThemeColor::Warning,
        BadgeVariant::Danger => ThemeColor::Destructive,
        BadgeVariant::Info => ThemeColor::Accent,
    }
}

impl BadgeVariant {
    /// The color the badge is drawn in.
    pub fn color(&self) -> (r: ThemeColor)
        ensures
            r == badge_color(*self),
    {
        match self {
            BadgeVariant::Default => ThemeColor::Muted,
            BadgeVariant::Primary => ThemeColor::Primary,
            BadgeVariant::Success => ThemeColor::Success,
            BadgeVariant::Warning => ThemeColor::Warning,
            BadgeVariant::Danger => ThemeColor::Destructive,
            BadgeVariant::Info => ThemeColor::Accent,
        }
    }
}

/// The text a cell shows: longer than 40 characters, its first 37
/// followed by `...`.
pub open spec fn cell_text_of(s: Seq<char>) -> Seq<char> {
    if s.len() > 40 { s.take(37) + "..."@ } else { s }
}

/// The text a cell shows (see `cell_text_of`).
pub fn cell_text(s: &str) -> (r: String)
    ensures
        r@ == cell_text_of(s@),
{
    if char_count(s) > 40 {
        let mut t = take_chars(s, 37);
        push_str(&mut t, "...");
        t
    } else {
        owned(s)
    }
}

/// How many rows the table lets the user select.
#[derive(Debug, Clone, Copy, PartialEq, Eq, Structural)]
pub enum TableSelectionMode {
    NoSelection,
    Single,
    Multiple,
}

impl Default for TableSelectionMode {
    fn default() -> (r: Self)
        ensures
            r == TableSelectionMode::Single,
    {
        TableSelectionMode::Single
    }
}

/// A column of the table, with a width of type `W`.
#[derive(Debug, Clone)]
pub struct TableColumn<W> {
    pub id: String,
    pub header: String,
    pub width: W,
    pub sortable: bool,
    pub align: ColumnAlign,
}

impl<W> TableColumn<W> {
    /// A sortable, left-aligned column of the given width.
    pub fn new(id: &str, header: &str, width: W) -> (r: Self)
        ensures
            r.id@ == id@,
            r.header@ == header@,
            r.width == width,
            r.sortable,
            r.align == ColumnAlign::Left,
    {
        TableColumn { id: owned(id), header: owned(header), width, sortable: true, align: ColumnAlign::Left }
    }

    /// Set the width.
    pub fn with_width(self, width: W) -> (r: Self)
        ensures
            r == (TableColumn { width, ..self }),
    {
        TableColumn { width, ..self }
    }

    /// Make the column sortable or not.
    pub fn sortable(self, sortable: bool) -> (r: Self)
        ensures
            r == (TableColumn { sortable, ..self }),
    {
        TableColumn { sortable, ..self }
    }

    /// Set the alignment.
    pub fn align(self, align: ColumnAlign) -> (r: Self)
        ensures
            r == (TableColumn { align, ..self }),
    {
        TableColumn { align, ..self }
    }
}

/// Abstract contents of a `TableRow`: cells are (column id, value) pairs
/// with no column id twice.
pub struct TableRowView<V> {
    pub id: Seq<char>,
    pub cells: Seq<(Seq<char>, V)>,
    pub selected: bool,
    pub disabled: bool,
    pub icon: Option<Seq<char>>,
}

/// A row of the table, with cell values of type `V`.
#[derive(Debug)]
pub struct TableRow<V> {
    pub id: String,
    cells: Vec<(String, V)>,
    pub selected: bool,
    pub disabled: bool,
    pub icon: Option<String>,
}

/// The views of (column id, value) pairs.
pub open spec fn cells_view<V>(s: Seq<(String, V)>) -> Seq<(Seq<char>, V)> {
    s.map_values(|p: (String, V)| (p.0@, p.1))
}

/// No column id occurs twice.
pub open spec fn unique_keys<V>(s: Seq<(Seq<char>, V)>) -> bool {
    forall|i: int, j: int| 0 <= i < j < s.len() ==> #[trigger] s[i].0 != #[trigger] s[j].0
}

/// The cells after setting column `k` to `v`: the cell of that column is
/// replaced in place, or the cell is appended when there is none.
pub open spec fn cell_set<V>(s: Seq<(Seq<char>, V)>, k: Seq<char>, v: V) -> Seq<(Seq<char>, V)> {
    if exists|i: int| 0 <= i < s.len() && #[trigger] s[i].0 == k {
        s.update(choose|i: int| 0 <= i < s.len() && #[trigger] s[i].0 == k, (k, v))
    } else {
        s.push((k, v))
    }
}

impl<V> View for TableRow<V> {
    type V = TableRowView<V>;

    closed spec fn view(&self) -> TableRowView<V> {
        TableRowView {
            id: self.id@,
            cells: cells_view(self.cells@),
            selected: self.selected,
            disabled: self.disabled,
            icon: opt_view(&self.icon),
        }
    }
}

impl<V> TableRow<V> {
    /// Whether no column id occurs twice among the cells (see
    /// `unique_keys`); the row's own operations keep this so.
    pub fn well_formed(&self) -> (r: bool)
        ensures
            r == unique_keys(self@.cells),
    {
        let ghost s = self@.cells;
        let mut i: usize = 0;
        while i < self.cells.len()
            invariant
                i <= self.cells.len(),
                s == cells_view(self.cells@),
                s == self@.cells,
                forall|a: int, b: int| 0 <= a < b < s.len() && a < i ==> #[trigger] s[a].0 != #[trigger] s[b].0,
            decreases self.cells.len() - i,
        {
            let mut j: usize = i + 1;
            while j < self.cells.len()
                invariant
                    i < j <= self.cells.len(),
                    i < self.cells.len(),
                    s == cells_view(self.cells@),
                    forall|a: int, b: int| 0 <= a < b < s.len() && a < i ==> #[trigger] s[a].0 != #[trigger] s[b].0,
                    forall|b: int| i < b < j ==> s[i as int].0 != #[trigger] s[b].0,
                decreases self.cells.len() - j,
            {
                if str_eq(self.cells[i].0.as_str(), self.cells[j].0.as_str()) {
                    assert(s[i as int].0 == s[j as int].0);
                    return false;
                }
                j = j + 1;
            }
            i = i + 1;
        }
        true
    }

    /// An enabled, unselected row with no cells or icon.
    pub fn new(id: &str) -> (r: Self)
        ensures
            r@ == (TableRowView::<V> { id: id@, cells: Seq::empty(), selected: false, disabled: false, icon: None }),
            unique_keys(r@.cells),
    {
        let r = TableRow { id: owned(id), cells: Vec::new(), selected: false, disabled: false, icon: None };
        assert(cells_view(r.cells@) =~= Seq::<(Seq<char>, V)>::empty());
        r
    }

    /// Set the value of the cell in column `column_id`.
    pub fn cell(self, column_id: &str, value: V) -> (r: Self)
        requires
            unique_keys(self@.cells),
        ensures
            r@ == (TableRowView { cells: cell_set(self@.cells, column_id@, value), ..self@ }),
            unique_keys(r@.cells),
    {
        let ghost s = self@.cells;
        let ghost sv = self@;
        let mut row = self;
        let mut i: usize = 0;
        while i < row.cells.len()
            invariant
                i <= row.cells.len(),
                s == cells_view(row.cells@),
                s == sv.cells,
                sv == self@,
                row@ == sv,
                unique_keys(s),
                forall|j: int| 0 <= j < i ==> s[j].0 != column_id@,
            decreases row.cells.len() - i,
        {
            if str_eq(row.cells[i].0.as_str(), column_id) {
                proof {
                    assert(s[i as int].0 == column_id@);
                    let c = choose|k: int| 0 <= k < s.len() && #[trigger] s[k].0 == column_id@;
                    if c != i {
                        if c < i {
                            assert(s[c].0 != column_id@);
                        } else {
                            assert(s[i as int].0 != s[c].0);
                        }
                    }
                    assert(c == i);
                    assert(cell_set(s, column_id@, value) == s.update(i as int, (column_id@, value)));
                }
                let old_cell = row.cells.remove(i);
                let (key, _old_value) = old_cell;
                row.cells.insert(i, (key, value));
                assert(cells_view(row.cells@) =~= s.update(i as int, (column_id@, value)));
                proof {
                    let t = cells_view(row.cells@);
                    assert forall|a: int, b: int| 0 <= a < b < t.len() implies #[trigger] t[a].0 != #[trigger] t[b].0 by {
                        assert(s[a].0 != s[b].0);
                    }
                }
                return row;
            }
            i = i + 1;
        }
        assert(!exists|k: int| 0 <= k < s.len() && #[trigger] s[k].0 == column_id@);
        row.cells.push((owned(column_id), value));
        assert(cells_view(row.cells@) =~= s.push((column_id@, value)));
        proof {
            let t = cells_view(row.cells@);
            assert forall|a: int, b: int| 0 <= a < b < t.len() implies #[trigger] t[a].0 != #[trigger] t[b].0 by {
                if b < s.len() {
                    assert(s[a].0 != s[b].0);
                }
            }
        }
        row
    }

    /// The value of the cell in column `column_id`, if the row has one.
    pub fn get_cell(&self, column_id: &str) -> (r: Option<&V>)
        ensures
            match r {
                Some(v) => exists|i: int| 0 <= i < self@.cells.len() && #[trigger] self@.cells[i] == (column_id@, *v),
                None => forall|i: int| 0 <= i < self@.cells.len() ==> (#[trigger] self@.cells[i]).0 != column_id@,
            },
    {
        let ghost s = self@.cells;
        let mut i: usize = 0;
        while i < self.cells.len()
            invariant
                i <= self.cells.len(),
                s == cells_view(self.cells@),
                s == self@.cells,
                forall|j: int| 0 <= j < i ==> (#[trigger] s[j]).0 != column_id@,
            decreases self.cells.len() - i,
        {
            if str_eq(self.cells[i].0.as_str(), column_id) {
                assert(s[i as int] == (column_id@, self.cells@[i as int].1));
                return Some(&self.cells[i].1);
            }
            i = i + 1;
        }
        None
    }

    /// Set the icon.
    pub fn icon(self, icon: &str) -> (r: Self)
        ensures
            r@ == (TableRowView { icon: Some(icon@), ..self@ }),
    {
        TableRow { icon: Some(owned(icon)), ..self }
    }

    /// Set the disabled state.
    pub fn disabled(self, disabled: bool) -> (r: Self)
        ensures
            r@ == (TableRowView { disabled, ..self@ }),
    {
        TableRow { disabled, ..self }
    }
}

/// The views of a sequence of rows.
pub open spec fn rows_view<V>(s: Seq<TableRow<V>>) -> Seq<TableRowView<V>> {
    s.map_values(|r: TableRow<V>| r@)
}

/// `i` is the first position of `s` whose row has the id `id`.
pub open spec fn first_row_at<V>(s: Seq<TableRowView<V>>, id: Seq<char>, i: int) -> bool {
    0 <= i < s.len() && s[i].id == id && forall|j: int| 0 <= j < i ==> s[j].id != id
}

/// The first position of `s` whose row has the id `id`, if any.
pub open spec fn first_row_with_id<V>(s: Seq<TableRowView<V>>, id: Seq<char>) -> Option<int> {
    if exists|i: int| first_row_at(s, id, i) {
        Some(choose|i: int| first_row_at(s, id, i))
    } else {
        None
    }
}

/// `i` is the first selected position of `s`.
pub open spec fn first_selected_row_at<V>(s: Seq<TableRowView<V>>, i: int) -> bool {
    0 <= i < s.len() && s[i].selected && forall|j: int| 0 <= j < i ==> !s[j].selected
}

/// The first selected position of `s`, if any.
pub open spec fn first_selected_row<V>(s: Seq<TableRowView<V>>) -> Option<int> {
    if exists|i: int| first_selected_row_at(s, i) {
        Some(choose|i: int| first_selected_row_at(s, i))
    } else {
        None
    }
}

/// The first position with an id is unique.
pub proof fn lemma_first_row_unique<V>(s: Seq<TableRowView<V>>, id: Seq<char>, i: int)
    requires
        first_row_at(s, id, i),
    ensures
        first_row_with_id(s, id) == Some(i),
{
    let c = choose|k: int| first_row_at(s, id, k);
    assert(first_row_at(s, id, c));
    if c < i {
        assert(s[c].id != id);
    } else if i < c {
        assert(s[i].id != id);
    }
}

/// The first selected position is unique.
pub proof fn lemma_first_selected_row_unique<V>(s: Seq<TableRowView<V>>, i: int)
    requires
        first_selected_row_at(s, i),
    ensures
        first_selected_row(s) == Some(i),
{
    let c = choose|k: int| first_selected_row_at(s, k);
    assert(first_selected_row_at(s, c));
    if c < i {
        assert(!s[c].selected);
    } else if i < c {
        assert(!s[i].selected);
    }
}

/// The row with its selected flag set to `b`.
pub open spec fn row_with_selected<V>(r: TableRowView<V>, b: bool) -> TableRowView<V> {
    TableRowView { selected: b, ..r }
}

/// Every row unselected.
pub open spec fn rows_cleared<V>(s: Seq<TableRowView<V>>) -> Seq<TableRowView<V>> {
    s.map_values(|r: TableRowView<V>| row_with_selected(r, false))
}

/// Selecting the row with id `id`: nothing under `NoSelection`; under
/// `Single` every selection is cleared first; the first row with that id
/// is then selected unless disabled. The flag says whether it was (and
/// the select handler is to be told).
pub open spec fn row_select_step<V>(s: Seq<TableRowView<V>>, mode: TableSelectionMode, id: Seq<char>) -> (Seq<TableRowView<V>>, bool) {
    if mode == TableSelectionMode::NoSelection {
        (s, false)
    } else {
        let b = if mode == TableSelectionMode::Single { rows_cleared(s) } else { s };
        match first_row_with_id(s, id) {
            Some(i) => if !s[i].disabled { (b.update(i, row_with_selected(b[i], true)), true) } else { (b, false) },
            None => (b, false),
        }
    }
}

/// The ids of the selected rows, in order.
pub open spec fn selected_row_ids<V>(s: Seq<TableRowView<V>>) -> Seq<Seq<char>> {
    s.filter(|r: TableRowView<V>| r.selected).map_values(|r: TableRowView<V>| r.id)
}

/// An index reported by the pointer, kept when it is below `len`.
pub open spec fn index_within(i: Option<usize>, len: nat) -> Option<usize> {
    match i {
        Some(k) => if k < len { Some(k) } else { None },
        None => None,
    }
}

/// What the owner of a table is asked to do: tell the select, activate,
/// sort or context-menu handler (the last with whether the select handler
/// is to be told first).
#[derive(Debug)]
pub enum TableAction {
    Nothing,
    Select(String),
    Activate(String),
    Sort(String, SortDirection),
    ContextMenu(String, bool),
}

/// Abstract contents of a `DataTable`.
pub struct DataTableView<W, V> {
    pub base: BaseView,
    pub columns: Seq<TableColumn<W>>,
    pub rows: Seq<TableRowView<V>>,
    pub selection_mode: TableSelectionMode,
    pub sort_column: Option<Seq<char>>,
    pub sort_direction: SortDirection,
    pub hovered_row: Option<usize>,
    pub hovered_header: Option<usize>,
    pub show_row_numbers: bool,
    pub zebra_stripes: bool,
    pub last_click: ClickMemoryView,
}

/// A table of rows under sortable columns.
#[derive(Debug)]
pub struct DataTable<W, V> {
    base: WidgetBase,
    columns: Vec<TableColumn<W>>,
    rows: Vec<TableRow<V>>,
    selection_mode: TableSelectionMode,
    sort_column: Option<String>,
    sort_direction: SortDirection,
    hovered_row: Option<usize>,
    hovered_header: Option<usize>,
    show_row_numbers: bool,
    zebra_stripes: bool,
    clicks: ClickMemory,
}

impl<W, V> View for DataTable<W, V> {
    type V = DataTableView<W, V>;

    closed spec fn view(&self) -> DataTableView<W, V> {
        DataTableView {
            base: self.base@,
            columns: self.columns@,
            rows: rows_view(self.rows@),
            selection_mode: self.selection_mode,
            sort_column: opt_view(&self.sort_column),
            sort_direction: self.sort_direction,
            hovered_row: self.hovered_row,
            hovered_header: self.hovered_header,
            show_row_numbers: self.show_row_numbers,
            zebra_stripes: self.zebra_stripes,
            last_click: self.clicks@,
        }
    }
}

/// The table with its focused flag set.
pub open spec fn table_focused<W, V>(v: DataTableView<W, V>) -> DataTableView<W, V> {
    DataTableView { base: BaseView { state: WidgetState { focused: true, ..v.base.state }, ..v.base }, ..v }
}

/// One pointer event on the table, at clock reading `now` and `elapsed`
/// milliseconds after the remembered click: `w` is the table after it,
/// `res` and `a` the result and action, `f0`/`f1` and `d0`/`d1` the focus
/// and redraw request before and after. Moves track the hovered row and
/// header cell, a leave clears them. A left press on a sortable header
/// sorts by that column (flipping the direction when it already sorts by
/// it, else ascending). Otherwise a left press on a row takes the focus;
/// when it is the second press of a double-click on that row it activates
/// the row (and the remembered click is forgotten), else it selects the
/// row and is remembered. A right press on a row selects it and asks for
/// the context menu.
pub open spec fn table_pointer_outcome<W, V>(
    v: DataTableView<W, V>,
    ev: PointerEvent,
    row: Option<usize>,
    header: Option<usize>,
    now: Instant,
    elapsed: Option<u128>,
    w: DataTableView<W, V>,
    res: EventResult,
    a: TableAction,
    f0: Option<WidgetId>,
    f1: Option<WidgetId>,
    d0: bool,
    d1: bool,
) -> bool {
    let hr = index_within(row, v.rows.len());
    let hh = index_within(header, v.columns.len());
    let sort_hit = hh matches Some(c) && v.columns[c as int].sortable;
    match ev.kind {
        MouseEventKind::Move => {
            let moved = hr != v.hovered_row || hh != v.hovered_header;
            &&& w == (DataTableView { hovered_row: hr, hovered_header: hh, ..v })
            &&& res == EventResult::Ignored && a is Nothing
            &&& f1 == f0
            &&& d1 == (d0 || moved)
        },
        MouseEventKind::Leave => {
            let moved = v.hovered_row is Some || v.hovered_header is Some;
            &&& w == (DataTableView { hovered_row: None, hovered_header: None, ..v })
            &&& res == EventResult::Ignored && a is Nothing
            &&& f1 == f0
            &&& d1 == (d0 || moved)
        },
        MouseEventKind::Down if is_left(ev.button) && sort_hit => {
            let col = v.columns[hh->0 as int].id@;
            let dir = if v.sort_column == Some(col) { flipped(v.sort_direction) } else { SortDirection::Ascending };
            &&& w == (DataTableView { sort_column: Some(col), sort_direction: dir, ..v })
            &&& res == EventResult::Handled
            &&& a matches TableAction::Sort(s, d) && s@ == col && d == dir
            &&& f1 == f0
            &&& d1
        },
        MouseEventKind::Down if is_left(ev.button) && hr is Some => {
            let id = v.rows[hr->0 as int].id;
            &&& res == EventResult::Handled
            &&& f1 == Some(v.base.id)
            &&& d1
            &&& if second_click(v.last_click, id, elapsed) {
                &&& w == (DataTableView { last_click: no_click(), ..table_focused(v) })
                &&& a matches TableAction::Activate(s) && s@ == id
            } else {
                let step = row_select_step(v.rows, v.selection_mode, id);
                &&& w == (DataTableView {
                    rows: step.0,
                    last_click: ClickMemoryView { time: Some(now), id: Some(id) },
                    ..table_focused(v)
                })
                &&& (if step.1 { a matches TableAction::Select(s) && s@ == id } else { a is Nothing })
            }
        },
        MouseEventKind::Down if ev.button == Some(MouseButton::Right) && hr is Some => {
            let id = v.rows[hr->0 as int].id;
            let step = row_select_step(v.rows, v.selection_mode, id);
            &&& w == (DataTableView { rows: step.0, ..v })
            &&& res == EventResult::Handled
            &&& a matches TableAction::ContextMenu(s, b) && s@ == id && b == step.1
            &&& f1 == f0
            &&& d1
        },
        _ => {
            &&& w == v
            &&& res == EventResult::Ignored && a is Nothing
            &&& f1 == f0
            &&& d1 == d0
        },
    }
}

/// Finds the first row with the id `id`.
fn find_row<V>(rows: &Vec<TableRow<V>>, id: &str) -> (r: Option<usize>)
    ensures
        match r {
            Some(i) => first_row_with_id(rows_view(rows@), id@) == Some(i as int),
            None => first_row_with_id(rows_view(rows@), id@) is None,
        },
{
    let ghost s = rows_view(rows@);
    let mut i: usize = 0;
    while i < rows.len()
        invariant
            i <= rows.len(),
            s == rows_view(rows@),
            forall|j: int| 0 <= j < i ==> s[j].id != id@,
        decreases rows.len() - i,
    {
        if str_eq(rows[i].id.as_str(), id) {
            proof {
                lemma_first_row_unique(s, id@, i as int);
            }
            return Some(i);
        }
        i = i + 1;
    }
    assert(!exists|k: int| first_row_at(s, id@, k));
    None
}

/// Finds the first selected row.
fn find_selected_row<V>(rows: &Vec<TableRow<V>>) -> (r: Option<usize>)
    ensures
        match r {
            Some(i) => first_selected_row(rows_view(rows@)) == Some(i as int),
            None => first_selected_row(rows_view(rows@)) is None,
        },
{
    let ghost s = rows_view(rows@);
    let mut i: usize = 0;
    while i < rows.len()
        invariant
            i <= rows.len(),
            s == rows_view(rows@),
            forall|j: int| 0 <= j < i ==> !s[j].selected,
        decreases rows.len() - i,
    {
        if rows[i].selected {
            proof {
                lemma_first_selected_row_unique(s, i as int);
            }
            return Some(i);
        }
        i = i + 1;
    }
    assert(!exists|k: int| first_selected_row_at(s, k));
    None
}

/// Sets the selected flag of the row at `i`.
fn set_row_selected<V>(rows: &mut Vec<TableRow<V>>, i: usize, b: bool)
    requires
        i < old(rows).len(),
    ensures
        final(rows)@.len() == old(rows)@.len(),
        rows_view(final(rows)@) == rows_view(old(rows)@).update(i as int, row_with_selected(rows_view(old(rows)@)[i as int], b)),
{
    let ghost before = rows@;
    rows[i].selected = b;
    assert(rows@ == before.update(i as int, TableRow { selected: b, ..before[i as int] }));
    assert(rows_view(rows@) =~= rows_view(before).update(i as int, row_with_selected(rows_view(before)[i as int], b)));
}

/// Clears every selected flag.
fn clear_rows<V>(rows: &mut Vec<TableRow<V>>)
    ensures
        final(rows)@.len() == old(rows)@.len(),
        rows_view(final(rows)@) == rows_cleared(rows_view(old(rows)@)),
{
    let mut i: usize = 0;
    while i < rows.len()
        invariant
            i <= rows.len(),
            rows.len() == old(rows).len(),
            forall|j: int| 0 <= j < i ==> #[trigger] rows_view(rows@)[j] == row_with_selected(rows_view(old(rows)@)[j], false),
            forall|j: int| i <= j < rows.len() ==> #[trigger] rows_view(rows@)[j] == rows_view(old(rows)@)[j],
        decreases rows.len() - i,
    {
        let ghost before = rows_view(rows@);
        set_row_selected(rows, i, false);
        assert forall|j: int| 0 <= j < i + 1 implies #[trigger] rows_view(rows@)[j] == row_with_selected(rows_view(old(rows)@)[j], false) by {
            if j < i {
                assert(before[j] == rows_view(rows@)[j]);
            } else {
                assert(before[j] == rows_view(old(rows)@)[j]);
            }
        }
        assert forall|j: int| i + 1 <= j < rows.len() implies #[trigger] rows_view(rows@)[j] == rows_view(old(rows)@)[j] by {
            assert(before[j] == rows_view(rows@)[j]);
        }
        i = i + 1;
    }
    assert(rows_view(rows@) =~= rows_cleared(rows_view(old(rows)@)));
}

impl<W, V> DataTable<W, V> {
    /// An empty table with single selection, sorted by nothing (ascending
    /// when a column is chosen), with zebra stripes and no row numbers.
    pub fn new(ids: &mut WidgetIds) -> (r: Self)
        ensures
            r@.base.id == old(ids)@,
            final(ids)@ == succ_id(old(ids)@),
            r@.base.classes == seq!["data-table"@],
            r@.base.element_id is None,
            r@.base.state == cleared_state(),
            r@.columns.len() == 0,
            r@.rows.len() == 0,
            r@.selection_mode == TableSelectionMode::Single,
            r@.sort_column is None,
            r@.sort_direction == SortDirection::Ascending,
            r@.hovered_row is None,
            r@.hovered_header is None,
            !r@.show_row_numbers,
            r@.zebra_stripes,
            r@.last_click == no_click(),
    {
        DataTable {
            base: WidgetBase::new(ids).with_class("data-table"),
            columns: Vec::new(),
            rows: Vec::new(),
            selection_mode: TableSelectionMode::Single,
            sort_column: None,
            sort_direction: SortDirection::Ascending,
            hovered_row: None,
            hovered_header: None,
            show_row_numbers: false,
            zebra_stripes: true,
            clicks: ClickMemory::new(),
        }
    }

    /// Add a column.
    pub fn column(self, column: TableColumn<W>) -> (r: Self)
        ensures
            r@ == (DataTableView { columns: self@.columns.push(column), ..self@ }),
    {
        let mut t = self;
        t.columns.push(column);
        t
    }

    /// Replace the columns.
    pub fn columns(self, columns: Vec<TableColumn<W>>) -> (r: Self)
        ensures
            r@ == (DataTableView { columns: columns@, ..self@ }),
    {
        DataTable { columns, ..self }
    }

    /// Add a row.
    pub fn row(self, row: TableRow<V>) -> (r: Self)
        ensures
            r@ == (DataTableView { rows: self@.rows.push(row@), ..self@ }),
    {
        let mut t = self;
        t.rows.push(row);
        assert(rows_view(t.rows@) =~= self@.rows.push(row@));
        t
    }

    /// Replace the rows.
    pub fn rows(self, rows: Vec<TableRow<V>>) -> (r: Self)
        ensures
            r@ == (DataTableView { rows: rows_view(rows@), ..self@ }),
    {
        DataTable { rows, ..self }
    }

    /// Set the selection mode.
    pub fn selection_mode(self, mode: TableSelectionMode) -> (r: Self)
        ensures
            r@ == (DataTableView { selection_mode: mode, ..self@ }),
    {
        DataTable { selection_mode: mode, ..self }
    }

    /// Draw alternate rows shaded or not.
    pub fn zebra_stripes(self, enable: bool) -> (r: Self)
        ensures
            r@ == (DataTableView { zebra_stripes: enable, ..self@ }),
    {
        DataTable { zebra_stripes: enable, ..self }
    }

    /// Show row numbers or not.
    pub fn show_row_numbers(self, show: bool) -> (r: Self)
        ensures
            r@ == (DataTableView { show_row_numbers: show, ..self@ }),
    {
        DataTable { show_row_numbers: show, ..self }
    }

    /// Add a CSS class.
    pub fn class(self, class: &str) -> (r: Self)
        ensures
            r@ == (DataTableView { base: BaseView { classes: added(self@.base.classes, class@), ..self@.base }, ..self@ }),
    {
        let mut t = self;
        t.base.classes.add(class);
        t
    }

    /// The columns.
    pub fn get_columns(&self) -> (r: &Vec<TableColumn<W>>)
        ensures
            r@ == self@.columns,
    {
        &self.columns
    }

    /// The rows.
    pub fn get_rows(&self) -> (r: &Vec<TableRow<V>>)
        ensures
            rows_view(r@) == self@.rows,
    {
        &self.rows
    }

    /// The sort column and direction.
    pub fn sort_state(&self) -> (r: (Option<&str>, SortDirection))
        ensures
            r.1 == self@.sort_direction,
            match r.0 {
                Some(s) => self@.sort_column == Some(s@),
                None => self@.sort_column is None,
            },
    {
        let c: Option<&str> = match &self.sort_column {
            Some(s) => Some(s.as_str()),
            None => None,
        };
        (c, self.sort_direction)
    }

    /// The background of row `i`: selected rows in the accent color at 20%,
    /// the hovered enabled row in the hover color, odd rows shaded when
    /// zebra stripes are on, else the background.
    pub fn row_background(&self, i: usize) -> (r: ColorChoice)
        requires
            i < self@.rows.len(),
        ensures
            r == (if self@.rows[i as int].selected {
                ColorChoice { color: ThemeColor::Accent, adjust: ColorAdjust::AlphaPercent(20) }
            } else if self@.hovered_row == Some(i) && !self@.rows[i as int].disabled {
                ColorChoice { color: ThemeColor::SurfaceHover, adjust: ColorAdjust::Plain }
            } else if self@.zebra_stripes && i % 2 == 1 {
                ColorChoice { color: ThemeColor::Surface, adjust: ColorAdjust::AlphaPercent(50) }
            } else {
                ColorChoice { color: ThemeColor::Background, adjust: ColorAdjust::Plain }
            }),
    {
        let row = &self.rows[i];
        if row.selected {
            ColorChoice { color: ThemeColor::Accent, adjust: ColorAdjust::AlphaPercent(20) }
        } else if self.hovered_row == Some(i) && !row.disabled {
            ColorChoice { color: ThemeColor::SurfaceHover, adjust: ColorAdjust::Plain }
        } else if self.zebra_stripes && i % 2 == 1 {
            ColorChoice { color: ThemeColor::Surface, adjust: ColorAdjust::AlphaPercent(50) }
        } else {
            ColorChoice { color: ThemeColor::Background, adjust: ColorAdjust::Plain }
        }
    }

    /// The text color of row `i`: muted when disabled.
    pub fn row_text_color(&self, i: usize) -> (r: ThemeColor)
        requires
            i < self@.rows.len(),
        ensures
            r == (if self@.rows[i as int].disabled { ThemeColor::MutedForeground } else { ThemeColor::Foreground }),
    {
        if self.rows[i].disabled { ThemeColor::MutedForeground } else { ThemeColor::Foreground }
    }

    /// The number shown beside row `i`: its position counted from 1.
    pub fn row_number_text(i: usize) -> (r: String)
        requires
            i < usize::MAX,
        ensures
            r@ == dec(i as nat + 1),
    {
        decimal_string((i + 1) as u64)
    }

    /// The sort arrow shown in the header of column `c`, when the table is
    /// sorted by it.
    pub fn sort_indicator(&self, c: usize) -> (r: Option<&'static str>)
        requires
            c < self@.columns.len(),
        ensures
            match r {
                Some(s) => self@.sort_column == Some(self@.columns[c as int].id@) && s@ == sort_icon(self@.sort_direction),
                None => self@.sort_column != Some(self@.columns[c as int].id@),
            },
    {
        match &self.sort_column {
            Some(col) => {
                if str_eq(col.as_str(), self.columns[c].id.as_str()) {
                    Some(self.sort_direction.icon())
                } else {
                    None
                }
            },
            None => None,
        }
    }

    /// Select the row with id `id` (see `row_select_step`); returns whether
    /// it was selected (and the select handler is to be told).
    pub fn select(&mut self, id: &str) -> (r: bool)
        ensures
            final(self)@ == (DataTableView { rows: row_select_step(old(self)@.rows, old(self)@.selection_mode, id@).0, ..old(self)@ }),
            r == row_select_step(old(self)@.rows, old(self)@.selection_mode, id@).1,
    {
        if self.selection_mode == TableSelectionMode::NoSelection {
            return false;
        }
        let found = find_row(&self.rows, id);
        if self.selection_mode == TableSelectionMode::Single {
            clear_rows(&mut self.rows);
        }
        match found {
            Some(i) => {
                if !self.rows[i].disabled {
                    set_row_selected(&mut self.rows, i, true);
                    true
                } else {
                    false
                }
            },
            None => false,
        }
    }

    /// The ids of the selected rows, in order.
    pub fn selected(&self) -> (r: Vec<&str>)
        ensures
            r@.map_values(|s: &str| s@) == selected_row_ids(self@.rows),
    {
        let ghost s = self@.rows;
        let ghost pred = |x: TableRowView<V>| x.selected;
        let mut r: Vec<&str> = Vec::new();
        let mut i: usize = 0;
        while i < self.rows.len()
            invariant
                i <= self.rows.len(),
                s == rows_view(self.rows@),
                pred == (|x: TableRowView<V>| x.selected),
                r@.map_values(|x: &str| x@) == s.take(i as int).filter(pred).map_values(|x: TableRowView<V>| x.id),
            decreases self.rows.len() - i,
        {
            proof {
                reveal_with_fuel(Seq::filter, 1);
                assert(s.take(i + 1).drop_last() =~= s.take(i as int));
                assert(s.take(i + 1).last() == s[i as int]);
            }
            let ghost before = r@;
            if self.rows[i].selected {
                r.push(self.rows[i].id.as_str());
                assert(r@.map_values(|x: &str| x@) =~= before.map_values(|x: &str| x@).push(s[i as int].id));
                assert(s.take(i + 1).filter(pred).map_values(|x: TableRowView<V>| x.id)
                    =~= s.take(i as int).filter(pred).map_values(|x: TableRowView<V>| x.id).push(s[i as int].id));
            }
            i = i + 1;
        }
        assert(s.take(self.rows.len() as int) =~= s);
        r
    }

    /// Handles a pointer event at clock reading `now`, `elapsed`
    /// milliseconds after the remembered click; `row` and `header` are the
    /// row and header cell under the pointer, if any (see
    /// `table_pointer_outcome`).
    pub fn pointer_step(
        &mut self,
        ev: PointerEvent,
        row: Option<usize>,
        header: Option<usize>,
        now: Instant,
        elapsed: Option<u128>,
        ctx: &mut EventContext,
    ) -> (r: (EventResult, TableAction))
        ensures
            table_pointer_outcome(old(self)@, ev, row, header, now, elapsed, final(self)@, r.0, r.1,
                old(ctx).focus, final(ctx).focus, old(ctx).should_redraw, final(ctx).should_redraw),
    {
        let hr: Option<usize> = match row {
            Some(k) => if k < self.rows.len() { Some(k) } else { None },
            None => None,
        };
        let hh: Option<usize> = match header {
            Some(k) => if k < self.columns.len() { Some(k) } else { None },
            None => None,
        };
        match ev.kind {
            MouseEventKind::Move => {
                if hr != self.hovered_row || hh != self.hovered_header {
                    self.hovered_row = hr;
                    self.hovered_header = hh;
                    ctx.request_redraw();
                }
                (EventResult::Ignored, TableAction::Nothing)
            },
            MouseEventKind::Leave => {
                if self.hovered_row.is_some() || self.hovered_header.is_some() {
                    self.hovered_row = None;
                    self.hovered_header = None;
                    ctx.request_redraw();
                }
                (EventResult::Ignored, TableAction::Nothing)
            },
            MouseEventKind::Down => {
                match ev.button {
                    Some(MouseButton::Left) => {
                        if let Some(c) = hh {
                            if self.columns[c].sortable {
                                let col_id = self.columns[c].id.clone();
                                let same = match &self.sort_column {
                                    Some(s) => str_eq(s.as_str(), col_id.as_str()),
                                    None => false,
                                };
                                if same {
                                    self.sort_direction = self.sort_direction.toggle();
                                } else {
                                    self.sort_column = Some(col_id.clone());
                                    self.sort_direction = SortDirection::Ascending;
                                }
                                ctx.request_redraw();
                                return (EventResult::Handled, TableAction::Sort(col_id, self.sort_direction));
                            }
                        }
                        if let Some(k) = hr {
                            let id = self.rows[k].id.clone();
                            self.base.state.focused = true;
                            ctx.request_focus(self.base.id);
                            ctx.request_redraw();
                            if self.clicks.is_second_click(id.as_str(), elapsed) {
                                self.clicks.forget();
                                return (EventResult::Handled, TableAction::Activate(id));
                            }
                            let notify = self.select(id.as_str());
                            self.clicks.remember(now, id.as_str());
                            if notify {
                                return (EventResult::Handled, TableAction::Select(id));
                            }
                            return (EventResult::Handled, TableAction::Nothing);
                        }
                        (EventResult::Ignored, TableAction::Nothing)
                    },
                    Some(MouseButton::Right) => {
                        if let Some(k) = hr {
                            let id = self.rows[k].id.clone();
                            let notify = self.select(id.as_str());
                            ctx.request_redraw();
                            return (EventResult::Handled, TableAction::ContextMenu(id, notify));
                        }
                        (EventResult::Ignored, TableAction::Nothing)
                    },
                    _ => (EventResult::Ignored, TableAction::Nothing),
                }
            },
            _ => (EventResult::Ignored, TableAction::Nothing),
        }
    }

    /// Handles a pointer event, reading the monotonic clock; `row` and
    /// `header` are the row and header cell under the pointer, if any. The
    /// outcome is that of `pointer_step` for some clock reading and the time
    /// measured since the remembered click (taken exactly when a click is remembered).
    pub fn handle_pointer(&mut self, ev: PointerEvent, row: Option<usize>, header: Option<usize>, ctx: &mut EventContext)
        -> (r: (EventResult, TableAction))
        ensures
            exists|now: Instant, elapsed: Option<u128>| {
                &&& (old(self)@.last_click.time is None <==> elapsed is None)
                &&& #[trigger] table_pointer_outcome(old(self)@, ev, row, header, now, elapsed, final(self)@, r.0, r.1,
                    old(ctx).focus, final(ctx).focus, old(ctx).should_redraw, final(ctx).should_redraw)
            },
    {
        let now = instant_now();
        let elapsed = self.clicks.elapsed(&now);
        self.pointer_step(ev, row, header, now, elapsed, ctx)
    }

    /// Handles a key event while the table has the focus: Enter activates
    /// the first selected row, Up and Down select the row before or after
    /// it (Down selects the first row when none is selected).
    pub fn handle_key(&mut self, ev: &KeyEvent, ctx: &mut EventContext) -> (r: (EventResult, TableAction))
        ensures
            final(ctx).focus == old(ctx).focus,
            ({
                let v = old(self)@;
                let n = v.rows.len();
                let sel = first_selected_row(v.rows);
                let target: Option<int> = match ev.key {
                    Key::Up => match sel {
                        Some(i) => if i > 0 { Some(i - 1) } else { None },
                        None => None,
                    },
                    Key::Down => match sel {
                        Some(i) => if i + 1 < n { Some(i + 1) } else { None },
                        None => if n > 0 { Some(0) } else { None },
                    },
                    _ => None,
                };
                if !(ev.kind == KeyEventKind::Down && v.base.state.focused) {
                    &&& final(self)@ == v
                    &&& r.0 == EventResult::Ignored && r.1 is Nothing
                    &&& final(ctx).should_redraw == old(ctx).should_redraw
                } else if ev.key == Key::Enter {
                    &&& final(self)@ == v
                    &&& final(ctx).should_redraw == old(ctx).should_redraw
                    &&& match sel {
                        Some(i) => r.0 == EventResult::Handled && (r.1 matches TableAction::Activate(s) && s@ == v.rows[i].id),
                        None => r.0 == EventResult::Ignored && r.1 is Nothing,
                    }
                } else if ev.key == Key::Up || ev.key == Key::Down {
                    &&& r.0 == EventResult::Handled
                    &&& match target {
                        Some(t) => {
                            let step = row_select_step(v.rows, v.selection_mode, v.rows[t].id);
                            &&& final(self)@ == (DataTableView { rows: step.0, ..v })
                            &&& (if step.1 { r.1 matches TableAction::Select(s) && s@ == v.rows[t].id } else { r.1 is Nothing })
                            &&& final(ctx).should_redraw
                        },
                        None => {
                            &&& final(self)@ == v
                            &&& r.1 is Nothing
                            &&& final(ctx).should_redraw == old(ctx).should_redraw
                        },
                    }
                } else {
                    &&& final(self)@ == v
                    &&& r.0 == EventResult::Ignored && r.1 is Nothing
                    &&& final(ctx).should_redraw == old(ctx).should_redraw
                }
            }),
    {
        if !(ev.kind == KeyEventKind::Down && self.base.state.focused) {
            return (EventResult::Ignored, TableAction::Nothing);
        }
        let sel = find_selected_row(&self.rows);
        match ev.key {
            Key::Enter => {
                match sel {
                    Some(i) => (EventResult::Handled, TableAction::Activate(self.rows[i].id.clone())),
                    None => (EventResult::Ignored, TableAction::Nothing),
                }
            },
            Key::Up | Key::Down => {
                let n = self.rows.len();
                let target: Option<usize> = if ev.key == Key::Up {
                    match sel {
                        Some(i) => if i > 0 { Some(i - 1) } else { None },
                        None => None,
                    }
                } else {
                    match sel {
                        Some(i) => if i + 1 < n { Some(i + 1) } else { None },
                        None => if n > 0 { Some(0) } else { None },
                    }
                };
                match target {
                    Some(t) => {
                        let id = self.rows[t].id.clone();
                        let notify = self.select(id.as_str());
                        ctx.request_redraw();
                        if notify {
                            (EventResult::Handled, TableAction::Select(id))
                        } else {
                            (EventResult::Handled, TableAction::Nothing)
                        }
                    },
                    None => (EventResult::Handled, TableAction::Nothing),
                }
            },
            _ => (EventResult::Ignored, TableAction::Nothing),
        }
    }
}

/// Under single selection, selecting leaves at most one row selected.
pub proof fn lemma_table_single_selection<V>(s: Seq<TableRowView<V>>, id: Seq<char>)
    ensures
        forall|i: int, j: int|
            0 <= i < s.len() && 0 <= j < s.len()
            && (#[trigger] row_select_step(s, TableSelectionMode::Single, id).0[i]).selected
            && (#[trigger] row_select_step(s, TableSelectionMode::Single, id).0[j]).selected ==> i == j,
{
}

/// Selecting keeps the rows' ids.
proof fn lemma_row_step_keeps_ids<V>(s: Seq<TableRowView<V>>, mode: TableSelectionMode, id: Seq<char>)
    ensures
        row_select_step(s, mode, id).0.len() == s.len(),
        forall|j: int| 0 <= j < s.len() ==> (#[trigger] row_select_step(s, mode, id).0[j]).id == s[j].id,
{
}

/// A left press on the header of a sortable column sorts by that column:
/// ascending when the table was sorted by another column or by none,
/// whatever the direction was, and in the other direction when it was
/// already sorted by that column. The `Sort` action reports the new column
/// and direction, and the rows and the columns stay as they were.
pub proof fn lemma_header_press_sorts<W, V>(
    v: DataTableView<W, V>,
    ev: PointerEvent,
    row: Option<usize>,
    c: usize,
    now: Instant,
    elapsed: Option<u128>,
    w: DataTableView<W, V>,
    res: EventResult,
    a: TableAction,
    f: (Option<WidgetId>, Option<WidgetId>),
    d: (bool, bool),
)
    requires
        ev.kind == MouseEventKind::Down,
        ev.button == Some(MouseButton::Left),
        c < v.columns.len(),
        v.columns[c as int].sortable,
        table_pointer_outcome(v, ev, row, Some(c), now, elapsed, w, res, a, f.0, f.1, d.0, d.1),
    ensures
        ({
            let col = v.columns[c as int].id@;
            &&& w.sort_column == Some(col)
            &&& v.sort_column != Some(col) ==> w.sort_direction == SortDirection::Ascending
            &&& v.sort_column == Some(col) ==> w.sort_direction != v.sort_direction
            &&& a matches TableAction::Sort(s, dir) && s@ == col && dir == w.sort_direction
            &&& res == EventResult::Handled
            &&& w.rows == v.rows
            &&& w.columns == v.columns
        }),
{
}

/// A left press on a row, away from the headers, is never an activation
/// unless the click remembered last was on a row with the same id and came
/// less than 500 ms before: otherwise it takes the focus, is remembered as
/// the last click, and any selection it reports is of that row; the sort
/// order stays as it was.
pub proof fn lemma_other_row_press_does_not_activate<W, V>(
    v: DataTableView<W, V>,
    ev: PointerEvent,
    i: usize,
    now: Instant,
    elapsed: Option<u128>,
    w: DataTableView<W, V>,
    res: EventResult,
    a: TableAction,
    f: (Option<WidgetId>, Option<WidgetId>),
    d: (bool, bool),
)
    requires
        ev.kind == MouseEventKind::Down,
        ev.button == Some(MouseButton::Left),
        i < v.rows.len(),
        v.last_click.id != Some(v.rows[i as int].id) || !(elapsed matches Some(ms) && ms < 500),
        table_pointer_outcome(v, ev, Some(i), None, now, elapsed, w, res, a, f.0, f.1, d.0, d.1),
    ensures
        !(a is Activate),
        a matches TableAction::Select(s) ==> s@ == v.rows[i as int].id,
        w.last_click == (ClickMemoryView { time: Some(now), id: Some(v.rows[i as int].id) }),
        w.base.state.focused,
        f.1 == Some(v.base.id),
        res == EventResult::Handled,
        w.sort_column == v.sort_column && w.sort_direction == v.sort_direction,
{
}

/// A press on a row followed by a second press on it within the
/// double-click gap activates it; the first press leaves the table
/// focused, and under single selection an enabled row that is the first
/// with its id is then the first selected one, which Enter activates.
pub proof fn lemma_table_double_click_activates<W, V>(
    v: DataTableView<W, V>,
    ev: PointerEvent,
    i: usize,
    t0: Instant,
    t1: Instant,
    gap: u128,
    w1: DataTableView<W, V>,
    r1: EventResult,
    a1: TableAction,
    w2: DataTableView<W, V>,
    r2: EventResult,
    a2: TableAction,
    f: (Option<WidgetId>, Option<WidgetId>, Option<WidgetId>),
    d: (bool, bool, bool),
)
    requires
        ev.kind == MouseEventKind::Down,
        is_left(ev.button),
        i < v.rows.len(),
        gap < DOUBLE_CLICK_MILLIS,
        table_pointer_outcome(v, ev, Some(i), None, t0, None, w1, r1, a1, f.0, f.1, d.0, d.1),
        table_pointer_outcome(w1, ev, Some(i), None, t1, Some(gap), w2, r2, a2, f.1, f.2, d.1, d.2),
    ensures
        w1.base.state.focused,
        w2.base.state.focused,
        a2 matches TableAction::Activate(s) && s@ == v.rows[i as int].id,
        v.selection_mode == TableSelectionMode::Single && !v.rows[i as int].disabled
            && first_row_at(v.rows, v.rows[i as int].id, i as int) ==> first_selected_row(w1.rows) == Some(i as int),
{
    let id = v.rows[i as int].id;
    lemma_row_step_keeps_ids(v.rows, v.selection_mode, id);
    assert(w1.rows[i as int].id == id);
    if v.selection_mode == TableSelectionMode::Single && !v.rows[i as int].disabled && first_row_at(v.rows, id, i as int) {
        lemma_first_row_unique(v.rows, id, i as int);
        let b = rows_cleared(v.rows).update(i as int, row_with_selected(rows_cleared(v.rows)[i as int], true));
        assert(w1.rows == b);
        lemma_first_selected_row_unique(b, i as int);
    }
}

impl<W, V> Widget for DataTable<W, V> {
    fn id(&self) -> (r: WidgetId)
        ensures
            r == self@.base.id,
    {
        self.base.id
    }

    fn widget_type_name(&self) -> (r: &'static str)
        ensures
            r@ == "data-table"@,
    {
        "data-table"
    }

    fn element_id(&self) -> (r: Option<&str>)
        ensures
            match r {
                Some(s) => self@.base.element_id == Some(s@),
                None => self@.base.element_id is None,
            },
    {
        self.base.element_id_str()
    }

    fn classes(&self) -> (r: &ClassList)
        ensures
            r@ == self@.base.classes,
    {
        &self.base.classes
    }

    fn state(&self) -> (r: WidgetState)
        ensures
            r == self@.base.state,
    {
        self.base.state
    }
}

} // verus!
