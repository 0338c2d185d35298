//! The record layout engine: packs the columns of one record into wrapped
//! header/value line pairs.
//!
//! Columns are taken in record order.  A column whose value is longer than
//! the output width is oversized and gets a line pair of its own.  Every
//! other column joins the line being packed, or starts the next one when it
//! no longer fits.

use vstd::prelude::*;
use crate::config::{Config, ConfigView};
use crate::style::{role_style, Style};
use crate::text::{char_len, pad, pad_right};
use crate::truncate::{display_value, displayed, effective_col_width, reserved_width};

verus! {

/// One entry of a record: a key and its value as display text.
pub struct Column {
    pub key: String,
    pub value: String,
}

/// The mathematical model of [`Column`].
pub struct ColumnView {
    pub key: Seq<char>,
    pub value: Seq<char>,
}

impl View for Column {
    type V = ColumnView;

    open spec fn view(&self) -> ColumnView {
        ColumnView { key: self.key@, value: self.value@ }
    }
}

impl DeepView for Column {
    type V = ColumnView;

    open spec fn deep_view(&self) -> ColumnView {
        self@
    }
}

/// One column as it appears in a line pair.
pub struct Cell {
    /// The column's key.
    pub key: String,
    /// The header text: the key, padded to the column's width.
    pub header: String,
    /// The value text: the displayed value, padded to the column's width.
    pub value: String,
    /// The style tag of the value text.
    pub style: Style,
}

/// The mathematical model of [`Cell`].
pub struct CellView {
    pub key: Seq<char>,
    pub header: Seq<char>,
    pub value: Seq<char>,
    pub style: Style,
}

impl View for Cell {
    type V = CellView;

    open spec fn view(&self) -> CellView {
        CellView { key: self.key@, header: self.header@, value: self.value@, style: self.style }
    }
}

impl DeepView for Cell {
    type V = CellView;

    open spec fn deep_view(&self) -> CellView {
        self@
    }
}

/// A header line and the value line under it.
pub enum LinePair {
    /// A row of columns packed side by side, each followed by one space.
    Packed(Vec<Cell>),
    /// A single oversized column: its key alone above its value in full.
    Oversized(Cell),
}

/// The mathematical model of [`LinePair`].
pub enum LinePairView {
    Packed(Seq<CellView>),
    Oversized(CellView),
}

impl DeepView for LinePair {
    type V = LinePairView;

    open spec fn deep_view(&self) -> LinePairView {
        match self {
            LinePair::Packed(cells) => LinePairView::Packed(cells.deep_view()),
            LinePair::Oversized(cell) => LinePairView::Oversized(cell@),
        }
    }
}

/// Whether the value of `column` alone exceeds the output width.
pub open spec fn is_oversized(column: ColumnView, config: ConfigView) -> bool {
    column.value.len() > config.width
}

/// The cell of `column`: an oversized column shows its key and its value
/// as they are; any other shows both padded to the column's reserved width,
/// the value as the truncation policy displays it.
pub open spec fn cell_for(column: ColumnView, config: ConfigView) -> CellView {
    let style = role_style(column.key, config.roles);
    if is_oversized(column, config) {
        CellView { key: column.key, header: column.key, value: column.value, style }
    } else {
        let width = reserved_width(column.key.len(), column.value, config);
        CellView {
            key: column.key,
            header: pad_right(column.key, width),
            value: pad_right(displayed(column.value, config), width),
            style,
        }
    }
}

/// The declared width of a packed row: the width of each of its cells and
/// one separator after each.
pub open spec fn line_width(cells: Seq<CellView>) -> nat
    decreases cells.len(),
{
    if cells.len() == 0 {
        0
    } else {
        line_width(cells.drop_last()) + cells.last().header.len() + 1
    }
}

/// The state of packing: the line pairs that are complete, and the cells of
/// the row that is still open.
pub struct Packing {
    pub done: Seq<LinePairView>,
    pub pending: Seq<CellView>,
}

/// The line pairs of `packing` once its open row, if it holds any cell, is
/// closed.
pub open spec fn flushed(packing: Packing) -> Seq<LinePairView> {
    if packing.pending.len() == 0 {
        packing.done
    } else {
        packing.done.push(LinePairView::Packed(packing.pending))
    }
}

/// Whether the open row of `packing` has to be closed before a cell of
/// `width` characters is added: it holds a cell already, and with the new
/// cell and its separator it would exceed the output width.
pub open spec fn overflows(packing: Packing, width: nat, config: ConfigView) -> bool {
    packing.pending.len() > 0 && line_width(packing.pending) + width + 1 > config.width
}

/// `packing` after `column` is placed.
pub open spec fn placed(packing: Packing, column: ColumnView, config: ConfigView) -> Packing {
    let cell = cell_for(column, config);
    if is_oversized(column, config) {
        Packing {
            done: flushed(packing).push(LinePairView::Oversized(cell)),
            pending: Seq::empty(),
        }
    } else if overflows(packing, cell.header.len(), config) {
        Packing { done: flushed(packing), pending: seq![cell] }
    } else {
        Packing { done: packing.done, pending: packing.pending.push(cell) }
    }
}

/// The state after all of `columns` are placed, in order.
pub open spec fn packed(columns: Seq<ColumnView>, config: ConfigView) -> Packing
    decreases columns.len(),
{
    if columns.len() == 0 {
        Packing { done: Seq::empty(), pending: Seq::empty() }
    } else {
        placed(packed(columns.drop_last(), config), columns.last(), config)
    }
}

/// The line pairs of a record with the columns `columns`.
pub open spec fn layout(columns: Seq<ColumnView>, config: ConfigView) -> Seq<LinePairView> {
    flushed(packed(columns, config))
}

/// Builds the cell of `column`.
pub fn make_cell(column: &Column, config: &Config) -> (cell: Cell)
    ensures
        cell@ == cell_for(column@, config@),
{
    let style = config.roles.style_for(&column.key);
    if char_len(column.value.as_str()) > config.width {
        Cell {
            key: column.key.clone(),
            header: column.key.clone(),
            value: column.value.clone(),
            style,
        }
    } else {
        let width = effective_col_width(column.key.as_str(), column.value.as_str(), config);
        let shown = display_value(column.value.as_str(), config);
        Cell {
            key: column.key.clone(),
            header: pad(column.key.as_str(), width),
            value: pad(shown.as_str(), width),
            style,
        }
    }
}

/// The header of a packed column is exactly as wide as the column, and so
/// is its value unless that is shown in full and overflows the column.
pub proof fn lemma_cell_widths(column: ColumnView, config: ConfigView)
    requires
        !is_oversized(column, config),
    ensures
        cell_for(column, config).header.len() == reserved_width(
            column.key.len(),
            column.value,
            config,
        ),
        displayed(column.value, config).len() <= reserved_width(
            column.key.len(),
            column.value,
            config,
        ) ==> cell_for(column, config).value.len() == cell_for(column, config).header.len(),
        cell_for(column, config).value.len() >= cell_for(column, config).header.len(),
{
}

/// `cells` with `cell` added at the end is one cell wider.
proof fn lemma_line_width_push(cells: Seq<CellView>, cell: CellView)
    ensures
        line_width(cells.push(cell)) == line_width(cells) + cell.header.len() + 1,
{
    assert(cells.push(cell).drop_last() =~= cells);
}

/// Lays out one record: places its columns, in order, into line pairs.
pub fn process_record(columns: &Vec<Column>, config: &Config) -> (lines: Vec<LinePair>)
    ensures
        lines.deep_view() == layout(columns.deep_view(), config@),
{
    let mut lines: Vec<LinePair> = Vec::new();
    let mut pending: Vec<Cell> = Vec::new();
    // The width of the open row without the separator after its last cell.
    let mut used: usize = 0;
    let mut i: usize = 0;
    while i < columns.len()
        invariant
            i <= columns.len(),
            lines.deep_view() == packed(columns.deep_view().take(i as int), config@).done,
            pending.deep_view() == packed(columns.deep_view().take(i as int), config@).pending,
            pending.len() > 0 ==> used + 1 == line_width(pending.deep_view()),
        decreases columns.len() - i,
    {
        let column = &columns[i];
        let cell = make_cell(column, config);
        let ghost old_pending = pending.deep_view();
        assert(columns.deep_view().take(i + 1).drop_last() =~= columns.deep_view().take(i as int));
        if char_len(column.value.as_str()) > config.width {
            if pending.len() > 0 {
                lines.push(LinePair::Packed(pending));
                pending = Vec::new();
            }
            lines.push(LinePair::Oversized(cell));
            used = 0;
        } else {
            let width = char_len(cell.header.as_str());
            // `used + 1 + width + 1 > config.width`, written so that nothing overflows.
            if pending.len() > 0 && (width >= config.width || used >= config.width - width - 1) {
                lines.push(LinePair::Packed(pending));
                pending = Vec::new();
                pending.push(cell);
                used = width;
                proof {
                    lemma_line_width_push(Seq::empty(), cell@);
                    assert(Seq::<CellView>::empty().push(cell@) =~= seq![cell@]);
                }
            } else {
                proof {
                    lemma_line_width_push(old_pending, cell@);
                }
                if pending.len() == 0 {
                    used = width;
                } else {
                    used = used + 1 + width;
                }
                pending.push(cell);
                assert(pending.deep_view() =~= old_pending.push(cell@));
            }
        }
        i = i + 1;
    }
    assert(columns.deep_view().take(i as int) =~= columns.deep_view());
    if pending.len() > 0 {
        lines.push(LinePair::Packed(pending));
    }
    lines
}

/// The cells of one line pair, left to right.
pub open spec fn cells_of(line: LinePairView) -> Seq<CellView> {
    match line {
        LinePairView::Packed(cells) => cells,
        LinePairView::Oversized(cell) => seq![cell],
    }
}

/// The cells of `lines`, line after line.
pub open spec fn all_cells(lines: Seq<LinePairView>) -> Seq<CellView>
    decreases lines.len(),
{
    if lines.len() == 0 {
        Seq::empty()
    } else {
        all_cells(lines.drop_last()) + cells_of(lines.last())
    }
}

/// The cell of each column, in record order.
pub open spec fn column_cells(columns: Seq<ColumnView>, config: ConfigView) -> Seq<CellView> {
    Seq::new(columns.len(), |i: int| cell_for(columns[i], config))
}

/// Whether `line` respects the output width: a packed row holds at least
/// one cell, and its declared width exceeds the output width only where it
/// holds a single cell; an oversized line shows a value longer than the
/// output width under its bare key.
pub open spec fn line_fits(line: LinePairView, config: ConfigView) -> bool {
    match line {
        LinePairView::Packed(cells) => cells.len() >= 1 && (line_width(cells) <= config.width
            || cells.len() == 1),
        LinePairView::Oversized(cell) => cell.value.len() > config.width && cell.header
            == cell.key,
    }
}

proof fn lemma_all_cells_push(lines: Seq<LinePairView>, line: LinePairView)
    ensures
        all_cells(lines.push(line)) == all_cells(lines) + cells_of(line),
{
    assert(lines.push(line).drop_last() =~= lines);
}

proof fn lemma_all_cells_flushed(packing: Packing)
    ensures
        all_cells(flushed(packing)) == all_cells(packing.done) + packing.pending,
{
    if packing.pending.len() > 0 {
        lemma_all_cells_push(packing.done, LinePairView::Packed(packing.pending));
    }
}

proof fn lemma_packed_keeps_cells(columns: Seq<ColumnView>, config: ConfigView)
    ensures
        all_cells(packed(columns, config).done) + packed(columns, config).pending
            == column_cells(columns, config),
    decreases columns.len(),
{
    if columns.len() > 0 {
        let now = packed(columns, config);
        let before = packed(columns.drop_last(), config);
        let cell = cell_for(columns.last(), config);
        lemma_packed_keeps_cells(columns.drop_last(), config);
        lemma_all_cells_flushed(before);
        if is_oversized(columns.last(), config) {
            lemma_all_cells_push(flushed(before), LinePairView::Oversized(cell));
        }
        assert(all_cells(now.done) + now.pending =~= (all_cells(before.done)
            + before.pending).push(cell));
    }
}

/// The layout keeps every column, once, in record order: read line after
/// line and left to right, its cells are the cells of the columns.  So the
/// keys come out in record order, and each header is its key followed by
/// nothing but padding.
pub proof fn lemma_layout_keeps_order(columns: Seq<ColumnView>, config: ConfigView)
    ensures
        all_cells(layout(columns, config)) == column_cells(columns, config),
        all_cells(layout(columns, config)).len() == columns.len(),
        forall|i: int|
            0 <= i < columns.len() ==> {
                let cell = #[trigger] all_cells(layout(columns, config))[i];
                &&& cell.key == columns[i].key
                &&& cell.header.len() >= cell.key.len()
                &&& cell.header.take(cell.key.len() as int) == cell.key
                &&& forall|j: int| cell.key.len() <= j < cell.header.len() ==> cell.header[j] == ' '
            },
{
    lemma_packed_keeps_cells(columns, config);
    lemma_all_cells_flushed(packed(columns, config));
    assert forall|i: int| 0 <= i < columns.len() implies {
        let cell = #[trigger] all_cells(layout(columns, config))[i];
        &&& cell.key == columns[i].key
        &&& cell.header.len() >= cell.key.len()
        &&& cell.header.take(cell.key.len() as int) == cell.key
        &&& forall|j: int| cell.key.len() <= j < cell.header.len() ==> cell.header[j] == ' '
    } by {
        assert(all_cells(layout(columns, config))[i] == cell_for(columns[i], config));
    }
}

proof fn lemma_packed_fits(columns: Seq<ColumnView>, config: ConfigView)
    ensures
        forall|k: int|
            0 <= k < packed(columns, config).done.len() ==> line_fits(
                #[trigger] packed(columns, config).done[k],
                config,
            ),
        line_width(packed(columns, config).pending) <= config.width || packed(
            columns,
            config,
        ).pending.len() <= 1,
    decreases columns.len(),
{
    if columns.len() > 0 {
        let before = packed(columns.drop_last(), config);
        let cell = cell_for(columns.last(), config);
        lemma_packed_fits(columns.drop_last(), config);
        lemma_line_width_push(before.pending, cell);
    }
}

/// No packed row exceeds the output width, except a row that holds a single
/// column; and every other line pair is a single oversized column.
pub proof fn lemma_layout_fits(columns: Seq<ColumnView>, config: ConfigView)
    ensures
        forall|k: int|
            0 <= k < layout(columns, config).len() ==> line_fits(
                #[trigger] layout(columns, config)[k],
                config,
            ),
{
    lemma_packed_fits(columns, config);
}

proof fn lemma_packed_after_oversized(
    before: Seq<ColumnView>,
    column: ColumnView,
    after: Seq<ColumnView>,
    config: ConfigView,
)
    requires
        is_oversized(column, config),
    ensures
        packed(before.push(column) + after, config).done == layout(before, config).push(
            LinePairView::Oversized(cell_for(column, config)),
        ) + packed(after, config).done,
        packed(before.push(column) + after, config).pending == packed(after, config).pending,
    decreases after.len(),
{
    if after.len() == 0 {
        assert(before.push(column).drop_last() =~= before);
    } else {
        let all = before.push(column) + after;
        assert(all.drop_last() =~= before.push(column) + after.drop_last());
        lemma_packed_after_oversized(before, column, after.drop_last(), config);
    }
}

/// An oversized column stands alone: the columns before it and the columns
/// after it are laid out as records of their own, with the oversized
/// column's line pair between them.
pub proof fn lemma_oversized_stands_alone(
    before: Seq<ColumnView>,
    column: ColumnView,
    after: Seq<ColumnView>,
    config: ConfigView,
)
    requires
        is_oversized(column, config),
    ensures
        layout(before.push(column) + after, config) == layout(before, config).push(
            LinePairView::Oversized(cell_for(column, config)),
        ) + layout(after, config),
{
    lemma_packed_after_oversized(before, column, after, config);
}

/// Whether the row at `k` was closed for want of room: where it is a
/// packed row and the line pair after it is one too, the first cell of
/// that next row, with its separator, did not fit beside it.
pub open spec fn closed_when_full(lines: Seq<LinePairView>, k: int, config: ConfigView) -> bool {
    match (lines[k], lines[k + 1]) {
        (LinePairView::Packed(row), LinePairView::Packed(next)) => next.len() > 0 && line_width(
            row,
        ) + next[0].header.len() + 1 > config.width,
        _ => true,
    }
}

/// Whether every row of `lines` that is followed by another row was closed
/// for want of room.
pub open spec fn rows_are_full(lines: Seq<LinePairView>, config: ConfigView) -> bool {
    forall|k: int| 0 <= k < lines.len() - 1 ==> #[trigger] closed_when_full(lines, k, config)
}

proof fn lemma_rows_full_push(lines: Seq<LinePairView>, line: LinePairView, config: ConfigView)
    requires
        rows_are_full(lines, config),
        lines.len() > 0 ==> closed_when_full(lines.push(line), lines.len() - 1, config),
    ensures
        rows_are_full(lines.push(line), config),
{
    let longer = lines.push(line);
    assert forall|k: int| 0 <= k < longer.len() - 1 implies #[trigger] closed_when_full(
        longer,
        k,
        config,
    ) by {
        if k < lines.len() - 1 {
            assert(closed_when_full(lines, k, config));
        }
    }
}

proof fn lemma_packed_rows_full(columns: Seq<ColumnView>, config: ConfigView)
    ensures
        rows_are_full(packed(columns, config).done, config),
        rows_are_full(flushed(packed(columns, config)), config),
        packed(columns, config).pending.len() == 0 && packed(columns, config).done.len() > 0
            ==> packed(columns, config).done.last() is Oversized,
    decreases columns.len(),
{
    let now = packed(columns, config);
    if columns.len() > 0 {
        let before = packed(columns.drop_last(), config);
        let cell = cell_for(columns.last(), config);
        lemma_packed_rows_full(columns.drop_last(), config);
        if is_oversized(columns.last(), config) {
            lemma_rows_full_push(flushed(before), LinePairView::Oversized(cell), config);
        } else if overflows(before, cell.header.len(), config) {
            lemma_rows_full_push(now.done, LinePairView::Packed(now.pending), config);
        } else {
            if before.done.len() > 0 && before.pending.len() > 0 {
                assert(closed_when_full(flushed(before), before.done.len() - 1, config));
            }
            lemma_rows_full_push(now.done, LinePairView::Packed(now.pending), config);
        }
    }
}

/// Packing is greedy: a row is closed only when the next column does not
/// fit.  Where two packed rows follow each other, the first cell of the
/// second, with its separator, would have taken the first row beyond the
/// output width.
pub proof fn lemma_rows_are_full(columns: Seq<ColumnView>, config: ConfigView)
    ensures
        rows_are_full(layout(columns, config), config),
{
    lemma_packed_rows_full(columns, config);
}

proof fn lemma_packed_all_rows(columns: Seq<ColumnView>, config: ConfigView)
    requires
        forall|i: int| 0 <= i < columns.len() ==> !is_oversized(#[trigger] columns[i], config),
    ensures
        forall|k: int|
            0 <= k < packed(columns, config).done.len() ==> #[trigger] packed(
                columns,
                config,
            ).done[k] is Packed,
    decreases columns.len(),
{
    if columns.len() > 0 {
        lemma_packed_all_rows(columns.drop_last(), config);
    }
}

/// Only an oversized column is taken out of the rows: a record without
/// oversized columns is laid out in packed rows alone.
pub proof fn lemma_normal_columns_are_packed(columns: Seq<ColumnView>, config: ConfigView)
    requires
        forall|i: int| 0 <= i < columns.len() ==> !is_oversized(#[trigger] columns[i], config),
    ensures
        forall|k: int|
            0 <= k < layout(columns, config).len() ==> #[trigger] layout(columns, config)[k]
                is Packed,
{
    lemma_packed_all_rows(columns, config);
}

} // verus!
