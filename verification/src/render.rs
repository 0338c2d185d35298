//! The rendering step: turns the blocks of the output into lines of text.

use vstd::prelude::*;
use crate::document::{Block, BlockView};
use crate::layout::{CellView, LinePair, LinePairView};
use crate::paint::{same_block, same_blocks};

verus! {

/// The texts `pieces`, each followed by one space.
pub open spec fn row_text(pieces: Seq<Seq<char>>) -> Seq<char>
    decreases pieces.len(),
{
    if pieces.len() == 0 {
        Seq::empty()
    } else {
        row_text(pieces.drop_last()) + pieces.last() + seq![' ']
    }
}

/// The header texts of `cells`, left to right.
pub open spec fn headers(cells: Seq<CellView>) -> Seq<Seq<char>> {
    Seq::new(cells.len(), |i: int| cells[i].header)
}

/// The value texts of `cells`, left to right.
pub open spec fn values(cells: Seq<CellView>) -> Seq<Seq<char>> {
    Seq::new(cells.len(), |i: int| cells[i].value)
}

/// The header line of `line`: the headers of a packed row, each followed
/// by one space, or the header of an oversized column as it is.
pub open spec fn header_text(line: LinePairView) -> Seq<char> {
    match line {
        LinePairView::Packed(cells) => row_text(headers(cells)),
        LinePairView::Oversized(cell) => cell.header,
    }
}

/// The value line of `line`, built as the header line is.
pub open spec fn value_text(line: LinePairView) -> Seq<char> {
    match line {
        LinePairView::Packed(cells) => row_text(values(cells)),
        LinePairView::Oversized(cell) => cell.value,
    }
}

/// Which of the two lines of a line pair is meant.
#[derive(Clone, Copy, Debug, PartialEq, Eq, Structural)]
pub enum Side {
    /// The header line.
    Header,
    /// The value line.
    Value,
}

/// The texts of `cells` on the side `side`, left to right.
pub open spec fn pieces(cells: Seq<CellView>, side: Side) -> Seq<Seq<char>> {
    match side {
        Side::Header => headers(cells),
        Side::Value => values(cells),
    }
}

/// The text of `line` on the side `side`.
pub open spec fn side_text(line: LinePairView, side: Side) -> Seq<char> {
    match side {
        Side::Header => header_text(line),
        Side::Value => value_text(line),
    }
}

impl LinePair {
    /// One of the two lines: the texts of a packed row on that side, each
    /// followed by one space, or the text of an oversized column as it is.
    pub fn line(&self, side: Side) -> (out: String)
        ensures
            out@ == side_text(self.deep_view(), side),
    {
        match self {
            LinePair::Oversized(cell) => match side {
                Side::Header => cell.header.clone(),
                Side::Value => cell.value.clone(),
            },
            LinePair::Packed(cells) => {
                let ghost all = pieces(cells.deep_view(), side);
                let mut out = String::new();
                let mut i: usize = 0;
                while i < cells.len()
                    invariant
                        i <= cells.len(),
                        all == pieces(cells.deep_view(), side),
                        out@ == row_text(all.take(i as int)),
                    decreases cells.len() - i,
                {
                    proof {
                        reveal_strlit(" ");
                        assert(all.take(i + 1).drop_last() =~= all.take(i as int));
                    }
                    match side {
                        Side::Header => out.append(cells[i].header.as_str()),
                        Side::Value => out.append(cells[i].value.as_str()),
                    }
                    out.append(" ");
                    i = i + 1;
                }
                assert(all.take(i as int) =~= all);
                out
            },
        }
    }

    /// The header line.
    pub fn header_line(&self) -> (out: String)
        ensures
            out@ == header_text(self.deep_view()),
    {
        self.line(Side::Header)
    }

    /// The value line.
    pub fn value_line(&self) -> (out: String)
        ensures
            out@ == value_text(self.deep_view()),
    {
        self.line(Side::Value)
    }
}

/// The output lines of the line pairs `lines`: for each, its header line
/// and then its value line.
pub open spec fn line_texts(lines: Seq<LinePairView>) -> Seq<Seq<char>>
    decreases lines.len(),
{
    if lines.len() == 0 {
        Seq::empty()
    } else {
        line_texts(lines.drop_last()).push(header_text(lines.last())).push(
            value_text(lines.last()),
        )
    }
}

/// The output lines of `block`.
pub open spec fn block_texts(block: BlockView) -> Seq<Seq<char>> {
    match block {
        BlockView::Ruler(text) => seq![text],
        BlockView::Record(lines) => line_texts(lines),
    }
}

/// The output lines of `blocks`, block after block.
pub open spec fn document_texts(blocks: Seq<BlockView>) -> Seq<Seq<char>>
    decreases blocks.len(),
{
    if blocks.len() == 0 {
        Seq::empty()
    } else {
        document_texts(blocks.drop_last()) + block_texts(blocks.last())
    }
}

/// Every line pair gives two lines.
pub proof fn lemma_line_texts_len(lines: Seq<LinePairView>)
    ensures
        line_texts(lines).len() == 2 * lines.len(),
    decreases lines.len(),
{
    if lines.len() > 0 {
        lemma_line_texts_len(lines.drop_last());
    }
}

/// Painting changes no line count: blocks of the same shape give as many
/// lines.
pub proof fn lemma_same_blocks_same_count(painted: Seq<BlockView>, blocks: Seq<BlockView>)
    requires
        same_blocks(painted, blocks),
    ensures
        document_texts(painted).len() == document_texts(blocks).len(),
    decreases blocks.len(),
{
    if blocks.len() > 0 {
        let a = painted.drop_last();
        let b = blocks.drop_last();
        assert forall|i: int| 0 <= i < a.len() implies same_block(#[trigger] a[i], b[i]) by {
        }
        lemma_same_blocks_same_count(a, b);
        match (painted.last(), blocks.last()) {
            (BlockView::Record(x), BlockView::Record(y)) => {
                lemma_line_texts_len(x);
                lemma_line_texts_len(y);
            },
            _ => {},
        }
    }
}

/// Appends the output lines of `lines` to `out`.
pub fn render_record(lines: &Vec<LinePair>, out: &mut Vec<String>)
    ensures
        final(out).deep_view() == old(out).deep_view() + line_texts(lines.deep_view()),
{
    let ghost all = lines.deep_view();
    let mut i: usize = 0;
    while i < lines.len()
        invariant
            i <= lines.len(),
            all == lines.deep_view(),
            out.deep_view() == old(out).deep_view() + line_texts(all.take(i as int)),
        decreases lines.len() - i,
    {
        let ghost before = out.deep_view();
        let header = lines[i].header_line();
        let value = lines[i].value_line();
        out.push(header);
        out.push(value);
        assert(all.take(i + 1).drop_last() =~= all.take(i as int));
        assert(out.deep_view() =~= before.push(header@).push(value@));
        i = i + 1;
    }
    assert(all.take(i as int) =~= all);
}

/// The output lines of `blocks`: one for a ruler, and for a record the
/// header line and the value line of each of its line pairs.
pub fn render(blocks: &Vec<Block>) -> (out: Vec<String>)
    ensures
        out.deep_view() == document_texts(blocks.deep_view()),
{
    let ghost all = blocks.deep_view();
    let mut out: Vec<String> = Vec::new();
    let mut i: usize = 0;
    while i < blocks.len()
        invariant
            i <= blocks.len(),
            all == blocks.deep_view(),
            out.deep_view() == document_texts(all.take(i as int)),
        decreases blocks.len() - i,
    {
        assert(all.take(i + 1).drop_last() =~= all.take(i as int));
        match &blocks[i] {
            Block::Ruler(text) => {
                out.push(text.clone());
            },
            Block::Record(lines) => {
                render_record(lines, &mut out);
            },
        }
        i = i + 1;
    }
    assert(all.take(i as int) =~= all);
    out
}

} // verus!
