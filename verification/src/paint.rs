//! The rendering step: turns style tags into terminal colours.
//!
//! Which colours a style stands for is decided here, in verified code.  The
//! escape codes themselves are written by the `colored` crate.

use vstd::prelude::*;
use colored::Colorize;
use crate::document::{Block, BlockView};
use crate::layout::{Cell, CellView, LinePair, LinePairView};
use crate::style::Style;

verus! {

/// A terminal colour.
#[derive(Clone, Copy, Debug, PartialEq, Eq, Structural)]
pub enum Hue {
    Black,
    Red,
    Green,
    Yellow,
    Magenta,
    Cyan,
    White,
    BrightBlack,
}

/// A foreground colour, and a background colour where one is set.
#[derive(Clone, Copy, Debug, PartialEq, Eq, Structural)]
pub struct Paint {
    pub fg: Hue,
    pub bg: Option<Hue>,
}

/// The colours of each style: headers are cyan on bright black, the
/// primary value red, the default value yellow, and every other role black
/// on its own colour (white for the highlight).
pub open spec fn style_paint(style: Style) -> Paint {
    match style {
        Style::Header => Paint { fg: Hue::Cyan, bg: Some(Hue::BrightBlack) },
        Style::Primary => Paint { fg: Hue::Red, bg: None },
        Style::Highlight => Paint { fg: Hue::Black, bg: Some(Hue::White) },
        Style::RoleYellow => Paint { fg: Hue::Black, bg: Some(Hue::Yellow) },
        Style::RoleGreen => Paint { fg: Hue::Black, bg: Some(Hue::Green) },
        Style::RoleMagenta => Paint { fg: Hue::Black, bg: Some(Hue::Magenta) },
        Style::RoleRed => Paint { fg: Hue::Black, bg: Some(Hue::Red) },
        Style::Default => Paint { fg: Hue::Yellow, bg: None },
    }
}

/// The colours of a ruler: bright black, on no background.
pub fn ruler_paint() -> (paint: Paint)
    ensures
        paint == (Paint { fg: Hue::BrightBlack, bg: None }),
{
    Paint { fg: Hue::BrightBlack, bg: None }
}

/// The colours that `style` stands for.
pub fn paint_for(style: Style) -> (paint: Paint)
    ensures
        paint == style_paint(style),
{
    match style {
        Style::Header => Paint { fg: Hue::Cyan, bg: Some(Hue::BrightBlack) },
        Style::Primary => Paint { fg: Hue::Red, bg: None },
        Style::Highlight => Paint { fg: Hue::Black, bg: Some(Hue::White) },
        Style::RoleYellow => Paint { fg: Hue::Black, bg: Some(Hue::Yellow) },
        Style::RoleGreen => Paint { fg: Hue::Black, bg: Some(Hue::Green) },
        Style::RoleMagenta => Paint { fg: Hue::Black, bg: Some(Hue::Magenta) },
        Style::RoleRed => Paint { fg: Hue::Black, bg: Some(Hue::Red) },
        Style::Default => Paint { fg: Hue::Yellow, bg: None },
    }
}

/// `colored::Color`, that crate's colour, as an opaque type.
#[verifier::external_type_specification]
#[verifier::external_body]
pub struct ExTerminalColor(colored::Color);

/// Picks the variant of `colored::Color` that has the same name.
#[verifier::external_body]
fn terminal_color(hue: Hue) -> (out: colored::Color) {
    match hue {
        Hue::Black => colored::Color::Black,
        Hue::Red => colored::Color::Red,
        Hue::Green => colored::Color::Green,
        Hue::Yellow => colored::Color::Yellow,
        Hue::Magenta => colored::Color::Magenta,
        Hue::Cyan => colored::Color::Cyan,
        Hue::White => colored::Color::White,
        Hue::BrightBlack => colored::Color::BrightBlack,
    }
}

/// Calls `colored`'s `Colorize::color`, then `Colorize::on_color` where a
/// background is given, and formats the result.  What comes back depends on
/// the environment: escape codes round the text, or the text alone where
/// the process has colours switched off.  Nothing is claimed of it.
#[verifier::external_body]
fn colorize(text: &str, fg: colored::Color, bg: Option<colored::Color>) -> (out: String) {
    let painted = text.color(fg);
    match bg {
        Some(bg) => painted.on_color(bg).to_string(),
        None => painted.to_string(),
    }
}

/// `text` in the colours of `paint`, or `text` itself where `color` is off.
pub fn styled(text: &str, paint: Paint, color: bool) -> (out: String)
    ensures
        !color ==> out@ == text@,
{
    if color {
        let bg = match paint.bg {
            Some(bg) => Some(terminal_color(bg)),
            None => None,
        };
        colorize(text, terminal_color(paint.fg), bg)
    } else {
        String::from_str(text)
    }
}

/// Whether `painted` is `cell` with other texts: the same key and style.
pub open spec fn same_cell(painted: CellView, cell: CellView) -> bool {
    painted.key == cell.key && painted.style == cell.style
}

/// Whether `painted` has the shape of `line`: the same kind of line pair,
/// with as many cells, each with the key and the style it had.
pub open spec fn same_shape(painted: LinePairView, line: LinePairView) -> bool {
    match (painted, line) {
        (LinePairView::Packed(a), LinePairView::Packed(b)) => a.len() == b.len() && forall|
            i: int,
        |
            0 <= i < a.len() ==> same_cell(#[trigger] a[i], b[i]),
        (LinePairView::Oversized(a), LinePairView::Oversized(b)) => same_cell(a, b),
        _ => false,
    }
}

/// Paints the texts of `cell`: the header as a header, the value in the
/// cell's own style.
pub fn paint_cell(cell: &Cell, color: bool) -> (painted: Cell)
    ensures
        same_cell(painted@, cell@),
        !color ==> painted@ == cell@,
{
    Cell {
        key: cell.key.clone(),
        header: styled(cell.header.as_str(), paint_for(Style::Header), color),
        value: styled(cell.value.as_str(), paint_for(cell.style), color),
        style: cell.style,
    }
}

/// Paints the texts of every cell of `line`.
pub fn paint_line(line: &LinePair, color: bool) -> (painted: LinePair)
    ensures
        same_shape(painted.deep_view(), line.deep_view()),
        !color ==> painted.deep_view() == line.deep_view(),
{
    match line {
        LinePair::Oversized(cell) => LinePair::Oversized(paint_cell(cell, color)),
        LinePair::Packed(cells) => {
            let mut painted: Vec<Cell> = Vec::new();
            let mut i: usize = 0;
            while i < cells.len()
                invariant
                    i <= cells.len(),
                    painted.len() == i,
                    forall|j: int| 0 <= j < i ==> same_cell((#[trigger] painted[j])@, cells[j]@),
                    !color ==> forall|j: int| 0 <= j < i ==> (#[trigger] painted[j])@ == cells[j]@,
                decreases cells.len() - i,
            {
                painted.push(paint_cell(&cells[i], color));
                i = i + 1;
            }
            assert(!color ==> painted.deep_view() =~= cells.deep_view());
            LinePair::Packed(painted)
        },
    }
}

/// Whether `painted` has the shape of `block`: a ruler for a ruler, and
/// for a record a record with as many line pairs, each of the same shape.
pub open spec fn same_block(painted: BlockView, block: BlockView) -> bool {
    match (painted, block) {
        (BlockView::Ruler(_), BlockView::Ruler(_)) => true,
        (BlockView::Record(a), BlockView::Record(b)) => a.len() == b.len() && forall|i: int|
            0 <= i < a.len() ==> same_shape(#[trigger] a[i], b[i]),
        _ => false,
    }
}

/// Whether `painted` has the shape of `blocks`, block by block.
pub open spec fn same_blocks(painted: Seq<BlockView>, blocks: Seq<BlockView>) -> bool {
    painted.len() == blocks.len() && forall|i: int|
        0 <= i < painted.len() ==> same_block(#[trigger] painted[i], blocks[i])
}

/// Paints the text of a ruler, or the texts of every cell of a record.
pub fn paint_block(block: &Block, color: bool) -> (painted: Block)
    ensures
        same_block(painted.deep_view(), block.deep_view()),
        !color ==> painted.deep_view() == block.deep_view(),
{
    match block {
        Block::Ruler(text) => Block::Ruler(styled(text.as_str(), ruler_paint(), color)),
        Block::Record(lines) => {
            let mut painted: Vec<LinePair> = Vec::new();
            let mut i: usize = 0;
            while i < lines.len()
                invariant
                    i <= lines.len(),
                    painted.len() == i,
                    forall|j: int|
                        0 <= j < i ==> same_shape(
                            (#[trigger] painted[j]).deep_view(),
                            lines[j].deep_view(),
                        ),
                    !color ==> forall|j: int|
                        0 <= j < i ==> (#[trigger] painted[j]).deep_view() == lines[j].deep_view(),
                decreases lines.len() - i,
            {
                painted.push(paint_line(&lines[i], color));
                i = i + 1;
            }
            assert(!color ==> painted.deep_view() =~= lines.deep_view());
            Block::Record(painted)
        },
    }
}

/// Paints every block of the output.
pub fn paint_blocks(blocks: &Vec<Block>, color: bool) -> (painted: Vec<Block>)
    ensures
        same_blocks(painted.deep_view(), blocks.deep_view()),
        !color ==> painted.deep_view() == blocks.deep_view(),
{
    let mut painted: Vec<Block> = Vec::new();
    let mut i: usize = 0;
    while i < blocks.len()
        invariant
            i <= blocks.len(),
            painted.len() == i,
            forall|j: int|
                0 <= j < i ==> same_block(
                    (#[trigger] painted[j]).deep_view(),
                    blocks[j].deep_view(),
                ),
            !color ==> forall|j: int|
                0 <= j < i ==> (#[trigger] painted[j]).deep_view() == blocks[j].deep_view(),
        decreases blocks.len() - i,
    {
        painted.push(paint_block(&blocks[i], color));
        i = i + 1;
    }
    painted
}

} // verus!
