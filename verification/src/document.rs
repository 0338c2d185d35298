//! The output of a whole run: the records that are shown, each as its line
//! pairs, with rulers round and between them.
//!
//! The records come as a selection: one entry for every record that was
//! read, holding the record's columns where the record is shown and nothing
//! where the filter rejected it.

use vstd::prelude::*;
use crate::config::{Config, ConfigView};
use crate::layout::{layout, process_record, Column, ColumnView, LinePair, LinePairView};
use crate::text::repeat;

verus! {

/// The character a ruler is drawn with.
pub const RULER_CHAR: char = '\u{2500}';

/// The text of a ruler for the output width `width`.
pub open spec fn ruler_text(width: nat) -> Seq<char> {
    repeat(RULER_CHAR, width)
}

/// A ruler for the output width `width`.
pub fn ruler(width: usize) -> (out: String)
    ensures
        out@ == ruler_text(width as nat),
{
    let mut out = String::new();
    let mut i: usize = 0;
    while i < width
        invariant
            i <= width,
            out@ == repeat(RULER_CHAR, i as nat),
        decreases width - i,
    {
        proof {
            reveal_strlit("\u{2500}");
        }
        out.append("\u{2500}");
        i = i + 1;
    }
    out
}

/// One piece of the output.
pub enum Block {
    /// A ruler: one line across the output width.
    Ruler(String),
    /// One record: its line pairs.
    Record(Vec<LinePair>),
}

/// The mathematical model of [`Block`].
pub enum BlockView {
    Ruler(Seq<char>),
    Record(Seq<LinePairView>),
}

impl DeepView for Block {
    type V = BlockView;

    open spec fn deep_view(&self) -> BlockView {
        match self {
            Block::Ruler(text) => BlockView::Ruler(text@),
            Block::Record(lines) => BlockView::Record(lines.deep_view()),
        }
    }
}

/// The model of a selection: for each record read, its columns if it is
/// shown.
pub type Selection = Seq<Option<Seq<ColumnView>>>;

/// Whether any record of `selection` is shown.
pub open spec fn any_shown(selection: Selection) -> bool
    decreases selection.len(),
{
    if selection.len() == 0 {
        false
    } else {
        any_shown(selection.drop_last()) || selection.last() is Some
    }
}

/// The records shown, in order, each as its block, with a ruler before
/// each but the first of them where `rulers` is set.
pub open spec fn shown_records(selection: Selection, config: ConfigView, rulers: bool) -> Seq<
    BlockView,
>
    decreases selection.len(),
{
    if selection.len() == 0 {
        Seq::empty()
    } else {
        let before = selection.drop_last();
        let head = shown_records(before, config, rulers);
        match selection.last() {
            None => head,
            Some(columns) => {
                let block = BlockView::Record(layout(columns, config));
                if rulers && any_shown(before) {
                    head.push(BlockView::Ruler(ruler_text(config.width))).push(block)
                } else {
                    head.push(block)
                }
            },
        }
    }
}

/// Whether the output opens and closes with a ruler: where `rulers` is set
/// and any record was read, shown or not.
pub open spec fn is_framed(selection: Selection, rulers: bool) -> bool {
    rulers && selection.len() > 0
}

/// The whole output: the shown records, framed by a ruler before and a
/// ruler after.
pub open spec fn document(selection: Selection, config: ConfigView, rulers: bool) -> Seq<
    BlockView,
> {
    if is_framed(selection, rulers) {
        let ruler = BlockView::Ruler(ruler_text(config.width));
        seq![ruler] + shown_records(selection, config, rulers).push(ruler)
    } else {
        shown_records(selection, config, rulers)
    }
}

/// Composes the output of a run: lays out every record shown and sets the
/// rulers.
pub fn compose(selection: &Vec<Option<Vec<Column>>>, config: &Config, rulers: bool) -> (blocks:
    Vec<Block>)
    ensures
        blocks.deep_view() == document(selection.deep_view(), config@, rulers),
{
    let ghost all = selection.deep_view();
    let framed = rulers && selection.len() > 0;
    let ghost line = BlockView::Ruler(ruler_text(config@.width));
    let mut blocks: Vec<Block> = Vec::new();
    if framed {
        blocks.push(Block::Ruler(ruler(config.width)));
    }
    let ghost opening = blocks.deep_view();
    let mut shown = false;
    let mut i: usize = 0;
    while i < selection.len()
        invariant
            i <= selection.len(),
            all == selection.deep_view(),
            line == BlockView::Ruler(ruler_text(config@.width)),
            shown == any_shown(all.take(i as int)),
            blocks.deep_view() == opening + shown_records(all.take(i as int), config@, rulers),
        decreases selection.len() - i,
    {
        let ghost head = shown_records(all.take(i as int), config@, rulers);
        assert(all.take(i + 1).drop_last() =~= all.take(i as int));
        match &selection[i] {
            Some(columns) => {
                if shown && rulers {
                    blocks.push(Block::Ruler(ruler(config.width)));
                }
                let lines = process_record(columns, config);
                let ghost block = BlockView::Record(layout(columns.deep_view(), config@));
                blocks.push(Block::Record(lines));
                shown = true;
                assert(opening + head.push(block) =~= (opening + head).push(block));
                assert(opening + head.push(line).push(block) =~= (opening + head).push(line).push(
                    block,
                ));
            },
            None => {},
        }
        i = i + 1;
    }
    assert(all.take(i as int) =~= all);
    let ghost body = shown_records(all, config@, rulers);
    if framed {
        blocks.push(Block::Ruler(ruler(config.width)));
        assert(blocks.deep_view() =~= (opening + body).push(line));
    }
    blocks
}

/// The columns of the records shown, in order.
pub open spec fn shown(selection: Selection) -> Seq<Seq<ColumnView>>
    decreases selection.len(),
{
    if selection.len() == 0 {
        Seq::empty()
    } else {
        match selection.last() {
            Some(columns) => shown(selection.drop_last()).push(columns),
            None => shown(selection.drop_last()),
        }
    }
}

/// The number of rulers among `blocks`.
pub open spec fn ruler_count(blocks: Seq<BlockView>) -> nat
    decreases blocks.len(),
{
    if blocks.len() == 0 {
        0
    } else if blocks.last() is Ruler {
        ruler_count(blocks.drop_last()) + 1
    } else {
        ruler_count(blocks.drop_last())
    }
}

/// The layouts of the records among `blocks`, in order.
pub open spec fn record_layouts(blocks: Seq<BlockView>) -> Seq<Seq<LinePairView>>
    decreases blocks.len(),
{
    if blocks.len() == 0 {
        Seq::empty()
    } else {
        match blocks.last() {
            BlockView::Ruler(_) => record_layouts(blocks.drop_last()),
            BlockView::Record(lines) => record_layouts(blocks.drop_last()).push(lines),
        }
    }
}

/// The layout of each of `records`, in order.
pub open spec fn layouts(records: Seq<Seq<ColumnView>>, config: ConfigView) -> Seq<
    Seq<LinePairView>,
> {
    Seq::new(records.len(), |i: int| layout(records[i], config))
}

proof fn lemma_push_block(blocks: Seq<BlockView>, block: BlockView)
    ensures
        ruler_count(blocks.push(block)) == ruler_count(blocks) + if block is Ruler {
            1nat
        } else {
            0nat
        },
        record_layouts(blocks.push(block)) == match block {
            BlockView::Ruler(_) => record_layouts(blocks),
            BlockView::Record(lines) => record_layouts(blocks).push(lines),
        },
{
    assert(blocks.push(block).drop_last() =~= blocks);
}

proof fn lemma_prepend_ruler(ruler: BlockView, blocks: Seq<BlockView>)
    requires
        ruler is Ruler,
    ensures
        record_layouts(seq![ruler] + blocks) == record_layouts(blocks),
        ruler_count(seq![ruler] + blocks) == ruler_count(blocks) + 1,
    decreases blocks.len(),
{
    if blocks.len() == 0 {
        lemma_push_block(Seq::empty(), ruler);
    } else {
        lemma_prepend_ruler(ruler, blocks.drop_last());
        lemma_push_block(seq![ruler] + blocks.drop_last(), blocks.last());
        assert(blocks =~= blocks.drop_last().push(blocks.last()));
        lemma_push_block(blocks.drop_last(), blocks.last());
    }
}

proof fn lemma_shown_records(selection: Selection, config: ConfigView, rulers: bool)
    ensures
        any_shown(selection) <==> shown(selection).len() > 0,
        record_layouts(shown_records(selection, config, rulers)) == layouts(
            shown(selection),
            config,
        ),
        ruler_count(shown_records(selection, config, rulers)) == if rulers && shown(
            selection,
        ).len() > 0 {
            shown(selection).len() - 1
        } else {
            0
        },
    decreases selection.len(),
{
    if selection.len() > 0 {
        let before = selection.drop_last();
        let head = shown_records(before, config, rulers);
        lemma_shown_records(before, config, rulers);
        if let Some(columns) = selection.last() {
            let block = BlockView::Record(layout(columns, config));
            if rulers && any_shown(before) {
                let ruler = BlockView::Ruler(ruler_text(config.width));
                lemma_push_block(head, ruler);
                lemma_push_block(head.push(ruler), block);
            } else {
                lemma_push_block(head, block);
            }
        }
    }
}

/// Only the records selected are shown: the records of the output are the
/// layouts of those records, in input order.  A record that is skipped
/// leaves no ruler behind: with rulers on and any record read, a ruler
/// opens the output, one closes it, and one stands between any two records
/// shown; with rulers off, or nothing read, there is none.
pub proof fn lemma_document_shows_selected_records(
    selection: Selection,
    config: ConfigView,
    rulers: bool,
)
    ensures
        record_layouts(document(selection, config, rulers)) == layouts(shown(selection), config),
        ruler_count(document(selection, config, rulers)) == if !is_framed(selection, rulers) {
            0
        } else if shown(selection).len() == 0 {
            2
        } else {
            shown(selection).len() + 1
        },
{
    let body = shown_records(selection, config, rulers);
    lemma_shown_records(selection, config, rulers);
    if is_framed(selection, rulers) {
        let ruler = BlockView::Ruler(ruler_text(config.width));
        lemma_prepend_ruler(ruler, body);
        lemma_push_block(seq![ruler] + body, ruler);
    }
}

} // verus!
