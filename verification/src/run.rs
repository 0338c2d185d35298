//! A whole run, from JSON text to output lines.

use vstd::prelude::*;
use indexmap::IndexMap;
use serde_json::Value;
use crate::config::Config;
use crate::document::{compose, document, Block, Selection};
use crate::failure::Failure;
use crate::filter::{passes, Filter};
use crate::layout::Column;
use crate::record::{
    columns_of, entry_columns, parse_records, parsed_records, record_text, record_views,
    RecordView,
};
use crate::paint::paint_blocks;
use crate::render::{document_texts, lemma_same_blocks_same_count, render};

verus! {

/// The selection that `filter` makes among `records`: the columns of each
/// record whose serialized text passes, and nothing for each other record.
pub open spec fn selection(records: Seq<RecordView>, filter: Option<Filter>) -> Selection {
    Seq::new(
        records.len(),
        |i: int|
            if passes(filter, records[i].json) {
                Some(entry_columns(records[i].entries))
            } else {
                None
            },
    )
}

/// Selects the records that pass `filter` and turns them into columns.
pub fn select(records: &Vec<IndexMap<String, Value>>, filter: &Option<Filter>) -> (selected: Vec<
    Option<Vec<Column>>,
>)
    ensures
        selected.deep_view() == selection(record_views(records@), *filter),
{
    let mut selected: Vec<Option<Vec<Column>>> = Vec::new();
    let mut i: usize = 0;
    while i < records.len()
        invariant
            i <= records.len(),
            selected.len() == i,
            forall|j: int|
                0 <= j < i ==> (#[trigger] selected[j]).deep_view() == selection(
                    record_views(records@),
                    *filter,
                )[j],
        decreases records.len() - i,
    {
        let record = &records[i];
        let text = record_text(record);
        let entry = if crate::filter::matches(text.as_str(), filter) {
            Some(columns_of(record))
        } else {
            None
        };
        selected.push(entry);
        i = i + 1;
    }
    selected
}

/// Arranges the output for `records`: the records that pass `filter`,
/// laid out, with the rulers set.
pub fn arrange(
    records: &Vec<IndexMap<String, Value>>,
    filter: &Option<Filter>,
    config: &Config,
    rulers: bool,
) -> (blocks: Vec<Block>)
    ensures
        blocks.deep_view() == document(
            selection(record_views(records@), *filter),
            config@,
            rulers,
        ),
{
    let selected = select(records, filter);
    compose(&selected, config, rulers)
}

/// The whole run on the JSON text `input`: reads the records, arranges the
/// output, paints it where `color` is on and renders its lines.  It fails
/// exactly where the text cannot be read as a list of records.  Painting
/// changes the texts and never the number of lines.
pub fn run(input: &str, filter: &Option<Filter>, config: &Config, rulers: bool, color: bool) -> (out:
    Result<Vec<String>, Failure>)
    ensures
        out is Err <==> parsed_records(input@) is None,
        out matches Err(e) ==> e is InvalidJson,
        out matches Ok(lines) ==> {
            let texts = document_texts(
                document(selection(parsed_records(input@).unwrap(), *filter), config@, rulers),
            );
            &&& lines.len() == texts.len()
            &&& !color ==> lines.deep_view() == texts
        },
{
    match parse_records(input) {
        Ok(records) => {
            let blocks = arrange(&records, filter, config, rulers);
            let painted = paint_blocks(&blocks, color);
            proof {
                lemma_same_blocks_same_count(painted.deep_view(), blocks.deep_view());
            }
            Ok(render(&painted))
        },
        Err(error) => Err(error),
    }
}

} // verus!
