use json_list::config::Config;
use json_list::document::{compose, ruler, Block};
use json_list::layout::Column;
use json_list::paint::paint_blocks;
use json_list::render::render;
use json_list::run::{arrange, run, select};
use json_list::failure::Failure;
use json_list::filter::Filter;
use json_list::record::parse_records;
use json_list::style::Roles;

fn plain(width: usize) -> Config {
    Config {
        width,
        truncate: false,
        truncate_min: width,
        truncate_to: width - 1,
        roles: Roles::standard(),
    }
}

fn rulers_in(blocks: &Vec<Block>) -> usize {
    blocks.iter().filter(|b| matches!(b, Block::Ruler(_))).count()
}

fn records_in(blocks: &Vec<Block>) -> usize {
    blocks.iter().filter(|b| matches!(b, Block::Record(_))).count()
}

#[test]
fn ruler_spans_the_width() {
    assert_eq!(ruler(3), "───");
    assert_eq!(ruler(0), "");
    assert_eq!(ruler(80).chars().count(), 80);
    assert!(ruler(80).chars().all(|c| c == '─'));
}

#[test]
fn one_record_with_defaults() {
    let lines = run("[{\"id\":\"1\",\"name\":\"Alice\"}]", &None, &plain(80), true, false).unwrap();
    assert_eq!(lines, vec![ruler(80), "id name  ".to_string(), "1  Alice ".to_string(), ruler(80)]);
}

#[test]
fn oversized_description_is_rendered_alone() {
    let input = "[{\"description\":\"a very long sentence exceeding width\"}]";
    let lines = run(input, &None, &plain(10), false, false).unwrap();
    assert_eq!(lines, vec!["description", "a very long sentence exceeding width"]);
}

#[test]
fn grep_keeps_only_matching_records() {
    let filter = Some(Filter::new("foo").ok().unwrap());
    let input = "[{\"a\":\"foo\"},{\"a\":\"bar\"}]";
    let lines = run(input, &filter, &plain(20), true, false).unwrap();
    assert_eq!(lines, vec![ruler(20), "a   ".to_string(), "foo ".to_string(), ruler(20)]);
    let records = parse_records(input).unwrap();
    let blocks = arrange(&records, &filter, &plain(20), true);
    assert_eq!(rulers_in(&blocks), 2);
    assert_eq!(records_in(&blocks), 1);
}

#[test]
fn rulers_separate_the_shown_records() {
    let input = "[{\"a\":\"1\"},{\"a\":\"2\"},{\"a\":\"3\"}]";
    let lines = run(input, &None, &plain(4), true, false).unwrap();
    let r = ruler(4);
    let expected: Vec<String> = vec![
        r.clone(),
        "a ".to_string(),
        "1 ".to_string(),
        r.clone(),
        "a ".to_string(),
        "2 ".to_string(),
        r.clone(),
        "a ".to_string(),
        "3 ".to_string(),
        r,
    ];
    assert_eq!(lines, expected);
}

#[test]
fn no_ruler_before_the_first_shown_record() {
    let filter = Some(Filter::new("keep").ok().unwrap());
    let input = "[{\"a\":\"drop\"},{\"a\":\"keep 1\"},{\"a\":\"drop\"},{\"a\":\"keep 2\"}]";
    let records = parse_records(input).unwrap();
    let blocks = arrange(&records, &filter, &plain(40), true);
    let kinds: Vec<bool> = blocks.iter().map(|b| matches!(b, Block::Ruler(_))).collect();
    assert_eq!(kinds, vec![true, false, true, false, true]);
}

#[test]
fn frame_stays_when_no_record_matches() {
    let filter = Some(Filter::new("absent").ok().unwrap());
    let input = "[{\"a\":\"foo\"},{\"a\":\"bar\"}]";
    let lines = run(input, &filter, &plain(5), true, false).unwrap();
    assert_eq!(lines, vec![ruler(5), ruler(5)]);
}

#[test]
fn empty_input_list_prints_nothing() {
    assert!(run("[]", &None, &plain(80), true, false).unwrap().is_empty());
}

#[test]
fn rulers_can_be_suppressed() {
    let input = "[{\"a\":\"1\"},{\"a\":\"2\"}]";
    let lines = run(input, &None, &plain(10), false, false).unwrap();
    assert_eq!(lines, vec!["a ", "1 ", "a ", "2 "]);
}

#[test]
fn empty_record_gives_no_lines_but_counts_as_shown() {
    let lines = run("[{},{\"a\":\"1\"}]", &None, &plain(3), true, false).unwrap();
    assert_eq!(lines, vec![ruler(3), ruler(3), "a ".to_string(), "1 ".to_string(), ruler(3)]);
}

#[test]
fn run_reports_invalid_json() {
    assert!(run("[{\"a\":", &None, &plain(80), true, false).is_err());
    assert!(run("{\"a\":1}", &None, &plain(80), true, false).is_err());
}

#[test]
fn render_of_arranged_blocks() {
    let records = parse_records("[{\"k\":\"v\",\"wide\":\"0123456789\"}]").unwrap();
    let blocks = arrange(&records, &None, &plain(8), true);
    let lines = render(&blocks);
    assert_eq!(
        lines,
        vec![ruler(8), "k ".to_string(), "v ".to_string(), "wide".to_string(), "0123456789".to_string(), ruler(8)]
    );
}

#[test]
fn filter_rejects_an_invalid_pattern() {
    assert!(Filter::new("foo(bar").is_err());
    assert!(Filter::new("[").is_err());
    assert!(Filter::new("foo").is_ok());
    assert!(Filter::new("").is_ok());
}

#[test]
fn filter_searches_anywhere_in_the_text() {
    let filter = Filter::new("o+b").ok().unwrap();
    assert!(filter.matches("{\"a\":\"foobar\"}"));
    assert!(!filter.matches("{\"a\":\"bar\"}"));
    assert!(!filter.matches(""));
    let anchored = Filter::new("^a$").ok().unwrap();
    assert!(anchored.matches("a"));
    assert!(!anchored.matches("ab"));
}

#[test]
fn filter_matches_keys_as_well_as_values() {
    let filter = Some(Filter::new("\"name\":").ok().unwrap());
    assert!(json_list::filter::matches("{\"name\":\"x\"}", &filter));
    assert!(!json_list::filter::matches("{\"id\":\"name\"}", &filter));
}

#[test]
fn no_filter_passes_everything() {
    assert!(json_list::filter::matches("{\"a\":\"foo\"}", &None));
    assert!(json_list::filter::matches("", &None));
}

fn column(key: &str, value: &str) -> Column {
    Column { key: key.to_string(), value: value.to_string() }
}

#[test]
fn compose_frames_and_separates() {
    let selection = vec![
        None,
        Some(vec![column("a", "1")]),
        None,
        Some(vec![column("b", "2")]),
        Some(Vec::new()),
    ];
    let blocks = compose(&selection, &plain(10), true);
    let kinds: Vec<bool> = blocks.iter().map(|b| matches!(b, Block::Ruler(_))).collect();
    assert_eq!(kinds, vec![true, false, true, false, true, false, true]);
    assert_eq!(
        render(&blocks),
        vec!["──────────", "a ", "1 ", "──────────", "b ", "2 ", "──────────", "──────────"]
    );
    let bare = compose(&selection, &plain(10), false);
    assert_eq!(rulers_in(&bare), 0);
    assert_eq!(records_in(&bare), 3);
}

#[test]
fn compose_of_nothing_is_empty() {
    assert!(compose(&Vec::new(), &plain(10), true).is_empty());
    let skipped = compose(&vec![None, None], &plain(10), true);
    assert_eq!(rulers_in(&skipped), 2);
    assert_eq!(records_in(&skipped), 0);
}

#[test]
fn select_keeps_the_columns_of_passing_records() {
    let records = parse_records("[{\"a\":\"foo\",\"n\":1},{\"a\":\"bar\"},{\"foo\":null}]").unwrap();
    let filter = Some(Filter::new("foo").ok().unwrap());
    let selected = select(&records, &filter);
    assert_eq!(selected.len(), 3);
    let first = selected[0].as_ref().unwrap();
    assert_eq!(first.len(), 2);
    assert_eq!(first[0].key, "a");
    assert_eq!(first[0].value, "foo");
    assert_eq!(first[1].key, "n");
    assert_eq!(first[1].value, "1");
    assert!(selected[1].is_none());
    assert_eq!(selected[2].as_ref().unwrap()[0].value, "null");
    let all = select(&records, &None);
    assert!(all.iter().all(|entry| entry.is_some()));
}

#[test]
fn filter_remembers_its_pattern() {
    let filter = Filter::new("fo+").ok().unwrap();
    assert_eq!(filter.pattern(), "fo+");
}

#[test]
fn painting_without_colour_changes_no_block() {
    let blocks = compose(&vec![Some(vec![column("id", "7"), column("k", "a long value")])], &plain(6), true);
    let painted = paint_blocks(&blocks, false);
    assert_eq!(render(&painted), render(&blocks));
    assert_eq!(render(&blocks), vec!["──────", "id ", "7  ", "k", "a long value", "──────"]);
}

#[test]
fn painting_with_colour_keeps_the_line_count() {
    colored::control::set_override(true);
    let blocks = compose(&vec![Some(vec![column("id", "7"), column("k", "a long value")])], &plain(6), true);
    let painted = render(&paint_blocks(&blocks, true));
    assert_eq!(
        painted,
        vec![
            "\u{1b}[90m──────\u{1b}[0m",
            "\u{1b}[100;36mid\u{1b}[0m ",
            "\u{1b}[31m7 \u{1b}[0m ",
            "\u{1b}[100;36mk\u{1b}[0m",
            "\u{1b}[33ma long value\u{1b}[0m",
            "\u{1b}[90m──────\u{1b}[0m",
        ]
    );
}

#[test]
fn run_with_colour_forced() {
    colored::control::set_override(true);
    let lines = run("[{\"name\":\"Al\"}]", &None, &plain(3), true, true).unwrap();
    assert_eq!(
        lines,
        vec![
            "\u{1b}[90m───\u{1b}[0m",
            "\u{1b}[100;36mname\u{1b}[0m ",
            "\u{1b}[47;30mAl  \u{1b}[0m ",
            "\u{1b}[90m───\u{1b}[0m",
        ]
    );
}

#[test]
fn invalid_pattern_gives_its_reason() {
    match Filter::new("foo(bar") {
        Err(Failure::InvalidPattern(reason)) => {
            assert!(reason.contains("unclosed group"));
            let expected = format!("Invalid grep pattern: {}", reason);
            assert_eq!(Failure::InvalidPattern(reason).message(), expected);
        }
        _ => panic!("an unclosed group does not compile"),
    }
    assert_eq!(Failure::InvalidPattern(String::new()).message(), "Invalid grep pattern: ");
}

#[test]
fn run_fails_with_invalid_json() {
    match run("nonsense", &None, &plain(80), true, false) {
        Err(Failure::InvalidJson(_)) => {}
        _ => panic!("the input is no JSON"),
    }
}

#[test]
fn optional_pattern() {
    assert!(Filter::optional(&None).ok().unwrap().is_none());
    let filter = Filter::optional(&Some("fo+".to_string())).ok().unwrap().unwrap();
    assert_eq!(filter.pattern(), "fo+");
    assert!(filter.matches("xfoo"));
    match Filter::optional(&Some("(".to_string())) {
        Err(Failure::InvalidPattern(_)) => {}
        _ => panic!("an unclosed group does not compile"),
    }
}
