use json_list::layout::{Cell, LinePair};
use json_list::paint::{paint_cell, paint_for, paint_line, ruler_paint, styled, Hue, Paint};
use json_list::style::Style;

fn cell(key: &str, header: &str, value: &str, style: Style) -> Cell {
    Cell { key: key.to_string(), header: header.to_string(), value: value.to_string(), style }
}

#[test]
fn each_style_has_its_colours() {
    assert_eq!(paint_for(Style::Header), Paint { fg: Hue::Cyan, bg: Some(Hue::BrightBlack) });
    assert_eq!(paint_for(Style::Primary), Paint { fg: Hue::Red, bg: None });
    assert_eq!(paint_for(Style::Highlight), Paint { fg: Hue::Black, bg: Some(Hue::White) });
    assert_eq!(paint_for(Style::RoleYellow), Paint { fg: Hue::Black, bg: Some(Hue::Yellow) });
    assert_eq!(paint_for(Style::RoleGreen), Paint { fg: Hue::Black, bg: Some(Hue::Green) });
    assert_eq!(paint_for(Style::RoleMagenta), Paint { fg: Hue::Black, bg: Some(Hue::Magenta) });
    assert_eq!(paint_for(Style::RoleRed), Paint { fg: Hue::Black, bg: Some(Hue::Red) });
    assert_eq!(paint_for(Style::Default), Paint { fg: Hue::Yellow, bg: None });
    assert_eq!(ruler_paint(), Paint { fg: Hue::BrightBlack, bg: None });
}

#[test]
fn without_colour_the_text_is_unchanged() {
    assert_eq!(styled("plain", paint_for(Style::Header), false), "plain");
    assert_eq!(styled("", paint_for(Style::Primary), false), "");
}

#[test]
fn with_colour_forced_the_text_is_wrapped_in_escape_codes() {
    colored::control::set_override(true);
    assert_eq!(styled("id", paint_for(Style::Header), true), "\u{1b}[100;36mid\u{1b}[0m");
    assert_eq!(styled("1", paint_for(Style::Primary), true), "\u{1b}[31m1\u{1b}[0m");
    assert_eq!(styled("x", paint_for(Style::Highlight), true), "\u{1b}[47;30mx\u{1b}[0m");
    assert_eq!(styled("x", paint_for(Style::RoleYellow), true), "\u{1b}[43;30mx\u{1b}[0m");
    assert_eq!(styled("x", paint_for(Style::RoleGreen), true), "\u{1b}[42;30mx\u{1b}[0m");
    assert_eq!(styled("x", paint_for(Style::RoleMagenta), true), "\u{1b}[45;30mx\u{1b}[0m");
    assert_eq!(styled("x", paint_for(Style::RoleRed), true), "\u{1b}[41;30mx\u{1b}[0m");
    assert_eq!(styled("x", paint_for(Style::Default), true), "\u{1b}[33mx\u{1b}[0m");
    assert_eq!(styled("--", ruler_paint(), true), "\u{1b}[90m--\u{1b}[0m");
}

#[test]
fn painting_keeps_key_and_style() {
    let plain = cell("id", "id  ", "1   ", Style::Primary);
    let same = paint_cell(&plain, false);
    assert_eq!(same.key, "id");
    assert_eq!(same.header, "id  ");
    assert_eq!(same.value, "1   ");
    assert_eq!(same.style, Style::Primary);
}

#[test]
fn painting_a_line_keeps_its_shape() {
    let row = LinePair::Packed(vec![
        cell("id", "id", "1 ", Style::Primary),
        cell("name", "name ", "Alice", Style::Highlight),
    ]);
    match paint_line(&row, false) {
        LinePair::Packed(cells) => {
            assert_eq!(cells.len(), 2);
            assert_eq!(cells[1].header, "name ");
            assert_eq!(cells[1].value, "Alice");
        }
        LinePair::Oversized(_) => panic!("a packed row stays packed"),
    }
    let tall = LinePair::Oversized(cell("k", "k", "a long value", Style::Default));
    match paint_line(&tall, false) {
        LinePair::Oversized(cell) => assert_eq!(cell.value, "a long value"),
        LinePair::Packed(_) => panic!("an oversized line stays oversized"),
    }
}

#[test]
fn painted_row_keeps_one_space_after_each_cell() {
    colored::control::set_override(true);
    let row = LinePair::Packed(vec![
        cell("id", "id", "1 ", Style::Primary),
        cell("k", "k", "v", Style::Default),
    ]);
    let painted = paint_line(&row, true);
    assert_eq!(
        painted.header_line(),
        "\u{1b}[100;36mid\u{1b}[0m \u{1b}[100;36mk\u{1b}[0m "
    );
    assert_eq!(painted.value_line(), "\u{1b}[31m1 \u{1b}[0m \u{1b}[33mv\u{1b}[0m ");
}
