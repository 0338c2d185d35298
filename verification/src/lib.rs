//! Column-packed terminal layout for flat JSON records.
//!
//! A record is an ordered list of key/value columns.  The layout engine
//! packs the columns of one record into wrapped header/value line pairs that
//! fit a target width, renders oversized values on line pairs of their own,
//! and shortens long values under a truncation policy.  Lengths are counted
//! in characters (Unicode scalar values) throughout.
//!
//! - [`layout`] is the engine; [`truncate`] and [`style`] are its policies,
//!   [`config`] their settings.
//! - [`record`] reads records from JSON and turns them into columns;
//!   [`filter`] decides which records are shown.
//! - [`document`] arranges the records shown and the rulers between them;
//!   [`render`] and [`paint`] turn the result into lines of text.
//! - [`run`] chains all of it; [`failure`] holds what can go wrong.

pub mod config;
pub mod document;
pub mod failure;
pub mod filter;
pub mod layout;
pub mod paint;
pub mod record;
pub mod render;
pub mod run;
pub mod style;
pub mod text;
pub mod truncate;
