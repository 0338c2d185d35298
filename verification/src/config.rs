//! The layout configuration and how it is resolved from user options.

use vstd::prelude::*;
use crate::style::{Roles, RolesView};

verus! {

/// The width used when the user gives none and none can be detected.
pub const FALLBACK_WIDTH: usize = 80;

/// The options as the user gave them, before any default is applied.
pub struct Cli {
    pub width: Option<usize>,
    pub truncate: bool,
    pub truncate_min: Option<usize>,
    pub truncate_to: Option<usize>,
    pub no_ruler: bool,
    pub no_color: bool,
    pub primary: String,
    pub highlight: String,
    pub yellow: Option<String>,
    pub green: Option<String>,
    pub magenta: Option<String>,
    pub red: Option<String>,
    pub grep: Option<String>,
}

/// What the layout of a record depends on.
pub struct Config {
    /// The output width, in characters.
    pub width: usize,
    /// Whether long values are shortened.
    pub truncate: bool,
    /// A value longer than this is shortened when `truncate` is set.
    pub truncate_min: usize,
    /// The length a shortened value is cut to; a longer value that is shown
    /// in full reserves no width of its own.
    pub truncate_to: usize,
    /// The keys that the roles are bound to.
    pub roles: Roles,
}

/// The mathematical model of [`Config`].
pub struct ConfigView {
    pub width: nat,
    pub truncate: bool,
    pub truncate_min: nat,
    pub truncate_to: nat,
    pub roles: RolesView,
}

impl View for Config {
    type V = ConfigView;

    open spec fn view(&self) -> ConfigView {
        ConfigView {
            width: self.width as nat,
            truncate: self.truncate,
            truncate_min: self.truncate_min as nat,
            truncate_to: self.truncate_to as nat,
            roles: self.roles@,
        }
    }
}

/// The output width: the requested one, else the detected one, else
/// [`FALLBACK_WIDTH`].
pub open spec fn chosen_width(requested: Option<usize>, detected: Option<usize>) -> usize {
    match requested {
        Some(w) => w,
        None => match detected {
            Some(w) => w,
            None => FALLBACK_WIDTH,
        },
    }
}

/// Whether truncation is on: by the flag, or because only a minimum was
/// given.
pub open spec fn truncation_enabled(
    truncate: bool,
    truncate_min: Option<usize>,
    truncate_to: Option<usize>,
) -> bool {
    truncate || (truncate_min is Some && truncate_to is None)
}

/// The threshold above which a value is shortened: the given minimum, else
/// the width.
pub open spec fn resolved_min(width: usize, truncate_min: Option<usize>) -> usize {
    match truncate_min {
        Some(m) => m,
        None => width,
    }
}

/// The target length: the given one; else the minimum when only that was
/// given; else one less than the width.
pub open spec fn resolved_to(
    width: usize,
    truncate_min: Option<usize>,
    truncate_to: Option<usize>,
) -> int {
    match truncate_to {
        Some(t) => t as int,
        None => match truncate_min {
            Some(m) => m as int,
            None => width - 1,
        },
    }
}

/// Picks the output width.
pub fn effective_width(requested: Option<usize>, detected: Option<usize>) -> (width: usize)
    ensures
        width == chosen_width(requested, detected),
{
    match requested {
        Some(w) => w,
        None => match detected {
            Some(w) => w,
            None => FALLBACK_WIDTH,
        },
    }
}

/// Whether styling is applied: not when the user disabled it, and not when
/// the output is no interactive terminal.
pub fn color_enabled(no_color: bool, interactive: bool) -> (enabled: bool)
    ensures
        enabled == (!no_color && interactive),
{
    !(no_color || !interactive)
}

impl Config {
    /// Resolves the user's options against the output width `width`.
    pub fn resolve(cli: &Cli, width: usize) -> (config: Config)
        requires
            width >= 1,
        ensures
            config@.width == width,
            config@.truncate == truncation_enabled(cli.truncate, cli.truncate_min, cli.truncate_to),
            config@.truncate_min == resolved_min(width, cli.truncate_min),
            config@.truncate_to == resolved_to(width, cli.truncate_min, cli.truncate_to),
            config@.roles == (RolesView {
                primary: cli.primary@,
                highlight: cli.highlight@,
                yellow: crate::style::optional_key(cli.yellow),
                green: crate::style::optional_key(cli.green),
                magenta: crate::style::optional_key(cli.magenta),
                red: crate::style::optional_key(cli.red),
            }),
    {
        let truncate_min = match cli.truncate_min {
            Some(m) => m,
            None => width,
        };
        let truncate_to = match cli.truncate_to {
            Some(t) => t,
            None => match cli.truncate_min {
                Some(m) => m,
                None => width - 1,
            },
        };
        let truncate = cli.truncate || (cli.truncate_min.is_some() && cli.truncate_to.is_none());
        Config {
            width,
            truncate,
            truncate_min,
            truncate_to,
            roles: Roles {
                primary: cli.primary.clone(),
                highlight: cli.highlight.clone(),
                yellow: cli.yellow.clone(),
                green: cli.green.clone(),
                magenta: cli.magenta.clone(),
                red: cli.red.clone(),
            },
        }
    }
}

} // verus!
