//! The truncation policy: how a value is displayed and how much width its
//! column reserves.

use vstd::prelude::*;
use crate::config::{Config, ConfigView};
use crate::text::{char_len, prefix, take_chars};

verus! {

/// The three dots that end a shortened value.
pub open spec fn ellipsis() -> Seq<char> {
    seq!['.', '.', '.']
}

/// Whether a value of `len` characters is shortened under `config`.
pub open spec fn is_shortened(len: nat, config: ConfigView) -> bool {
    config.truncate && len > config.truncate_min
}

/// `value` cut to the target length `to`: its first `to - 3` characters and
/// the ellipsis, or the ellipsis alone when `to` leaves no room for more.
pub open spec fn shortened(value: Seq<char>, to: nat) -> Seq<char> {
    if to > 3 {
        prefix(value, (to - 3) as nat) + ellipsis()
    } else {
        ellipsis()
    }
}

/// The text shown for `value`.
pub open spec fn displayed(value: Seq<char>, config: ConfigView) -> Seq<char> {
    if is_shortened(value.len(), config) {
        shortened(value, config.truncate_to)
    } else {
        value
    }
}

/// The larger of two lengths.
pub open spec fn longer(a: nat, b: nat) -> nat {
    if a >= b {
        a
    } else {
        b
    }
}

/// The width reserved for a column whose key has `key_len` characters.
///
/// A shortened value reserves the larger of the key and the shortened text.
/// A value shown in full reserves the larger of key and value, unless it is
/// longer than the target length: then only the key counts, and the value
/// overflows its cell.
pub open spec fn reserved_width(key_len: nat, value: Seq<char>, config: ConfigView) -> nat {
    if is_shortened(value.len(), config) {
        longer(key_len, displayed(value, config).len())
    } else if value.len() > config.truncate_to {
        key_len
    } else {
        longer(key_len, value.len())
    }
}

/// Shortens `value` to the target length `to`.
pub fn shorten(value: &str, to: usize) -> (out: String)
    ensures
        out@ == shortened(value@, to as nat),
{
    proof {
        reveal_strlit("...");
    }
    if to > 3 {
        let mut out = take_chars(value, to - 3);
        out.append("...");
        out
    } else {
        String::from_str("...")
    }
}

/// The text shown for `value` under `config`.
pub fn display_value(value: &str, config: &Config) -> (out: String)
    ensures
        out@ == displayed(value@, config@),
{
    if config.truncate && char_len(value) > config.truncate_min {
        shorten(value, config.truncate_to)
    } else {
        String::from_str(value)
    }
}

/// The width reserved for the column `key`/`value` under `config`.
pub fn effective_col_width(key: &str, value: &str, config: &Config) -> (width: usize)
    ensures
        width == reserved_width(key@.len(), value@, config@),
{
    let key_len = char_len(key);
    let value_len = char_len(value);
    if config.truncate && value_len > config.truncate_min {
        let shown = shorten(value, config.truncate_to);
        let shown_len = char_len(shown.as_str());
        if key_len >= shown_len {
            key_len
        } else {
            shown_len
        }
    } else if value_len > config.truncate_to {
        key_len
    } else if key_len >= value_len {
        key_len
    } else {
        value_len
    }
}

/// A shortened value is never longer than the target length, or than the
/// ellipsis where the target is shorter than that.
pub proof fn lemma_shortened_len(value: Seq<char>, to: nat)
    ensures
        shortened(value, to).len() <= longer(to, 3),
        to > 3 && value.len() >= to - 3 ==> shortened(value, to).len() == to,
{
}

/// Displaying a displayed value changes nothing.
///
/// The one exception is left out: a value that is shortened although it has
/// fewer characters than `truncate_to - 3`.  Shortening only appends the
/// ellipsis to such a value, and the longer result is cut again.
pub proof fn lemma_display_idempotent(value: Seq<char>, config: ConfigView)
    requires
        !(is_shortened(value.len(), config) && value.len() + 3 < config.truncate_to),
    ensures
        displayed(displayed(value, config), config) == displayed(value, config),
{
    if is_shortened(value.len(), config) && config.truncate_to > 3 {
        // The shortened value starts with the characters that were kept, so
        // cutting it again keeps the same ones.
        let keep = (config.truncate_to - 3) as nat;
        assert(prefix(displayed(value, config), keep) =~= prefix(value, keep));
    }
}

/// With a target length no greater than the threshold, a shortened value
/// is below the threshold and is displayed as it stands.
pub proof fn lemma_display_settles(value: Seq<char>, config: ConfigView)
    requires
        3 <= config.truncate_to <= config.truncate_min,
    ensures
        !is_shortened(displayed(value, config).len(), config),
        displayed(displayed(value, config), config) == displayed(value, config),
{
}

} // verus!
