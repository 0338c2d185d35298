//! Text helpers: lengths, prefixes and padding, all counted in characters.

use vstd::prelude::*;

verus! {

/// `n` copies of the character `c`.
pub open spec fn repeat(c: char, n: nat) -> Seq<char> {
    Seq::new(n, |i: int| c)
}

/// `s` followed by as many spaces as it takes to reach `width` characters;
/// `s` itself when it is already that long.
pub open spec fn pad_right(s: Seq<char>, width: nat) -> Seq<char> {
    if s.len() >= width {
        s
    } else {
        s + repeat(' ', (width - s.len()) as nat)
    }
}

/// The first `n` characters of `s`, or all of `s` when it has fewer.
pub open spec fn prefix(s: Seq<char>, n: nat) -> Seq<char> {
    if n >= s.len() {
        s
    } else {
        s.take(n as int)
    }
}

/// The number of characters in `s`.
pub fn char_len(s: &str) -> (n: usize)
    ensures
        n == s@.len(),
{
    s.unicode_len()
}

/// The first `n` characters of `s` as an owned string.
pub fn take_chars(s: &str, n: usize) -> (out: String)
    ensures
        out@ == prefix(s@, n as nat),
{
    let len = s.unicode_len();
    if n >= len {
        String::from_str(s)
    } else {
        let head = s.substring_char(0, n);
        String::from_str(head)
    }
}

/// Appends `count` spaces to `out`.
pub fn push_spaces(out: &mut String, count: usize)
    ensures
        final(out)@ == old(out)@ + repeat(' ', count as nat),
{
    let mut i: usize = 0;
    while i < count
        invariant
            i <= count,
            out@ == old(out)@ + repeat(' ', i as nat),
        decreases count - i,
    {
        proof {
            reveal_strlit(" ");
        }
        out.append(" ");
        i = i + 1;
    }
}

/// Left-aligns `s` in a field of `width` characters.
pub fn pad(s: &str, width: usize) -> (out: String)
    ensures
        out@ == pad_right(s@, width as nat),
{
    let len = s.unicode_len();
    let mut out = String::from_str(s);
    if len < width {
        push_spaces(&mut out, width - len);
    }
    out
}

} // verus!
