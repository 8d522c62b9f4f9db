//! Bounding a display string to a maximum number of characters.

use vstd::prelude::*;
use vstd::string::*;

verus! {

/// The marker that stands for the part of a string that was cut off.
pub const ELLIPSIS: char = '\u{2026}';

/// What `s` looks like once it is bounded to `max_chars` characters: `s`
/// itself if it fits, else its first `max_chars - 1` characters followed by
/// the ellipsis marker. With a bound of zero nothing fits, not even the marker.
pub open spec fn truncated(s: Seq<char>, max_chars: nat) -> Seq<char> {
    if s.len() <= max_chars {
        s
    } else if max_chars == 0 {
        Seq::empty()
    } else {
        s.take(max_chars - 1).push(ELLIPSIS)
    }
}

/// Bounds `s` to `max_chars` characters, the ellipsis marker included.
pub fn truncate_and_trailoff(s: &str, max_chars: usize) -> (r: String)
    ensures
        r@ == truncated(s@, max_chars as nat),
        r@.len() <= max_chars,
{
    let len: usize = s.unicode_len();
    if len <= max_chars {
        s.to_owned()
    } else if max_chars == 0 {
        String::new()
    } else {
        let prefix = s.substring_char(0, max_chars - 1);
        proof {
            reveal_strlit("\u{2026}");
            assert("\u{2026}"@ =~= seq![ELLIPSIS]);
            assert(prefix@ + seq![ELLIPSIS] =~= s@.take(max_chars - 1).push(ELLIPSIS));
        }
        prefix.to_owned().concat("\u{2026}")
    }
}

/// A bounded string never has more characters than the bound.
pub proof fn lemma_truncated_len(s: Seq<char>, max_chars: nat)
    ensures
        truncated(s, max_chars).len() <= max_chars,
        s.len() > max_chars ==> truncated(s, max_chars).len() == max_chars,
{
}

/// A string that fits the bound is left as it is.
pub proof fn lemma_truncated_fits(s: Seq<char>, max_chars: nat)
    requires
        s.len() <= max_chars,
    ensures
        truncated(s, max_chars) == s,
{
}

/// A string that does not fit a positive bound is cut to a proper prefix of
/// itself and ends with the ellipsis marker.
pub proof fn lemma_truncated_trails_off(s: Seq<char>, max_chars: nat)
    requires
        s.len() > max_chars,
        max_chars >= 1,
    ensures
        truncated(s, max_chars).last() == ELLIPSIS,
        truncated(s, max_chars).drop_last() == s.take(max_chars - 1),
{
    assert(truncated(s, max_chars).drop_last() =~= s.take(max_chars - 1));
}

/// Bounding twice with the same bound is the same as bounding once.
pub proof fn lemma_truncated_idempotent(s: Seq<char>, max_chars: nat)
    ensures
        truncated(truncated(s, max_chars), max_chars) == truncated(s, max_chars),
{
}

} // verus!
