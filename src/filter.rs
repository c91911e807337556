//! The single-pass filter that deletes emoji-like code points from text.
use vstd::prelude::*;

use crate::classify::{emoji_char, is_emoji};

verus! {

/// The characters of `s` that survive filtering, in their original order.
pub open spec fn kept(s: Seq<char>) -> Seq<char> {
    s.filter(|c: char| !emoji_char(c))
}

/// The characters of `s` that filtering deletes, in their original order.
pub open spec fn dropped(s: Seq<char>) -> Seq<char> {
    s.filter(|c: char| emoji_char(c))
}

/// How many characters of `s` filtering deletes.
pub open spec fn removed_count(s: Seq<char>) -> nat {
    dropped(s).len()
}

/// Relies on String::push: the character is appended at the end.
pub assume_specification[ String::push ](s: &mut String, ch: char)
    ensures
        final(s)@ == old(s)@.push(ch),
;

/// Deletes every emoji-like code point of `input`, keeping all other
/// characters unchanged and in order, and returns the kept text together with
/// the number of characters deleted.
pub fn remove_emojis(input: &str) -> (r: (String, usize))
    ensures
        r.0@ == kept(input@),
        r.1 == removed_count(input@),
{
    let total = input.unicode_len();
    let mut result = String::new();
    let mut count: usize = 0;
    let ghost s = input@;
    for c in it: input.chars()
        invariant
            total == s.len(),
            s == input@,
            it.seq() == s,
            result@ == kept(s.take(it.index() as int)),
            count == removed_count(s.take(it.index() as int)),
            count <= it.index(),
    {
        let ghost i = it.index() as int;
        proof {
            assert(s.take(i + 1).drop_last() == s.take(i));
            assert(s.take(i + 1).last() == c);
            reveal(Seq::filter);
        }
        if is_emoji(c) {
            count = count + 1;
        } else {
            result.push(c);
        }
    }
    proof {
        assert(s.take(s.len() as int) == s);
    }
    (result, count)
}

} // verus!
