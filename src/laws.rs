//! Properties of the filter that hold for every input text.
use vstd::prelude::*;

use crate::classify::emoji_char;
use crate::filter::{kept, removed_count};

verus! {

/// `a` can be obtained from `b` by deleting characters: some strictly
/// increasing choice of positions of `b` spells out `a`.
pub open spec fn is_subsequence(a: Seq<char>, b: Seq<char>) -> bool {
    exists|pos: Seq<int>|
        #![trigger pos.len()]
        {
            &&& pos.len() == a.len()
            &&& forall|i: int| 0 <= i < pos.len() ==> 0 <= #[trigger] pos[i] < b.len()
            &&& forall|i: int| 0 <= i < pos.len() ==> a[i] == b[#[trigger] pos[i]]
            &&& forall|i: int, j: int| 0 <= i < j < pos.len() ==> #[trigger] pos[i] < #[trigger] pos[j]
        }
}

/// A C0 control character (code points 0x00 to 0x1F), which includes newline
/// and tab.
pub open spec fn is_c0_control(c: char) -> bool {
    (c as u32) < 0x20
}

/// The positions of `s` whose characters survive filtering, in increasing order.
pub open spec fn kept_positions(s: Seq<char>) -> Seq<int>
    decreases s.len(),
{
    if s.len() == 0 {
        Seq::empty()
    } else {
        let rest = kept_positions(s.drop_last());
        if emoji_char(s.last()) {
            rest
        } else {
            rest.push(s.len() - 1)
        }
    }
}

proof fn lemma_kept_positions(s: Seq<char>)
    ensures
        kept_positions(s).len() == kept(s).len(),
        forall|i: int|
            0 <= i < kept_positions(s).len() ==> 0 <= #[trigger] kept_positions(s)[i] < s.len(),
        forall|i: int|
            0 <= i < kept_positions(s).len() ==> kept(s)[i] == s[#[trigger] kept_positions(s)[i]],
        forall|i: int, j: int|
            0 <= i < j < kept_positions(s).len() ==> #[trigger] kept_positions(s)[i]
                < #[trigger] kept_positions(s)[j],
    decreases s.len(),
{
    reveal(Seq::filter);
    if s.len() > 0 {
        let t = s.drop_last();
        lemma_kept_positions(t);
        assert forall|i: int| 0 <= i < t.len() implies t[i] == s[i] by {}
    }
}

/// Filtering never reorders the surviving characters: the output is a
/// subsequence of the input.
pub proof fn lemma_order_preserved(s: Seq<char>)
    ensures
        is_subsequence(kept(s), s),
{
    lemma_kept_positions(s);
    let pos = kept_positions(s);
    assert(pos.len() == kept(s).len());
}

/// The number of characters kept plus the number removed is the length of
/// the input.
pub proof fn lemma_length_law(s: Seq<char>)
    ensures
        kept(s).len() + removed_count(s) == s.len(),
    decreases s.len(),
{
    reveal(Seq::filter);
    if s.len() > 0 {
        lemma_length_law(s.drop_last());
    }
}

/// Text with no emoji-like code point passes through unchanged, and nothing
/// is counted as removed.
pub proof fn lemma_no_emoji_unchanged(s: Seq<char>)
    requires
        forall|i: int| 0 <= i < s.len() ==> !emoji_char(#[trigger] s[i]),
    ensures
        kept(s) == s,
        removed_count(s) == 0,
    decreases s.len(),
{
    reveal(Seq::filter);
    if s.len() > 0 {
        let t = s.drop_last();
        assert forall|i: int| 0 <= i < t.len() implies !emoji_char(#[trigger] t[i]) by {
            assert(t[i] == s[i]);
        }
        lemma_no_emoji_unchanged(t);
        assert(t.push(s.last()) == s);
    }
}

/// Filtering text a second time changes nothing and removes nothing more.
pub proof fn lemma_idempotent(s: Seq<char>)
    ensures
        kept(kept(s)) == kept(s),
        removed_count(kept(s)) == 0,
{
    broadcast use Seq::lemma_filter_pred;

    let k = kept(s);
    assert forall|i: int| 0 <= i < k.len() implies !emoji_char(#[trigger] k[i]) by {}
    lemma_no_emoji_unchanged(k);
}

/// No C0 control character, newline and tab among them, is emoji-like.
pub proof fn lemma_controls_not_emoji(c: char)
    requires
        is_c0_control(c),
    ensures
        !emoji_char(c),
{
}

/// Filtering keeps every C0 control character of the input, in order: the
/// control characters of the output are exactly those of the input.
pub proof fn lemma_controls_survive(s: Seq<char>)
    ensures
        kept(s).filter(|c: char| is_c0_control(c)) == s.filter(|c: char| is_c0_control(c)),
    decreases s.len(),
{
    reveal(Seq::filter);
    if s.len() > 0 {
        let t = s.drop_last();
        lemma_controls_survive(t);
        if !emoji_char(s.last()) {
            assert(kept(s).drop_last() == kept(t));
        }
    }
}

} // verus!
