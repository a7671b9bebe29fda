//! Reading texts character by character: whether two texts are the same,
//! and whether a text of `;`-separated pairs states a given pair.

use vstd::prelude::*;

verus! {

/// `needle` stands in `haystack` at position `at`.
pub open spec fn occurs_at(needle: Seq<char>, haystack: Seq<char>, at: int) -> bool {
    &&& 0 <= at
    &&& at + needle.len() <= haystack.len()
    &&& haystack.subrange(at, at + needle.len()) == needle
}

/// `text[lo..hi]` is one of the stretches into which the `;` of `text`
/// cut it: it begins at the start of the text or behind a `;`, ends at
/// the end of the text or before a `;`, and holds no `;`.
pub open spec fn is_item(text: Seq<char>, lo: int, hi: int) -> bool {
    &&& 0 <= lo <= hi <= text.len()
    &&& (lo == 0 || text[lo - 1] == ';')
    &&& (hi == text.len() || text[hi] == ';')
    &&& forall|k: int| lo <= k < hi ==> text[k] != ';'
}

/// `text[from..to]` is `text[lo..hi]` without the spaces at its two ends.
pub open spec fn is_trimmed(text: Seq<char>, lo: int, hi: int, from: int, to: int) -> bool {
    &&& lo <= from <= to <= hi
    &&& forall|k: int| lo <= k < from ==> text[k] == ' '
    &&& forall|k: int| to <= k < hi ==> text[k] == ' '
    &&& (from < to ==> text[from] != ' ' && text[to - 1] != ' ')
}

/// The stretch `text[lo..hi]`, without the spaces at its ends, is
/// `text[from..to]` and reads `pair`.
pub open spec fn states_pair_at(
    text: Seq<char>,
    pair: Seq<char>,
    lo: int,
    hi: int,
    from: int,
    to: int,
) -> bool {
    &&& is_item(text, lo, hi)
    &&& is_trimmed(text, lo, hi, from, to)
    &&& text.subrange(from, to) == pair
}

/// `pair` is one of the `;`-separated pairs of `text`, spaces around it
/// aside.
pub open spec fn states_pair(text: Seq<char>, pair: Seq<char>) -> bool {
    exists|lo: int, hi: int, from: int, to: int| #[trigger]
        states_pair_at(text, pair, lo, hi, from, to)
}

/// A stretch is settled by its start: it has one end, and without the
/// spaces at its ends it reads one text. So where that text is not
/// `pair`, no reading of the stretch that begins at `lo` gives `pair`.
proof fn lemma_item_settled(
    text: Seq<char>,
    pair: Seq<char>,
    lo: int,
    hi: int,
    from: int,
    to: int,
)
    requires
        is_item(text, lo, hi),
        is_trimmed(text, lo, hi, from, to),
        text.subrange(from, to) != pair,
    ensures
        forall|b: int, c: int, d: int| !#[trigger] states_pair_at(text, pair, lo, b, c, d),
{
    assert forall|b: int, c: int, d: int| !#[trigger] states_pair_at(text, pair, lo, b, c, d) by {
        if states_pair_at(text, pair, lo, b, c, d) {
            if b < hi {
                assert(text[b] == ';');
            } else if b > hi {
                assert(text[hi] == ';');
            }
            assert(b == hi);
            if from < to {
                if c > from {
                    assert(text[from] == ' ');
                }
                if d < to {
                    assert(text[to - 1] == ' ');
                }
                assert(c < d);
                if c < from {
                    assert(text[c] == ' ');
                }
                if d > to {
                    assert(text[d - 1] == ' ');
                }
                assert(c == from && d == to);
            } else {
                if c < d {
                    assert(text[c] == ' ');
                }
                assert(text.subrange(c, d) =~= text.subrange(from, to));
            }
        }
    }
}

/// No stretch begins inside another: behind the start of a stretch the
/// next one begins behind its end.
proof fn lemma_no_item_inside(text: Seq<char>, lo: int, hi: int, a: int, b: int)
    requires
        is_item(text, lo, hi),
        is_item(text, a, b),
        lo < a,
    ensures
        hi < a,
{
    if a <= hi {
        assert(text[a - 1] == ';');
    }
}

/// The characters of `text`, in order.
pub fn chars_of(text: &str) -> (chars: Vec<char>)
    ensures
        chars@ == text@,
{
    let mut chars: Vec<char> = Vec::new();
    for c in it: text.chars()
        invariant
            it.seq() == text@,
            chars@ == it.seq().take(it.index()),
    {
        chars.push(c);
    }
    chars
}

/// Whether `needle` stands in `haystack` at position `at`.
fn matches_at(needle: &Vec<char>, haystack: &Vec<char>, at: usize) -> (yes: bool)
    requires
        at + needle.len() <= haystack.len(),
    ensures
        yes == occurs_at(needle@, haystack@, at as int),
{
    let mut j: usize = 0;
    while j < needle.len()
        invariant
            j <= needle.len(),
            at + needle.len() <= haystack.len(),
            forall|k: int| 0 <= k < j ==> haystack@[at + k] == needle@[k],
        decreases needle.len() - j,
    {
        if haystack[at + j] != needle[j] {
            assert(haystack@.subrange(at as int, at + needle.len())[j as int] != needle@[j as int]);
            return false;
        }
        j += 1;
    }
    assert(haystack@.subrange(at as int, at + needle.len()) =~= needle@);
    true
}

/// The end of the stretch that begins at `lo`: the place of the next `;`,
/// or the end of the text.
fn item_end(text: &Vec<char>, lo: usize) -> (hi: usize)
    requires
        lo <= text.len(),
        lo == 0 || text@[lo - 1] == ';',
    ensures
        is_item(text@, lo as int, hi as int),
{
    let mut hi: usize = lo;
    while hi < text.len() && text[hi] != ';'
        invariant
            lo <= hi <= text.len(),
            forall|k: int| lo <= k < hi ==> text@[k] != ';',
        decreases text.len() - hi,
    {
        hi += 1;
    }
    hi
}

/// The ends of `text[lo..hi]` once the spaces at its two ends are left
/// out.
fn trim_spaces(text: &Vec<char>, lo: usize, hi: usize) -> (ends: (usize, usize))
    requires
        lo <= hi <= text.len(),
    ensures
        is_trimmed(text@, lo as int, hi as int, ends.0 as int, ends.1 as int),
{
    let mut from: usize = lo;
    while from < hi && text[from] == ' '
        invariant
            lo <= from <= hi <= text.len(),
            forall|k: int| lo <= k < from ==> text@[k] == ' ',
        decreases hi - from,
    {
        from += 1;
    }
    let mut to: usize = hi;
    while to > from && text[to - 1] == ' '
        invariant
            from <= to <= hi <= text.len(),
            from == hi || text@[from as int] != ' ',
            forall|k: int| to <= k < hi ==> text@[k] == ' ',
        decreases to - from,
    {
        to -= 1;
    }
    (from, to)
}

/// Whether two texts are the same, character for character.
pub fn same_text(left: &str, right: &str) -> (same: bool)
    ensures
        same == (left@ == right@),
{
    let a = chars_of(left);
    let b = chars_of(right);
    if a.len() != b.len() {
        return false;
    }
    let yes = matches_at(&a, &b, 0);
    assert(b@.subrange(0, b@.len() as int) =~= b@);
    yes
}

/// Whether `pair` is one of the `;`-separated pairs of `text`, spaces
/// around it aside.
pub fn has_pair(text: &str, pair: &str) -> (found: bool)
    ensures
        found == states_pair(text@, pair@),
{
    let all = chars_of(text);
    let wanted = chars_of(pair);
    let len: usize = all.len();
    let mut lo: usize = 0;
    loop
        invariant
            len == all.len(),
            all@ == text@,
            wanted@ == pair@,
            lo <= len,
            lo == 0 || all@[lo - 1] == ';',
            forall|a: int, b: int, c: int, d: int|
                a < lo ==> !#[trigger] states_pair_at(all@, wanted@, a, b, c, d),
        decreases len - lo,
    {
        let hi = item_end(&all, lo);
        let (from, to) = trim_spaces(&all, lo, hi);
        if to - from == wanted.len() && matches_at(&wanted, &all, from) {
            assert(states_pair_at(all@, wanted@, lo as int, hi as int, from as int, to as int));
            return true;
        }
        proof {
            lemma_item_settled(all@, wanted@, lo as int, hi as int, from as int, to as int);
            assert forall|a: int, b: int, c: int, d: int| a <= hi implies !#[trigger] states_pair_at(
                all@,
                wanted@,
                a,
                b,
                c,
                d,
            ) by {
                if lo < a && is_item(all@, a, b) {
                    lemma_no_item_inside(all@, lo as int, hi as int, a, b);
                }
            }
        }
        if hi == len {
            return false;
        }
        lo = hi + 1;
    }
}

} // verus!
