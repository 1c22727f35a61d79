//! Words and separated fields in a sequence of characters.

use crate::find::{equal_to, find_from, lemma_find_from, lemma_find_from_unique};
use vstd::prelude::*;

verus! {

/// The characters that separate words: the Unicode `White_Space` code points.
pub open spec fn is_space(c: char) -> bool {
    let n = c as u32;
    ||| 0x09 <= n <= 0x0D
    ||| n == 0x20
    ||| n == 0x85
    ||| n == 0xA0
    ||| n == 0x1680
    ||| 0x2000 <= n <= 0x200A
    ||| n == 0x2028
    ||| n == 0x2029
    ||| n == 0x202F
    ||| n == 0x205F
    ||| n == 0x3000
}

/// The property of separating words.
pub open spec fn space() -> spec_fn(char) -> bool {
    |c: char| is_space(c)
}

/// The property of belonging to a word.
pub open spec fn not_space() -> spec_fn(char) -> bool {
    |c: char| !is_space(c)
}

/// Where the first word of `s` starts: the index of its first character
/// that is no space, or the length of `s` when it has no word.
pub open spec fn word_start(s: Seq<char>) -> int {
    find_from(s, 0, not_space())
}

/// Where the first word of `s` ends: the index of the first space behind
/// its start, or the length of `s` when the word runs to the end.
pub open spec fn word_end(s: Seq<char>) -> int {
    find_from(s, word_start(s), space())
}

/// The first word of `s`: its longest run of characters that are no spaces
/// which only spaces precede. Empty when `s` holds nothing but spaces.
pub open spec fn first_word(s: Seq<char>) -> Seq<char> {
    s.subrange(word_start(s), word_end(s))
}

/// The fields of `s` between occurrences of `sep`, in order. A sequence
/// without `sep` is its own single field; `sep` at either end, or twice in a
/// row, bounds an empty field.
pub open spec fn split(s: Seq<char>, sep: char) -> Seq<Seq<char>>
    decreases s.len(),
{
    let at = find_from(s, 0, equal_to(sep));
    if 0 <= at < s.len() {
        seq![s.take(at)] + split(s.skip(at + 1), sep)
    } else {
        seq![s]
    }
}

/// A sequence without the separator is one field.
pub proof fn lemma_split_none(s: Seq<char>, sep: char)
    requires
        forall|i: int| 0 <= i < s.len() ==> s[i] != sep,
    ensures
        split(s, sep) == seq![s],
{
    lemma_find_from(s, 0, equal_to(sep));
}

/// The first separator ends the first field; the rest is split in turn.
pub proof fn lemma_split_at(s: Seq<char>, sep: char, at: int)
    requires
        0 <= at < s.len(),
        forall|i: int| 0 <= i < at ==> s[i] != sep,
        s[at] == sep,
    ensures
        split(s, sep) == seq![s.take(at)] + split(s.skip(at + 1), sep),
{
    assert forall|i: int| 0 <= i < at implies !equal_to(sep)(#[trigger] s[i]) by {}
    lemma_find_from_unique(s, 0, equal_to(sep), at);
}

/// There is always at least one field.
pub proof fn lemma_split_nonempty(s: Seq<char>, sep: char)
    ensures
        split(s, sep).len() >= 1,
{
}

/// A word holds no space, and its bounds lie in order within the sequence.
pub proof fn lemma_first_word(s: Seq<char>)
    ensures
        0 <= word_start(s) <= word_end(s) <= s.len(),
        forall|i: int| 0 <= i < word_start(s) ==> is_space(s[i]),
        forall|i: int| word_start(s) <= i < word_end(s) ==> !is_space(s[i]),
        word_end(s) < s.len() ==> is_space(s[word_end(s)]),
        word_start(s) < s.len() ==> word_start(s) < word_end(s),
{
    lemma_find_from(s, 0, not_space());
    lemma_find_from(s, word_start(s), space());
    assert forall|i: int| 0 <= i < word_start(s) implies is_space(s[i]) by {
        assert(!not_space()(s[i]));
    }
    assert forall|i: int| word_start(s) <= i < word_end(s) implies !is_space(s[i]) by {
        assert(!space()(s[i]));
    }
    if word_start(s) < s.len() {
        assert(not_space()(s[word_start(s)]));
    }
}

/// Decides whether `c` separates words.
pub fn is_whitespace(c: char) -> (b: bool)
    ensures
        b == is_space(c),
{
    let n: u32 = c as u32;
    (0x09 <= n && n <= 0x0D) || n == 0x20 || n == 0x85 || n == 0xA0 || n == 0x1680 || (0x2000 <= n
        && n <= 0x200A) || n == 0x2028 || n == 0x2029 || n == 0x202F || n == 0x205F || n == 0x3000
}

/// The characters of `s`, in order.
pub fn chars_of(s: &str) -> (chars: Vec<char>)
    ensures
        chars@ == s@,
{
    let mut chars: Vec<char> = Vec::new();
    for c in it: s.chars()
        invariant
            it.seq() == s@,
            chars@ == s@.take(it.index() as int),
    {
        chars.push(c);
        assert(chars@ =~= s@.take(it.index() + 1));
    }
    assert(chars@ =~= s@);
    chars
}

/// The bounds of the first word of `chars`: where it starts and where it ends.
pub fn first_word_bounds(chars: &[char]) -> (bounds: (usize, usize))
    ensures
        bounds.0 == word_start(chars@),
        bounds.1 == word_end(chars@),
        bounds.0 <= bounds.1 <= chars@.len(),
{
    let n = chars.len();
    let mut start: usize = 0;
    while start < n && is_whitespace(chars[start])
        invariant
            start <= n,
            n == chars@.len(),
            forall|i: int| 0 <= i < start ==> is_space(chars@[i]),
        decreases n - start,
    {
        start = start + 1;
    }
    let mut end: usize = start;
    while end < n && !is_whitespace(chars[end])
        invariant
            start <= end <= n,
            n == chars@.len(),
            forall|i: int| start <= i < end ==> !is_space(chars@[i]),
        decreases n - end,
    {
        end = end + 1;
    }
    proof {
        assert forall|i: int| 0 <= i < start implies !not_space()(#[trigger] chars@[i]) by {}
        lemma_find_from_unique(chars@, 0, not_space(), start as int);
        assert forall|i: int| start <= i < end implies !space()(#[trigger] chars@[i]) by {}
        lemma_find_from_unique(chars@, start as int, space(), end as int);
    }
    (start, end)
}

/// The first index in `from..end` at which `chars` holds `sep`, or `end`
/// when it does not occur there.
pub fn find_char(chars: &[char], from: usize, end: usize, sep: char) -> (at: usize)
    requires
        from <= end <= chars@.len(),
    ensures
        from <= at <= end,
        forall|i: int| from <= i < at ==> chars@[i] != sep,
        at < end ==> chars@[at as int] == sep,
{
    let mut at: usize = from;
    while at < end && chars[at] != sep
        invariant
            from <= at <= end <= chars@.len(),
            forall|i: int| from <= i < at ==> chars@[i] != sep,
        decreases end - at,
    {
        at = at + 1;
    }
    at
}

} // verus!
