//! Searching and cutting of texts: the first occurrence of a pattern, the
//! two parts around it, and words between white space.

use vstd::prelude::*;

verus! {

/// Whether `pat` stands in `text` at position `i`.
pub open spec fn matches_at(text: Seq<char>, pat: Seq<char>, i: int) -> bool {
    &&& 0 <= i
    &&& i + pat.len() <= text.len()
    &&& forall|k: int| 0 <= k < pat.len() ==> text[i + k] == #[trigger] pat[k]
}

/// Whether `i` is the first position at which `pat` stands in `text`.
pub open spec fn is_first_match(text: Seq<char>, pat: Seq<char>, i: int) -> bool {
    &&& matches_at(text, pat, i)
    &&& forall|j: int| 0 <= j < i ==> !matches_at(text, pat, j)
}

/// Whether `pat` stands anywhere in `text`.
pub open spec fn has_match(text: Seq<char>, pat: Seq<char>) -> bool {
    exists|i: int| matches_at(text, pat, i)
}

/// The first position at which `pat` stands in `text`.
pub open spec fn first_match(text: Seq<char>, pat: Seq<char>) -> int {
    choose|i: int| is_first_match(text, pat, i)
}

/// The parts of `text` before and after the first occurrence of `pat`; `None`
/// where there is no occurrence.
pub open spec fn split_once(text: Seq<char>, pat: Seq<char>) -> Option<(Seq<char>, Seq<char>)> {
    if has_match(text, pat) {
        let i = first_match(text, pat);
        Some((text.take(i), text.skip(i + pat.len())))
    } else {
        None
    }
}

/// Among the positions up to a match there is a first match.
pub proof fn lemma_least_match(text: Seq<char>, pat: Seq<char>, k: int)
    requires
        matches_at(text, pat, k),
    ensures
        exists|i: int| 0 <= i <= k && is_first_match(text, pat, i),
    decreases k,
{
    if exists|j: int| 0 <= j < k && matches_at(text, pat, j) {
        let j = choose|j: int| 0 <= j < k && matches_at(text, pat, j);
        lemma_least_match(text, pat, j);
    } else {
        assert(is_first_match(text, pat, k));
    }
}

/// Where `pat` occurs, the first match is a match, and the only first one.
pub proof fn lemma_first_match(text: Seq<char>, pat: Seq<char>)
    requires
        has_match(text, pat),
    ensures
        is_first_match(text, pat, first_match(text, pat)),
        forall|i: int| is_first_match(text, pat, i) ==> i == first_match(text, pat),
{
    let k = choose|i: int| matches_at(text, pat, i);
    lemma_least_match(text, pat, k);
}

/// A first match that was found is the first match.
pub proof fn lemma_first_match_found(text: Seq<char>, pat: Seq<char>, i: int)
    requires
        is_first_match(text, pat, i),
    ensures
        has_match(text, pat),
        first_match(text, pat) == i,
        split_once(text, pat) == Some((text.take(i), text.skip(i + pat.len()))),
{
    lemma_first_match(text, pat);
}

/// Both parts around an occurrence of a pattern that is not empty are shorter
/// than the text.
pub proof fn lemma_split_once_shorter(text: Seq<char>, pat: Seq<char>)
    requires
        pat.len() > 0,
        split_once(text, pat) is Some,
    ensures
        match split_once(text, pat) {
            Some((head, tail)) => {
                &&& head.len() < text.len()
                &&& tail.len() < text.len()
                &&& head.len() + pat.len() + tail.len() == text.len()
            },
            None => true,
        },
{
    lemma_first_match(text, pat);
}

/// The first position of `pat` in the part of `text` from `lo` to `hi`, as a
/// position in `text`.
pub fn find(text: &Vec<char>, lo: usize, hi: usize, pat: &Vec<char>) -> (r: Option<usize>)
    requires
        lo <= hi <= text@.len(),
    ensures
        match r {
            Some(i) => lo <= i && i + pat@.len() <= hi && is_first_match(
                text@.subrange(lo as int, hi as int),
                pat@,
                i - lo,
            ),
            None => !has_match(text@.subrange(lo as int, hi as int), pat@),
        },
{
    let ghost part = text@.subrange(lo as int, hi as int);
    let n = pat.len();
    if hi - lo < n {
        return None;
    }
    let last = hi - n;
    let mut i: usize = lo;
    while i <= last
        invariant
            lo <= i <= last + 1,
            last + n == hi,
            hi <= text@.len(),
            n == pat@.len(),
            part == text@.subrange(lo as int, hi as int),
            forall|j: int| 0 <= j < i - lo ==> !matches_at(part, pat@, j),
        decreases last + 1 - i,
    {
        let mut k: usize = 0;
        while k < n && text[i + k] == pat[k]
            invariant
                k <= n,
                i + n <= hi,
                hi <= text@.len(),
                n == pat@.len(),
                forall|m: int| 0 <= m < k ==> text@[i + m] == #[trigger] pat@[m],
            decreases n - k,
        {
            k = k + 1;
        }
        if k == n {
            assert(matches_at(part, pat@, i - lo)) by {
                assert forall|m: int| 0 <= m < pat@.len() implies part[i - lo + m] == #[trigger] pat@[m] by {
                    assert(part[i - lo + m] == text@[i + m]);
                }
            }
            return Some(i);
        }
        assert(!matches_at(part, pat@, i - lo)) by {
            assert(part[i - lo + k] == text@[i + k]);
        }
        i = i + 1;
    }
    assert forall|j: int| !matches_at(part, pat@, j) by {
        if 0 <= j && j + pat@.len() <= part.len() {
            assert(j < i - lo);
        }
    }
    None
}

/// White space: the characters that separate words.
pub open spec fn is_white_space(c: char) -> bool {
    let v = c as u32;
    ||| 0x09 <= v <= 0x0d
    ||| v == 0x20
    ||| v == 0x85
    ||| v == 0xa0
    ||| v == 0x1680
    ||| 0x2000 <= v <= 0x200a
    ||| v == 0x2028
    ||| v == 0x2029
    ||| v == 0x202f
    ||| v == 0x205f
    ||| v == 0x3000
}

/// Whether a character is white space.
pub fn white_space(c: char) -> (r: bool)
    ensures
        r == is_white_space(c),
{
    let v = c as u32;
    (0x09 <= v && v <= 0x0d) || v == 0x20 || v == 0x85 || v == 0xa0 || v == 0x1680 || (0x2000 <= v && v <= 0x200a)
        || v == 0x2028 || v == 0x2029 || v == 0x202f || v == 0x205f || v == 0x3000
}

/// Number of characters at the beginning of `text` that are white space, or
/// that are not, as `space` says.
pub open spec fn run_len(text: Seq<char>, space: bool) -> nat
    decreases text.len(),
{
    if text.len() == 0 || is_white_space(text[0]) != space {
        0
    } else {
        1 + run_len(text.skip(1), space)
    }
}

/// The words of a text: the longest runs of characters that are no white
/// space.
pub open spec fn words(text: Seq<char>) -> Seq<Seq<char>>
    decreases text.len(),
{
    let start = run_len(text, true) as int;
    let rest = text.skip(start);
    let len = run_len(rest, false) as int;
    if start > text.len() || len == 0 || len > rest.len() {
        Seq::<Seq<char>>::empty()
    } else {
        seq![rest.take(len)] + words(rest.skip(len))
    }
}

/// A run consists of characters of its kind and ends before one of the other
/// kind.
pub proof fn lemma_run_len_is(text: Seq<char>, space: bool, n: int)
    requires
        0 <= n <= text.len(),
        forall|i: int| 0 <= i < n ==> is_white_space(#[trigger] text[i]) == space,
        n == text.len() || is_white_space(text[n]) != space,
    ensures
        run_len(text, space) == n,
    decreases text.len(),
{
    if n == 0 {
    } else {
        let rest = text.skip(1);
        assert forall|i: int| 0 <= i < n - 1 implies is_white_space(#[trigger] rest[i]) == space by {
            assert(rest[i] == text[i + 1]);
        }
        if n < text.len() {
            assert(rest[n - 1] == text[n]);
        }
        lemma_run_len_is(rest, space, n - 1);
    }
}

/// End of the run of white space, or of other characters, that begins at
/// `lo` in the part of `text` up to `hi`.
pub fn run_end(text: &Vec<char>, lo: usize, hi: usize, space: bool) -> (r: usize)
    requires
        lo <= hi <= text@.len(),
    ensures
        lo <= r <= hi,
        r - lo == run_len(text@.subrange(lo as int, hi as int), space),
{
    let ghost part = text@.subrange(lo as int, hi as int);
    let mut i: usize = lo;
    while i < hi && white_space(text[i]) == space
        invariant
            lo <= i <= hi,
            hi <= text@.len(),
            part == text@.subrange(lo as int, hi as int),
            forall|j: int| 0 <= j < i - lo ==> is_white_space(#[trigger] part[j]) == space,
        decreases hi - i,
    {
        i = i + 1;
    }
    proof {
        if i < hi {
            assert(part[i - lo] == text@[i as int]);
        }
        lemma_run_len_is(part, space, i - lo);
    }
    i
}

/// The first two words of the part of `text` from `lo` to `hi`, as the
/// positions of their ends and beginnings in `text`; `None` where there are
/// fewer than two words.
pub fn first_two_words(text: &Vec<char>, lo: usize, hi: usize) -> (r: Option<(usize, usize, usize, usize)>)
    requires
        lo <= hi <= text@.len(),
    ensures
        match r {
            Some((a, b, c, d)) => {
                &&& lo <= a <= b <= c <= d <= hi
                &&& words(text@.subrange(lo as int, hi as int)).len() >= 2
                &&& words(text@.subrange(lo as int, hi as int))[0] == text@.subrange(a as int, b as int)
                &&& words(text@.subrange(lo as int, hi as int))[1] == text@.subrange(c as int, d as int)
            },
            None => words(text@.subrange(lo as int, hi as int)).len() < 2,
        },
{
    let ghost part = text@.subrange(lo as int, hi as int);
    let a = run_end(text, lo, hi, true);
    let b = run_end(text, a, hi, false);
    let ghost rest = part.skip(a - lo);
    assert(rest =~= text@.subrange(a as int, hi as int));
    let ghost tail = rest.skip(b - a);
    assert(tail =~= text@.subrange(b as int, hi as int));
    assert(rest.take(b - a) =~= text@.subrange(a as int, b as int));
    if b == a {
        assert(words(part) =~= Seq::<Seq<char>>::empty());
        return None;
    }
    assert(words(part) =~= seq![rest.take(b - a)] + words(tail));
    let c = run_end(text, b, hi, true);
    let d = run_end(text, c, hi, false);
    let ghost rest2 = tail.skip(c - b);
    assert(rest2 =~= text@.subrange(c as int, hi as int));
    assert(rest2.take(d - c) =~= text@.subrange(c as int, d as int));
    if d == c {
        assert(words(tail) =~= Seq::<Seq<char>>::empty());
        return None;
    }
    assert(words(tail) =~= seq![rest2.take(d - c)] + words(rest2.skip(d - c)));
    Some((a, b, c, d))
}

/// Whether the part of `text` from `lo` to `hi` is `word`.
pub fn part_is(text: &Vec<char>, lo: usize, hi: usize, word: &Vec<char>) -> (r: bool)
    requires
        lo <= hi <= text@.len(),
    ensures
        r == (text@.subrange(lo as int, hi as int) == word@),
{
    let ghost part = text@.subrange(lo as int, hi as int);
    if hi - lo != word.len() {
        return false;
    }
    let mut k: usize = 0;
    while k < word.len()
        invariant
            k <= word@.len(),
            hi - lo == word@.len(),
            hi <= text@.len(),
            part == text@.subrange(lo as int, hi as int),
            forall|m: int| 0 <= m < k ==> part[m] == word@[m],
        decreases word@.len() - k,
    {
        if text[lo + k] != word[k] {
            assert(part[k as int] == text@[lo + k]);
            return false;
        }
        assert(part[k as int] == text@[lo + k]);
        k = k + 1;
    }
    assert(part =~= word@);
    true
}

/// The characters of a text.
pub fn chars_of(text: &str) -> (out: Vec<char>)
    ensures
        out@ == text@,
{
    let mut out: Vec<char> = Vec::new();
    for c in it: text.chars()
        invariant
            it.seq() == text@,
            out@ == text@.take(it.index() as int),
    {
        out.push(c);
        assert(text@.take(it.index() + 1) =~= text@.take(it.index() as int).push(c));
    }
    assert(text@.take(text@.len() as int) =~= text@);
    out
}

/// The part of a text from character `lo` to character `hi`, as a string of
/// its own.
pub fn part_of(text: &str, lo: usize, hi: usize) -> (r: String)
    requires
        lo <= hi <= text@.len(),
    ensures
        r@ == text@.subrange(lo as int, hi as int),
{
    text.substring_char(lo, hi).to_owned()
}

} // verus!
