//! Whitespace in text: which characters count as whitespace, the words that
//! whitespace separates, and text with the whitespace at its ends removed.

use vstd::prelude::*;
use vstd::string::*;

verus! {

/// The characters with the Unicode property `White_Space`.
pub open spec fn is_space(c: char) -> bool {
    let n = c as u32;
    ||| 0x09 <= n <= 0x0D
    ||| n == 0x20
    ||| n == 0x85
    ||| n == 0xA0
    ||| n == 0x1680
    ||| 0x2000 <= n <= 0x200A
    ||| n == 0x2028
    ||| n == 0x2029
    ||| n == 0x202F
    ||| n == 0x205F
    ||| n == 0x3000
}

/// The length of the longest prefix of `s` that holds no whitespace.
pub open spec fn word_len(s: Seq<char>) -> nat
    decreases s.len(),
{
    if s.len() == 0 || is_space(s[0]) {
        0
    } else {
        1 + word_len(s.drop_first())
    }
}

/// The words of `s`: its maximal runs of characters that are not
/// whitespace, from left to right.
pub open spec fn words(s: Seq<char>) -> Seq<Seq<char>>
    decreases s.len(),
    via words_decreases
{
    if s.len() == 0 {
        Seq::empty()
    } else if is_space(s[0]) {
        words(s.drop_first())
    } else {
        seq![s.take(word_len(s) as int)] + words(s.skip(word_len(s) as int))
    }
}

#[via_fn]
proof fn words_decreases(s: Seq<char>) {
    lemma_word_len_bounds(s);
}

/// `s` without the whitespace it starts with.
pub open spec fn trim_start(s: Seq<char>) -> Seq<char>
    decreases s.len(),
{
    if s.len() > 0 && is_space(s[0]) {
        trim_start(s.drop_first())
    } else {
        s
    }
}

/// `s` without the whitespace it ends with.
pub open spec fn trim_end(s: Seq<char>) -> Seq<char>
    decreases s.len(),
{
    if s.len() > 0 && is_space(s.last()) {
        trim_end(s.drop_last())
    } else {
        s
    }
}

/// `s` without the whitespace at either end.
pub open spec fn trimmed(s: Seq<char>) -> Seq<char> {
    trim_end(trim_start(s))
}

/// `s` without the run of `c` it ends with.
pub open spec fn strip_trailing(s: Seq<char>, c: char) -> Seq<char>
    decreases s.len(),
{
    if s.len() > 0 && s.last() == c {
        strip_trailing(s.drop_last(), c)
    } else {
        s
    }
}

/// Whether `w` could be a word: it holds a character, and no whitespace.
pub open spec fn is_word(w: Seq<char>) -> bool {
    &&& w.len() > 0
    &&& forall|j: int| 0 <= j < w.len() ==> !is_space(#[trigger] w[j])
}

/// Whether `s` holds nothing but whitespace.
pub open spec fn is_blank(s: Seq<char>) -> bool {
    forall|j: int| 0 <= j < s.len() ==> is_space(#[trigger] s[j])
}

/// The run that `word_len` measures lies within the text, holds no
/// whitespace, and ends at whitespace or at the end of the text. A text
/// that starts with a character other than whitespace starts with such a
/// run.
pub proof fn lemma_word_len_bounds(s: Seq<char>)
    ensures
        word_len(s) <= s.len(),
        s.len() > 0 && !is_space(s[0]) ==> word_len(s) >= 1,
        forall|j: int| 0 <= j < word_len(s) ==> !is_space(#[trigger] s[j]),
        word_len(s) < s.len() ==> is_space(s[word_len(s) as int]),
    decreases s.len(),
{
    if s.len() > 0 && !is_space(s[0]) {
        let t = s.drop_first();
        lemma_word_len_bounds(t);
        assert forall|j: int| 0 <= j < word_len(s) implies !is_space(#[trigger] s[j]) by {
            if j > 0 {
                assert(s[j] == t[j - 1]);
            }
        }
    }
}

/// Each of the words of a text holds a character, and none holds
/// whitespace.
pub proof fn lemma_words_are_words(s: Seq<char>)
    ensures
        forall|k: int| 0 <= k < words(s).len() ==> is_word(#[trigger] words(s)[k]),
    decreases s.len(),
{
    if s.len() == 0 {
    } else if is_space(s[0]) {
        lemma_words_are_words(s.drop_first());
        assert(words(s) == words(s.drop_first()));
    } else {
        let n = word_len(s) as int;
        lemma_word_len_bounds(s);
        lemma_words_are_words(s.skip(n));
        assert(is_word(s.take(n)));
        assert forall|k: int| 0 <= k < words(s).len() implies is_word(#[trigger] words(s)[k]) by {
            if k > 0 {
                assert(words(s)[k] == words(s.skip(n))[k - 1]);
            }
        }
    }
}

/// A text that holds nothing but whitespace has no words.
pub proof fn lemma_blank_has_no_words(s: Seq<char>)
    requires
        is_blank(s),
    ensures
        words(s) == Seq::<Seq<char>>::empty(),
    decreases s.len(),
{
    if s.len() > 0 {
        assert(is_blank(s.drop_first()));
        lemma_blank_has_no_words(s.drop_first());
    }
}

/// A text without whitespace that holds a character is its own only word.
pub proof fn lemma_word_is_its_own_word(w: Seq<char>)
    requires
        is_word(w),
    ensures
        words(w) == seq![w],
{
    lemma_run_is_measured(w, Seq::empty());
    assert(w.take(w.len() as int) =~= w);
    assert(w.skip(w.len() as int) =~= Seq::<char>::empty());
    assert(words(Seq::<char>::empty()) =~= Seq::<Seq<char>>::empty());
}

/// Whitespace separates: the words of two texts with a whitespace
/// character between them are the words of the first, then the words of
/// the second.
pub proof fn lemma_words_split_at_space(a: Seq<char>, c: char, b: Seq<char>)
    requires
        is_space(c),
    ensures
        words(a.push(c) + b) == words(a) + words(b),
    decreases a.len(),
{
    let s = a.push(c) + b;
    if a.len() == 0 {
        assert(s.drop_first() =~= b);
    } else if is_space(a[0]) {
        assert(s.drop_first() =~= a.drop_first().push(c) + b);
        lemma_words_split_at_space(a.drop_first(), c, b);
    } else {
        let n = word_len(a) as int;
        lemma_word_len_bounds(a);
        if n < a.len() {
            assert(s =~= a.take(n) + (a.skip(n).push(c) + b));
            lemma_run_is_measured(a.take(n), a.skip(n).push(c) + b);
        } else {
            assert(s =~= a.take(n) + (seq![c] + b));
            lemma_run_is_measured(a.take(n), seq![c] + b);
        }
        assert(s.take(n) =~= a.take(n));
        assert(s.skip(n) =~= a.skip(n).push(c) + b);
        lemma_words_split_at_space(a.skip(n), c, b);
    }
}

/// A run without whitespace, followed by nothing or by a text that starts
/// with whitespace, is the run that `word_len` measures.
pub proof fn lemma_run_is_measured(w: Seq<char>, rest: Seq<char>)
    requires
        forall|j: int| 0 <= j < w.len() ==> !is_space(#[trigger] w[j]),
        rest.len() == 0 || is_space(rest[0]),
    ensures
        word_len(w + rest) == w.len(),
    decreases w.len(),
{
    if w.len() > 0 {
        let t = w.drop_first();
        assert((w + rest).drop_first() =~= t + rest);
        lemma_run_is_measured(t, rest);
    }
}

/// What trimming keeps is one stretch of the text. Whatever lies outside
/// the stretch is whitespace, and the stretch neither starts nor ends with
/// whitespace. The result gives where the stretch starts and ends.
pub proof fn lemma_trimmed_is_the_core(s: Seq<char>) -> (core: (int, int))
    ensures
        0 <= core.0 <= core.1 <= s.len(),
        trimmed(s) == s.subrange(core.0, core.1),
        forall|j: int| 0 <= j < core.0 ==> is_space(#[trigger] s[j]),
        forall|j: int| core.1 <= j < s.len() ==> is_space(#[trigger] s[j]),
        core.0 < core.1 ==> !is_space(s[core.0]) && !is_space(s[core.1 - 1]),
{
    let start = lemma_trim_start_skips(s);
    let t = s.skip(start);
    let len = lemma_trim_end_takes(t);
    assert forall|j: int| start + len <= j < s.len() implies is_space(#[trigger] s[j]) by {
        assert(s[j] == t[j - start]);
    }
    (start, start + len)
}

/// How many characters `trim_start` drops: all of them are whitespace, and
/// the next one is not.
proof fn lemma_trim_start_skips(s: Seq<char>) -> (n: int)
    ensures
        0 <= n <= s.len(),
        trim_start(s) == s.skip(n),
        trim_start(s.skip(n)) == s.skip(n),
        forall|j: int| 0 <= j < n ==> is_space(#[trigger] s[j]),
        n < s.len() ==> !is_space(s[n]),
    decreases s.len(),
{
    if s.len() > 0 && is_space(s[0]) {
        let t = s.drop_first();
        let m = lemma_trim_start_skips(t);
        assert forall|j: int| 0 <= j < m + 1 implies is_space(#[trigger] s[j]) by {
            if j > 0 {
                assert(s[j] == t[j - 1]);
            }
        }
        m + 1
    } else {
        0
    }
}

/// How many characters `trim_end` keeps: all that follow are whitespace,
/// and the last one kept is not.
proof fn lemma_trim_end_takes(s: Seq<char>) -> (n: int)
    ensures
        0 <= n <= s.len(),
        trim_end(s) == s.take(n),
        forall|j: int| n <= j < s.len() ==> is_space(#[trigger] s[j]),
        n > 0 ==> !is_space(s[n - 1]),
    decreases s.len(),
{
    if s.len() > 0 && is_space(s.last()) {
        let t = s.drop_last();
        let m = lemma_trim_end_takes(t);
        assert forall|j: int| m <= j < s.len() implies is_space(#[trigger] s[j]) by {
            if j < t.len() {
                assert(s[j] == t[j]);
            }
        }
        m
    } else {
        s.len() as int
    }
}

/// Whether `c` is whitespace.
pub fn is_whitespace(c: char) -> (b: bool)
    ensures
        b == is_space(c),
{
    let n: u32 = c as u32;
    (0x09 <= n && n <= 0x0D) || n == 0x20 || n == 0x85 || n == 0xA0 || n == 0x1680 || (0x2000 <= n
        && n <= 0x200A) || n == 0x2028 || n == 0x2029 || n == 0x202F || n == 0x205F || n == 0x3000
}

/// The characters of `s`, in order.
pub fn chars_of(s: &str) -> (v: Vec<char>)
    ensures
        v@ == s@,
{
    broadcast use vstd::string::group_string_axioms;

    let mut v: Vec<char> = Vec::new();
    for c in it: s.chars()
        invariant
            it.seq() == s@,
            v@ == s@.take(it.index()),
    {
        v.push(c);
    }
    v
}

/// `head` followed by `tail`, as one text.
pub fn joined(head: &str, tail: &str) -> (text: String)
    ensures
        text@ == head@ + tail@,
{
    let mut text = String::from_str(head);
    text.append(tail);
    text
}

/// Where the word ends that starts at `start`.
fn word_end(chars: &Vec<char>, start: usize) -> (end: usize)
    requires
        start <= chars.len(),
    ensures
        start <= end <= chars.len(),
        end - start == word_len(chars@.skip(start as int)),
{
    let mut end: usize = start;
    while end < chars.len() && !is_whitespace(chars[end])
        invariant
            start <= end <= chars.len(),
            word_len(chars@.skip(start as int)) == (end - start) + word_len(
                chars@.skip(end as int),
            ),
        decreases chars.len() - end,
    {
        proof {
            assert(chars@.skip(end as int).drop_first() =~= chars@.skip(end + 1));
        }
        end += 1;
    }
    end
}

/// The words of `s`, as `str::split_whitespace` yields them.
pub fn split_whitespace(s: &str) -> (out: Vec<String>)
    ensures
        out.deep_view() == words(s@),
{
    let chars = chars_of(s);
    let n = chars.len();
    let mut out: Vec<String> = Vec::new();
    let mut i: usize = 0;
    proof {
        assert(s@.skip(0) =~= s@);
    }
    while i < n
        invariant
            chars@ == s@,
            n == chars.len(),
            i <= n,
            out.deep_view() + words(s@.skip(i as int)) == words(s@),
        decreases n - i,
    {
        let ghost rest = s@.skip(i as int);
        if is_whitespace(chars[i]) {
            proof {
                assert(rest.drop_first() =~= s@.skip(i + 1));
            }
            i += 1;
        } else {
            let end = word_end(&chars, i);
            let word = String::from_str(s.substring_char(i, end));
            out.push(word);
            proof {
                lemma_word_len_bounds(rest);
                assert(rest.take(word_len(rest) as int) =~= word@);
                assert(rest.skip(word_len(rest) as int) =~= s@.skip(end as int));
            }
            i = end;
        }
    }
    out
}

/// `s` without the whitespace at either end, as `str::trim` gives it.
pub fn trim(s: &str) -> (out: String)
    ensures
        out@ == trimmed(s@),
{
    let chars = chars_of(s);
    let n = chars.len();
    let mut start: usize = 0;
    proof {
        assert(chars@.skip(0) =~= chars@);
    }
    while start < n && is_whitespace(chars[start])
        invariant
            n == chars.len(),
            start <= n,
            trim_start(chars@) == trim_start(chars@.skip(start as int)),
        decreases n - start,
    {
        proof {
            assert(chars@.skip(start as int).drop_first() =~= chars@.skip(start + 1));
        }
        start += 1;
    }
    let mut end: usize = n;
    while end > start && is_whitespace(chars[end - 1])
        invariant
            n == chars.len(),
            start <= end <= n,
            trimmed(chars@) == trim_end(chars@.subrange(start as int, end as int)),
        decreases end,
    {
        proof {
            assert(chars@.subrange(start as int, end as int).drop_last() =~= chars@.subrange(
                start as int,
                end - 1,
            ));
        }
        end -= 1;
    }
    String::from_str(s.substring_char(start, end))
}

/// `s` without the run of `c` it ends with, as `str::trim_end_matches`
/// gives it for one character.
pub fn strip_trailing_char(s: &str, c: char) -> (out: String)
    ensures
        out@ == strip_trailing(s@, c),
{
    let chars = chars_of(s);
    let mut end: usize = chars.len();
    proof {
        assert(chars@.take(end as int) =~= chars@);
    }
    while end > 0 && chars[end - 1] == c
        invariant
            end <= chars.len(),
            strip_trailing(chars@, c) == strip_trailing(chars@.take(end as int), c),
        decreases end,
    {
        proof {
            assert(chars@.take(end as int).drop_last() =~= chars@.take(end - 1));
        }
        end -= 1;
    }
    String::from_str(s.substring_char(0, end))
}

} // verus!
