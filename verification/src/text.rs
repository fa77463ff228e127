//! Character-level text helpers: Unicode white space, word splitting and
//! string comparison.

use vstd::prelude::*;
use vstd::string::StrSliceExecFns;

verus! {

/// The Unicode `White_Space` property, which is what `char::is_whitespace`
/// tests: U+0009..U+000D, U+0020, U+0085, U+00A0, U+1680, U+2000..U+200A,
/// U+2028, U+2029, U+202F, U+205F and U+3000.
pub open spec fn is_white_space(c: char) -> bool {
    let v = c as u32;
    ||| 0x9 <= v <= 0xd
    ||| v == 0x20
    ||| v == 0x85
    ||| v == 0xa0
    ||| v == 0x1680
    ||| 0x2000 <= v <= 0x200a
    ||| v == 0x2028
    ||| v == 0x2029
    ||| v == 0x202f
    ||| v == 0x205f
    ||| v == 0x3000
}

/// Tests the Unicode `White_Space` property of a character.
pub fn is_whitespace(c: char) -> (res: bool)
    ensures
        res == is_white_space(c),
{
    let v = c as u32;
    (0x9 <= v && v <= 0xd) || v == 0x20 || v == 0x85 || v == 0xa0 || v == 0x1680 || (0x2000 <= v
        && v <= 0x200a) || v == 0x2028 || v == 0x2029 || v == 0x202f || v == 0x205f || v == 0x3000
}

/// Length of the run of non-white-space characters that starts `s`.
pub open spec fn run_len(s: Seq<char>) -> nat
    decreases s.len(),
{
    if s.len() == 0 || is_white_space(s[0]) {
        0
    } else {
        1 + run_len(s.drop_first())
    }
}

/// A leading run is no longer than the text, and is not empty when the text
/// starts with a non-white-space character.
pub proof fn lemma_run_len_bound(s: Seq<char>)
    ensures
        run_len(s) <= s.len(),
        s.len() > 0 && !is_white_space(s[0]) ==> run_len(s) >= 1,
    decreases s.len(),
{
    if s.len() > 0 && !is_white_space(s[0]) {
        lemma_run_len_bound(s.drop_first());
    }
}

/// The words of a text: its maximal runs of non-white-space characters, in
/// order (what `str::split_whitespace` yields).
pub open spec fn words(s: Seq<char>) -> Seq<Seq<char>>
    decreases s.len(),
{
    if s.len() == 0 {
        seq![]
    } else if is_white_space(s[0]) {
        words(s.drop_first())
    } else {
        proof {
            lemma_run_len_bound(s);
        }
        let n = run_len(s) as int;
        seq![s.take(n)] + words(s.skip(n))
    }
}

/// The character sequences of some string slices.
pub open spec fn str_views(v: Seq<&str>) -> Seq<Seq<char>> {
    v.map_values(|w: &str| w@)
}

/// `run_len` of a text whose first `m` characters are not white space and
/// whose next character, if any, is.
pub proof fn lemma_run_len_exact(s: Seq<char>, m: int)
    requires
        0 <= m <= s.len(),
        forall|k: int| 0 <= k < m ==> !is_white_space(#[trigger] s[k]),
        m < s.len() ==> is_white_space(s[m]),
    ensures
        run_len(s) == m,
    decreases m,
{
    if m > 0 {
        let t = s.drop_first();
        assert forall|k: int| 0 <= k < m - 1 implies !is_white_space(#[trigger] t[k]) by {
            assert(t[k] == s[k + 1]);
        }
        if m - 1 < t.len() {
            assert(t[m - 1] == s[m]);
        }
        lemma_run_len_exact(t, m - 1);
    }
}

/// A text has no words exactly when all its characters are white space.
pub proof fn lemma_no_words_iff_blank(s: Seq<char>)
    ensures
        words(s).len() == 0 <==> forall|i: int| 0 <= i < s.len() ==> is_white_space(#[trigger] s[i]),
    decreases s.len(),
{
    if s.len() > 0 {
        let t = s.drop_first();
        lemma_no_words_iff_blank(t);
        if is_white_space(s[0]) {
            if forall|i: int| 0 <= i < t.len() ==> is_white_space(#[trigger] t[i]) {
                assert forall|i: int| 0 <= i < s.len() implies is_white_space(#[trigger] s[i]) by {
                    if i > 0 {
                        assert(s[i] == t[i - 1]);
                    }
                }
            } else {
                let j = choose|j: int| 0 <= j < t.len() && !is_white_space(#[trigger] t[j]);
                assert(s[j + 1] == t[j]);
            }
        } else {
            lemma_run_len_bound(s);
        }
    }
}

/// White space in front of a text does not change its words.
pub proof fn lemma_words_skip_leading_space(c: char, s: Seq<char>)
    requires
        is_white_space(c),
    ensures
        words(seq![c] + s) == words(s),
{
    assert((seq![c] + s).drop_first() =~= s);
}

/// A non-empty text without white space is one word.
pub proof fn lemma_single_word(w: Seq<char>)
    requires
        w.len() > 0,
        forall|k: int| 0 <= k < w.len() ==> !is_white_space(#[trigger] w[k]),
    ensures
        words(w) == seq![w],
{
    lemma_run_len_exact(w, w.len() as int);
    assert(!is_white_space(w[0]));
    assert(w.take(w.len() as int) =~= w);
    assert(w.skip(w.len() as int) =~= Seq::<char>::empty());
    assert(words(Seq::<char>::empty()) =~= Seq::<Seq<char>>::empty());
    assert(words(w) == seq![w.take(w.len() as int)] + words(w.skip(w.len() as int)));
    assert(seq![w] + Seq::<Seq<char>>::empty() =~= seq![w]);
}

/// A word, a white-space character, then a text: the word comes first, then
/// the words of the text.
pub proof fn lemma_words_after_first(w: Seq<char>, c: char, s: Seq<char>)
    requires
        w.len() > 0,
        forall|k: int| 0 <= k < w.len() ==> !is_white_space(#[trigger] w[k]),
        is_white_space(c),
    ensures
        words(w + seq![c] + s) == seq![w] + words(s),
{
    let t = w + seq![c] + s;
    assert forall|k: int| 0 <= k < w.len() implies !is_white_space(#[trigger] t[k]) by {
        assert(t[k] == w[k]);
    }
    assert(t[w.len() as int] == c);
    lemma_run_len_exact(t, w.len() as int);
    assert(t[0] == w[0]);
    assert(t.take(w.len() as int) =~= w);
    assert(t.skip(w.len() as int) =~= seq![c] + s);
    lemma_words_skip_leading_space(c, s);
}

/// Splits a text into its words (maximal runs of non-white-space
/// characters), in order.
pub fn split_whitespace<'a>(s: &'a str) -> (res: Vec<&'a str>)
    ensures
        str_views(res@) == words(s@),
{
    let n = s.unicode_len();
    let mut out: Vec<&'a str> = Vec::new();
    let mut i: usize = 0;
    proof {
        assert(s@.skip(0) =~= s@);
        assert(str_views(out@) =~= Seq::<Seq<char>>::empty());
    }
    while i < n
        invariant
            i <= n,
            n == s@.len(),
            words(s@) == str_views(out@) + words(s@.skip(i as int)),
        decreases n - i,
    {
        let c = s.get_char(i);
        if is_whitespace(c) {
            proof {
                let t = s@.skip(i as int);
                assert(t[0] == c);
                assert(t.drop_first() =~= s@.skip(i + 1));
            }
            i = i + 1;
        } else {
            let mut j: usize = i + 1;
            while j < n && !is_whitespace(s.get_char(j))
                invariant
                    i < j <= n,
                    n == s@.len(),
                    forall|k: int| i <= k < j ==> !is_white_space(#[trigger] s@[k]),
                decreases n - j,
            {
                j = j + 1;
            }
            let word = s.substring_char(i, j);
            proof {
                let t = s@.skip(i as int);
                assert forall|k: int| 0 <= k < j - i implies !is_white_space(#[trigger] t[k]) by {
                    assert(t[k] == s@[i + k]);
                }
                if j < n {
                    assert(t[j - i] == s@[j as int]);
                }
                lemma_run_len_exact(t, j - i);
                assert(t[0] == c);
                assert(t.take(j - i) =~= s@.subrange(i as int, j as int));
                assert(t.skip(j - i) =~= s@.skip(j as int));
                assert(words(t) == seq![word@] + words(s@.skip(j as int)));
            }
            let ghost before = out@;
            out.push(word);
            proof {
                assert(str_views(out@) =~= str_views(before) + seq![word@]);
                assert(str_views(before) + seq![word@] + words(s@.skip(j as int)) =~= str_views(before)
                    + (seq![word@] + words(s@.skip(j as int))));
            }
            i = j;
        }
    }
    proof {
        assert(s@.skip(n as int) =~= Seq::<char>::empty());
        assert(str_views(out@) + Seq::<Seq<char>>::empty() =~= str_views(out@));
    }
    out
}

/// Compares the characters of two strings.
pub fn str_eq(a: &str, b: &str) -> (res: bool)
    ensures
        res == (a@ == b@),
{
    let la = a.unicode_len();
    let lb = b.unicode_len();
    if la != lb {
        return false;
    }
    let mut i: usize = 0;
    while i < la
        invariant
            i <= la,
            la == a@.len(),
            lb == b@.len(),
            la == lb,
            forall|k: int| 0 <= k < i ==> a@[k] == b@[k],
        decreases la - i,
    {
        if a.get_char(i) != b.get_char(i) {
            return false;
        }
        i = i + 1;
    }
    assert(a@ =~= b@);
    true
}

} // verus!
