//! Character-level text rules: ASCII case mapping and the whitespace class
//! used when a species name is split into words.

use vstd::prelude::*;

verus! {

/// The whitespace characters that separate words of a species name.
pub open spec fn is_space(c: char) -> bool {
    c == ' ' || c == '\t' || c == '\n' || c == '\r'
}

/// ASCII lower-casing of one character; other characters are unchanged.
pub open spec fn lower_char(c: char) -> char {
    if 'A' <= c && c <= 'Z' {
        (((c as u32) + 32) as u8) as char
    } else {
        c
    }
}

/// ASCII upper-casing of one character; other characters are unchanged.
pub open spec fn upper_char(c: char) -> char {
    if 'a' <= c && c <= 'z' {
        (((c as u32) - 32) as u8) as char
    } else {
        c
    }
}

/// A string lower-cased character by character.
pub open spec fn lower_seq(s: Seq<char>) -> Seq<char> {
    Seq::new(s.len(), |i: int| lower_char(s[i]))
}

fn is_space_char(c: char) -> (r: bool)
    ensures
        r == is_space(c),
{
    c == ' ' || c == '\t' || c == '\n' || c == '\r'
}

fn to_lower_char(c: char) -> (r: char)
    ensures
        r == lower_char(c),
{
    if 'A' <= c && c <= 'Z' {
        let u: u32 = (c as u32) + 32;
        (u as u8) as char
    } else {
        c
    }
}

fn to_upper_char(c: char) -> (r: char)
    ensures
        r == upper_char(c),
{
    if 'a' <= c && c <= 'z' {
        let u: u32 = (c as u32) - 32;
        (u as u8) as char
    } else {
        c
    }
}

/// The number of leading non-space characters: the length of the word at the
/// head of `s`, zero when `s` is empty or starts with whitespace.
pub open spec fn word_len(s: Seq<char>) -> nat
    decreases s.len(),
{
    if s.len() == 0 || is_space(s[0]) {
        0
    } else {
        (1 + word_len(s.skip(1))) as nat
    }
}

pub proof fn lemma_word_len_le(s: Seq<char>)
    ensures
        word_len(s) <= s.len(),
    decreases s.len(),
{
    if s.len() != 0 && !is_space(s[0]) {
        lemma_word_len_le(s.skip(1));
    }
}

/// The whitespace-delimited words of `s`, in order.
pub open spec fn words_of(s: Seq<char>) -> Seq<Seq<char>>
    decreases s.len(),
    via words_of_decreases
{
    if s.len() == 0 {
        Seq::empty()
    } else if is_space(s[0]) {
        words_of(s.skip(1))
    } else {
        seq![s.take(word_len(s) as int)] + words_of(s.skip(word_len(s) as int))
    }
}

#[via_fn]
proof fn words_of_decreases(s: Seq<char>) {
    lemma_word_len_le(s);
}

/// A word with its first character upper-cased.
pub open spec fn capitalize(w: Seq<char>) -> Seq<char> {
    if w.len() == 0 {
        w
    } else {
        seq![upper_char(w[0])] + w.skip(1)
    }
}

/// Words rejoined with a single space between consecutive words.
pub open spec fn join_words(ws: Seq<Seq<char>>) -> Seq<char>
    decreases ws.len(),
{
    if ws.len() == 0 {
        Seq::empty()
    } else if ws.len() == 1 {
        ws[0]
    } else {
        ws[0] + seq![' '] + join_words(ws.skip(1))
    }
}

/// The display form of a species name: each whitespace-delimited word
/// capitalized, words rejoined with single spaces.
pub open spec fn display_name_of(s: Seq<char>) -> Seq<char> {
    join_words(words_of(s).map_values(|w: Seq<char>| capitalize(w)))
}

/// A description character with line breaks turned into spaces.
pub open spec fn clean_char(c: char) -> char {
    if c == '\n' {
        ' '
    } else {
        c
    }
}

/// A description with each embedded line break replaced by a single space.
pub open spec fn clean_text(s: Seq<char>) -> Seq<char> {
    Seq::new(s.len(), |i: int| clean_char(s[i]))
}

/// Every word `words_of` yields is non-empty.
pub proof fn lemma_words_nonempty(s: Seq<char>)
    ensures
        forall|k: int| 0 <= k < words_of(s).len() ==> #[trigger] words_of(s)[k].len() >= 1,
    decreases s.len(),
{
    lemma_word_len_le(s);
    if s.len() == 0 {
    } else if is_space(s[0]) {
        lemma_words_nonempty(s.skip(1));
        assert(words_of(s) == words_of(s.skip(1)));
        assert forall|k: int| 0 <= k < words_of(s).len() implies #[trigger] words_of(s)[k].len()
            >= 1 by {
            assert(words_of(s)[k] == words_of(s.skip(1))[k]);
        }
    } else {
        lemma_words_nonempty(s.skip(word_len(s) as int));
        assert forall|k: int| 0 <= k < words_of(s).len() implies #[trigger] words_of(s)[k].len()
            >= 1 by {
            if k == 0 {
                assert(words_of(s)[0] == s.take(word_len(s) as int));
                assert(word_len(s) >= 1);
                assert(s.take(word_len(s) as int).len() == word_len(s));
            } else {
                assert(words_of(s)[k] == words_of(s.skip(word_len(s) as int))[k - 1]);
            }
        }
    }
}

/// Joining a list of non-empty words yields the empty string only for the
/// empty list.
pub proof fn lemma_join_words_empty(ws: Seq<Seq<char>>)
    requires
        forall|k: int| 0 <= k < ws.len() ==> #[trigger] ws[k].len() >= 1,
    ensures
        join_words(ws).len() == 0 <==> ws.len() == 0,
{
    if ws.len() == 1 {
        assert(join_words(ws) == ws[0]);
    } else if ws.len() > 1 {
        assert(join_words(ws).len() >= ws[0].len());
    }
}

/// Relies on String::push: appends the given character to the end of the string.
#[verifier::external_body]
fn push_char(s: &mut String, c: char)
    ensures
        final(s)@ == old(s)@.push(c),
{
    s.push(c)
}

/// Lower-case a string, ASCII letter by ASCII letter.
pub fn lower_string(s: &str) -> (r: String)
    ensures
        r@ == lower_seq(s@),
{
    let n = s.unicode_len();
    let mut out = String::new();
    let mut i: usize = 0;
    while i < n
        invariant
            n == s@.len(),
            i <= n,
            out@.len() == i,
            forall|k: int| 0 <= k < i ==> out@[k] == lower_char(s@[k]),
        decreases n - i,
    {
        let c = s.get_char(i);
        push_char(&mut out, to_lower_char(c));
        i = i + 1;
    }
    assert(out@ =~= lower_seq(s@));
    out
}

/// Replace each embedded line break of a description by a single space.
pub fn clean_description(s: &str) -> (r: String)
    ensures
        r@ == clean_text(s@),
{
    let n = s.unicode_len();
    let mut out = String::new();
    let mut i: usize = 0;
    while i < n
        invariant
            n == s@.len(),
            i <= n,
            out@.len() == i,
            forall|k: int| 0 <= k < i ==> out@[k] == clean_char(s@[k]),
        decreases n - i,
    {
        let c = s.get_char(i);
        if c == '\n' {
            push_char(&mut out, ' ');
        } else {
            push_char(&mut out, c);
        }
        i = i + 1;
    }
    assert(out@ =~= clean_text(s@));
    out
}

/// The end of the word starting at `i`: the first index at or after `i` that
/// holds whitespace, or the end of the string.
fn word_end(s: &str, i: usize, n: usize) -> (j: usize)
    requires
        n == s@.len(),
        i <= n,
    ensures
        i <= j <= n,
        j - i == word_len(s@.skip(i as int)),
    decreases n - i,
{
    proof {
        lemma_word_len_le(s@.skip(i as int));
    }
    if i == n {
        i
    } else if is_space_char(s.get_char(i)) {
        i
    } else {
        let j = word_end(s, i + 1, n);
        assert(s@.skip(i as int).skip(1) =~= s@.skip(i + 1));
        j
    }
}

/// Format the tail `s[i..]` of a species name: capitalized words joined by
/// single spaces.
fn format_words(s: &str, i: usize, n: usize) -> (r: String)
    requires
        n == s@.len(),
        i <= n,
    ensures
        r@ == display_name_of(s@.skip(i as int)),
    decreases n - i,
{
    let ghost tail = s@.skip(i as int);
    if i == n {
        let r = String::new();
        assert(tail =~= Seq::<char>::empty());
        assert(words_of(tail).map_values(|w: Seq<char>| capitalize(w)) =~= Seq::<Seq<char>>::empty());
        r
    } else if is_space_char(s.get_char(i)) {
        let r = format_words(s, i + 1, n);
        assert(tail.skip(1) =~= s@.skip(i + 1));
        r
    } else {
        proof {
            lemma_word_len_le(tail);
        }
        let j = word_end(s, i, n);
        let ghost wl = word_len(tail) as int;
        let ghost word = tail.take(wl);

        // Build the capitalized word.
        let mut out = String::new();
        push_char(&mut out, to_upper_char(s.get_char(i)));
        let mut k: usize = i + 1;
        while k < j
            invariant
                n == s@.len(),
                i < k <= j <= n,
                out@.len() == k - i,
                out@[0] == upper_char(s@[i as int]),
                forall|m: int| 1 <= m < k - i ==> out@[m] == s@[i + m],
            decreases j - k,
        {
            push_char(&mut out, s.get_char(k));
            k = k + 1;
        }
        assert(out@ =~= capitalize(word)) by {
            assert(word.len() == j - i);
            assert(word[0] == s@[i as int]);
            assert(forall|m: int| 1 <= m < word.len() ==> word[m] == s@[i + m]);
        }

        let rest = format_words(s, j, n);
        let ghost rest_tail = s@.skip(j as int);
        assert(tail.skip(wl) =~= rest_tail);

        let ghost caps = words_of(tail).map_values(|w: Seq<char>| capitalize(w));
        let ghost rest_caps = words_of(rest_tail).map_values(|w: Seq<char>| capitalize(w));
        proof {
            assert(words_of(tail) == seq![word] + words_of(rest_tail));
            assert(caps =~= seq![capitalize(word)] + rest_caps);
            lemma_words_nonempty(rest_tail);
            assert forall|m: int| 0 <= m < rest_caps.len() implies #[trigger] rest_caps[m].len()
                >= 1 by {
                assert(rest_caps[m] == capitalize(words_of(rest_tail)[m]));
            }
            lemma_join_words_empty(rest_caps);
        }

        if rest.as_str().is_empty() {
            assert(rest_caps.len() == 0);
            assert(caps =~= seq![capitalize(word)]);
            assert(join_words(caps) == capitalize(word));
            out
        } else {
            let mut joined = out;
            push_char(&mut joined, ' ');
            joined.append(rest.as_str());
            assert(rest_caps.len() >= 1);
            assert(caps.len() >= 2);
            assert(caps[0] == capitalize(word));
            assert(caps.skip(1) =~= rest_caps);
            assert(joined@ =~= capitalize(word) + seq![' '] + join_words(rest_caps));
            joined
        }
    }
}

/// The display form of a species name: each whitespace-delimited word
/// capitalized, words rejoined with single spaces.
pub fn format_display_name(s: &str) -> (r: String)
    ensures
        r@ == display_name_of(s@),
{
    let n = s.unicode_len();
    let r = format_words(s, 0, n);
    assert(s@.skip(0) =~= s@);
    r
}

} // verus!
