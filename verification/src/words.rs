//! Splitting text into whitespace-separated words and joining words with single spaces.
use vstd::prelude::*;
use crate::chars::{ascii_lower, chars_of, copy_range, is_white, is_whitespace, string_from_chars, to_ascii_lowercase};

verus! {

/// The words of `s`: its maximal runs of characters that are not Unicode
/// white space, in order (what `str::split_whitespace` yields).
pub open spec fn words(s: Seq<char>) -> Seq<Seq<char>>
    decreases s.len(),
{
    if s.len() == 0 {
        Seq::empty()
    } else {
        let before = words(s.drop_last());
        let c = s.last();
        if is_white(c) {
            before
        } else if s.len() >= 2 && !is_white(s[s.len() - 2]) {
            before.update(before.len() - 1, before.last().push(c))
        } else {
            before.push(seq![c])
        }
    }
}

/// `words` joined with one space between neighbours.
pub open spec fn join_words(ws: Seq<Seq<char>>) -> Seq<char>
    decreases ws.len(),
{
    if ws.len() == 0 {
        Seq::empty()
    } else if ws.len() == 1 {
        ws[0]
    } else {
        join_words(ws.drop_last()) + seq![' '] + ws.last()
    }
}

/// A word as `split_whitespace` yields it: not empty and free of white space.
pub open spec fn is_word(w: Seq<char>) -> bool {
    w.len() > 0 && forall|j: int| 0 <= j < w.len() ==> !is_white(#[trigger] w[j])
}

/// `s` with every run of white space collapsed to one space and none at either end.
pub open spec fn normalized(s: Seq<char>) -> Seq<char> {
    join_words(words(s))
}

/// Every word that `words` yields is a word: non-empty and without white space.
/// Moreover the last word reaches the end of the text exactly when the text
/// ends in a non-space character.
pub proof fn lemma_words_are_words(s: Seq<char>)
    ensures
        forall|k: int| 0 <= k < words(s).len() ==> is_word(#[trigger] words(s)[k]),
        s.len() > 0 && !is_white(s.last()) ==> words(s).len() > 0,
    decreases s.len(),
{
    if s.len() > 0 {
        lemma_words_are_words(s.drop_last());
        let before = words(s.drop_last());
        let c = s.last();
        if is_white(c) {
        } else if s.len() >= 2 && !is_white(s[s.len() - 2]) {
            assert(s.drop_last().last() == s[s.len() - 2]);
            let w = before.last().push(c);
            assert(is_word(before[before.len() - 1]));
            assert forall|j: int| 0 <= j < w.len() implies !is_white(#[trigger] w[j]) by {
                if j < w.len() - 1 {
                    assert(w[j] == before[before.len() - 1][j]);
                }
            }
            assert forall|k: int| 0 <= k < words(s).len() implies is_word(#[trigger] words(s)[k]) by {
                if k < before.len() - 1 {
                    assert(words(s)[k] == before[k]);
                }
            }
        } else {
            assert forall|k: int| 0 <= k < words(s).len() implies is_word(#[trigger] words(s)[k]) by {
                if k < before.len() {
                    assert(words(s)[k] == before[k]);
                } else {
                    assert(words(s)[k] == seq![c]);
                }
            }
        }
    }
}

/// Appending a space and then a word to a text appends exactly that word to its words.
proof fn lemma_words_append_word(a: Seq<char>, w: Seq<char>)
    requires
        is_word(w),
    ensures
        words(a + seq![' '] + w) == words(a).push(w),
    decreases w.len(),
{
    let sp = a + seq![' '];
    assert(sp.drop_last() =~= a);
    assert(is_white(' '));
    assert(words(sp) == words(a));
    if w.len() == 1 {
        let t = sp + w;
        assert(t.drop_last() =~= sp);
        assert(t.last() == w[0]);
        assert(t[t.len() - 2] == ' ');
        assert(seq![w[0]] =~= w);
    } else {
        let w0 = w.drop_last();
        assert(is_word(w0)) by {
            assert forall|j: int| 0 <= j < w0.len() implies !is_white(#[trigger] w0[j]) by {
                assert(w0[j] == w[j]);
            }
        }
        lemma_words_append_word(a, w0);
        let t = sp + w;
        assert(t.drop_last() =~= sp + w0);
        assert(t.last() == w.last());
        assert(t[t.len() - 2] == w[w.len() - 2]);
        assert(!is_white(w[w.len() - 2]));
        let before = words(sp + w0);
        assert(before == words(a).push(w0));
        assert(before.update(before.len() - 1, before.last().push(w.last())) =~= words(a).push(w)) by {
            assert(w0.push(w.last()) =~= w);
        }
    }
}

/// The words of a single word are that word alone.
proof fn lemma_words_of_word(w: Seq<char>)
    requires
        is_word(w),
    ensures
        words(w) == seq![w],
    decreases w.len(),
{
    assert(!is_white(w[w.len() - 1]));
    if w.len() == 1 {
        assert(w.drop_last() =~= Seq::<char>::empty());
        assert(words(w.drop_last()) == Seq::<Seq<char>>::empty());
        assert(seq![w.last()] =~= w);
    } else {
        let w0 = w.drop_last();
        assert(is_word(w0)) by {
            assert forall|j: int| 0 <= j < w0.len() implies !is_white(#[trigger] w0[j]) by {
                assert(w0[j] == w[j]);
            }
        }
        lemma_words_of_word(w0);
        assert(w[w.len() - 2] == w0.last());
        assert(!is_white(w[w.len() - 2]));
        assert(w0.push(w.last()) =~= w);
        assert(seq![w0].update(0, w0.push(w.last())) =~= seq![w]);
    }
}

/// Joining words with single spaces and splitting again gives the words back.
pub proof fn lemma_words_of_join(ws: Seq<Seq<char>>)
    requires
        forall|k: int| 0 <= k < ws.len() ==> is_word(#[trigger] ws[k]),
    ensures
        words(join_words(ws)) == ws,
    decreases ws.len(),
{
    if ws.len() == 0 {
    } else if ws.len() == 1 {
        assert(is_word(ws[0]));
        lemma_words_of_word(ws[0]);
        assert(seq![ws[0]] =~= ws);
    } else {
        let init = ws.drop_last();
        assert forall|k: int| 0 <= k < init.len() implies is_word(#[trigger] init[k]) by {
            assert(init[k] == ws[k]);
        }
        lemma_words_of_join(init);
        assert(is_word(ws.last()));
        lemma_words_append_word(join_words(init), ws.last());
        assert(init.push(ws.last()) =~= ws);
    }
}

/// Normalizing white space twice is the same as normalizing it once.
pub proof fn lemma_normalized_idempotent(s: Seq<char>)
    ensures
        normalized(normalized(s)) == normalized(s),
{
    lemma_words_are_words(s);
    lemma_words_of_join(words(s));
}

/// The character sequences held by a vector of character vectors.
pub open spec fn views(ws: Seq<Vec<char>>) -> Seq<Seq<char>> {
    ws.map_values(|w: Vec<char>| w@)
}

/// The words of `s`, as `str::split_whitespace` splits them.
pub fn split_words(s: &[char]) -> (ws: Vec<Vec<char>>)
    ensures
        views(ws@) == words(s@),
{
    let mut done: Vec<Vec<char>> = Vec::new();
    let mut cur: Vec<char> = Vec::new();
    let mut i: usize = 0;
    while i < s.len()
        invariant
            i <= s.len(),
            cur@.len() > 0 <==> (i > 0 && !is_white(s@[i - 1])),
            words(s@.take(i as int)) == (if cur@.len() > 0 {
                views(done@).push(cur@)
            } else {
                views(done@)
            }),
        decreases s.len() - i,
    {
        let c = s[i];
        let ghost prev = s@.take(i as int);
        let ghost next = s@.take(i + 1);
        assert(next.drop_last() =~= prev);
        assert(next.last() == c);
        if is_whitespace(c) {
            if cur.len() > 0 {
                let ghost before = views(done@);
                let word = cur;
                cur = Vec::new();
                done.push(word);
                assert(views(done@) =~= before.push(word@));
            }
        } else {
            let ghost before = views(done@);
            let ghost old_cur = cur@;
            let had_word = cur.len() > 0;
            if had_word {
                assert(next[next.len() - 2] == s@[i - 1]);
            }
            cur.push(c);
            if had_word {
                assert(words(prev) == before.push(old_cur));
                assert(words(next) == before.push(old_cur).update(before.len() as int, old_cur.push(c)));
                assert(before.push(old_cur).update(before.len() as int, old_cur.push(c)) =~= before.push(cur@));
            } else {
                assert(words(next) == before.push(seq![c]));
                assert(cur@ =~= seq![c]);
            }
        }
        i = i + 1;
    }
    assert(s@.take(s.len() as int) =~= s@);
    if cur.len() > 0 {
        let ghost before = views(done@);
        let ghost last = cur@;
        done.push(cur);
        assert(views(done@) =~= before.push(last));
    }
    done
}

/// The words `ws` joined with single spaces.
pub fn join_with_spaces(ws: &[Vec<char>]) -> (out: Vec<char>)
    ensures
        out@ == join_words(views(ws@)),
{
    let mut out: Vec<char> = Vec::new();
    let mut k: usize = 0;
    while k < ws.len()
        invariant
            k <= ws.len(),
            out@ == join_words(views(ws@).take(k as int)),
        decreases ws.len() - k,
    {
        let ghost before = out@;
        if k > 0 {
            out.push(' ');
        }
        let mut j: usize = 0;
        let ghost mid = out@;
        let word = &ws[k];
        while j < word.len()
            invariant
                word == ws[k as int],
                j <= ws[k as int].len(),
                out@ == mid + ws[k as int]@.take(j as int),
            decreases ws[k as int].len() - j,
        {
            out.push(word[j]);
            assert(ws[k as int]@.take(j + 1) =~= ws[k as int]@.take(j as int).push(ws[k as int]@[j as int]));
            j = j + 1;
        }
        assert(ws[k as int]@.take(j as int) =~= ws[k as int]@);
        let ghost taken = views(ws@).take(k + 1);
        assert(taken.drop_last() =~= views(ws@).take(k as int));
        assert(taken.last() == ws[k as int]@);
        if k == 0 {
            assert(out@ =~= taken[0]);
        } else {
            assert(out@ =~= before + seq![' '] + ws[k as int]@);
        }
        k = k + 1;
    }
    assert(views(ws@).take(ws.len() as int) =~= views(ws@));
    out
}

/// `text` with its white space normalized: words separated by one space, none at the ends.
pub fn normalize_whitespace(text: &str) -> (out: String)
    ensures
        out@ == normalized(text@),
{
    let cs = crate::chars::chars_of(text);
    let ws = split_words(cs.as_slice());
    let joined = join_with_spaces(ws.as_slice());
    crate::chars::string_from_chars(joined.as_slice())
}

// --------------------------------------------------------------------- trimming

/// How many characters at the start of `s` are white space.
pub open spec fn leading_white(s: Seq<char>) -> nat
    decreases s.len(),
{
    if s.len() == 0 || !is_white(s[0]) {
        0
    } else {
        1 + leading_white(s.drop_first())
    }
}

/// How many characters at the end of `s` are white space.
pub open spec fn trailing_white(s: Seq<char>) -> nat
    decreases s.len(),
{
    if s.len() == 0 || !is_white(s.last()) {
        0
    } else {
        1 + trailing_white(s.drop_last())
    }
}

/// `s` without white space at either end (`str::trim`).
pub open spec fn trimmed(s: Seq<char>) -> Seq<char> {
    if leading_white(s) == s.len() {
        Seq::empty()
    } else {
        s.subrange(leading_white(s) as int, s.len() - trailing_white(s))
    }
}

proof fn lemma_leading_white_props(s: Seq<char>)
    ensures
        leading_white(s) <= s.len(),
        forall|j: int| 0 <= j < leading_white(s) ==> is_white(#[trigger] s[j]),
        leading_white(s) < s.len() ==> !is_white(s[leading_white(s) as int]),
    decreases s.len(),
{
    if s.len() > 0 && is_white(s[0]) {
        let t = s.drop_first();
        lemma_leading_white_props(t);
        assert forall|j: int| 0 <= j < leading_white(s) implies is_white(#[trigger] s[j]) by {
            if j > 0 {
                assert(s[j] == t[j - 1]);
            }
        }
        if leading_white(s) < s.len() {
            assert(s[leading_white(s) as int] == t[leading_white(t) as int]);
        }
    }
}

proof fn lemma_trailing_white_props(s: Seq<char>)
    ensures
        trailing_white(s) <= s.len(),
        forall|j: int| s.len() - trailing_white(s) <= j < s.len() ==> is_white(#[trigger] s[j]),
        trailing_white(s) < s.len() ==> !is_white(s[s.len() - trailing_white(s) - 1]),
    decreases s.len(),
{
    if s.len() > 0 && is_white(s.last()) {
        let t = s.drop_last();
        lemma_trailing_white_props(t);
        assert forall|j: int| s.len() - trailing_white(s) <= j < s.len() implies is_white(#[trigger] s[j]) by {
            if j < s.len() - 1 {
                assert(s[j] == t[j]);
            }
        }
        if trailing_white(s) < s.len() {
            assert(s[s.len() - trailing_white(s) - 1] == t[t.len() - trailing_white(t) - 1]);
        }
    }
}

/// The leading and trailing white runs overlap only when `s` is all white space.
pub proof fn lemma_trim_white_bounds(s: Seq<char>)
    ensures
        leading_white(s) <= s.len(),
        trailing_white(s) <= s.len(),
        leading_white(s) < s.len() ==> leading_white(s) + trailing_white(s) < s.len(),
{
    lemma_leading_white_props(s);
    lemma_trailing_white_props(s);
    if leading_white(s) < s.len() && leading_white(s) + trailing_white(s) >= s.len() {
        assert(!is_white(s[leading_white(s) as int]));
    }
}

/// A trimmed text is empty exactly when the text is all white space.
pub proof fn lemma_trimmed_empty(s: Seq<char>)
    ensures
        (trimmed(s).len() == 0) == (forall|j: int| 0 <= j < s.len() ==> is_white(#[trigger] s[j])),
{
    lemma_leading_white_props(s);
    lemma_trim_white_bounds(s);
    if leading_white(s) == s.len() {
    } else {
        assert(!is_white(s[leading_white(s) as int]));
    }
}

fn leading_white_count(s: &[char]) -> (n: usize)
    ensures
        n == leading_white(s@),
{
    let mut i: usize = 0;
    assert(s@.skip(0) =~= s@);
    while i < s.len() && is_whitespace(s[i])
        invariant
            i <= s.len(),
            leading_white(s@) == i + leading_white(s@.skip(i as int)),
        decreases s.len() - i,
    {
        assert(s@.skip(i as int).drop_first() =~= s@.skip(i + 1));
        assert(s@.skip(i as int)[0] == s@[i as int]);
        i = i + 1;
    }
    if i < s.len() {
        assert(s@.skip(i as int)[0] == s@[i as int]);
    }
    i
}

fn trailing_white_count(s: &[char]) -> (n: usize)
    ensures
        n == trailing_white(s@),
{
    let mut j: usize = s.len();
    assert(s@.take(j as int) =~= s@);
    while j > 0 && is_whitespace(s[j - 1])
        invariant
            j <= s.len(),
            trailing_white(s@) == (s.len() - j) + trailing_white(s@.take(j as int)),
        decreases j,
    {
        assert(s@.take(j as int).drop_last() =~= s@.take(j - 1));
        assert(s@.take(j as int).last() == s@[j - 1]);
        j = j - 1;
    }
    if j > 0 {
        assert(s@.take(j as int).last() == s@[j - 1]);
    }
    (s.len() - j) as usize
}

/// The characters of `s` without white space at either end.
pub fn trim_chars(s: &[char]) -> (t: Vec<char>)
    ensures
        t@ == trimmed(s@),
{
    let lead = leading_white_count(s);
    let trail = trailing_white_count(s);
    proof {
        lemma_trim_white_bounds(s@);
    }
    if lead == s.len() {
        return Vec::new();
    }
    copy_range(s, lead, s.len() - trail)
}

/// `s` without white space at either end (`str::trim`).
pub fn trim(s: &str) -> (t: String)
    ensures
        t@ == trimmed(s@),
{
    let cs = chars_of(s);
    let t = trim_chars(cs.as_slice());
    string_from_chars(t.as_slice())
}

/// Whether `s` is empty or all white space (`s.trim().is_empty()`).
pub fn is_blank(s: &str) -> (blank: bool)
    ensures
        blank == (trimmed(s@).len() == 0),
{
    let t = trim(s);
    t.as_str().is_empty()
}

/// ASCII lower-casing of a whole text (`str::to_ascii_lowercase`).
pub open spec fn ascii_lowercase(s: Seq<char>) -> Seq<char> {
    s.map_values(|c: char| ascii_lower(c))
}

pub fn to_ascii_lowercase_str(s: &str) -> (t: String)
    ensures
        t@ == ascii_lowercase(s@),
{
    let cs = chars_of(s);
    let mut out: Vec<char> = Vec::new();
    let mut i: usize = 0;
    while i < cs.len()
        invariant
            i <= cs.len(),
            cs@ == s@,
            out@ == ascii_lowercase(s@.take(i as int)),
        decreases cs.len() - i,
    {
        out.push(to_ascii_lowercase(cs[i]));
        assert(ascii_lowercase(s@.take(i + 1)) =~= ascii_lowercase(s@.take(i as int)).push(ascii_lower(s@[i as int])));
        i = i + 1;
    }
    assert(s@.take(cs.len() as int) =~= s@);
    string_from_chars(out.as_slice())
}

// ------------------------------------------------------------------ searching

/// Whether `needle` occurs in `hay` as a contiguous run (`str::contains`).
pub open spec fn occurs_in(hay: Seq<char>, needle: Seq<char>) -> bool {
    exists|i: int| 0 <= i <= hay.len() - needle.len() && #[trigger] hay.subrange(i, i + needle.len()) == needle
}

fn matches_at(hay: &[char], needle: &[char], at: usize) -> (m: bool)
    requires
        at + needle.len() <= hay.len(),
    ensures
        m == (hay@.subrange(at as int, at + needle.len()) == needle@),
{
    let mut j: usize = 0;
    while j < needle.len()
        invariant
            at + needle.len() <= hay.len(),
            j <= needle.len(),
            forall|k: int| 0 <= k < j ==> hay@[at + k] == needle@[k],
        decreases needle.len() - j,
    {
        if hay[at + j] != needle[j] {
            assert(hay@.subrange(at as int, at + needle.len())[j as int] != needle@[j as int]);
            return false;
        }
        j = j + 1;
    }
    assert(hay@.subrange(at as int, at + needle.len()) =~= needle@);
    true
}

/// Whether `needle` occurs in `hay`.
pub fn contains_str(hay: &str, needle: &str) -> (found: bool)
    ensures
        found == occurs_in(hay@, needle@),
{
    let h = chars_of(hay);
    let n = chars_of(needle);
    if n.len() > h.len() {
        return false;
    }
    let last = h.len() - n.len();
    let mut at: usize = 0;
    loop
        invariant
            h@ == hay@,
            n@ == needle@,
            last == h.len() - n.len(),
            at <= last,
            forall|i: int| 0 <= i < at ==> #[trigger] hay@.subrange(i, i + needle@.len()) != needle@,
        decreases last - at,
    {
        if matches_at(h.as_slice(), n.as_slice(), at) {
            return true;
        }
        if at == last {
            return false;
        }
        at = at + 1;
    }
}

/// Whether two texts are equal.
pub fn str_eq(a: &str, b: &str) -> (eq: bool)
    ensures
        eq == (a@ == b@),
{
    let x = chars_of(a);
    let y = chars_of(b);
    crate::chars::chars_eq(x.as_slice(), y.as_slice())
}

// ------------------------------------------------------- joining, cleaning

/// `ws` joined with `sep` between neighbours.
pub open spec fn join_sep(ws: Seq<Seq<char>>, sep: Seq<char>) -> Seq<char>
    decreases ws.len(),
{
    if ws.len() == 0 {
        Seq::empty()
    } else if ws.len() == 1 {
        ws[0]
    } else {
        join_sep(ws.drop_last(), sep) + sep + ws.last()
    }
}

/// The character sequences of a list of strings.
pub open spec fn string_seqs(ss: Seq<String>) -> Seq<Seq<char>> {
    ss.map_values(|s: String| s@)
}

/// The trimmed, non-empty entries of a word list, in order.
pub open spec fn cleaned(ws: Seq<Seq<char>>) -> Seq<Seq<char>> {
    ws.map_values(|w: Seq<char>| trimmed(w)).filter(|w: Seq<char>| w.len() > 0)
}

/// Every entry of `words` trimmed of white space, dropping those left empty.
pub fn clean_words(words: &[String]) -> (out: Vec<String>)
    ensures
        string_seqs(out@) == cleaned(string_seqs(words@)),
{
    let ghost src = string_seqs(words@);
    let ghost trimmed_all = src.map_values(|w: Seq<char>| trimmed(w));
    let ghost keep = |w: Seq<char>| w.len() > 0;
    let mut out: Vec<String> = Vec::new();
    let mut i: usize = 0;
    while i < words.len()
        invariant
            i <= words.len(),
            src == string_seqs(words@),
            trimmed_all == src.map_values(|w: Seq<char>| trimmed(w)),
            keep == (|w: Seq<char>| w.len() > 0),
            string_seqs(out@) == trimmed_all.take(i as int).filter(keep),
        decreases words.len() - i,
    {
        let t = trim(words[i].as_str());
        let ghost tv = trimmed_all[i as int];
        assert(t@ == tv);
        proof {
            assert(trimmed_all.take(i + 1) =~= trimmed_all.take(i as int).push(tv));
            trimmed_all.take(i as int).lemma_filter_push(tv, keep);
        }
        if !t.as_str().is_empty() {
            let ghost before = string_seqs(out@);
            out.push(t);
            assert(string_seqs(out@) =~= before.push(tv));
        }
        i = i + 1;
    }
    assert(trimmed_all.take(words.len() as int) =~= trimmed_all);
    out
}

/// The strings `ws` joined with `sep` between neighbours.
pub fn join_strings(ws: &[String], sep: &str) -> (out: String)
    ensures
        out@ == join_sep(string_seqs(ws@), sep@),
{
    let mut out = String::new();
    let mut k: usize = 0;
    while k < ws.len()
        invariant
            k <= ws.len(),
            out@ == join_sep(string_seqs(ws@).take(k as int), sep@),
        decreases ws.len() - k,
    {
        let ghost before = out@;
        let ghost taken = string_seqs(ws@).take(k + 1);
        assert(taken.drop_last() =~= string_seqs(ws@).take(k as int));
        assert(taken.last() == ws@[k as int]@);
        if k > 0 {
            out.append(sep);
        }
        out.append(ws[k].as_str());
        if k == 0 {
            assert(out@ =~= taken[0]);
        }
        k = k + 1;
    }
    assert(string_seqs(ws@).take(ws.len() as int) =~= string_seqs(ws@));
    out
}

/// Whether `s` begins with `prefix` (`str::starts_with`).
pub open spec fn has_prefix(s: Seq<char>, prefix: Seq<char>) -> bool {
    prefix.len() <= s.len() && s.take(prefix.len() as int) == prefix
}

pub fn starts_with(s: &str, prefix: &str) -> (r: bool)
    ensures
        r == has_prefix(s@, prefix@),
{
    let a = chars_of(s);
    let p = chars_of(prefix);
    if p.len() > a.len() {
        return false;
    }
    let mut i: usize = 0;
    while i < p.len()
        invariant
            p.len() <= a.len(),
            a@ == s@,
            p@ == prefix@,
            i <= p.len(),
            forall|k: int| 0 <= k < i ==> a@[k] == p@[k],
        decreases p.len() - i,
    {
        if a[i] != p[i] {
            assert(s@.take(prefix@.len() as int)[i as int] != prefix@[i as int]);
            return false;
        }
        i = i + 1;
    }
    assert(s@.take(prefix@.len() as int) =~= prefix@);
    true
}

} // verus!
