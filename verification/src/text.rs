//! Conservative clean-up of a final transcript: filler-word removal, white-space
//! normalization, and the string pieces of custom-word correction.
use vstd::prelude::*;
use crate::chars::{
    ascii_lower, chars_eq, chars_of, copy_range, is_alphanumeric, is_ascii_alnum, is_ascii_alphanumeric,
    string_from_chars, to_ascii_lowercase, to_lowercase, alphanumeric, lowercase, is_ascii_text,
};
use crate::words::{is_word, join_sep, join_strings, join_with_spaces, join_words, lemma_words_are_words, lemma_words_of_join, normalized, split_words, string_seqs, views, words};

verus! {

broadcast use vstd::seq_lib::group_seq_properties;

// ---------------------------------------------------------------- matching keys

/// The matching key of a word: its ASCII letters and digits, lower-cased.
pub open spec fn spec_key(s: Seq<char>) -> Seq<char> {
    s.filter(|c: char| is_ascii_alnum(c)).map_values(|c: char| ascii_lower(c))
}

/// The matching key of `value`: its ASCII letters and digits, lower-cased.
pub fn key_chars(value: &[char]) -> (k: Vec<char>)
    ensures
        k@ == spec_key(value@),
{
    let mut k: Vec<char> = Vec::new();
    let mut i: usize = 0;
    while i < value.len()
        invariant
            i <= value.len(),
            k@ == spec_key(value@.take(i as int)),
        decreases value.len() - i,
    {
        let c = value[i];
        let ghost pred = |c: char| is_ascii_alnum(c);
        let ghost low = |c: char| ascii_lower(c);
        assert(value@.take(i + 1) =~= value@.take(i as int).push(c));
        proof { value@.take(i as int).lemma_filter_push(c, pred); }
        if is_ascii_alphanumeric(c) {
            let lc = to_ascii_lowercase(c);
            let ghost before = value@.take(i as int).filter(pred);
            assert(before.push(c).map_values(low) =~= before.map_values(low).push(lc));
            k.push(lc);
        }
        i = i + 1;
    }
    assert(value@.take(value.len() as int) =~= value@);
    k
}

/// The matching key of `value`: its ASCII letters and digits, lower-cased.
pub fn key(value: &str) -> (k: String)
    ensures
        k@ == spec_key(value@),
{
    let cs = chars_of(value);
    let k = key_chars(cs.as_slice());
    string_from_chars(k.as_slice())
}

proof fn lemma_key_chars_are_lower_alnum(s: Seq<char>)
    ensures
        forall|j: int| 0 <= j < spec_key(s).len() ==> {
            &&& is_ascii_alnum(#[trigger] spec_key(s)[j])
            &&& ascii_lower(spec_key(s)[j]) == spec_key(s)[j]
        },
{
    let pred = |c: char| is_ascii_alnum(c);
    assert forall|j: int| 0 <= j < spec_key(s).len() implies {
        &&& is_ascii_alnum(#[trigger] spec_key(s)[j])
        &&& ascii_lower(spec_key(s)[j]) == spec_key(s)[j]
    } by {
        s.lemma_filter_pred(pred, j);
        let c = s.filter(pred)[j];
        assert(is_ascii_alnum(c));
        assert(spec_key(s)[j] == ascii_lower(c));
    }
}

proof fn lemma_fixed_by_key(t: Seq<char>)
    requires
        forall|j: int| 0 <= j < t.len() ==> is_ascii_alnum(#[trigger] t[j]) && ascii_lower(t[j]) == t[j],
    ensures
        spec_key(t) == t,
    decreases t.len(),
{
    let pred = |c: char| is_ascii_alnum(c);
    let low = |c: char| ascii_lower(c);
    if t.len() > 0 {
        let init = t.drop_last();
        assert forall|j: int| 0 <= j < init.len() implies is_ascii_alnum(#[trigger] init[j]) && ascii_lower(init[j]) == init[j] by {
            assert(init[j] == t[j]);
        }
        lemma_fixed_by_key(init);
        assert(init.push(t.last()) =~= t);
        init.lemma_filter_push(t.last(), pred);
        assert(is_ascii_alnum(t[t.len() - 1]));
        assert(init.filter(pred).push(t.last()).map_values(low) =~= init.filter(pred).map_values(low).push(low(t.last())));
    } else {
        reveal(Seq::filter);
        assert(spec_key(t) =~= t);
    }
}

/// Taking the key of a key changes nothing.
pub proof fn lemma_key_idempotent(s: Seq<char>)
    ensures
        spec_key(spec_key(s)) == spec_key(s),
{
    lemma_key_chars_are_lower_alnum(s);
    lemma_fixed_by_key(spec_key(s));
}

// ------------------------------------------------------------------ punctuation

/// How many characters at the start of `s` are not Unicode alphanumeric.
pub open spec fn leading_len(s: Seq<char>) -> nat
    decreases s.len(),
{
    if s.len() == 0 || alphanumeric(s[0]) {
        0
    } else {
        1 + leading_len(s.drop_first())
    }
}

/// How many characters at the end of `s` are not Unicode alphanumeric.
pub open spec fn trailing_len(s: Seq<char>) -> nat
    decreases s.len(),
{
    if s.len() == 0 || alphanumeric(s.last()) {
        0
    } else {
        1 + trailing_len(s.drop_last())
    }
}

/// `s` with every non-alphanumeric character removed from both ends
/// (`str::trim_matches(|c| !c.is_alphanumeric())`).
pub open spec fn trim_non_alnum(s: Seq<char>) -> Seq<char> {
    if leading_len(s) == s.len() {
        Seq::empty()
    } else {
        s.subrange(leading_len(s) as int, s.len() - trailing_len(s))
    }
}

proof fn lemma_leading_props(s: Seq<char>)
    ensures
        leading_len(s) <= s.len(),
        forall|j: int| 0 <= j < leading_len(s) ==> !alphanumeric(#[trigger] s[j]),
        leading_len(s) < s.len() ==> alphanumeric(s[leading_len(s) as int]),
    decreases s.len(),
{
    if s.len() > 0 && !alphanumeric(s[0]) {
        let t = s.drop_first();
        lemma_leading_props(t);
        assert forall|j: int| 0 <= j < leading_len(s) implies !alphanumeric(#[trigger] s[j]) by {
            if j > 0 {
                assert(s[j] == t[j - 1]);
            }
        }
        if leading_len(s) < s.len() {
            assert(s[leading_len(s) as int] == t[leading_len(t) as int]);
        }
    }
}

proof fn lemma_trailing_props(s: Seq<char>)
    ensures
        trailing_len(s) <= s.len(),
        forall|j: int| s.len() - trailing_len(s) <= j < s.len() ==> !alphanumeric(#[trigger] s[j]),
        trailing_len(s) < s.len() ==> alphanumeric(s[s.len() - trailing_len(s) - 1]),
    decreases s.len(),
{
    if s.len() > 0 && !alphanumeric(s.last()) {
        let t = s.drop_last();
        lemma_trailing_props(t);
        assert forall|j: int| s.len() - trailing_len(s) <= j < s.len() implies !alphanumeric(#[trigger] s[j]) by {
            if j < s.len() - 1 {
                assert(s[j] == t[j]);
            }
        }
        if trailing_len(s) < s.len() {
            assert(s[s.len() - trailing_len(s) - 1] == t[t.len() - trailing_len(t) - 1]);
        }
    }
}

/// The leading and the trailing non-alphanumeric runs overlap only when the
/// whole of `s` is non-alphanumeric.
proof fn lemma_trim_bounds(s: Seq<char>)
    ensures
        leading_len(s) <= s.len(),
        trailing_len(s) <= s.len(),
        leading_len(s) < s.len() ==> leading_len(s) + trailing_len(s) < s.len(),
{
    lemma_leading_props(s);
    lemma_trailing_props(s);
    if leading_len(s) < s.len() && leading_len(s) + trailing_len(s) >= s.len() {
        assert(alphanumeric(s[leading_len(s) as int]));
        assert(!alphanumeric(s[leading_len(s) as int]));
    }
}

fn leading_count(s: &[char]) -> (n: usize)
    ensures
        n == leading_len(s@),
{
    let mut i: usize = 0;
    while i < s.len() && !is_alphanumeric(s[i])
        invariant
            i <= s.len(),
            leading_len(s@) == i + leading_len(s@.skip(i as int)),
        decreases s.len() - i,
    {
        assert(s@.skip(i as int).drop_first() =~= s@.skip(i + 1));
        assert(s@.skip(i as int)[0] == s@[i as int]);
        i = i + 1;
    }
    if i < s.len() {
        assert(s@.skip(i as int)[0] == s@[i as int]);
    }
    i
}

fn trailing_count(s: &[char]) -> (n: usize)
    ensures
        n == trailing_len(s@),
{
    let mut j: usize = s.len();
    assert(s@.take(j as int) =~= s@);
    while j > 0 && !is_alphanumeric(s[j - 1])
        invariant
            j <= s.len(),
            trailing_len(s@) == (s.len() - j) + trailing_len(s@.take(j as int)),
        decreases j,
    {
        assert(s@.take(j as int).drop_last() =~= s@.take(j - 1));
        assert(s@.take(j as int).last() == s@[j - 1]);
        j = j - 1;
    }
    if j > 0 {
        assert(s@.take(j as int).last() == s@[j - 1]);
    }
    (s.len() - j) as usize
}

/// The punctuation around a word: the non-alphanumeric characters that open it
/// and those that close it. A word without letters or digits is both.
pub fn punctuation(value: &str) -> (res: (String, String))
    ensures
        res.0@ == value@.take(leading_len(value@) as int),
        res.1@ == value@.skip(value@.len() - trailing_len(value@)),
{
    let cs = chars_of(value);
    let lead = leading_count(cs.as_slice());
    let trail = trailing_count(cs.as_slice());
    proof {
        lemma_trim_bounds(value@);
    }
    let prefix_chars = copy_range(cs.as_slice(), 0, lead);
    let suffix_chars = copy_range(cs.as_slice(), cs.len() - trail, cs.len());
    assert(prefix_chars@ =~= value@.take(lead as int));
    assert(suffix_chars@ =~= value@.skip(value@.len() - trail));
    let prefix = string_from_chars(prefix_chars.as_slice());
    let suffix = string_from_chars(suffix_chars.as_slice());
    (prefix, suffix)
}

/// `s` with the non-alphanumeric characters at both ends removed.
fn trim_chars(s: &[char]) -> (t: Vec<char>)
    ensures
        t@ == trim_non_alnum(s@),
{
    let lead = leading_count(s);
    let trail = trailing_count(s);
    proof {
        lemma_trim_bounds(s@);
    }
    if lead == s.len() {
        return Vec::new();
    }
    copy_range(s, lead, s.len() - trail)
}

// -------------------------------------------------------------- filler words

/// The filler words removed when no custom list is configured.
pub open spec fn universal_fillers() -> Seq<Seq<char>> {
    seq![
        "uh"@, "uhm"@, "umm"@, "uhh"@, "uhhh"@, "ehh"@, "ehm"@, "ahm"@, "hmm"@, "hm"@, "mmm"@,
        "\u{445}\u{43c}"@, "\u{43c}\u{43c}\u{43c}"@,
    ]
}

/// A word as it is compared against filler lists: trimmed of punctuation, lower-cased.
pub open spec fn comparable_word(w: Seq<char>) -> Seq<char> {
    lowercase(trim_non_alnum(w))
}

/// Whether `w` is a filler: on the configured list (already lower-cased), or on
/// the universal list when nothing is configured.
pub open spec fn is_filler(w: Seq<char>, configured: Seq<Seq<char>>) -> bool {
    if configured.len() == 0 {
        universal_fillers().contains(comparable_word(w))
    } else {
        configured.contains(comparable_word(w))
    }
}

/// The custom filler list as it is compared: every entry lower-cased.
pub open spec fn configured_fillers(custom: Seq<Seq<char>>) -> Seq<Seq<char>> {
    custom.map_values(|f: Seq<char>| lowercase(f))
}

/// The test that keeps a word: it is not a filler for `configured`.
pub open spec fn not_filler(configured: Seq<Seq<char>>) -> spec_fn(Seq<char>) -> bool {
    |w: Seq<char>| !is_filler(w, configured)
}

/// The words of `text` that are not fillers.
pub open spec fn kept_words(text: Seq<char>, custom: Seq<Seq<char>>) -> Seq<Seq<char>> {
    words(text).filter(not_filler(configured_fillers(custom)))
}

/// Filler removal: when enabled, the non-filler words of `text` joined by single
/// spaces; otherwise `text` unchanged.
pub open spec fn spec_remove_fillers(text: Seq<char>, enabled: bool, custom: Seq<Seq<char>>) -> Seq<char> {
    if !enabled {
        text
    } else {
        join_words(kept_words(text, custom))
    }
}

/// Without a custom list, a word is a filler exactly when its trimmed,
/// lower-cased form is one of uh, uhm, umm, uhh, uhhh, ehh, ehm, ahm, hmm, hm,
/// mmm, хм or ммм.
pub proof fn built_in_fillers(w: Seq<char>)
    ensures
        is_filler(w, Seq::empty()) <==> seq![
            seq!['u', 'h'], seq!['u', 'h', 'm'], seq!['u', 'm', 'm'], seq!['u', 'h', 'h'],
            seq!['u', 'h', 'h', 'h'], seq!['e', 'h', 'h'], seq!['e', 'h', 'm'], seq!['a', 'h', 'm'],
            seq!['h', 'm', 'm'], seq!['h', 'm'], seq!['m', 'm', 'm'],
            seq!['\u{445}', '\u{43c}'], seq!['\u{43c}', '\u{43c}', '\u{43c}'],
        ].contains(comparable_word(w)),
{
    reveal_strlit("uh");
    reveal_strlit("uhm");
    reveal_strlit("umm");
    reveal_strlit("uhh");
    reveal_strlit("uhhh");
    reveal_strlit("ehh");
    reveal_strlit("ehm");
    reveal_strlit("ahm");
    reveal_strlit("hmm");
    reveal_strlit("hm");
    reveal_strlit("mmm");
    reveal_strlit("\u{445}\u{43c}");
    reveal_strlit("\u{43c}\u{43c}\u{43c}");
    assert("uh"@ =~= seq!['u', 'h']);
    assert("uhm"@ =~= seq!['u', 'h', 'm']);
    assert("umm"@ =~= seq!['u', 'm', 'm']);
    assert("uhh"@ =~= seq!['u', 'h', 'h']);
    assert("uhhh"@ =~= seq!['u', 'h', 'h', 'h']);
    assert("ehh"@ =~= seq!['e', 'h', 'h']);
    assert("ehm"@ =~= seq!['e', 'h', 'm']);
    assert("ahm"@ =~= seq!['a', 'h', 'm']);
    assert("hmm"@ =~= seq!['h', 'm', 'm']);
    assert("hm"@ =~= seq!['h', 'm']);
    assert("mmm"@ =~= seq!['m', 'm', 'm']);
    assert("\u{445}\u{43c}"@ =~= seq!['\u{445}', '\u{43c}']);
    assert("\u{43c}\u{43c}\u{43c}"@ =~= seq!['\u{43c}', '\u{43c}', '\u{43c}']);
    assert(universal_fillers() =~= seq![
        seq!['u', 'h'], seq!['u', 'h', 'm'], seq!['u', 'm', 'm'], seq!['u', 'h', 'h'],
        seq!['u', 'h', 'h', 'h'], seq!['e', 'h', 'h'], seq!['e', 'h', 'm'], seq!['a', 'h', 'm'],
        seq!['h', 'm', 'm'], seq!['h', 'm'], seq!['m', 'm', 'm'],
        seq!['\u{445}', '\u{43c}'], seq!['\u{43c}', '\u{43c}', '\u{43c}'],
    ]);
}

/// With filler removal on, a filler word followed by another word that is not
/// a filler leaves just that word.
pub proof fn a_filler_before_a_word_is_dropped(w: Seq<char>, x: Seq<char>, custom: Seq<Seq<char>>)
    requires
        is_word(w),
        is_word(x),
        is_filler(w, configured_fillers(custom)),
        !is_filler(x, configured_fillers(custom)),
    ensures
        spec_remove_fillers(w + seq![' '] + x, true, custom) == x,
{
    let ws = seq![w, x];
    assert(join_words(ws) == join_words(ws.drop_last()) + seq![' '] + ws.last());
    assert(ws.drop_last() =~= seq![w]);
    assert(join_words(ws) == w + seq![' '] + x);
    lemma_words_of_join(ws);
    let pred = not_filler(configured_fillers(custom));
    assert(ws =~= Seq::<Seq<char>>::empty().push(w).push(x));
    Seq::<Seq<char>>::empty().lemma_filter_push(w, pred);
    Seq::<Seq<char>>::empty().push(w).lemma_filter_push(x, pred);
    reveal_with_fuel(Seq::filter, 1);
    assert(Seq::<Seq<char>>::empty().filter(pred) =~= Seq::<Seq<char>>::empty());
    assert(kept_words(w + seq![' '] + x, custom) =~= seq![x]);
}

/// A word of lower-case ASCII letters is compared as it is.
pub proof fn lower_ascii_word_is_comparable(w: Seq<char>)
    requires
        w.len() > 0,
        forall|i: int| 0 <= i < w.len() ==> 'a' <= #[trigger] w[i] && w[i] <= 'z',
    ensures
        comparable_word(w) == w,
{
    let first = w[0];
    let last = w[w.len() - 1];
    assert('a' <= first && first <= 'z');
    assert('a' <= last && last <= 'z');
    assert(alphanumeric(first));
    assert(alphanumeric(w.last()));
    assert(leading_len(w) == 0);
    assert(trailing_len(w) == 0);
    assert(trim_non_alnum(w) =~= w);
    assert forall|i: int| 0 <= i < w.len() implies (#[trigger] w[i] as u32) < 128 by {
        assert('a' <= w[i] && w[i] <= 'z');
    }
    assert(is_ascii_text(w));
    assert forall|i: int| 0 <= i < w.len() implies #[trigger] ascii_lower(w[i]) == w[i] by {
        assert('a' <= w[i] && w[i] <= 'z');
    }
    assert(w.map_values(|c: char| ascii_lower(c)) =~= w);
}

/// Each built-in ASCII filler is removed when filler removal is on and no
/// custom list is set: "uh x", "umm x", and so on all become "x".
pub proof fn ascii_fillers_are_removed(k: int)
    requires
        0 <= k < 11,
    ensures
        ({
            let list = seq![
                seq!['u', 'h'], seq!['u', 'h', 'm'], seq!['u', 'm', 'm'], seq!['u', 'h', 'h'],
                seq!['u', 'h', 'h', 'h'], seq!['e', 'h', 'h'], seq!['e', 'h', 'm'], seq!['a', 'h', 'm'],
                seq!['h', 'm', 'm'], seq!['h', 'm'], seq!['m', 'm', 'm'],
            ];
            spec_remove_fillers(list[k] + seq![' ', 'x'], true, Seq::empty()) == seq!['x']
        }),
{
    let list = seq![
        seq!['u', 'h'], seq!['u', 'h', 'm'], seq!['u', 'm', 'm'], seq!['u', 'h', 'h'],
        seq!['u', 'h', 'h', 'h'], seq!['e', 'h', 'h'], seq!['e', 'h', 'm'], seq!['a', 'h', 'm'],
        seq!['h', 'm', 'm'], seq!['h', 'm'], seq!['m', 'm', 'm'],
    ];
    let f = list[k];
    let x = seq!['x'];
    assert(x[0] == 'x');
    lower_ascii_word_is_comparable(x);
    built_in_fillers(x);
    assert(f.len() > 0);
    assert forall|i: int| 0 <= i < f.len() implies 'a' <= #[trigger] f[i] && f[i] <= 'z' by {
    }
    lower_ascii_word_is_comparable(f);
    built_in_fillers(f);
    assert(configured_fillers(Seq::<Seq<char>>::empty()) =~= Seq::<Seq<char>>::empty());
    assert(is_word(f));
    assert(is_word(x));
    assert(f + seq![' ', 'x'] =~= f + seq![' '] + x);
    a_filler_before_a_word_is_dropped(f, x, Seq::empty());
}

/// The character sequences of a slice of strings.
pub open spec fn string_views(ss: Seq<String>) -> Seq<Seq<char>> {
    ss.map_values(|s: String| s@)
}

fn universal_filler_chars() -> (v: Vec<Vec<char>>)
    ensures
        views(v@) == universal_fillers(),
{
    let mut v: Vec<Vec<char>> = Vec::new();
    v.push(chars_of("uh"));
    v.push(chars_of("uhm"));
    v.push(chars_of("umm"));
    v.push(chars_of("uhh"));
    v.push(chars_of("uhhh"));
    v.push(chars_of("ehh"));
    v.push(chars_of("ehm"));
    v.push(chars_of("ahm"));
    v.push(chars_of("hmm"));
    v.push(chars_of("hm"));
    v.push(chars_of("mmm"));
    v.push(chars_of("\u{445}\u{43c}"));
    v.push(chars_of("\u{43c}\u{43c}\u{43c}"));
    assert(views(v@) =~= universal_fillers());
    v
}

/// Whether `list` holds `w`.
fn contains_chars(list: &[Vec<char>], w: &[char]) -> (r: bool)
    ensures
        r == views(list@).contains(w@),
{
    let mut i: usize = 0;
    while i < list.len()
        invariant
            i <= list.len(),
            forall|j: int| 0 <= j < i ==> views(list@)[j] != w@,
        decreases list.len() - i,
    {
        if chars_eq(list[i].as_slice(), w) {
            assert(views(list@)[i as int] == w@);
            return true;
        }
        i = i + 1;
    }
    false
}

/// The lower-case form of every string in `ss`, as characters.
fn lowercase_all(ss: &[String]) -> (v: Vec<Vec<char>>)
    ensures
        views(v@) == configured_fillers(string_views(ss@)),
{
    let mut v: Vec<Vec<char>> = Vec::new();
    let mut i: usize = 0;
    while i < ss.len()
        invariant
            i <= ss.len(),
            views(v@) == configured_fillers(string_views(ss@)).take(i as int),
        decreases ss.len() - i,
    {
        let lower = to_lowercase(ss[i].as_str());
        let ghost before = views(v@);
        let lower_chars = chars_of(lower.as_str());
        assert(string_views(ss@)[i as int] == ss@[i as int]@);
        assert(configured_fillers(string_views(ss@))[i as int] == lower_chars@);
        v.push(lower_chars);
        assert(views(v@) =~= before.push(lower_chars@));
        assert(configured_fillers(string_views(ss@)).take(i + 1) =~= configured_fillers(string_views(ss@)).take(i as int).push(lower_chars@));
        i = i + 1;
    }
    assert(configured_fillers(string_views(ss@)).take(ss.len() as int) =~= configured_fillers(string_views(ss@)));
    v
}

/// Removes filler words. When `enabled`, every word whose trimmed, lower-cased
/// form is on `custom_fillers` (lower-cased) — or, when that list is empty, on
/// the universal list — is dropped and the rest joined by single spaces. When
/// not enabled the text is returned unchanged.
pub fn remove_fillers(text: &str, enabled: bool, custom_fillers: &[String]) -> (out: String)
    ensures
        out@ == spec_remove_fillers(text@, enabled, string_views(custom_fillers@)),
{
    if !enabled {
        return String::from_str(text);
    }
    let configured = lowercase_all(custom_fillers);
    let universal = universal_filler_chars();
    let cs = chars_of(text);
    let ws = split_words(cs.as_slice());
    let ghost conf = configured_fillers(string_views(custom_fillers@));
    let ghost pred = not_filler(conf);
    let mut kept: Vec<Vec<char>> = Vec::new();
    let mut k: usize = 0;
    while k < ws.len()
        invariant
            k <= ws.len(),
            views(ws@) == words(text@),
            views(configured@) == conf,
            conf == configured_fillers(string_views(custom_fillers@)),
            pred == not_filler(conf),
            views(universal@) == universal_fillers(),
            views(kept@) == views(ws@).take(k as int).filter(pred),
        decreases ws.len() - k,
    {
        let trimmed = trim_chars(ws[k].as_slice());
        let trimmed_text = string_from_chars(trimmed.as_slice());
        let lowered = to_lowercase(trimmed_text.as_str());
        let comparable = chars_of(lowered.as_str());
        let filler = if configured.len() == 0 {
            contains_chars(universal.as_slice(), comparable.as_slice())
        } else {
            contains_chars(configured.as_slice(), comparable.as_slice())
        };
        let ghost w = views(ws@)[k as int];
        assert(comparable@ == comparable_word(w));
        assert(filler == is_filler(w, conf));
        assert(pred(w) == !filler);
        proof {
            assert(views(ws@).take(k + 1) =~= views(ws@).take(k as int).push(w));
            views(ws@).take(k as int).lemma_filter_push(w, pred);
        }
        if !filler {
            let ghost before = views(kept@);
            let word = copy_range(ws[k].as_slice(), 0, ws[k].len());
            assert(word@ =~= w);
            kept.push(word);
            assert(views(kept@) =~= before.push(w));
            assert(views(kept@) == views(ws@).take(k + 1).filter(pred));
        } else {
            assert(views(kept@) == views(ws@).take(k + 1).filter(pred));
        }
        k = k + 1;
    }
    assert(views(ws@).take(ws.len() as int) =~= views(ws@));
    let joined = join_with_spaces(kept.as_slice());
    string_from_chars(joined.as_slice())
}

/// The final clean-up of a transcript after custom-word correction: filler words
/// removed (when `filler_removal` is on) and white space normalized.
pub fn finish_transcript(corrected: &str, filler_removal: bool, custom_fillers: &[String]) -> (out: String)
    ensures
        out@ == normalized(spec_remove_fillers(corrected@, filler_removal, string_views(custom_fillers@))),
{
    let without_fillers = remove_fillers(corrected, filler_removal, custom_fillers);
    crate::words::normalize_whitespace(without_fillers.as_str())
}

proof fn lemma_kept_are_words(text: Seq<char>, custom: Seq<Seq<char>>)
    ensures
        forall|k: int| 0 <= k < kept_words(text, custom).len() ==> is_word(#[trigger] kept_words(text, custom)[k]),
{
    let pred = not_filler(configured_fillers(custom));
    lemma_words_are_words(text);
    assert forall|k: int| 0 <= k < kept_words(text, custom).len() implies is_word(#[trigger] kept_words(text, custom)[k]) by {
        let w = kept_words(text, custom)[k];
        assert(kept_words(text, custom).contains(w));
        words(text).lemma_filter_contains_rev(pred, w);
        let j = choose|j: int| 0 <= j < words(text).len() && words(text)[j] == w;
        assert(is_word(words(text)[j]));
    }
}

/// No filler survives removal: the words of the output are exactly the
/// non-filler words of the input, in order.
pub proof fn lemma_no_filler_survives(text: Seq<char>, custom: Seq<Seq<char>>)
    ensures
        words(spec_remove_fillers(text, true, custom)) == kept_words(text, custom),
        forall|k: int| 0 <= k < words(spec_remove_fillers(text, true, custom)).len()
            ==> !is_filler(#[trigger] words(spec_remove_fillers(text, true, custom))[k], configured_fillers(custom)),
{
    let pred = not_filler(configured_fillers(custom));
    lemma_kept_are_words(text, custom);
    lemma_words_of_join(kept_words(text, custom));
    assert forall|k: int| 0 <= k < kept_words(text, custom).len()
        implies !is_filler(#[trigger] kept_words(text, custom)[k], configured_fillers(custom)) by {
        words(text).lemma_filter_pred(pred, k);
    }
}

/// With filler removal on, the removal output is already normalized, so the
/// final white-space pass leaves it unchanged.
pub proof fn lemma_removal_output_is_normalized(text: Seq<char>, custom: Seq<Seq<char>>)
    ensures
        normalized(spec_remove_fillers(text, true, custom)) == spec_remove_fillers(text, true, custom),
{
    lemma_kept_are_words(text, custom);
    lemma_words_of_join(kept_words(text, custom));
}

/// Finishing a transcript twice changes nothing the second time when filler
/// removal is off, and a finished transcript is always normalized.
pub proof fn lemma_finished_is_normalized(text: Seq<char>, filler_removal: bool, custom: Seq<Seq<char>>)
    ensures
        normalized(normalized(spec_remove_fillers(text, filler_removal, custom)))
            == normalized(spec_remove_fillers(text, filler_removal, custom)),
{
    crate::words::lemma_normalized_idempotent(spec_remove_fillers(text, filler_removal, custom));
}

// ------------------------------------------------------ custom-word correction

/// Keys longer than this are never compared with the custom words.
pub const MAX_CANDIDATE_KEY: usize = 50;

/// A custom word that can be matched: the word as the user wrote it and its key.
pub struct CustomKey {
    pub replacement: String,
    pub key: String,
}

/// The custom words whose key is not empty, each with its key, in order.
pub open spec fn spec_custom_keys(custom: Seq<Seq<char>>) -> Seq<(Seq<char>, Seq<char>)> {
    custom.filter(|w: Seq<char>| spec_key(w).len() > 0).map_values(|w: Seq<char>| (w, spec_key(w)))
}

pub open spec fn custom_key_views(keys: Seq<CustomKey>) -> Seq<(Seq<char>, Seq<char>)> {
    keys.map_values(|k: CustomKey| (k.replacement@, k.key@))
}

/// The custom words that have a non-empty key, paired with that key.
pub fn custom_keys(custom_words: &[String]) -> (keys: Vec<CustomKey>)
    ensures
        custom_key_views(keys@) == spec_custom_keys(string_views(custom_words@)),
{
    let ghost words_seen = string_views(custom_words@);
    let ghost pred = |w: Seq<char>| spec_key(w).len() > 0;
    let ghost pair = |w: Seq<char>| (w, spec_key(w));
    let mut keys: Vec<CustomKey> = Vec::new();
    let mut i: usize = 0;
    while i < custom_words.len()
        invariant
            i <= custom_words.len(),
            words_seen == string_views(custom_words@),
            pred == (|w: Seq<char>| spec_key(w).len() > 0),
            pair == (|w: Seq<char>| (w, spec_key(w))),
            custom_key_views(keys@) == words_seen.take(i as int).filter(pred).map_values(pair),
        decreases custom_words.len() - i,
    {
        let word = &custom_words[i];
        let k = key(word.as_str());
        let ghost w = words_seen[i as int];
        assert(w == word@);
        proof {
            assert(words_seen.take(i + 1) =~= words_seen.take(i as int).push(w));
            words_seen.take(i as int).lemma_filter_push(w, pred);
        }
        let ghost before = custom_key_views(keys@);
        if !k.as_str().is_empty() {
            let entry = CustomKey { replacement: String::from_str(word.as_str()), key: k };
            keys.push(entry);
            let ghost filtered = words_seen.take(i as int).filter(pred);
            assert(filtered.push(w).map_values(pair) =~= filtered.map_values(pair).push(pair(w)));
            assert(custom_key_views(keys@) =~= before.push((w, spec_key(w))));
        }
        i = i + 1;
    }
    assert(words_seen.take(custom_words.len() as int) =~= words_seen);
    keys
}

/// What a window of up to three words gives to the matcher.
pub enum Window {
    /// The window runs past the last word: no longer windows exist at this start.
    Outside,
    /// The window's key is empty or longer than `MAX_CANDIDATE_KEY`: skip it.
    Skipped,
    /// The key of the words in the window, joined without spaces.
    Candidate(String),
}

/// The window `count` words long that starts at word `index`, as the matcher sees it.
pub open spec fn spec_window(ws: Seq<Seq<char>>, index: int, count: int) -> Option<Option<Seq<char>>> {
    if index + count > ws.len() {
        None
    } else {
        let k = spec_key(ws.subrange(index, index + count).flatten());
        if k.len() == 0 || k.len() > MAX_CANDIDATE_KEY {
            Some(None)
        } else {
            Some(Some(k))
        }
    }
}

pub open spec fn window_view(w: Window) -> Option<Option<Seq<char>>> {
    match w {
        Window::Outside => None,
        Window::Skipped => Some(None),
        Window::Candidate(k) => Some(Some(k@)),
    }
}

/// The candidate key of the `count` words starting at `words[index]`
/// (keys are ASCII, so their length in characters is their length in bytes).
pub fn window_key(words: &[String], index: usize, count: usize) -> (w: Window)
    ensures
        window_view(w) == spec_window(string_views(words@), index as int, count as int),
{
    if index > words.len() || count > words.len() - index {
        return Window::Outside;
    }
    let ghost ws = string_views(words@);
    let mut joined: Vec<char> = Vec::new();
    let mut j: usize = index;
    while j < index + count
        invariant
            index <= j <= index + count <= words.len(),
            ws == string_views(words@),
            joined@ == ws.subrange(index as int, j as int).flatten(),
        decreases index + count - j,
    {
        let piece = chars_of(words[j].as_str());
        let mut p: usize = 0;
        let ghost start = joined@;
        while p < piece.len()
            invariant
                p <= piece.len(),
                joined@ == start + piece@.take(p as int),
            decreases piece.len() - p,
        {
            joined.push(piece[p]);
            assert(piece@.take(p + 1) =~= piece@.take(p as int).push(piece@[p as int]));
            p = p + 1;
        }
        assert(piece@.take(piece.len() as int) =~= piece@);
        proof {
            let before = ws.subrange(index as int, j as int);
            assert(ws.subrange(index as int, j + 1) =~= before.push(ws[j as int]));
            before.lemma_flatten_push(ws[j as int]);
        }
        j = j + 1;
    }
    let k = key_chars(joined.as_slice());
    if k.len() == 0 || k.len() > MAX_CANDIDATE_KEY {
        Window::Skipped
    } else {
        Window::Candidate(string_from_chars(k.as_slice()))
    }
}

/// Whether a candidate key and a custom key are close enough in length to be
/// compared: they differ by at most a quarter of the longer one, plus two.
pub open spec fn spec_lengths_compatible(candidate: int, custom: int) -> bool {
    let longer = if candidate >= custom { candidate } else { custom };
    let difference = if candidate >= custom { candidate - custom } else { custom - candidate };
    difference <= longer / 4 + 2
}

pub fn lengths_compatible(candidate_len: usize, custom_len: usize) -> (ok: bool)
    ensures
        ok == spec_lengths_compatible(candidate_len as int, custom_len as int),
{
    let longer = if candidate_len >= custom_len { candidate_len } else { custom_len };
    let difference = if candidate_len >= custom_len { candidate_len - custom_len } else { custom_len - candidate_len };
    difference <= longer / 4 + 2
}

/// The replacement for a matched window: the punctuation that opened its first
/// word, the custom word, and the punctuation that closed its last word.
pub fn corrected_word(first: &str, replacement: &str, last: &str) -> (out: String)
    ensures
        out@ == first@.take(leading_len(first@) as int) + replacement@
            + last@.skip(last@.len() - trailing_len(last@)),
{
    let (prefix, _) = punctuation(first);
    let (_, suffix) = punctuation(last);
    let mut out = prefix;
    out.append(replacement);
    out.append(suffix.as_str());
    out
}

// ------------------------------------------------------------ the correction pass

/// A window/custom-word pair worth scoring: the window of `count` words at the
/// current position and the custom word at `custom`, with both keys.
pub struct Candidate {
    pub count: usize,
    pub custom: usize,
    pub candidate_key: String,
    pub custom_key: String,
}

/// The pairs worth scoring for the window of `count` words at `index`: every
/// custom key whose length is compatible with the window's key, in list order.
pub open spec fn candidates_for_count(
    ws: Seq<Seq<char>>,
    keys: Seq<(Seq<char>, Seq<char>)>,
    index: int,
    count: int,
) -> Seq<(int, int)> {
    match spec_window(ws, index, count) {
        Some(Some(k)) => Seq::new(keys.len(), |j: int| (count, j)).filter(
            |p: (int, int)| spec_lengths_compatible(k.len() as int, keys[p.1].1.len() as int),
        ),
        _ => Seq::empty(),
    }
}

/// The pairs worth scoring at `index`: one-, two- and three-word windows, in
/// that order.
pub open spec fn spec_candidates(ws: Seq<Seq<char>>, keys: Seq<(Seq<char>, Seq<char>)>, index: int) -> Seq<(int, int)> {
    candidates_for_count(ws, keys, index, 1) + candidates_for_count(ws, keys, index, 2)
        + candidates_for_count(ws, keys, index, 3)
}

proof fn lemma_candidates_for_count(
    ws: Seq<Seq<char>>,
    keys: Seq<(Seq<char>, Seq<char>)>,
    index: int,
    count: int,
    j: int,
)
    requires
        0 <= index,
        1 <= count,
        0 <= j < keys.len(),
    ensures
        forall|i: int| 0 <= i < candidates_for_count(ws, keys, index, count).len()
            ==> (#[trigger] candidates_for_count(ws, keys, index, count)[i]).0 == count,
        candidates_for_count(ws, keys, index, count).contains((count, j)) <==> (index + count <= ws.len() && ({
            let k = spec_key(ws.subrange(index, index + count).flatten()).len();
            let c = keys[j].1.len();
            &&& 1 <= k <= 50
            &&& (if k >= c { k - c } else { c - k }) <= (if k >= c { k } else { c }) / 4 + 2
        })),
{
    let a = candidates_for_count(ws, keys, index, count);
    match spec_window(ws, index, count) {
        Some(Some(k)) => {
            let base = Seq::new(keys.len(), |jj: int| (count, jj));
            let pred = |p: (int, int)| spec_lengths_compatible(k.len() as int, keys[p.1].1.len() as int);
            assert(a == base.filter(pred));
            assert forall|i: int| 0 <= i < a.len() implies (#[trigger] a[i]).0 == count by {
                assert(a.contains(a[i]));
                base.lemma_filter_contains_rev(pred, a[i]);
                let jj = choose|jj: int| 0 <= jj < base.len() && base[jj] == a[i];
            }
            if a.contains((count, j)) {
                let i = choose|i: int| 0 <= i < a.len() && a[i] == (count, j);
                base.lemma_filter_pred(pred, i);
            }
            if spec_lengths_compatible(k.len() as int, keys[j].1.len() as int) {
                assert(base[j] == (count, j));
                base.lemma_filter_contains(pred, j);
            }
        },
        _ => {
            assert(a.len() == 0);
        },
    }
}

/// The correction pass is offered every window of one, two or three words
/// that fits in the text and whose key (its ASCII letters and digits,
/// lower-cased) is not empty and at most 50 characters long, each paired with
/// every custom word whose key differs in length by at most a quarter of the
/// longer key plus two; and nothing else.
pub proof fn candidates_cover_every_window(
    ws: Seq<Seq<char>>,
    keys: Seq<(Seq<char>, Seq<char>)>,
    index: int,
    count: int,
    j: int,
)
    requires
        0 <= index,
        1 <= count <= 3,
        0 <= j < keys.len(),
    ensures
        spec_candidates(ws, keys, index).contains((count, j)) <==> (index + count <= ws.len() && ({
            let k = spec_key(ws.subrange(index, index + count).flatten()).len();
            let c = keys[j].1.len();
            &&& 1 <= k <= 50
            &&& (if k >= c { k - c } else { c - k }) <= (if k >= c { k } else { c }) / 4 + 2
        })),
        forall|i: int| 0 <= i < spec_candidates(ws, keys, index).len()
            ==> 1 <= (#[trigger] spec_candidates(ws, keys, index)[i]).0 <= 3,
{
    let a1 = candidates_for_count(ws, keys, index, 1);
    let a2 = candidates_for_count(ws, keys, index, 2);
    let a3 = candidates_for_count(ws, keys, index, 3);
    let all = spec_candidates(ws, keys, index);
    lemma_candidates_for_count(ws, keys, index, 1, j);
    lemma_candidates_for_count(ws, keys, index, 2, j);
    lemma_candidates_for_count(ws, keys, index, 3, j);
    let own = candidates_for_count(ws, keys, index, count);
    assert(all == a1 + a2 + a3);
    assert forall|i: int| 0 <= i < all.len() implies 1 <= (#[trigger] all[i]).0 <= 3 by {
        if i < a1.len() {
            assert(all[i] == a1[i]);
        } else if i < a1.len() + a2.len() {
            assert(all[i] == a2[i - a1.len()]);
        } else {
            assert(all[i] == a3[i - a1.len() - a2.len()]);
        }
    }
    if all.contains((count, j)) {
        let i = choose|i: int| 0 <= i < all.len() && all[i] == (count, j);
        if i < a1.len() {
            assert(all[i] == a1[i]);
            assert(count == 1);
            assert(a1.contains((count, j)));
        } else if i < a1.len() + a2.len() {
            assert(all[i] == a2[i - a1.len()]);
            assert(count == 2);
            assert(a2.contains((count, j)));
        } else {
            assert(all[i] == a3[i - a1.len() - a2.len()]);
            assert(count == 3);
            assert(a3.contains((count, j)));
        }
    }
    if own.contains((count, j)) {
        let i = choose|i: int| 0 <= i < own.len() && own[i] == (count, j);
        if count == 1 {
            assert(all[i] == a1[i]);
        } else if count == 2 {
            assert(all[a1.len() + i] == a2[i]);
        } else {
            assert(all[a1.len() + a2.len() + i] == a3[i]);
        }
    }
}

pub open spec fn candidate_pairs(cs: Seq<Candidate>) -> Seq<(int, int)> {
    cs.map_values(|c: Candidate| (c.count as int, c.custom as int))
}

fn char_count(s: &str) -> (n: usize)
    ensures
        n == s@.len(),
{
    let cs = chars_of(s);
    cs.len()
}

/// The pairs worth scoring for one window length, appended to `out`.
fn push_candidates_for_count(
    words: &[String],
    keys: &[CustomKey],
    index: usize,
    count: usize,
    out: &mut Vec<Candidate>,
)
    requires
        1 <= count <= 3,
    ensures
        candidate_pairs(final(out)@) == candidate_pairs(old(out)@) + candidates_for_count(
            string_views(words@),
            custom_key_views(keys@),
            index as int,
            count as int,
        ),
        forall|k: int| old(out)@.len() <= k < final(out)@.len() ==> {
            &&& (#[trigger] final(out)@[k]).candidate_key@ == spec_window(string_views(words@), index as int, count as int)->Some_0->Some_0
            &&& final(out)@[k].custom_key@ == custom_key_views(keys@)[final(out)@[k].custom as int].1
            &&& final(out)@[k].count == count
            &&& final(out)@[k].custom < keys@.len()
            &&& index + count <= words@.len()
        },
        forall|k: int| 0 <= k < old(out)@.len() ==> #[trigger] final(out)@[k] == old(out)@[k],
{
    let ghost ws = string_views(words@);
    let ghost kv = custom_key_views(keys@);
    match window_key(words, index, count) {
        Window::Candidate(k) => {
            let klen = char_count(k.as_str());
            assert(index + count <= words@.len());
            let ghost all = Seq::new(kv.len(), |j: int| (count as int, j));
            let ghost keep = |p: (int, int)| spec_lengths_compatible(k@.len() as int, kv[p.1].1.len() as int);
            let ghost start = candidate_pairs(out@);
            let ghost start_len = out@.len();
            let ghost start_out = out@;
            let mut j: usize = 0;
            while j < keys.len()
                invariant
                    j <= keys.len(),
                    kv == custom_key_views(keys@),
                    all == Seq::new(kv.len(), |j: int| (count as int, j)),
                    keep == (|p: (int, int)| spec_lengths_compatible(k@.len() as int, kv[p.1].1.len() as int)),
                    klen == k@.len(),
                    window_view(Window::Candidate(k)) == spec_window(ws, index as int, count as int),
                    ws == string_views(words@),
                    1 <= count <= 3,
                    out@.len() >= start_len,
                    candidate_pairs(out@) == start + all.take(j as int).filter(keep),
                    forall|m: int| start_len <= m < out@.len() ==> {
                        &&& (#[trigger] out@[m]).candidate_key@ == k@
                        &&& out@[m].custom_key@ == kv[out@[m].custom as int].1
                        &&& out@[m].custom < keys.len()
                        &&& out@[m].count == count
                    },
                    index + count <= words@.len(),
                    forall|m: int| 0 <= m < start_len ==> #[trigger] out@[m] == start_out[m],
                decreases keys.len() - j,
            {
                let custom_len = char_count(keys[j].key.as_str());
                assert(kv[j as int].1 == keys@[j as int].key@);
                proof {
                    assert(all.take(j + 1) =~= all.take(j as int).push((count as int, j as int)));
                    all.take(j as int).lemma_filter_push((count as int, j as int), keep);
                }
                if lengths_compatible(klen, custom_len) {
                    let ghost before = candidate_pairs(out@);
                    let c = Candidate {
                        count,
                        custom: j,
                        candidate_key: String::from_str(k.as_str()),
                        custom_key: String::from_str(keys[j].key.as_str()),
                    };
                    out.push(c);
                    assert(candidate_pairs(out@) =~= before.push((count as int, j as int)));
                }
                j = j + 1;
            }
            assert(all.take(keys.len() as int) =~= all);
        },
        _ => {
            assert(candidate_pairs(out@) =~= candidate_pairs(out@) + Seq::<(int, int)>::empty());
        },
    }
}

/// The window/custom-word pairs worth scoring at word `index`: for one-, two-
/// and three-word windows in turn, every custom key close enough in length to
/// the window's key, in list order.
pub fn candidates_at(words: &[String], keys: &[CustomKey], index: usize) -> (cs: Vec<Candidate>)
    ensures
        candidate_pairs(cs@) == spec_candidates(string_views(words@), custom_key_views(keys@), index as int),
        forall|k: int| 0 <= k < cs@.len() ==> {
            &&& 1 <= (#[trigger] cs@[k]).count <= 3
            &&& cs@[k].custom < keys@.len()
            &&& index + cs@[k].count <= words@.len()
            &&& cs@[k].candidate_key@ == spec_window(string_views(words@), index as int, cs@[k].count as int)->Some_0->Some_0
            &&& cs@[k].custom_key@ == custom_key_views(keys@)[cs@[k].custom as int].1
        },
{
    let mut cs: Vec<Candidate> = Vec::new();
    assert(candidate_pairs(cs@) =~= Seq::<(int, int)>::empty());
    push_candidates_for_count(words, keys, index, 1, &mut cs);
    push_candidates_for_count(words, keys, index, 2, &mut cs);
    push_candidates_for_count(words, keys, index, 3, &mut cs);
    assert(candidate_pairs(cs@) =~= spec_candidates(string_views(words@), custom_key_views(keys@), index as int));
    cs
}

/// The custom-word correction pass over a text, one word position at a time:
/// at each position the caller scores the candidates and either picks one
/// (its window is replaced by the custom word) or none (the word is kept).
pub struct Correction {
    /// The words of the text.
    pub words: Vec<String>,
    /// The output words so far.
    pub output: Vec<String>,
    /// The position of the next word to correct.
    pub index: usize,
}

/// The output word for a chosen window of `count` words at `index` replaced by `replacement`.
pub open spec fn spec_corrected(ws: Seq<Seq<char>>, index: int, count: int, replacement: Seq<char>) -> Seq<char> {
    let first = ws[index];
    let last = ws[index + count - 1];
    first.take(leading_len(first) as int) + replacement + last.skip(last.len() - trailing_len(last))
}

impl Correction {
    /// Starts a pass over the words of `text`.
    pub fn start(text: &str) -> (pass: Correction)
        ensures
            string_views(pass.words@) == words(text@),
            pass.output@.len() == 0,
            pass.index == 0,
    {
        let cs = chars_of(text);
        let ws = split_words(cs.as_slice());
        let mut out: Vec<String> = Vec::new();
        let mut i: usize = 0;
        while i < ws.len()
            invariant
                i <= ws.len(),
                views(ws@) == words(text@),
                string_views(out@) == views(ws@).take(i as int),
            decreases ws.len() - i,
        {
            let ghost before = string_views(out@);
            let w = string_from_chars(ws[i].as_slice());
            assert(w@ == views(ws@)[i as int]);
            out.push(w);
            assert(string_views(out@) =~= before.push(w@));
            assert(views(ws@).take(i + 1) =~= views(ws@).take(i as int).push(w@));
            i = i + 1;
        }
        assert(views(ws@).take(ws.len() as int) =~= views(ws@));
        Correction { words: out, output: Vec::new(), index: 0 }
    }

    /// Whether every word has been handled.
    pub fn is_done(&self) -> (done: bool)
        ensures
            done == (self.index >= self.words@.len()),
    {
        self.index >= self.words.len()
    }

    /// The candidates to score at the current position.
    pub fn candidates(&self, keys: &[CustomKey]) -> (cs: Vec<Candidate>)
        ensures
            candidate_pairs(cs@) == spec_candidates(string_views(self.words@), custom_key_views(keys@), self.index as int),
            forall|k: int| 0 <= k < cs@.len() ==> {
                &&& 1 <= (#[trigger] cs@[k]).count <= 3
                &&& cs@[k].custom < keys@.len()
                &&& self.index + cs@[k].count <= self.words@.len()
                &&& cs@[k].candidate_key@ == spec_window(string_views(self.words@), self.index as int, cs@[k].count as int)->Some_0->Some_0
                &&& cs@[k].custom_key@ == custom_key_views(keys@)[cs@[k].custom as int].1
            },
    {
        candidates_at(self.words.as_slice(), keys, self.index)
    }

    /// Handles the current position: with a choice of `(count, custom)` the
    /// window of `count` words is replaced by that custom word (keeping the
    /// punctuation around the window); without one the word is kept.
    pub fn apply(&mut self, keys: &[CustomKey], choice: Option<(usize, usize)>)
        requires
            old(self).index < old(self).words@.len(),
            choice matches Some((count, custom)) ==> 1 <= count && old(self).index + count <= old(self).words@.len()
                && custom < keys@.len(),
        ensures
            final(self).words == old(self).words,
            match choice {
                Some((count, custom)) => {
                    &&& final(self).index == old(self).index + count
                    &&& string_views(final(self).output@) == string_views(old(self).output@).push(spec_corrected(
                        string_views(old(self).words@),
                        old(self).index as int,
                        count as int,
                        keys@[custom as int].replacement@,
                    ))
                },
                None => {
                    &&& final(self).index == old(self).index + 1
                    &&& string_views(final(self).output@) == string_views(old(self).output@).push(
                        old(self).words@[old(self).index as int]@,
                    )
                },
            },
    {
        let ghost before = string_views(self.output@);
        let index = self.index;
        let len: usize = self.words.len();
        assert(index < len);
        match choice {
            Some((count, custom)) => {
                let last_index = index + count - 1;
                let word = corrected_word(
                    self.words[index].as_str(),
                    keys[custom].replacement.as_str(),
                    self.words[last_index].as_str(),
                );
                self.output.push(word);
                self.index = index + count;
            },
            None => {
                let word = String::from_str(self.words[index].as_str());
                self.output.push(word);
                self.index = index + 1;
            },
        }
        assert(string_views(self.output@) =~= before.push(self.output@[self.output@.len() - 1]@));
    }

    /// The corrected text: the output words joined by single spaces.
    pub fn finish(&self) -> (text: String)
        ensures
            text@ == join_sep(string_seqs(self.output@), " "@),
    {
        join_strings(self.output.as_slice(), " ")
    }
}

} // verus!
