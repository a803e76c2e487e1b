use vstd::prelude::*;

verus! {

/// A character that trimming treats as whitespace: the Unicode `White_Space` set.
pub open spec fn is_space_char(c: char) -> bool {
    c == ' ' || c == '\t' || c == '\n' || c == '\r' || c == '\u{b}' || c == '\u{c}'
        || c == '\u{85}' || c == '\u{a0}' || c == '\u{1680}' || c == '\u{2000}' || c == '\u{2001}'
        || c == '\u{2002}' || c == '\u{2003}' || c == '\u{2004}' || c == '\u{2005}'
        || c == '\u{2006}' || c == '\u{2007}' || c == '\u{2008}' || c == '\u{2009}'
        || c == '\u{200a}' || c == '\u{2028}' || c == '\u{2029}' || c == '\u{202f}'
        || c == '\u{205f}' || c == '\u{3000}'
}

pub fn is_space(c: char) -> (r: bool)
    ensures
        r == is_space_char(c),
{
    c == ' ' || c == '\t' || c == '\n' || c == '\r' || c == '\u{b}' || c == '\u{c}'
        || c == '\u{85}' || c == '\u{a0}' || c == '\u{1680}' || c == '\u{2000}' || c == '\u{2001}'
        || c == '\u{2002}' || c == '\u{2003}' || c == '\u{2004}' || c == '\u{2005}'
        || c == '\u{2006}' || c == '\u{2007}' || c == '\u{2008}' || c == '\u{2009}'
        || c == '\u{200a}' || c == '\u{2028}' || c == '\u{2029}' || c == '\u{202f}'
        || c == '\u{205f}' || c == '\u{3000}'
}

/// Nothing but whitespace, so trimming would leave the string empty.
pub open spec fn is_blank_seq(s: Seq<char>) -> bool {
    forall|i: int| 0 <= i < s.len() ==> is_space_char(#[trigger] s[i])
}

pub fn is_blank(s: &str) -> (r: bool)
    ensures
        r == is_blank_seq(s@),
{
    let n = s.unicode_len();
    let mut i: usize = 0;
    while i < n
        invariant
            n == s@.len(),
            i <= n,
            forall|j: int| 0 <= j < i ==> is_space_char(#[trigger] s@[j]),
        decreases n - i,
    {
        if !is_space(s.get_char(i)) {
            return false;
        }
        i += 1;
    }
    true
}

/// How many whitespace characters the string starts with.
pub open spec fn ws_prefix_len(s: Seq<char>) -> nat
    decreases s.len(),
{
    if s.len() > 0 && is_space_char(s[0]) {
        1 + ws_prefix_len(s.skip(1))
    } else {
        0
    }
}

/// How many whitespace characters the string ends with.
pub open spec fn ws_suffix_len(s: Seq<char>) -> nat
    decreases s.len(),
{
    if s.len() > 0 && is_space_char(s[s.len() - 1]) {
        1 + ws_suffix_len(s.drop_last())
    } else {
        0
    }
}

pub proof fn lemma_ws_prefix_len_char(s: Seq<char>, k: int)
    requires
        0 <= k <= s.len(),
        forall|j: int| 0 <= j < k ==> is_space_char(#[trigger] s[j]),
        k == s.len() || !is_space_char(s[k]),
    ensures
        ws_prefix_len(s) == k,
    decreases s.len(),
{
    if k == 0 {
    } else {
        assert(is_space_char(s[0]));
        assert forall|j: int| 0 <= j < k - 1 implies is_space_char(#[trigger] s.skip(1)[j]) by {
            assert(s.skip(1)[j] == s[j + 1]);
        }
        if k - 1 < s.skip(1).len() {
            assert(s.skip(1)[k - 1] == s[k]);
        }
        lemma_ws_prefix_len_char(s.skip(1), k - 1);
    }
}

pub proof fn lemma_ws_suffix_len_char(s: Seq<char>, k: int)
    requires
        0 <= k <= s.len(),
        forall|j: int| s.len() - k <= j < s.len() ==> is_space_char(#[trigger] s[j]),
        k == s.len() || !is_space_char(s[s.len() - k - 1]),
    ensures
        ws_suffix_len(s) == k,
    decreases s.len(),
{
    if k == 0 {
    } else {
        assert(is_space_char(s[s.len() - 1]));
        assert forall|j: int| s.drop_last().len() - (k - 1) <= j < s.drop_last().len()
            implies is_space_char(#[trigger] s.drop_last()[j]) by {
            assert(s.drop_last()[j] == s[j]);
        }
        lemma_ws_suffix_len_char(s.drop_last(), k - 1);
    }
}

pub proof fn lemma_ws_suffix_len_le(s: Seq<char>)
    ensures
        ws_suffix_len(s) <= s.len(),
    decreases s.len(),
{
    if s.len() > 0 && is_space_char(s[s.len() - 1]) {
        lemma_ws_suffix_len_le(s.drop_last());
    }
}

/// The string with its leading whitespace removed.
pub open spec fn trim_start_spec(s: Seq<char>) -> Seq<char> {
    s.skip(ws_prefix_len(s) as int)
}

/// The string with its trailing whitespace removed.
pub open spec fn trim_end_spec(s: Seq<char>) -> Seq<char> {
    s.take(s.len() - ws_suffix_len(s))
}

/// The string with leading and trailing whitespace removed.
pub open spec fn trim_spec(s: Seq<char>) -> Seq<char> {
    trim_end_spec(trim_start_spec(s))
}

pub proof fn lemma_ws_prefix_len_le(s: Seq<char>)
    ensures
        ws_prefix_len(s) <= s.len(),
    decreases s.len(),
{
    if s.len() > 0 && is_space_char(s[0]) {
        lemma_ws_prefix_len_le(s.skip(1));
    }
}

pub fn trim_str<'a>(s: &'a str) -> (r: &'a str)
    ensures
        r@ == trim_spec(s@),
{
    let n = s.unicode_len();
    let mut a: usize = 0;
    while a < n && is_space(s.get_char(a))
        invariant
            n == s@.len(),
            a <= n,
            forall|j: int| 0 <= j < a ==> is_space_char(#[trigger] s@[j]),
        decreases n - a,
    {
        a += 1;
    }
    proof {
        lemma_ws_prefix_len_char(s@, a as int);
    }
    let mut b: usize = n;
    while b > a && is_space(s.get_char(b - 1))
        invariant
            n == s@.len(),
            a <= b <= n,
            forall|j: int| b <= j < n ==> is_space_char(#[trigger] s@[j]),
        decreases b,
    {
        b -= 1;
    }
    let r = s.substring_char(a, b);
    proof {
        let t = trim_start_spec(s@);
        assert(t =~= s@.subrange(a as int, n as int));
        assert forall|j: int| t.len() - (n - b) <= j < t.len()
            implies is_space_char(#[trigger] t[j]) by {
            assert(t[j] == s@[j + a]);
        }
        if (n - b) < t.len() {
            assert(t[t.len() - (n - b) - 1] == s@[b - 1]);
        }
        lemma_ws_suffix_len_char(t, n - b);
        assert(trim_spec(s@) =~= s@.subrange(a as int, b as int));
    }
    r
}

/// The ASCII-lowercase counterpart of a character; anything but `A`..`Z` is unchanged.
pub open spec fn lower_char_spec(c: char) -> char {
    match c {
        'A' => 'a',
        'B' => 'b',
        'C' => 'c',
        'D' => 'd',
        'E' => 'e',
        'F' => 'f',
        'G' => 'g',
        'H' => 'h',
        'I' => 'i',
        'J' => 'j',
        'K' => 'k',
        'L' => 'l',
        'M' => 'm',
        'N' => 'n',
        'O' => 'o',
        'P' => 'p',
        'Q' => 'q',
        'R' => 'r',
        'S' => 's',
        'T' => 't',
        'U' => 'u',
        'V' => 'v',
        'W' => 'w',
        'X' => 'x',
        'Y' => 'y',
        'Z' => 'z',
        _ => c,
    }
}

pub fn lower_char(c: char) -> (r: char)
    ensures
        r == lower_char_spec(c),
{
    match c {
        'A' => 'a',
        'B' => 'b',
        'C' => 'c',
        'D' => 'd',
        'E' => 'e',
        'F' => 'f',
        'G' => 'g',
        'H' => 'h',
        'I' => 'i',
        'J' => 'j',
        'K' => 'k',
        'L' => 'l',
        'M' => 'm',
        'N' => 'n',
        'O' => 'o',
        'P' => 'p',
        'Q' => 'q',
        'R' => 'r',
        'S' => 's',
        'T' => 't',
        'U' => 'u',
        'V' => 'v',
        'W' => 'w',
        'X' => 'x',
        'Y' => 'y',
        'Z' => 'z',
        _ => c,
    }
}

/// The string with every character ASCII-lowercased.
pub open spec fn lower_seq(s: Seq<char>) -> Seq<char> {
    s.map_values(|c: char| lower_char_spec(c))
}

/// Relies on `String::push`: appends exactly one character at the end.
#[verifier::external_body]
fn push_char(s: &mut String, c: char)
    ensures
        final(s)@ == old(s)@ + seq![c],
{
    s.push(c);
}

pub fn lower_str(s: &str) -> (r: String)
    ensures
        r@ == lower_seq(s@),
{
    let n = s.unicode_len();
    let mut out = String::new();
    let mut i: usize = 0;
    while i < n
        invariant
            n == s@.len(),
            i <= n,
            out@ == lower_seq(s@.take(i as int)),
        decreases n - i,
    {
        let c = s.get_char(i);
        let lc = lower_char(c);
        push_char(&mut out, lc);
        proof {
            assert(lower_seq(s@.take(i + 1)) =~= lower_seq(s@.take(i as int)) + seq![
                lower_char_spec(s@[i as int]),
            ]);
        }
        i += 1;
    }
    proof {
        assert(s@.take(n as int) =~= s@);
    }
    out
}

/// The position of the last occurrence of `c`, or `-1` when there is none.
pub open spec fn last_index_of(s: Seq<char>, c: char) -> int
    decreases s.len(),
{
    if s.len() == 0 {
        -1
    } else if s[s.len() - 1] == c {
        s.len() - 1
    } else {
        last_index_of(s.drop_last(), c)
    }
}

pub proof fn lemma_last_index_of_found(s: Seq<char>, c: char, k: int)
    requires
        0 <= k < s.len(),
        s[k] == c,
        forall|j: int| k < j < s.len() ==> s[j] != c,
    ensures
        last_index_of(s, c) == k,
    decreases s.len(),
{
    if k == s.len() - 1 {
    } else {
        assert(s[s.len() - 1] != c);
        assert forall|j: int| k < j < s.drop_last().len() implies s.drop_last()[j] != c by {
            assert(s.drop_last()[j] == s[j]);
        }
        assert(s.drop_last()[k] == s[k]);
        lemma_last_index_of_found(s.drop_last(), c, k);
    }
}

pub proof fn lemma_last_index_of_absent(s: Seq<char>, c: char)
    requires
        forall|j: int| 0 <= j < s.len() ==> s[j] != c,
    ensures
        last_index_of(s, c) == -1,
    decreases s.len(),
{
    if s.len() > 0 {
        assert forall|j: int| 0 <= j < s.drop_last().len() implies s.drop_last()[j] != c by {
            assert(s.drop_last()[j] == s[j]);
        }
        lemma_last_index_of_absent(s.drop_last(), c);
    }
}

pub proof fn lemma_last_index_of_range(s: Seq<char>, c: char)
    ensures
        -1 <= last_index_of(s, c) < s.len(),
    decreases s.len(),
{
    if s.len() > 0 && s[s.len() - 1] != c {
        lemma_last_index_of_range(s.drop_last(), c);
    }
}

pub fn last_index_of_char(s: &str, c: char) -> (r: Option<usize>)
    ensures
        match r {
            Some(k) => last_index_of(s@, c) == k as int,
            None => last_index_of(s@, c) == -1,
        },
{
    let n = s.unicode_len();
    let mut i: usize = n;
    while i > 0
        invariant
            n == s@.len(),
            i <= n,
            forall|j: int| i <= j < n ==> s@[j] != c,
        decreases i,
    {
        if s.get_char(i - 1) == c {
            proof {
                lemma_last_index_of_found(s@, c, i - 1);
            }
            return Some(i - 1);
        }
        i -= 1;
    }
    proof {
        lemma_last_index_of_absent(s@, c);
    }
    None
}

/// A format name brought to canonical shape: surrounding whitespace trimmed,
/// one leading dot removed, and the rest ASCII-lowercased.
pub open spec fn normalize_spec(s: Seq<char>) -> Seq<char> {
    let t = trim_spec(s);
    let u = if t.len() > 0 && t[0] == '.' {
        t.skip(1)
    } else {
        t
    };
    lower_seq(u)
}

/// Canonical shape of a format name: trimmed, a single leading dot stripped,
/// ASCII-lowercased.
pub fn normalize_format_string(s: &str) -> (r: String)
    ensures
        r@ == normalize_spec(s@),
{
    let t = trim_str(s);
    let tn = t.unicode_len();
    let u: &str = if tn > 0 && t.get_char(0) == '.' {
        t.substring_char(1, tn)
    } else {
        t
    };
    proof {
        let ts = trim_spec(s@);
        if ts.len() > 0 && ts[0] == '.' {
            assert(u@ =~= ts.skip(1));
        }
    }
    lower_str(u)
}

pub proof fn lemma_lower_char_classes(a: char, b: char)
    requires
        lower_char_spec(a) == lower_char_spec(b),
    ensures
        is_space_char(a) == is_space_char(b),
        (a == '.') == (b == '.'),
{
}

pub proof fn lemma_ws_prefix_len_congruent(s: Seq<char>, t: Seq<char>)
    requires
        s.len() == t.len(),
        forall|i: int| 0 <= i < s.len() ==> is_space_char(s[i]) == is_space_char(#[trigger] t[i]),
    ensures
        ws_prefix_len(s) == ws_prefix_len(t),
    decreases s.len(),
{
    if s.len() > 0 && is_space_char(s[0]) {
        assert forall|i: int| 0 <= i < s.skip(1).len() implies is_space_char(s.skip(1)[i])
            == is_space_char(#[trigger] t.skip(1)[i]) by {
            assert(s.skip(1)[i] == s[i + 1]);
            assert(t.skip(1)[i] == t[i + 1]);
        }
        lemma_ws_prefix_len_congruent(s.skip(1), t.skip(1));
    }
}

pub proof fn lemma_ws_suffix_len_congruent(s: Seq<char>, t: Seq<char>)
    requires
        s.len() == t.len(),
        forall|i: int| 0 <= i < s.len() ==> is_space_char(s[i]) == is_space_char(#[trigger] t[i]),
    ensures
        ws_suffix_len(s) == ws_suffix_len(t),
    decreases s.len(),
{
    if s.len() > 0 && is_space_char(s[s.len() - 1]) {
        assert forall|i: int| 0 <= i < s.drop_last().len() implies is_space_char(s.drop_last()[i])
            == is_space_char(#[trigger] t.drop_last()[i]) by {
            assert(s.drop_last()[i] == s[i]);
            assert(t.drop_last()[i] == t[i]);
        }
        lemma_ws_suffix_len_congruent(s.drop_last(), t.drop_last());
    }
}

/// Normalization ignores ASCII case: two strings whose characters agree up
/// to ASCII case normalize to the same name.
pub proof fn lemma_normalize_case_insensitive(s: Seq<char>, t: Seq<char>)
    requires
        s.len() == t.len(),
        forall|i: int|
            0 <= i < s.len() ==> lower_char_spec(s[i]) == lower_char_spec(#[trigger] t[i]),
    ensures
        normalize_spec(s) == normalize_spec(t),
{
    assert forall|i: int|
        0 <= i < s.len() implies is_space_char(s[i]) == is_space_char(#[trigger] t[i]) && (s[i]
        == '.') == (t[i] == '.') by {
        lemma_lower_char_classes(s[i], t[i]);
    }
    lemma_ws_prefix_len_congruent(s, t);
    lemma_ws_prefix_len_le(s);
    let a = ws_prefix_len(s) as int;
    let s1 = trim_start_spec(s);
    let t1 = trim_start_spec(t);
    assert forall|i: int|
        0 <= i < s1.len() implies lower_char_spec(s1[i]) == lower_char_spec(#[trigger] t1[i])
        && is_space_char(s1[i]) == is_space_char(t1[i]) && (s1[i] == '.') == (t1[i] == '.') by {
        assert(s1[i] == s[i + a]);
        assert(t1[i] == t[i + a]);
        lemma_lower_char_classes(s[i + a], t[i + a]);
    }
    lemma_ws_suffix_len_congruent(s1, t1);
    lemma_ws_suffix_len_le(s1);
    let s2 = trim_end_spec(s1);
    let t2 = trim_end_spec(t1);
    assert forall|i: int|
        0 <= i < s2.len() implies lower_char_spec(s2[i]) == lower_char_spec(#[trigger] t2[i]) && (
        s2[i] == '.') == (t2[i] == '.') by {
        assert(s2[i] == s1[i]);
        assert(t2[i] == t1[i]);
    }
    if s2.len() > 0 && s2[0] == '.' {
        assert(t2[0] == '.');
        assert(lower_seq(s2.skip(1)) =~= lower_seq(t2.skip(1)));
    } else {
        assert(lower_seq(s2) =~= lower_seq(t2));
    }
}

/// The same string with one more character put in front.
pub open spec fn prepend_char(c: char, s: Seq<char>) -> Seq<char> {
    seq![c] + s
}

/// The counted whitespace suffix of a string with a non-whitespace character
/// put in front is unchanged.
pub proof fn lemma_ws_suffix_prepend(c: char, s: Seq<char>)
    requires
        !is_space_char(c),
    ensures
        ws_suffix_len(prepend_char(c, s)) == ws_suffix_len(s),
    decreases s.len(),
{
    let d = prepend_char(c, s);
    if s.len() == 0 {
        assert(d.len() == 1 && d[0] == c);
    } else {
        assert(d[d.len() - 1] == s[s.len() - 1]);
        if is_space_char(s[s.len() - 1]) {
            assert(d.drop_last() =~= prepend_char(c, s.drop_last()));
            lemma_ws_suffix_prepend(c, s.drop_last());
        }
    }
}

/// The dot character that format normalization strips.
pub open spec fn dot_char() -> char {
    '.'
}

/// The same name with one dot put in front.
pub open spec fn with_leading_dot(s: Seq<char>) -> Seq<char> {
    prepend_char(dot_char(), s)
}

/// Normalization ignores a single leading dot: putting one dot in front of a
/// name that starts with neither whitespace nor a dot does not change the
/// normalized result.
pub proof fn lemma_normalize_dot_insensitive(s: Seq<char>)
    requires
        s.len() > 0 ==> !is_space_char(s[0]),
        s.len() > 0 ==> s[0] != dot_char(),
    ensures
        normalize_spec(with_leading_dot(s)) == normalize_spec(s),
{
    let d = with_leading_dot(s);
    assert(d[0] == '.');
    assert(!is_space_char('.'));
    assert(ws_prefix_len(d) == 0);
    assert(ws_prefix_len(s) == 0);
    assert(trim_start_spec(d) =~= d);
    assert(trim_start_spec(s) =~= s);
    lemma_ws_suffix_prepend('.', s);
    lemma_ws_suffix_len_le(s);
    let se = trim_end_spec(s);
    let de = trim_end_spec(d);
    assert(de =~= seq!['.'] + se);
    assert(de.len() > 0 && de[0] == '.');
    assert(de.skip(1) =~= se);
    if se.len() > 0 {
        assert(se[0] == s[0]);
        assert(se[0] != '.');
    }
}

} // verus!
