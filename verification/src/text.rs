//! Character-level text utilities with the meaning that Rust's `str`
//! methods give them: Unicode whitespace, trimming, words, lines, joins.
use vstd::prelude::*;

verus! {

// ── Specifications ─────────────────────────────────────────────

/// Unicode `White_Space`, the set that `char::is_whitespace` tests.
pub open spec fn is_ws(c: char) -> bool {
    let u = c as u32;
    (0x9 <= u && u <= 0xd) || u == 0x20 || u == 0x85 || u == 0xa0 || u == 0x1680
        || (0x2000 <= u && u <= 0x200a) || u == 0x2028 || u == 0x2029 || u == 0x202f
        || u == 0x205f || u == 0x3000
}

/// Number of leading whitespace characters.
pub open spec fn lead_ws(s: Seq<char>) -> nat
    decreases s.len(),
{
    if s.len() > 0 && is_ws(s[0]) {
        1 + lead_ws(s.drop_first())
    } else {
        0
    }
}

/// Number of trailing whitespace characters.
pub open spec fn trail_ws(s: Seq<char>) -> nat
    decreases s.len(),
{
    if s.len() > 0 && is_ws(s.last()) {
        1 + trail_ws(s.drop_last())
    } else {
        0
    }
}

pub open spec fn trim_start(s: Seq<char>) -> Seq<char> {
    s.skip(lead_ws(s) as int)
}

pub open spec fn trim_end(s: Seq<char>) -> Seq<char> {
    s.take(s.len() - trail_ws(s))
}

/// What `str::trim` returns.
pub open spec fn trim(s: Seq<char>) -> Seq<char> {
    trim_end(trim_start(s))
}

/// Characters of `s` before the first whitespace.
pub open spec fn word_len(s: Seq<char>) -> nat
    decreases s.len(),
{
    if s.len() > 0 && !is_ws(s[0]) {
        1 + word_len(s.drop_first())
    } else {
        0
    }
}

/// What `str::split_whitespace` yields.
pub open spec fn words(s: Seq<char>) -> Seq<Seq<char>>
    decreases s.len(),
{
    if s.len() == 0 {
        seq![]
    } else if is_ws(s[0]) {
        words(s.drop_first())
    } else {
        proof {
            lemma_word_len_bound(s);
        }
        seq![s.take(word_len(s) as int)] + words(s.skip(word_len(s) as int))
    }
}

/// `parts` joined with `sep` between neighbours, as `[T]::join` does.
pub open spec fn join(parts: Seq<Seq<char>>, sep: Seq<char>) -> Seq<char>
    decreases parts.len(),
{
    if parts.len() == 0 {
        seq![]
    } else if parts.len() == 1 {
        parts[0]
    } else {
        join(parts.drop_last(), sep) + sep + parts.last()
    }
}

/// Index of the first `c` in `s`, or `s.len()` when there is none.
pub open spec fn index_of_char(s: Seq<char>, c: char) -> nat
    decreases s.len(),
{
    if s.len() == 0 {
        0
    } else if s[0] == c {
        0
    } else {
        1 + index_of_char(s.drop_first(), c)
    }
}

/// A line without the `'\r'` of a `"\r\n"` ending.
pub open spec fn strip_cr(l: Seq<char>) -> Seq<char> {
    if l.len() > 0 && l.last() == '\r' {
        l.drop_last()
    } else {
        l
    }
}

/// What `str::lines` yields.
pub open spec fn lines(s: Seq<char>) -> Seq<Seq<char>>
    decreases s.len(),
{
    if s.len() == 0 {
        seq![]
    } else {
        proof {
            lemma_index_of_char_bound(s, '\n');
        }
        let i = index_of_char(s, '\n');
        if i == s.len() {
            seq![s]
        } else {
            seq![strip_cr(s.take(i as int))] + lines(s.skip(i as int + 1))
        }
    }
}

/// `needle` occurs in `s` at position `i`.
pub open spec fn occurs_at(s: Seq<char>, needle: Seq<char>, i: int) -> bool {
    0 <= i && i + needle.len() <= s.len() && s.subrange(i, i + needle.len()) == needle
}

/// `s.contains(needle)` for a string needle.
pub open spec fn contains(s: Seq<char>, needle: Seq<char>) -> bool {
    exists|i: int| occurs_at(s, needle, i)
}

pub open spec fn starts_with(s: Seq<char>, p: Seq<char>) -> bool {
    p.len() <= s.len() && s.take(p.len() as int) == p
}

pub open spec fn ends_with(s: Seq<char>, p: Seq<char>) -> bool {
    p.len() <= s.len() && s.skip(s.len() - p.len()) == p
}

pub open spec fn is_ascii_lower(c: char) -> bool {
    'a' <= c && c <= 'z'
}

pub open spec fn is_ascii_upper(c: char) -> bool {
    'A' <= c && c <= 'Z'
}

pub open spec fn is_ascii_digit(c: char) -> bool {
    '0' <= c && c <= '9'
}

pub open spec fn is_ascii_alnum(c: char) -> bool {
    is_ascii_lower(c) || is_ascii_upper(c) || is_ascii_digit(c)
}

pub open spec fn to_lower(c: char) -> char {
    if is_ascii_upper(c) {
        ((c as u32) + 32) as char
    } else {
        c
    }
}

pub open spec fn to_upper(c: char) -> char {
    if is_ascii_lower(c) {
        ((c as u32) - 32) as char
    } else {
        c
    }
}

/// What `str::to_ascii_lowercase` returns.
pub open spec fn ascii_lower(s: Seq<char>) -> Seq<char> {
    s.map_values(|c: char| to_lower(c))
}


/// The texts of a sequence of strings.
pub open spec fn string_views(v: Seq<String>) -> Seq<Seq<char>> {
    v.map_values(|s: String| s@)
}

/// The views of a sequence of character vectors.
pub open spec fn views(vs: Seq<Vec<char>>) -> Seq<Seq<char>> {
    vs.map_values(|x: Vec<char>| x@)
}

/// `s` holds `c` at `j` and at `j + 1`.
pub open spec fn pair_at(s: Seq<char>, c: char, j: int) -> bool {
    0 <= j && j + 1 < s.len() && s[j] == c && s[j + 1] == c
}

/// Position of the first `c c` pair in `s`, or `s.len()` when there is none.
pub open spec fn index_of_pair(s: Seq<char>, c: char) -> nat
    decreases s.len(),
{
    if s.len() < 2 {
        s.len()
    } else if s[0] == c && s[1] == c {
        0
    } else {
        1 + index_of_pair(s.drop_first(), c)
    }
}

/// What `str::split("\n\n")` yields.
pub open spec fn paragraphs(s: Seq<char>) -> Seq<Seq<char>>
    decreases s.len(),
{
    proof {
        lemma_index_of_pair_bound(s, '\n');
    }
    let i = index_of_pair(s, '\n');
    if i >= s.len() {
        seq![s]
    } else {
        seq![s.take(i as int)] + paragraphs(s.skip(i as int + 2))
    }
}

/// Blank-line collapsing: whitespace-only lines become empty lines, and at
/// most `max` of them are kept in a row (`blank` of them came just before).
pub open spec fn collapse_from(ls: Seq<Seq<char>>, max: nat, blank: nat) -> Seq<Seq<char>>
    decreases ls.len(),
{
    if ls.len() == 0 {
        seq![]
    } else if trim(ls[0]).len() == 0 {
        (if blank < max {
            seq![seq![]]
        } else {
            seq![]
        }) + collapse_from(ls.drop_first(), max, blank + 1)
    } else {
        seq![ls[0]] + collapse_from(ls.drop_first(), max, 0)
    }
}

/// The text with runs of blank lines cut to at most `max` empty lines.
pub open spec fn collapse_blank_lines(s: Seq<char>, max: nat) -> Seq<char> {
    join(collapse_from(lines(s), max, 0), seq!['\n'])
}


pub open spec fn digit_val(c: char) -> nat {
    ((c as u32) - ('0' as u32)) as nat
}

pub open spec fn all_digits(s: Seq<char>) -> bool {
    forall|i: int| 0 <= i < s.len() ==> is_ascii_digit(#[trigger] s[i])
}

/// The number that a string of decimal digits writes.
pub open spec fn dec_value(s: Seq<char>) -> nat
    decreases s.len(),
{
    if s.len() == 0 {
        0
    } else {
        dec_value(s.drop_last()) * 10 + digit_val(s.last())
    }
}

/// The digits of `parse_unsigned`: the text without one leading `'+'`.
pub open spec fn unsigned_digits(s: Seq<char>) -> Seq<char> {
    if s.len() > 0 && s[0] == '+' {
        s.drop_first()
    } else {
        s
    }
}

/// What `str::parse` returns for an unsigned integer type whose largest
/// value is `max`: an optional `'+'`, then at least one decimal digit and
/// nothing else, and a value that fits.
pub open spec fn parse_unsigned(s: Seq<char>, max: nat) -> Option<nat> {
    let d = unsigned_digits(s);
    if d.len() == 0 || !all_digits(d) || dec_value(d) > max {
        None
    } else {
        Some(dec_value(d))
    }
}

pub open spec fn digit_char(d: nat) -> char {
    (('0' as u32) + d) as char
}

/// The decimal text of `n`, as `u64::to_string` writes it.
pub open spec fn dec_string(n: nat) -> Seq<char>
    decreases n,
{
    if n < 10 {
        seq![digit_char(n)]
    } else {
        dec_string(n / 10).push(digit_char(n % 10))
    }
}

/// Decimal text of a signed integer.
pub open spec fn int_string(i: int) -> Seq<char> {
    if i < 0 {
        "-"@ + dec_string((-i) as nat)
    } else {
        dec_string(i as nat)
    }
}

// ── Lemmas ─────────────────────────────────────────────────────

pub proof fn lemma_word_len_bound(s: Seq<char>)
    ensures
        word_len(s) <= s.len(),
        s.len() > 0 && !is_ws(s[0]) ==> word_len(s) >= 1,
    decreases s.len(),
{
    if s.len() > 0 && !is_ws(s[0]) {
        lemma_word_len_bound(s.drop_first());
    }
}

pub proof fn lemma_index_of_char_bound(s: Seq<char>, c: char)
    ensures
        index_of_char(s, c) <= s.len(),
        index_of_char(s, c) < s.len() ==> s[index_of_char(s, c) as int] == c,
        forall|j: int| 0 <= j < index_of_char(s, c) ==> s[j] != c,
    decreases s.len(),
{
    if s.len() > 0 && s[0] != c {
        lemma_index_of_char_bound(s.drop_first(), c);
        assert forall|j: int| 0 <= j < index_of_char(s, c) implies s[j] != c by {
            if j > 0 {
                assert(s[j] == s.drop_first()[j - 1]);
            }
        }
    }
}

/// `lead_ws` is the length of the whitespace run that starts `s`.
pub proof fn lemma_lead_ws(s: Seq<char>, k: int)
    requires
        0 <= k <= s.len(),
        forall|j: int| 0 <= j < k ==> is_ws(s[j]),
        k == s.len() || !is_ws(s[k]),
    ensures
        lead_ws(s) == k,
    decreases k,
{
    if k > 0 {
        let t = s.drop_first();
        assert forall|j: int| 0 <= j < k - 1 implies is_ws(t[j]) by {
            assert(t[j] == s[j + 1]);
        }
        if k - 1 < t.len() {
            assert(t[k - 1] == s[k]);
        }
        lemma_lead_ws(t, k - 1);
    }
}

/// `trail_ws` is the length of the whitespace run that ends `s`.
pub proof fn lemma_trail_ws(s: Seq<char>, k: int)
    requires
        0 <= k <= s.len(),
        forall|j: int| s.len() - k <= j < s.len() ==> is_ws(s[j]),
        k == s.len() || !is_ws(s[s.len() - k - 1]),
    ensures
        trail_ws(s) == k,
    decreases k,
{
    if k > 0 {
        let t = s.drop_last();
        assert forall|j: int| t.len() - (k - 1) <= j < t.len() implies is_ws(t[j]) by {
            assert(t[j] == s[j]);
        }
        if k - 1 < t.len() {
            assert(t[t.len() - (k - 1) - 1] == s[s.len() - k - 1]);
        }
        lemma_trail_ws(t, k - 1);
    }
}

/// `word_len` is the length of the non-whitespace run that starts `s`.
pub proof fn lemma_word_len(s: Seq<char>, k: int)
    requires
        0 <= k <= s.len(),
        forall|j: int| 0 <= j < k ==> !is_ws(s[j]),
        k == s.len() || is_ws(s[k]),
    ensures
        word_len(s) == k,
    decreases k,
{
    if k > 0 {
        let t = s.drop_first();
        assert forall|j: int| 0 <= j < k - 1 implies !is_ws(t[j]) by {
            assert(t[j] == s[j + 1]);
        }
        if k - 1 < t.len() {
            assert(t[k - 1] == s[k]);
        }
        lemma_word_len(t, k - 1);
    }
}

/// `index_of_char` is the position of the first occurrence.
pub proof fn lemma_index_of_char(s: Seq<char>, c: char, k: int)
    requires
        0 <= k <= s.len(),
        forall|j: int| 0 <= j < k ==> s[j] != c,
        k == s.len() || s[k] == c,
    ensures
        index_of_char(s, c) == k,
    decreases k,
{
    if k > 0 {
        let t = s.drop_first();
        assert forall|j: int| 0 <= j < k - 1 implies t[j] != c by {
            assert(t[j] == s[j + 1]);
        }
        if k - 1 < t.len() {
            assert(t[k - 1] == s[k]);
        }
        lemma_index_of_char(t, c, k - 1);
    }
}

pub proof fn lemma_join_push(parts: Seq<Seq<char>>, sep: Seq<char>, w: Seq<char>)
    ensures
        join(parts.push(w), sep) == if parts.len() == 0 {
            w
        } else {
            join(parts, sep) + sep + w
        },
{
    let p = parts.push(w);
    assert(p.drop_last() =~= parts);
    assert(p.last() == w);
    if parts.len() == 0 {
        assert(p[0] == w);
    }
}

/// A trimmed string starts and ends with a non-whitespace character.
pub proof fn lemma_trim_shape(s: Seq<char>)
    ensures
        trim(s).len() == 0 || (!is_ws(trim(s)[0]) && !is_ws(trim(s).last())),
        lead_ws(s) <= s.len(),
{
    lemma_lead_bound(s);
    let t = trim_start(s);
    lemma_trail_bound(t);
    if trim(s).len() > 0 {
        lemma_lead_stop(s);
        lemma_trail_stop(t);
        assert(trim(s)[0] == t[0]);
        assert(trim(s).last() == t[t.len() - trail_ws(t) - 1]);
    }
}

/// A text that starts and ends with non-whitespace is its own trim.
pub proof fn lemma_trim_fixed(x: Seq<char>)
    requires
        x.len() == 0 || (!is_ws(x[0]) && !is_ws(x.last())),
    ensures
        trim(x) == x,
{
    assert(lead_ws(x) == 0);
    assert(x.skip(0) =~= x);
    assert(trail_ws(x) == 0);
    assert(x.take(x.len() as int) =~= x);
}

/// Trimming twice is trimming once.
pub proof fn lemma_trim_idempotent(s: Seq<char>)
    ensures
        trim(trim(s)) == trim(s),
{
    lemma_trim_shape(s);
    lemma_trim_fixed(trim(s));
}

/// A word of lowercase ASCII letters is its own trim and its own lowercase.
pub proof fn lemma_lower_word_fixed(x: Seq<char>)
    requires
        forall|i: int| 0 <= i < x.len() ==> is_ascii_lower(#[trigger] x[i]),
    ensures
        trim(x) == x,
        ascii_lower(x) == x,
{
    if x.len() > 0 {
        assert(is_ascii_lower(x[0]));
        assert(is_ascii_lower(x[x.len() - 1]));
    }
    lemma_trim_fixed(x);
    assert(ascii_lower(x) =~= x);
}

pub proof fn lemma_lead_bound(s: Seq<char>)
    ensures
        lead_ws(s) <= s.len(),
        forall|j: int| 0 <= j < lead_ws(s) ==> is_ws(s[j]),
    decreases s.len(),
{
    if s.len() > 0 && is_ws(s[0]) {
        lemma_lead_bound(s.drop_first());
        assert forall|j: int| 0 <= j < lead_ws(s) implies is_ws(s[j]) by {
            if j > 0 {
                assert(s[j] == s.drop_first()[j - 1]);
            }
        }
    }
}

pub proof fn lemma_lead_stop(s: Seq<char>)
    ensures
        lead_ws(s) < s.len() ==> !is_ws(s[lead_ws(s) as int]),
    decreases s.len(),
{
    if s.len() > 0 && is_ws(s[0]) {
        lemma_lead_stop(s.drop_first());
        if lead_ws(s) < s.len() {
            assert(s[lead_ws(s) as int] == s.drop_first()[lead_ws(s) - 1]);
        }
    }
}

pub proof fn lemma_trail_bound(s: Seq<char>)
    ensures
        trail_ws(s) <= s.len(),
        forall|j: int| s.len() - trail_ws(s) <= j < s.len() ==> is_ws(s[j]),
    decreases s.len(),
{
    if s.len() > 0 && is_ws(s.last()) {
        lemma_trail_bound(s.drop_last());
        assert forall|j: int| s.len() - trail_ws(s) <= j < s.len() implies is_ws(s[j]) by {
            if j < s.len() - 1 {
                assert(s[j] == s.drop_last()[j]);
            }
        }
    }
}

pub proof fn lemma_trail_stop(s: Seq<char>)
    ensures
        trail_ws(s) < s.len() ==> !is_ws(s[s.len() - trail_ws(s) - 1]),
    decreases s.len(),
{
    if s.len() > 0 && is_ws(s.last()) {
        lemma_trail_stop(s.drop_last());
        if trail_ws(s) < s.len() {
            assert(s[s.len() - trail_ws(s) - 1] == s.drop_last()[s.len() - 1 - trail_ws(
                s.drop_last(),
            ) - 1]);
        }
    }
}


pub proof fn lemma_index_of_pair_bound(s: Seq<char>, c: char)
    ensures
        index_of_pair(s, c) <= s.len(),
        index_of_pair(s, c) < s.len() ==> index_of_pair(s, c) + 1 < s.len(),
    decreases s.len(),
{
    if s.len() >= 2 && !(s[0] == c && s[1] == c) {
        lemma_index_of_pair_bound(s.drop_first(), c);
    }
}

/// `index_of_pair` is the first position of a `c c` pair, or the length.
pub proof fn lemma_index_of_pair(s: Seq<char>, c: char, k: int)
    requires
        0 <= k <= s.len(),
        forall|j: int| 0 <= j < k ==> !#[trigger] pair_at(s, c, j),
        k == s.len() || pair_at(s, c, k),
    ensures
        index_of_pair(s, c) == k,
    decreases k,
{
    if s.len() < 2 {
    } else if k > 0 {
        let t = s.drop_first();
        assert(!pair_at(s, c, 0));
        assert forall|j: int| 0 <= j < k - 1 implies !#[trigger] pair_at(t, c, j) by {
            assert(!pair_at(s, c, j + 1));
            if j + 1 < t.len() {
                assert(t[j] == s[j + 1]);
                assert(t[j + 1] == s[j + 2]);
            }
        }
        if k < s.len() {
            assert(t[k - 1] == s[k]);
            assert(t[k] == s[k + 1]);
        }
        lemma_index_of_pair(t, c, k - 1);
    }
}

pub proof fn lemma_views_push(vs: Seq<Vec<char>>, x: Vec<char>)
    ensures
        views(vs.push(x)) == views(vs).push(x@),
{
    assert(views(vs.push(x)) =~= views(vs).push(x@));
}


/// Leading whitespace does not change the words.
pub proof fn lemma_words_skip_ws(s: Seq<char>, a: int)
    requires
        0 <= a <= s.len(),
        forall|j: int| 0 <= j < a ==> is_ws(s[j]),
    ensures
        words(s) == words(s.skip(a)),
    decreases a,
{
    if a > 0 {
        let t = s.drop_first();
        assert forall|j: int| 0 <= j < a - 1 implies is_ws(t[j]) by {
            assert(t[j] == s[j + 1]);
        }
        lemma_words_skip_ws(t, a - 1);
        assert(t.skip(a - 1) =~= s.skip(a));
    } else {
        assert(s.skip(0) =~= s);
    }
}

// ── Executable functions ───────────────────────────────────────

/// Appends a character to a string (`String::push`).
#[verifier::external_body]
fn push_char(s: &mut String, c: char)
    ensures
        final(s)@ == old(s)@.push(c),
{
    s.push(c);
}

/// `char::is_whitespace`.
pub fn is_whitespace(c: char) -> (r: bool)
    ensures
        r == is_ws(c),
{
    let u = c as u32;
    (0x9 <= u && u <= 0xd) || u == 0x20 || u == 0x85 || u == 0xa0 || u == 0x1680 || (0x2000 <= u
        && u <= 0x200a) || u == 0x2028 || u == 0x2029 || u == 0x202f || u == 0x205f || u == 0x3000
}

/// The characters of a string.
pub fn chars_of(s: &str) -> (r: Vec<char>)
    ensures
        r@ == s@,
{
    let mut out: Vec<char> = Vec::new();
    for c in it: s.chars()
        invariant
            out@ == it.seq().take(it.index() as int),
    {
        out.push(c);
    }
    out
}

/// A string made of the given characters.
pub fn string_of(v: &[char]) -> (r: String)
    ensures
        r@ == v@,
{
    let mut s = String::new();
    let mut i: usize = 0;
    while i < v.len()
        invariant
            i <= v.len(),
            s@ == v@.take(i as int),
        decreases v.len() - i,
    {
        push_char(&mut s, v[i]);
        assert(v@.take(i as int + 1) =~= v@.take(i as int).push(v@[i as int]));
        i += 1;
    }
    assert(v@.take(v.len() as int) =~= v@);
    s
}

/// A fresh string with the text of `s`.
pub fn owned(s: &str) -> (r: String)
    ensures
        r@ == s@,
{
    s.to_owned()
}

/// The characters `v[a..b]`.
pub fn subvec(v: &[char], a: usize, b: usize) -> (r: Vec<char>)
    requires
        a <= b <= v.len(),
    ensures
        r@ == v@.subrange(a as int, b as int),
{
    let mut out: Vec<char> = Vec::new();
    let mut i = a;
    while i < b
        invariant
            a <= i <= b <= v.len(),
            out@ == v@.subrange(a as int, i as int),
        decreases b - i,
    {
        out.push(v[i]);
        assert(v@.subrange(a as int, i + 1) =~= v@.subrange(a as int, i as int).push(v@[i as int]));
        i += 1;
    }
    out
}

/// Appends all of `w` to `out`.
pub fn append_chars(out: &mut Vec<char>, w: &[char])
    ensures
        final(out)@ == old(out)@ + w@,
{
    let mut i: usize = 0;
    while i < w.len()
        invariant
            i <= w.len(),
            out@ == old(out)@ + w@.take(i as int),
        decreases w.len() - i,
    {
        out.push(w[i]);
        assert(w@.take(i as int + 1) =~= w@.take(i as int).push(w@[i as int]));
        i += 1;
    }
    assert(w@.take(w.len() as int) =~= w@);
}

/// Appends the text of `s` to `out`.
pub fn append_str(out: &mut Vec<char>, s: &str)
    ensures
        final(out)@ == old(out)@ + s@,
{
    let v = chars_of(s);
    append_chars(out, &v);
}

/// Where `str::trim` cuts `v`.
pub fn trim_bounds(v: &[char]) -> (r: (usize, usize))
    ensures
        r.0 <= r.1 <= v.len(),
        v@.subrange(r.0 as int, r.1 as int) == trim(v@),
        r.0 == lead_ws(v@),
{
    let n = v.len();
    let mut a: usize = 0;
    while a < n && is_whitespace(v[a])
        invariant
            a <= n == v.len(),
            forall|j: int| 0 <= j < a ==> is_ws(v@[j]),
        decreases n - a,
    {
        a += 1;
    }
    proof {
        lemma_lead_ws(v@, a as int);
    }
    let mut b: usize = n;
    while b > a && is_whitespace(v[b - 1])
        invariant
            a <= b <= n == v.len(),
            forall|j: int| b <= j < n ==> is_ws(v@[j]),
        decreases b,
    {
        b -= 1;
    }
    proof {
        let t = v@.skip(a as int);
        assert forall|j: int| t.len() - (n - b) <= j < t.len() implies is_ws(t[j]) by {
            assert(t[j] == v@[j + a]);
        }
        if n - b < t.len() {
            assert(t[t.len() - (n - b) - 1] == v@[b - 1]);
        }
        lemma_trail_ws(t, (n - b) as int);
        assert(trim(v@) =~= v@.subrange(a as int, b as int));
    }
    (a, b)
}

/// `str::trim`, on characters.
pub fn trim_vec(v: &[char]) -> (r: Vec<char>)
    ensures
        r@ == trim(v@),
{
    let (a, b) = trim_bounds(v);
    subvec(v, a, b)
}

/// `str::trim().to_string()`.
pub fn trim_string(s: &str) -> (r: String)
    ensures
        r@ == trim(s@),
{
    let v = chars_of(s);
    let t = trim_vec(&v);
    string_of(&t)
}

/// Whether `str::trim` leaves nothing.
pub fn is_blank(v: &[char]) -> (r: bool)
    ensures
        r == (trim(v@).len() == 0),
{
    let (a, b) = trim_bounds(v);
    a == b
}

/// Whether `s.trim()` is empty.
pub fn str_is_blank(s: &str) -> (r: bool)
    ensures
        r == (trim(s@).len() == 0),
{
    let v = chars_of(s);
    is_blank(&v)
}

/// Equality of two character sequences.
pub fn chars_eq(a: &[char], b: &[char]) -> (r: bool)
    ensures
        r == (a@ == b@),
{
    if a.len() != b.len() {
        return false;
    }
    let mut i: usize = 0;
    while i < a.len()
        invariant
            i <= a.len() == b.len(),
            forall|j: int| 0 <= j < i ==> a@[j] == b@[j],
        decreases a.len() - i,
    {
        if a[i] != b[i] {
            return false;
        }
        i += 1;
    }
    assert(a@ =~= b@);
    true
}

/// Equality of two strings.
pub fn str_eq(a: &str, b: &str) -> (r: bool)
    ensures
        r == (a@ == b@),
{
    let va = chars_of(a);
    let vb = chars_of(b);
    chars_eq(&va, &vb)
}

/// `str::split_whitespace` joined by single spaces.
pub fn normalize_words(v: &[char]) -> (r: Vec<char>)
    ensures
        r@ == join(words(v@), seq![' ']),
{
    let n = v.len();
    let ghost s = v@;
    let mut out: Vec<char> = Vec::new();
    let ghost mut done: Seq<Seq<char>> = seq![];
    let mut i: usize = 0;
    assert(s.skip(0) =~= s);
    while i < n
        invariant
            i <= n == v.len(),
            s == v@,
            words(s) == done + words(s.skip(i as int)),
            out@ == join(done, seq![' ']),
            (out@.len() == 0) == (done.len() == 0),
        decreases n - i,
    {
        let ghost rest = s.skip(i as int);
        if is_whitespace(v[i]) {
            assert(rest.drop_first() =~= s.skip(i + 1));
            i += 1;
        } else {
            let start = i;
            while i < n && !is_whitespace(v[i])
                invariant
                    start <= i <= n == v.len(),
                    s == v@,
                    forall|j: int| start <= j < i ==> !is_ws(s[j]),
                decreases n - i,
            {
                i += 1;
            }
            let ghost w = s.subrange(start as int, i as int);
            proof {
                assert forall|j: int| 0 <= j < i - start implies !is_ws(rest[j]) by {
                    assert(rest[j] == s[j + start]);
                }
                if i < n {
                    assert(rest[i - start] == s[i as int]);
                }
                lemma_word_len(rest, i - start);
                assert(rest.take(i - start) =~= w);
                assert(rest.skip(i - start) =~= s.skip(i as int));
                lemma_join_push(done, seq![' '], w);
                assert(done + words(rest) =~= done.push(w) + words(s.skip(i as int)));
            }
            if out.len() > 0 {
                out.push(' ');
            }
            let word = subvec(v, start, i);
            append_chars(&mut out, &word);
            proof {
                done = done.push(w);
            }
        }
    }
    proof {
        assert(s.skip(n as int) =~= seq![]);
        assert(done + seq![] =~= done);
    }
    out
}


/// `parts` joined with `sep` between neighbours.
pub fn join_vecs(parts: &Vec<Vec<char>>, sep: &[char]) -> (r: Vec<char>)
    ensures
        r@ == join(views(parts@), sep@),
{
    let mut out: Vec<char> = Vec::new();
    let mut i: usize = 0;
    while i < parts.len()
        invariant
            i <= parts.len(),
            out@ == join(views(parts@.take(i as int)), sep@),
        decreases parts.len() - i,
    {
        proof {
            assert(parts@.take(i as int + 1) =~= parts@.take(i as int).push(parts@[i as int]));
            lemma_views_push(parts@.take(i as int), parts@[i as int]);
            lemma_join_push(views(parts@.take(i as int)), sep@, parts@[i as int]@);
        }
        if i > 0 {
            append_chars(&mut out, sep);
        }
        append_chars(&mut out, &parts[i]);
        i += 1;
    }
    assert(parts@.take(parts.len() as int) =~= parts@);
    out
}

/// `str::lines`, on characters.
pub fn lines_vec(v: &[char]) -> (r: Vec<Vec<char>>)
    ensures
        views(r@) == lines(v@),
{
    let n = v.len();
    let ghost s = v@;
    let mut out: Vec<Vec<char>> = Vec::new();
    let mut i: usize = 0;
    assert(s.skip(0) =~= s);
    while i < n
        invariant
            i <= n == v.len(),
            s == v@,
            lines(s) == views(out@) + lines(s.skip(i as int)),
        decreases n - i,
    {
        let ghost rest = s.skip(i as int);
        let start = i;
        while i < n && v[i] != '\n'
            invariant
                start <= i <= n == v.len(),
                s == v@,
                forall|j: int| start <= j < i ==> s[j] != '\n',
            decreases n - i,
        {
            i += 1;
        }
        proof {
            assert forall|j: int| 0 <= j < i - start implies rest[j] != '\n' by {
                assert(rest[j] == s[j + start]);
            }
            if i < n {
                assert(rest[i - start] == s[i as int]);
            }
            lemma_index_of_char(rest, '\n', i - start);
        }
        let mut end = i;
        if i < n && end > start && v[end - 1] == '\r' {
            end = end - 1;
        }
        let line = subvec(v, start, end);
        proof {
            lemma_views_push(out@, line);
            if i < n {
                assert(rest.take(i - start) =~= s.subrange(start as int, i as int));
                assert(strip_cr(rest.take(i - start)) =~= line@);
                assert(rest.skip(i - start + 1) =~= s.skip(i + 1));
                assert(views(out@) + lines(rest) =~= views(out@).push(line@) + lines(s.skip(i + 1)));
            } else {
                assert(rest =~= line@);
                assert(s.skip(n as int) =~= seq![]);
                assert(views(out@) + lines(rest) =~= views(out@).push(line@) + lines(s.skip(n as int)));
            }
        }
        out.push(line);
        if i < n {
            i += 1;
        }
    }
    proof {
        assert(s.skip(n as int) =~= seq![]);
        assert(views(out@) + seq![] =~= views(out@));
    }
    out
}

/// `str::split("\n\n")`, on characters.
pub fn paragraphs_vec(v: &[char]) -> (r: Vec<Vec<char>>)
    ensures
        views(r@) == paragraphs(v@),
{
    let n = v.len();
    let ghost s = v@;
    let mut out: Vec<Vec<char>> = Vec::new();
    let mut start: usize = 0;
    assert(s.skip(0) =~= s);
    loop
        invariant
            start <= n == v.len(),
            s == v@,
            paragraphs(s) == views(out@) + paragraphs(s.skip(start as int)),
        decreases n - start,
    {
        let ghost rest = s.skip(start as int);
        let mut i = start;
        while n - i > 1 && !(v[i] == '\n' && v[i + 1] == '\n')
            invariant
                start <= i <= n == v.len(),
                s == v@,
                forall|j: int| start <= j < i ==> !#[trigger] pair_at(s, '\n', j),
            decreases n - i,
        {
            i += 1;
        }
        if n - i > 1 {
            proof {
                assert forall|j: int| 0 <= j < i - start implies !#[trigger] pair_at(rest, '\n', j) by {
                    assert(!pair_at(s, '\n', j + start));
                    if j + 1 < rest.len() {
                        assert(rest[j] == s[j + start]);
                        assert(rest[j + 1] == s[j + 1 + start]);
                    }
                }
                assert(rest[i - start] == s[i as int]);
                assert(rest[i - start + 1] == s[i + 1]);
                lemma_index_of_pair(rest, '\n', i - start);
            }
            let part = subvec(v, start, i);
            proof {
                lemma_views_push(out@, part);
                assert(rest.take(i - start) =~= part@);
                assert(rest.skip(i - start + 2) =~= s.skip(i + 2));
                assert(views(out@) + paragraphs(rest) =~= views(out@).push(part@) + paragraphs(
                    s.skip(i + 2),
                ));
            }
            out.push(part);
            start = i + 2;
        } else {
            let part = subvec(v, start, n);
            proof {
                let k = rest.len() as int;
                assert forall|j: int| 0 <= j < k implies !#[trigger] pair_at(rest, '\n', j) by {
                    if j < i - start {
                        assert(!pair_at(s, '\n', j + start));
                    }
                    if j + 1 < rest.len() {
                        assert(rest[j] == s[j + start]);
                        assert(rest[j + 1] == s[j + 1 + start]);
                    }
                }
                lemma_index_of_pair(rest, '\n', k);
                lemma_views_push(out@, part);
                assert(rest =~= part@);
                assert(views(out@) + paragraphs(rest) =~= views(out@).push(part@));
            }
            out.push(part);
            return out;
        }
    }
}

/// Lines of `v` with runs of blank lines cut to at most `max_blank` empty
/// lines, joined back with `'\n'`.
pub fn collapse_blank_lines_vec(v: &[char], max_blank: usize) -> (r: Vec<char>)
    ensures
        r@ == collapse_blank_lines(v@, max_blank as nat),
{
    let ls = lines_vec(v);
    let ghost all = views(ls@);
    let mut result: Vec<Vec<char>> = Vec::new();
    let mut blank_count: usize = 0;
    let mut i: usize = 0;
    assert(all.skip(0) =~= all);
    while i < ls.len()
        invariant
            i <= ls.len(),
            all == views(ls@),
            blank_count <= i,
            collapse_from(all, max_blank as nat, 0) == views(result@) + collapse_from(
                all.skip(i as int),
                max_blank as nat,
                blank_count as nat,
            ),
        decreases ls.len() - i,
    {
        let ghost rest = all.skip(i as int);
        assert(rest[0] == ls@[i as int]@);
        assert(rest.drop_first() =~= all.skip(i + 1));
        if is_blank(&ls[i]) {
            if blank_count < max_blank {
                let e: Vec<char> = Vec::new();
                proof {
                    lemma_views_push(result@, e);
                    assert(views(result@) + collapse_from(rest, max_blank as nat, blank_count as nat)
                        =~= views(result@).push(e@) + collapse_from(
                        all.skip(i + 1),
                        max_blank as nat,
                        (blank_count + 1) as nat,
                    ));
                }
                result.push(e);
            } else {
                assert(views(result@) + collapse_from(rest, max_blank as nat, blank_count as nat)
                    =~= views(result@) + collapse_from(
                    all.skip(i + 1),
                    max_blank as nat,
                    (blank_count + 1) as nat,
                ));
            }
            blank_count += 1;
        } else {
            blank_count = 0;
            let line = subvec(&ls[i], 0, ls[i].len());
            proof {
                assert(line@ =~= ls@[i as int]@);
                lemma_views_push(result@, line);
                assert(views(result@) + collapse_from(rest, max_blank as nat, blank_count as nat)
                    =~= views(result@).push(line@) + collapse_from(
                    all.skip(i + 1),
                    max_blank as nat,
                    0,
                ));
            }
            result.push(line);
        }
        i += 1;
    }
    proof {
        assert(all.skip(ls.len() as int) =~= seq![]);
        assert(views(result@) + seq![] =~= views(result@));
    }
    let sep = vec!['\n'];
    assert(sep@ =~= seq!['\n']);
    join_vecs(&result, &sep)
}

/// `str::parse::<u64>()`.
pub fn parse_u64(v: &[char]) -> (r: Option<u64>)
    ensures
        match r {
            Some(x) => parse_unsigned(v@, u64::MAX as nat) == Some(x as nat),
            None => parse_unsigned(v@, u64::MAX as nat) is None,
        },
{
    let n = v.len();
    let start: usize = if n > 0 && v[0] == '+' { 1 } else { 0 };
    let ghost d = unsigned_digits(v@);
    assert(d =~= v@.skip(start as int));
    if start == n {
        return None;
    }
    let mut acc: u64 = 0;
    let mut over = false;
    let mut i = start;
    assert(d.take(0) =~= seq![]);
    while i < n
        invariant
            start <= i <= n == v.len(),
            d == v@.skip(start as int),
            d == unsigned_digits(v@),
            all_digits(d.take(i - start)),
            !over ==> acc as nat == dec_value(d.take(i - start)),
            over ==> dec_value(d.take(i - start)) > u64::MAX,
        decreases n - i,
    {
        let c = v[i];
        if !('0' <= c && c <= '9') {
            assert(d[i - start] == c);
            assert(!is_ascii_digit(d[i - start]));
            assert(!all_digits(d));
            return None;
        }
        let dig = (c as u32 - '0' as u32) as u64;
        let ghost t = d.take(i - start);
        let ghost t2 = d.take(i - start + 1);
        assert(t2.drop_last() =~= t);
        assert(t2.last() == c);
        assert(dec_value(t2) == dec_value(t) * 10 + digit_val(c));
        assert(all_digits(t2)) by {
            assert forall|j: int| 0 <= j < t2.len() implies is_ascii_digit(#[trigger] t2[j]) by {
                if j < t.len() {
                    assert(t2[j] == t[j]);
                }
            }
        }
        if !over {
            match acc.checked_mul(10) {
                Some(m) => match m.checked_add(dig) {
                    Some(a) => {
                        acc = a;
                    },
                    None => {
                        over = true;
                    },
                },
                None => {
                    over = true;
                    assert(dec_value(t) * 10 > u64::MAX) by (nonlinear_arith)
                        requires
                            acc * 10 > u64::MAX,
                            acc as nat == dec_value(t),
                    ;
                },
            }
        }
        i += 1;
    }
    assert(d.take(n - start) =~= d);
    if over {
        None
    } else {
        Some(acc)
    }
}

/// Appends the decimal text of `x`, with a minus sign when negative.
pub fn push_i64(out: &mut Vec<char>, x: i64)
    ensures
        final(out)@ == old(out)@ + int_string(x as int),
{
    if x < 0 {
        out.push('-');
        let m: u64 = ((0i64 - (x + 1)) as u64) + 1;
        push_decimal(out, m);
        proof {
            reveal_strlit("-");
            assert(old(out)@.push('-') + dec_string(m as nat) =~= old(out)@ + ("-"@ + dec_string(
                m as nat,
            )));
        }
    } else {
        push_decimal(out, x as u64);
    }
}

/// Appends the decimal text of `n`.
pub fn push_decimal(out: &mut Vec<char>, n: u64)
    ensures
        final(out)@ == old(out)@ + dec_string(n as nat),
    decreases n,
{
    if n >= 10 {
        push_decimal(out, n / 10);
    }
    let c = char_of_digit((n % 10) as u32);
    out.push(c);
    proof {
        if n < 10 {
            assert(dec_string(n as nat) =~= seq![c]);
        } else {
            assert(dec_string(n as nat) =~= dec_string((n / 10) as nat).push(c));
        }
    }
}

/// The character of a decimal digit.
pub fn char_of_digit(d: u32) -> (c: char)
    requires
        d < 10,
    ensures
        c == digit_char(d as nat),
{
    if d == 0 { '0' } else if d == 1 { '1' } else if d == 2 { '2' } else if d == 3 { '3' }
    else if d == 4 { '4' } else if d == 5 { '5' } else if d == 6 { '6' } else if d == 7 { '7' }
    else if d == 8 { '8' } else { '9' }
}

/// Whether `needle` occurs in `s` at position `i`.
pub fn matches_at(s: &[char], needle: &[char], i: usize) -> (r: bool)
    ensures
        r == occurs_at(s@, needle@, i as int),
{
    if i > s.len() || needle.len() > s.len() - i {
        return false;
    }
    let mut k: usize = 0;
    while k < needle.len()
        invariant
            k <= needle.len(),
            i + needle.len() <= s.len(),
            forall|j: int| 0 <= j < k ==> s@[i + j] == needle@[j],
        decreases needle.len() - k,
    {
        if s[i + k] != needle[k] {
            assert(s@.subrange(i as int, i + needle.len())[k as int] != needle@[k as int]);
            return false;
        }
        k += 1;
    }
    assert(s@.subrange(i as int, i + needle.len()) =~= needle@);
    true
}

/// `str::contains` with a string needle.
pub fn contains_chars(s: &[char], needle: &[char]) -> (r: bool)
    ensures
        r == contains(s@, needle@),
{
    if needle.len() > s.len() {
        return false;
    }
    let last = s.len() - needle.len();
    let mut i: usize = 0;
    loop
        invariant
            needle.len() <= s.len(),
            last == s.len() - needle.len(),
            i <= last,
            forall|j: int| 0 <= j < i ==> !#[trigger] occurs_at(s@, needle@, j),
        decreases last - i,
    {
        if matches_at(s, needle, i) {
            return true;
        }
        if i == last {
            assert forall|j: int| 0 <= j implies !#[trigger] occurs_at(s@, needle@, j) by {
                if j > i {
                    assert(!occurs_at(s@, needle@, j));
                }
            }
            return false;
        }
        i += 1;
    }
}

/// `str::contains` on string slices.
pub fn str_contains(s: &str, needle: &str) -> (r: bool)
    ensures
        r == contains(s@, needle@),
{
    let a = chars_of(s);
    let b = chars_of(needle);
    contains_chars(&a, &b)
}

/// `str::starts_with` with a string prefix.
pub fn starts_with_chars(s: &[char], p: &[char]) -> (r: bool)
    ensures
        r == starts_with(s@, p@),
{
    let r = matches_at(s, p, 0);
    proof {
        if p.len() <= s.len() {
            assert(s@.subrange(0, p.len() as int) =~= s@.take(p.len() as int));
        }
    }
    r
}

/// `str::ends_with` with a string suffix.
pub fn ends_with_chars(s: &[char], p: &[char]) -> (r: bool)
    ensures
        r == ends_with(s@, p@),
{
    if p.len() > s.len() {
        return false;
    }
    let r = matches_at(s, p, s.len() - p.len());
    proof {
        assert(s@.subrange(s.len() - p.len(), s.len() as int) =~= s@.skip(s.len() - p.len()));
    }
    r
}

/// `char::to_ascii_lowercase`.
pub fn lower_char(c: char) -> (r: char)
    ensures
        r == to_lower(c),
{
    if 'A' <= c && c <= 'Z' {
        ((c as u32) + 32) as u8 as char
    } else {
        c
    }
}

/// `char::to_ascii_uppercase`.
pub fn upper_char(c: char) -> (r: char)
    ensures
        r == to_upper(c),
{
    if 'a' <= c && c <= 'z' {
        ((c as u32) - 32) as u8 as char
    } else {
        c
    }
}

/// `str::to_ascii_lowercase`, on characters.
pub fn lower_vec(v: &[char]) -> (r: Vec<char>)
    ensures
        r@ == ascii_lower(v@),
{
    let mut out: Vec<char> = Vec::new();
    let mut i: usize = 0;
    while i < v.len()
        invariant
            i <= v.len(),
            out@ == ascii_lower(v@.take(i as int)),
        decreases v.len() - i,
    {
        out.push(lower_char(v[i]));
        assert(ascii_lower(v@.take(i as int + 1)) =~= ascii_lower(v@.take(i as int)).push(
            to_lower(v@[i as int]),
        ));
        i += 1;
    }
    assert(v@.take(v.len() as int) =~= v@);
    out
}

/// Where the first word of `v` starts and ends, when there is one; the words
/// after it are those of what follows it.
pub fn first_word_span(v: &[char]) -> (r: Option<(usize, usize)>)
    ensures
        match r {
            Some((a, b)) => a < b <= v.len() && words(v@).len() > 0 && v@.subrange(a as int, b as int)
                == words(v@)[0] && words(v@).drop_first() == words(v@.skip(b as int)),
            None => words(v@).len() == 0,
        },
{
    let n = v.len();
    let mut a: usize = 0;
    while a < n && is_whitespace(v[a])
        invariant
            a <= n == v.len(),
            forall|j: int| 0 <= j < a ==> is_ws(v@[j]),
        decreases n - a,
    {
        a += 1;
    }
    proof {
        lemma_words_skip_ws(v@, a as int);
    }
    if a == n {
        assert(v@.skip(a as int) =~= seq![]);
        return None;
    }
    let mut b = a;
    while b < n && !is_whitespace(v[b])
        invariant
            a <= b <= n == v.len(),
            forall|j: int| a <= j < b ==> !is_ws(v@[j]),
        decreases n - b,
    {
        b += 1;
    }
    proof {
        let rest = v@.skip(a as int);
        assert forall|j: int| 0 <= j < b - a implies !is_ws(rest[j]) by {
            assert(rest[j] == v@[j + a]);
        }
        if b < n {
            assert(rest[b - a] == v@[b as int]);
        }
        lemma_word_len(rest, b - a);
        assert(rest.take(b - a) =~= v@.subrange(a as int, b as int));
        assert(rest.skip(b - a) =~= v@.skip(b as int));
        let w = words(rest);
        assert(w.drop_first() =~= words(rest.skip(b - a)));
    }
    Some((a, b))
}

/// The first word of `v` (`split_whitespace().next()`).
pub fn first_word(v: &[char]) -> (r: Option<Vec<char>>)
    ensures
        match r {
            Some(w) => words(v@).len() > 0 && w@ == words(v@)[0],
            None => words(v@).len() == 0,
        },
{
    match first_word_span(v) {
        Some((a, b)) => Some(subvec(v, a, b)),
        None => None,
    }
}

/// The second word of `v` (`split_whitespace().nth(1)`).
pub fn second_word(v: &[char]) -> (r: Option<Vec<char>>)
    ensures
        match r {
            Some(w) => words(v@).len() > 1 && w@ == words(v@)[1],
            None => words(v@).len() <= 1,
        },
{
    match first_word_span(v) {
        Some((_, b)) => {
            let rest = subvec(v, b, v.len());
            assert(rest@ =~= v@.skip(b as int));
            first_word(&rest)
        },
        None => None,
    }
}

/// `parts` joined with `sep` between neighbours (`[String]::join`).
pub fn join_strings(parts: &Vec<String>, sep: &str) -> (r: String)
    ensures
        r@ == join(string_views(parts@), sep@),
{
    let mut out = String::new();
    let mut i: usize = 0;
    while i < parts.len()
        invariant
            i <= parts.len(),
            out@ == join(string_views(parts@.take(i as int)), sep@),
        decreases parts.len() - i,
    {
        proof {
            assert(string_views(parts@.take(i as int + 1)) =~= string_views(parts@.take(i as int)).push(
                parts@[i as int]@,
            ));
            lemma_join_push(string_views(parts@.take(i as int)), sep@, parts@[i as int]@);
        }
        if i > 0 {
            out.append(sep);
        }
        out.append(parts[i].as_str());
        i += 1;
    }
    assert(parts@.take(parts.len() as int) =~= parts@);
    out
}
} // verus!
