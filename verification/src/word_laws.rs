//! Facts about the words of a text (`str::split_whitespace`): how they
//! behave under concatenation, joining, trimming and splitting into
//! paragraphs. The text transformations are held to them.
use vstd::prelude::*;
use crate::text::{
    index_of_pair, is_ws, join, lead_ws, lemma_index_of_pair_bound, lemma_lead_bound,
    lemma_trail_bound, lemma_word_len, lemma_word_len_bound, lemma_words_skip_ws, paragraphs,
    to_lower, to_upper, is_ascii_lower, trail_ws, trim, trim_start, word_len, words,
};

verus! {

/// Every character of `s` is whitespace.
pub open spec fn all_ws(s: Seq<char>) -> bool {
    forall|j: int| 0 <= j < s.len() ==> is_ws(#[trigger] s[j])
}

/// The words of each text in `ps`, one list after another.
pub open spec fn flat_words(ps: Seq<Seq<char>>) -> Seq<Seq<char>>
    decreases ps.len(),
{
    if ps.len() == 0 {
        seq![]
    } else {
        flat_words(ps.drop_last()) + words(ps.last())
    }
}

/// A word with its first letter lowercased (ASCII), as a comparison that
/// ignores how the first letter is capitalized.
pub open spec fn lower_first(w: Seq<char>) -> Seq<char> {
    if w.len() == 0 {
        w
    } else {
        w.update(0, to_lower(w[0]))
    }
}

/// The words with their first letters lowercased.
pub open spec fn lower_firsts(ws: Seq<Seq<char>>) -> Seq<Seq<char>> {
    ws.map_values(|w: Seq<char>| lower_first(w))
}

/// A text of whitespace only has no words.
pub proof fn lemma_words_all_ws(s: Seq<char>)
    requires
        all_ws(s),
    ensures
        words(s) == Seq::<Seq<char>>::empty(),
{
    lemma_words_skip_ws(s, s.len() as int);
    assert(s.skip(s.len() as int) =~= Seq::<char>::empty());
}

/// The first `word_len(s)` characters are not whitespace, and the one after
/// them (if any) is.
pub proof fn lemma_word_len_shape(s: Seq<char>)
    ensures
        word_len(s) <= s.len(),
        forall|j: int| 0 <= j < word_len(s) ==> !is_ws(#[trigger] s[j]),
        word_len(s) == s.len() || is_ws(s[word_len(s) as int]),
    decreases s.len(),
{
    if s.len() > 0 && !is_ws(s[0]) {
        let t = s.drop_first();
        lemma_word_len_shape(t);
        assert forall|j: int| 0 <= j < word_len(s) implies !is_ws(#[trigger] s[j]) by {
            if j > 0 {
                assert(s[j] == t[j - 1]);
            }
        }
        if word_len(s) < s.len() {
            assert(s[word_len(s) as int] == t[word_len(t) as int]);
        }
    }
}

/// The words of a concatenation are the words of each part, when the parts
/// meet at whitespace (or one of them is empty).
pub proof fn lemma_words_append(a: Seq<char>, b: Seq<char>)
    requires
        a.len() == 0 || b.len() == 0 || is_ws(a.last()) || is_ws(b[0]),
    ensures
        words(a + b) == words(a) + words(b),
    decreases a.len(),
{
    if a.len() == 0 {
        assert(a + b =~= b);
        assert(words(a) =~= Seq::<Seq<char>>::empty());
        assert(words(a) + words(b) =~= words(b));
    } else if b.len() == 0 {
        assert(a + b =~= a);
        assert(words(b) =~= Seq::<Seq<char>>::empty());
        assert(words(a) + words(b) =~= words(a));
    } else if is_ws(a[0]) {
        let a1 = a.drop_first();
        assert((a + b).drop_first() =~= a1 + b);
        assert((a + b)[0] == a[0]);
        if a1.len() > 0 {
            assert(a1.last() == a.last());
        }
        lemma_words_append(a1, b);
    } else {
        let k = word_len(a);
        lemma_word_len_shape(a);
        lemma_word_len_bound(a);
        let ab = a + b;
        assert forall|j: int| 0 <= j < k implies !is_ws(#[trigger] ab[j]) by {
            assert(ab[j] == a[j]);
        }
        if k < a.len() {
            assert(ab[k as int] == a[k as int]);
        } else {
            assert(!is_ws(a.last()));
            assert(ab[k as int] == b[0]);
        }
        lemma_word_len(ab, k as int);
        assert(ab[0] == a[0]);
        assert(ab.take(k as int) =~= a.take(k as int));
        let rest = a.skip(k as int);
        assert(ab.skip(k as int) =~= rest + b);
        if rest.len() > 0 {
            assert(rest.last() == a.last());
        }
        lemma_words_append(rest, b);
        assert(words(ab) =~= words(a) + words(b));
    }
}

/// Trimming does not change the words.
pub proof fn lemma_words_trim(s: Seq<char>)
    ensures
        words(trim(s)) == words(s),
{
    lemma_lead_bound(s);
    lemma_words_skip_ws(s, lead_ws(s) as int);
    let u = trim_start(s);
    lemma_trail_bound(u);
    let n = u.len() - trail_ws(u);
    let head = u.take(n);
    let tail = u.skip(n);
    assert(u =~= head + tail);
    assert forall|j: int| 0 <= j < tail.len() implies is_ws(#[trigger] tail[j]) by {
        assert(tail[j] == u[n + j]);
    }
    lemma_words_all_ws(tail);
    lemma_words_append(head, tail);
    assert(words(head) + words(tail) =~= words(head));
}

/// Every word is non-empty and holds no whitespace.
pub proof fn lemma_words_are_words(s: Seq<char>)
    ensures
        forall|i: int| 0 <= i < words(s).len() ==> (#[trigger] words(s)[i]).len() > 0 && forall|j: int|
            0 <= j < words(s)[i].len() ==> !is_ws(#[trigger] words(s)[i][j]),
    decreases s.len(),
{
    if s.len() == 0 {
    } else if is_ws(s[0]) {
        lemma_words_are_words(s.drop_first());
        assert(words(s) == words(s.drop_first()));
    } else {
        lemma_word_len_bound(s);
        lemma_word_len_shape(s);
        let k = word_len(s);
        let w = s.take(k as int);
        lemma_words_are_words(s.skip(k as int));
        let ws = words(s);
        assert(ws == seq![w] + words(s.skip(k as int)));
        assert forall|i: int| 0 <= i < ws.len() implies (#[trigger] ws[i]).len() > 0 && forall|j: int|
            0 <= j < ws[i].len() ==> !is_ws(#[trigger] ws[i][j]) by {
            if i == 0 {
                assert(ws[0] == w);
                assert forall|j: int| 0 <= j < w.len() implies !is_ws(#[trigger] w[j]) by {
                    assert(w[j] == s[j]);
                }
            } else {
                assert(ws[i] == words(s.skip(k as int))[i - 1]);
            }
        }
    }
}

/// A single word is its only word.
pub proof fn lemma_words_of_word(w: Seq<char>)
    requires
        w.len() > 0,
        forall|j: int| 0 <= j < w.len() ==> !is_ws(#[trigger] w[j]),
    ensures
        words(w) == seq![w],
{
    lemma_word_len(w, w.len() as int);
    assert(w.take(w.len() as int) =~= w);
    assert(w.skip(w.len() as int) =~= Seq::<char>::empty());
    assert(words(w.skip(w.len() as int)) =~= Seq::<Seq<char>>::empty());
    assert(seq![w] + Seq::<Seq<char>>::empty() =~= seq![w]);
}

/// Joining texts with a whitespace separator keeps the words of each.
pub proof fn lemma_words_join(ps: Seq<Seq<char>>, sep: Seq<char>)
    requires
        sep.len() > 0,
        all_ws(sep),
    ensures
        words(join(ps, sep)) == flat_words(ps),
    decreases ps.len(),
{
    if ps.len() == 0 {
        assert(words(Seq::<char>::empty()) =~= Seq::<Seq<char>>::empty());
    } else if ps.len() == 1 {
        assert(ps.drop_last().len() == 0);
        assert(flat_words(ps.drop_last()) =~= Seq::<Seq<char>>::empty());
        assert(ps.last() == ps[0]);
        assert(flat_words(ps) =~= words(ps[0]));
    } else {
        let j = join(ps.drop_last(), sep);
        lemma_words_join(ps.drop_last(), sep);
        assert(is_ws(sep[0]));
        assert(is_ws(sep.last()));
        lemma_words_append(j, sep);
        lemma_words_all_ws(sep);
        assert((j + sep).last() == sep.last());
        lemma_words_append(j + sep, ps.last());
        assert(words(j) + words(sep) =~= words(j));
    }
}

/// The words of a list of words, one after another, are that list.
pub proof fn lemma_flat_words_of_words(ws: Seq<Seq<char>>)
    requires
        forall|i: int| 0 <= i < ws.len() ==> (#[trigger] ws[i]).len() > 0 && forall|j: int|
            0 <= j < ws[i].len() ==> !is_ws(#[trigger] ws[i][j]),
    ensures
        flat_words(ws) == ws,
    decreases ws.len(),
{
    if ws.len() > 0 {
        let d = ws.drop_last();
        assert forall|i: int| 0 <= i < d.len() implies (#[trigger] d[i]).len() > 0 && forall|j: int|
            0 <= j < d[i].len() ==> !is_ws(#[trigger] d[i][j]) by {
            assert(d[i] == ws[i]);
        }
        lemma_flat_words_of_words(d);
        let l = ws.last();
        assert(l == ws[ws.len() - 1]);
        lemma_words_of_word(l);
        assert(d + seq![l] =~= ws);
    }
}

/// Normalizing the whitespace of a text (its words joined by one space)
/// keeps its words.
pub proof fn lemma_words_normalized(p: Seq<char>)
    ensures
        words(join(words(p), seq![' '])) == words(p),
{
    let sp = seq![' '];
    assert(is_ws(sp[0]));
    assert(all_ws(sp));
    lemma_words_join(words(p), sp);
    lemma_words_are_words(p);
    lemma_flat_words_of_words(words(p));
}

/// Changing the first character of a text to another non-whitespace one
/// changes only the first letter of its first word.
pub proof fn lemma_words_update_first(s: Seq<char>, c: char)
    requires
        s.len() > 0,
        !is_ws(s[0]),
        !is_ws(c),
    ensures
        words(s.update(0, c)).len() == words(s).len(),
        words(s.update(0, c)) == words(s).update(0, words(s)[0].update(0, c)),
        words(s)[0][0] == s[0],
{
    let s2 = s.update(0, c);
    assert(s2.drop_first() =~= s.drop_first());
    assert(word_len(s2) == word_len(s));
    let k = word_len(s);
    lemma_word_len_bound(s);
    assert(s2.take(k as int) =~= s.take(k as int).update(0, c));
    assert(s2.skip(k as int) =~= s.skip(k as int));
    assert(words(s2) =~= words(s).update(0, words(s)[0].update(0, c)));
}

/// Making a lowercase first letter uppercase does not change it once first
/// letters are lowercased.
pub proof fn lemma_lower_first_upper(w: Seq<char>)
    requires
        w.len() > 0,
    ensures
        lower_first(w.update(0, to_upper(w[0]))) == lower_first(w),
{
    let c = w[0];
    if is_ascii_lower(c) {
        assert(to_lower(to_upper(c)) == c);
        assert(to_lower(c) == c);
    }
    assert(lower_first(w.update(0, to_upper(w[0]))) =~= lower_first(w));
}

/// `flat_words` of a list that starts with `a`.
pub proof fn lemma_flat_words_front(a: Seq<char>, ps: Seq<Seq<char>>)
    ensures
        flat_words(seq![a] + ps) == words(a) + flat_words(ps),
    decreases ps.len(),
{
    let l = seq![a] + ps;
    if ps.len() == 0 {
        assert(l.drop_last() =~= Seq::<Seq<char>>::empty());
        assert(l.drop_last().len() == 0);
        assert(flat_words(l.drop_last()) =~= Seq::<Seq<char>>::empty());
        assert(l.last() == a);
        assert(flat_words(l) =~= words(a));
        assert(words(a) + flat_words(ps) =~= words(a));
    } else {
        assert(l.drop_last() =~= seq![a] + ps.drop_last());
        assert(l.last() == ps.last());
        lemma_flat_words_front(a, ps.drop_last());
        assert(flat_words(l) =~= words(a) + flat_words(ps));
    }
}

/// Where `index_of_pair` stops short of the end, a pair starts there.
pub proof fn lemma_pair_found(s: Seq<char>, c: char)
    ensures
        index_of_pair(s, c) < s.len() ==> index_of_pair(s, c) + 1 < s.len() && s[index_of_pair(s, c) as int]
            == c && s[index_of_pair(s, c) as int + 1] == c,
    decreases s.len(),
{
    lemma_index_of_pair_bound(s, c);
    if s.len() >= 2 && !(s[0] == c && s[1] == c) {
        let t = s.drop_first();
        lemma_pair_found(t, c);
        if index_of_pair(s, c) < s.len() {
            assert(s[index_of_pair(s, c) as int] == t[index_of_pair(t, c) as int]);
            assert(s[index_of_pair(s, c) as int + 1] == t[index_of_pair(t, c) as int + 1]);
        }
    }
}

/// The words of a text are the words of its paragraphs, in order.
pub proof fn lemma_words_paragraphs(s: Seq<char>)
    ensures
        flat_words(paragraphs(s)) == words(s),
    decreases s.len(),
{
    lemma_index_of_pair_bound(s, '\n');
    lemma_pair_found(s, '\n');
    let i = index_of_pair(s, '\n');
    if i >= s.len() {
        lemma_flat_words_front(s, Seq::<Seq<char>>::empty());
        assert(flat_words(Seq::<Seq<char>>::empty()) =~= Seq::<Seq<char>>::empty());
        assert(words(s) + Seq::<Seq<char>>::empty() =~= words(s));
    } else {
        let head = s.take(i as int);
        let rest = s.skip(i as int + 2);
        let mid = s.skip(i as int);
        lemma_words_paragraphs(rest);
        lemma_flat_words_front(head, paragraphs(rest));
        assert(s =~= head + mid);
        assert(mid[0] == '\n');
        assert(is_ws('\n'));
        lemma_words_append(head, mid);
        assert(mid[1] == '\n');
        lemma_words_skip_ws(mid, 2);
        assert(mid.skip(2) =~= rest);
    }
}

} // verus!
