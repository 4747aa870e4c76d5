use vstd::prelude::*;
use vstd::string::StrSliceExecFns;

verus! {

/// The text of each string in a list.
pub open spec fn texts(v: Seq<String>) -> Seq<Seq<char>> {
    v.map_values(|s: String| s@)
}

/// Whether `word` is a non-empty prefix of `s`.
pub open spec fn begins_with(s: Seq<char>, word: Seq<char>) -> bool {
    0 < word.len() <= s.len() && s.subrange(0, word.len() as int) == word
}

/// The partition of `s` obtained by walking it left to right against the
/// dictionary words found in it, in order: a word that starts at the current
/// position becomes one token; a character that no word covers becomes a token
/// of its own. Empty words are passed over.
pub open spec fn cover(s: Seq<char>, words: Seq<Seq<char>>) -> Seq<Seq<char>>
    decreases s.len() + words.len(),
{
    if s.len() == 0 {
        seq![]
    } else if words.len() > 0 && words[0].len() == 0 {
        cover(s, words.drop_first())
    } else if words.len() > 0 && begins_with(s, words[0]) {
        seq![words[0]] + cover(s.subrange(words[0].len() as int, s.len() as int), words.drop_first())
    } else {
        seq![seq![s[0]]] + cover(s.drop_first(), words)
    }
}

/// Every token of `cover(s, words)` is non-empty, and the tokens put back
/// together give `s` exactly.
pub proof fn lemma_cover_partition(s: Seq<char>, words: Seq<Seq<char>>)
    ensures
        cover(s, words).flatten() == s,
        forall|i: int| 0 <= i < cover(s, words).len() ==> #[trigger] cover(s, words)[i].len() > 0,
    decreases s.len() + words.len(),
{
    if s.len() == 0 {
    } else if words.len() > 0 && words[0].len() == 0 {
        lemma_cover_partition(s, words.drop_first());
    } else if words.len() > 0 && begins_with(s, words[0]) {
        let rest = s.subrange(words[0].len() as int, s.len() as int);
        lemma_cover_partition(rest, words.drop_first());
        let c = cover(s, words);
        assert(c.drop_first() == cover(rest, words.drop_first()));
        assert(s == words[0] + rest);
        assert forall|i: int| 0 <= i < c.len() implies #[trigger] c[i].len() > 0 by {
            if i > 0 {
                assert(c[i] == c.drop_first()[i - 1]);
            }
        }
    } else {
        let rest = s.drop_first();
        lemma_cover_partition(rest, words);
        let c = cover(s, words);
        assert(c.drop_first() == cover(rest, words));
        assert(s == seq![s[0]] + rest);
        assert forall|i: int| 0 <= i < c.len() implies #[trigger] c[i].len() > 0 by {
            if i > 0 {
                assert(c[i] == c.drop_first()[i - 1]);
            }
        }
    }
}

/// Whether the characters of `text` from position `at` on start with `word`.
fn begins_at(text: &str, len: usize, at: usize, word: &str) -> (r: bool)
    requires
        len == text@.len(),
        at < len,
    ensures
        r == begins_with(text@.subrange(at as int, len as int), word@),
{
    let wlen = word.unicode_len();
    if wlen == 0 || wlen > len - at {
        return false;
    }
    let ghost tail = text@.subrange(at as int, len as int);
    let mut j: usize = 0;
    while j < wlen
        invariant
            0 < wlen <= len - at,
            len == text@.len(),
            wlen == word@.len(),
            tail == text@.subrange(at as int, len as int),
            j <= wlen,
            forall|x: int| 0 <= x < j ==> tail[x] == word@[x],
        decreases wlen - j,
    {
        if text.get_char(at + j) != word.get_char(j) {
            assert(tail.subrange(0, wlen as int)[j as int] != word@[j as int]);
            return false;
        }
        j = j + 1;
    }
    assert(tail.subrange(0, wlen as int) =~= word@);
    true
}

/// Completes a list of dictionary words found in `text` into a full partition
/// of `text`: the characters between the words become tokens of one character.
pub fn cover_with_words(text: &str, words: &Vec<String>) -> (r: Vec<String>)
    ensures
        texts(r@) == cover(text@, texts(words@)),
        texts(r@).flatten() == text@,
        forall|i: int| 0 <= i < r@.len() ==> (#[trigger] r@[i])@.len() > 0,
{
    let n = text.unicode_len();
    let m = words.len();
    let ghost all = texts(words@);
    let mut out: Vec<String> = Vec::new();
    let mut i: usize = 0;
    let mut k: usize = 0;
    assert(text@.subrange(0, n as int) =~= text@);
    assert(all.subrange(0, m as int) =~= all);
    assert(texts(out@) =~= Seq::<Seq<char>>::empty());
    while i < n
        invariant
            n == text@.len(),
            m == words@.len(),
            all == texts(words@),
            i <= n,
            k <= m,
            texts(out@) + cover(text@.subrange(i as int, n as int), all.subrange(k as int, m as int))
                == cover(text@, all),
        decreases (n - i) + (m - k),
    {
        let ghost s = text@.subrange(i as int, n as int);
        let ghost ws = all.subrange(k as int, m as int);
        assert(s.len() > 0);
        if k < m && words[k].unicode_len() == 0 {
            assert(ws[0] == words@[k as int]@);
            assert(ws.drop_first() =~= all.subrange(k + 1, m as int));
            k = k + 1;
        } else if k < m && begins_at(text, n, i, words[k].as_str()) {
            let wlen = words[k].unicode_len();
            let token = text.substring_char(i, i + wlen).to_owned();
            assert(ws[0] == words@[k as int]@);
            assert(ws.drop_first() =~= all.subrange(k + 1, m as int));
            assert(s.subrange(wlen as int, s.len() as int) =~= text@.subrange(i + wlen, n as int));
            assert(token@ == ws[0]);
            let ghost before = texts(out@);
            out.push(token);
            assert(texts(out@) =~= before + seq![ws[0]]);
            i = i + wlen;
            k = k + 1;
        } else {
            let token = text.substring_char(i, i + 1).to_owned();
            assert(token@ =~= seq![s[0]]);
            assert(s.drop_first() =~= text@.subrange(i + 1, n as int));
            let ghost before = texts(out@);
            out.push(token);
            assert(texts(out@) =~= before + seq![seq![s[0]]]);
            i = i + 1;
        }
    }
    assert(text@.subrange(n as int, n as int) =~= Seq::<char>::empty());
    assert(texts(out@) =~= cover(text@, all));
    proof {
        lemma_cover_partition(text@, all);
        assert forall|j: int| 0 <= j < out@.len() implies (#[trigger] out@[j])@.len() > 0 by {
            assert(texts(out@)[j] == out@[j]@);
        }
    }
    out
}

} // verus!
