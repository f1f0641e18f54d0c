//! Searching and splitting text, as the dump reader needs it: substring
//! search, splitting at a separator, lines and whitespace-separated words.

use vstd::prelude::*;

verus! {

/// Whether `p` occurs in `s` starting at position `i`.
pub open spec fn occurs_at(s: Seq<char>, p: Seq<char>, i: int) -> bool {
    0 <= i && i + p.len() <= s.len() && s.subrange(i, i + p.len()) == p
}

/// Whether `p` occurs anywhere in `s`.
pub open spec fn contains(s: Seq<char>, p: Seq<char>) -> bool {
    exists|i: int| occurs_at(s, p, i)
}

/// The first position at or after `from` where `p` occurs in `s`, or -1
/// when there is none.
pub open spec fn next_occurrence(s: Seq<char>, p: Seq<char>, from: int) -> int
    decreases s.len() + 1 - from,
{
    if from < 0 || from + p.len() > s.len() {
        -1
    } else if occurs_at(s, p, from) {
        from
    } else {
        next_occurrence(s, p, from + 1)
    }
}

/// `next_occurrence` finds the first occurrence, and finds nothing only
/// where there is none.
pub proof fn lemma_next_occurrence(s: Seq<char>, p: Seq<char>, from: int)
    requires
        0 <= from,
    ensures
        next_occurrence(s, p, from) == -1 ==> forall|j: int| from <= j ==> !occurs_at(s, p, j),
        next_occurrence(s, p, from) != -1 ==> {
            let k = next_occurrence(s, p, from);
            &&& from <= k
            &&& occurs_at(s, p, k)
            &&& forall|j: int| from <= j < k ==> !occurs_at(s, p, j)
        },
    decreases s.len() + 1 - from,
{
    if from + p.len() > s.len() {
    } else if occurs_at(s, p, from) {
    } else {
        lemma_next_occurrence(s, p, from + 1);
    }
}

/// The pieces of `s` between the occurrences of a non-empty `p`, scanning
/// from `i` with the current piece starting at `start`: each occurrence
/// ends a piece and is skipped whole; what follows the last one is the
/// last piece.
pub open spec fn split_walk(s: Seq<char>, p: Seq<char>, start: int, i: int) -> Seq<Seq<char>>
    decreases s.len() - i,
{
    if p.len() == 0 || i + p.len() > s.len() {
        seq![s.subrange(start, s.len() as int)]
    } else if occurs_at(s, p, i) {
        seq![s.subrange(start, i)] + split_walk(s, p, i + p.len(), i + p.len())
    } else {
        split_walk(s, p, start, i + 1)
    }
}

/// `s` split at every (non-overlapping, leftmost-first) occurrence of `p`.
pub open spec fn split(s: Seq<char>, p: Seq<char>) -> Seq<Seq<char>> {
    split_walk(s, p, 0, 0)
}

/// Whether `p` occurs in `s` at position `i`.
fn matches_at(s: &str, p: &str, i: usize) -> (r: bool)
    requires
        i + p@.len() <= s@.len(),
    ensures
        r == occurs_at(s@, p@, i as int),
{
    let slen = s.unicode_len();
    let plen = p.unicode_len();
    let mut j: usize = 0;
    while j < plen
        invariant
            slen == s@.len(),
            plen == p@.len(),
            i + plen <= s@.len(),
            0 <= j <= plen,
            forall|k: int| 0 <= k < j ==> s@[i + k] == p@[k],
        decreases plen - j,
    {
        if s.get_char(i + j) != p.get_char(j) {
            assert(s@.subrange(i as int, i + plen)[j as int] != p@[j as int]);
            return false;
        }
        j = j + 1;
    }
    assert(s@.subrange(i as int, i + plen) =~= p@);
    true
}

/// The first position at or after `from` where `p` occurs in `s`.
pub fn find_from(s: &str, p: &str, from: usize) -> (r: Option<usize>)
    ensures
        next_occurrence(s@, p@, from as int) == -1 ==> r is None,
        next_occurrence(s@, p@, from as int) != -1 ==> r == Some(next_occurrence(s@, p@, from as int) as usize),
{
    let slen = s.unicode_len();
    let plen = p.unicode_len();
    if plen > slen {
        return None;
    }
    let mut i = from;
    while i <= slen - plen
        invariant
            slen == s@.len(),
            plen == p@.len(),
            plen <= slen,
            from <= i,
            next_occurrence(s@, p@, from as int) == next_occurrence(s@, p@, i as int),
        decreases slen - plen + 1 - i,
    {
        if matches_at(s, p, i) {
            return Some(i);
        }
        if i == slen - plen {
            assert(next_occurrence(s@, p@, i + 1) == -1);
            return None;
        }
        i = i + 1;
    }
    None
}

/// Whether `p` occurs in `s`.
pub fn str_contains(s: &str, p: &str) -> (r: bool)
    ensures
        r == contains(s@, p@),
{
    let r = find_from(s, p, 0);
    proof {
        lemma_next_occurrence(s@, p@, 0);
    }
    r.is_some()
}

/// `s` split at every occurrence of the non-empty separator `p`, as
/// `str::split` does.
pub fn split_str<'a>(s: &'a str, p: &str) -> (r: Vec<&'a str>)
    requires
        p@.len() > 0,
    ensures
        r@.len() == split(s@, p@).len(),
        forall|k: int| 0 <= k < r@.len() ==> #[trigger] r@[k]@ == split(s@, p@)[k],
{
    let slen = s.unicode_len();
    let plen = p.unicode_len();
    let mut pieces: Vec<&'a str> = Vec::new();
    let ghost mut acc: Seq<Seq<char>> = Seq::empty();
    let mut start: usize = 0;
    let mut i: usize = 0;
    if plen > slen {
        let whole = s.substring_char(0, slen);
        pieces.push(whole);
        assert(pieces@.len() == 1);
        assert(split(s@, p@) == seq![s@.subrange(0, slen as int)]);
        return pieces;
    }
    while i <= slen - plen
        invariant
            plen <= slen,
            slen == s@.len(),
            plen == p@.len(),
            plen > 0,
            start <= i,
            i <= slen,
            pieces@.len() == acc.len(),
            forall|k: int| 0 <= k < acc.len() ==> #[trigger] pieces@[k]@ == acc[k],
            acc + split_walk(s@, p@, start as int, i as int) == split(s@, p@),
        decreases slen - i,
    {
        if matches_at(s, p, i) {
            let piece = s.substring_char(start, i);
            proof {
                assert(split_walk(s@, p@, start as int, i as int) == seq![s@.subrange(start as int, i as int)]
                    + split_walk(s@, p@, (i + plen) as int, (i + plen) as int));
                assert(acc.push(piece@) + split_walk(s@, p@, (i + plen) as int, (i + plen) as int)
                    =~= acc + split_walk(s@, p@, start as int, i as int));
                acc = acc.push(piece@);
            }
            pieces.push(piece);
            i = i + plen;
            start = i;
        } else {
            i = i + 1;
        }
    }
    let last = s.substring_char(start, slen);
    proof {
        assert(acc.push(last@) =~= acc + split_walk(s@, p@, start as int, i as int));
        acc = acc.push(last@);
    }
    pieces.push(last);
    pieces
}

/// `split_walk` gives at least one piece.
proof fn lemma_split_walk_nonempty(s: Seq<char>, p: Seq<char>, start: int, i: int)
    ensures
        split_walk(s, p, start, i).len() >= 1,
    decreases s.len() - i,
{
    if p.len() == 0 || i + p.len() > s.len() {
    } else if occurs_at(s, p, i) {
        lemma_split_walk_nonempty(s, p, i + p.len(), i + p.len());
    } else {
        lemma_split_walk_nonempty(s, p, start, i + 1);
    }
}

/// `split` gives at least one piece.
pub proof fn lemma_split_nonempty(s: Seq<char>, p: Seq<char>)
    ensures
        split(s, p).len() >= 1,
{
    lemma_split_walk_nonempty(s, p, 0, 0);
}

/// A line without the carriage return that ends it, if one does.
pub open spec fn strip_cr(l: Seq<char>) -> Seq<char> {
    if l.len() > 0 && l.last() == '\r' {
        l.drop_last()
    } else {
        l
    }
}

/// The lines of `s`, as `str::lines` gives them: the text between line
/// feeds, each without a carriage return that ends it; a line feed at the
/// very end starts no further line.
pub open spec fn lines(s: Seq<char>) -> Seq<Seq<char>> {
    let parts = split(s, seq!['\n']);
    let body = parts.drop_last().map_values(|l: Seq<char>| strip_cr(l));
    if parts.last().len() == 0 {
        body
    } else {
        body.push(parts.last())
    }
}

/// Whether `c` is Unicode white space (what `char::is_whitespace`
/// accepts).
pub open spec fn is_whitespace(c: char) -> bool {
    ||| ('\t' <= c && c <= '\r')
    ||| c == ' '
    ||| c == '\u{85}'
    ||| c == '\u{A0}'
    ||| c == '\u{1680}'
    ||| ('\u{2000}' <= c && c <= '\u{200A}')
    ||| c == '\u{2028}'
    ||| c == '\u{2029}'
    ||| c == '\u{202F}'
    ||| c == '\u{205F}'
    ||| c == '\u{3000}'
}

/// The words of `s` scanning from `i`, with the current word (if any)
/// starting at `start`: maximal runs of characters that are not white
/// space.
pub open spec fn words_walk(s: Seq<char>, start: int, i: int) -> Seq<Seq<char>>
    decreases s.len() - i,
{
    if i >= s.len() {
        if start < s.len() {
            seq![s.subrange(start, s.len() as int)]
        } else {
            Seq::empty()
        }
    } else if is_whitespace(s[i]) {
        (if start < i {
            seq![s.subrange(start, i)]
        } else {
            Seq::empty()
        }) + words_walk(s, i + 1, i + 1)
    } else {
        words_walk(s, start, i + 1)
    }
}

/// The words of `s`, as `str::split_whitespace` gives them.
pub open spec fn words(s: Seq<char>) -> Seq<Seq<char>> {
    words_walk(s, 0, 0)
}

/// Whether `c` is Unicode white space.
fn char_is_whitespace(c: char) -> (r: bool)
    ensures
        r == is_whitespace(c),
{
    ('\t' <= c && c <= '\r') || c == ' ' || c == '\u{85}' || c == '\u{A0}' || c == '\u{1680}'
        || ('\u{2000}' <= c && c <= '\u{200A}') || c == '\u{2028}' || c == '\u{2029}'
        || c == '\u{202F}' || c == '\u{205F}' || c == '\u{3000}'
}

/// The lines of `s`, as `str::lines` gives them.
pub fn lines_of<'a>(s: &'a str) -> (r: Vec<&'a str>)
    ensures
        r@.len() == lines(s@).len(),
        forall|k: int| 0 <= k < r@.len() ==> #[trigger] r@[k]@ == lines(s@)[k],
{
    let nl = "\n";
    proof {
        reveal_strlit("\n");
    }
    assert(nl@ =~= seq!['\n']);
    let parts = split_str(s, nl);
    let ghost sp = split(s@, seq!['\n']);
    proof {
        lemma_split_walk_nonempty(s@, seq!['\n'], 0, 0);
    }
    let n = parts.len();
    let mut out: Vec<&'a str> = Vec::new();
    let mut k: usize = 0;
    while k + 1 < n
        invariant
            n == parts@.len(),
            n == sp.len(),
            n >= 1,
            sp == split(s@, seq!['\n']),
            forall|j: int| 0 <= j < n ==> #[trigger] parts@[j]@ == sp[j],
            0 <= k < n,
            out@.len() == k,
            forall|j: int| 0 <= j < k ==> #[trigger] out@[j]@ == strip_cr(sp[j]),
        decreases n - k,
    {
        let line = parts[k];
        let len = line.unicode_len();
        let stripped = if len > 0 && line.get_char(len - 1) == '\r' {
            line.substring_char(0, len - 1)
        } else {
            line
        };
        assert(stripped@ =~= strip_cr(sp[k as int]));
        out.push(stripped);
        k = k + 1;
    }
    let last = parts[n - 1];
    let ghost body = sp.drop_last().map_values(|l: Seq<char>| strip_cr(l));
    if last.unicode_len() > 0 {
        out.push(last);
        assert(out@.len() == body.push(sp.last()).len());
    }
    out
}

/// The words of `s`, as `str::split_whitespace` gives them.
pub fn words_of<'a>(s: &'a str) -> (r: Vec<&'a str>)
    ensures
        r@.len() == words(s@).len(),
        forall|k: int| 0 <= k < r@.len() ==> #[trigger] r@[k]@ == words(s@)[k],
{
    let slen = s.unicode_len();
    let mut out: Vec<&'a str> = Vec::new();
    let ghost mut acc: Seq<Seq<char>> = Seq::empty();
    let mut start: usize = 0;
    let mut i: usize = 0;
    while i < slen
        invariant
            slen == s@.len(),
            start <= i <= slen,
            out@.len() == acc.len(),
            forall|k: int| 0 <= k < acc.len() ==> #[trigger] out@[k]@ == acc[k],
            acc + words_walk(s@, start as int, i as int) == words(s@),
        decreases slen - i,
    {
        if char_is_whitespace(s.get_char(i)) {
            if start < i {
                let w = s.substring_char(start, i);
                proof {
                    assert(acc.push(w@) + words_walk(s@, (i + 1) as int, (i + 1) as int)
                        =~= acc + words_walk(s@, start as int, i as int));
                    acc = acc.push(w@);
                }
                out.push(w);
            } else {
                assert(acc + words_walk(s@, (i + 1) as int, (i + 1) as int)
                    =~= acc + words_walk(s@, start as int, i as int));
            }
            i = i + 1;
            start = i;
        } else {
            i = i + 1;
        }
    }
    if start < slen {
        let w = s.substring_char(start, slen);
        proof {
            assert(acc.push(w@) =~= acc + words_walk(s@, start as int, i as int));
            acc = acc.push(w@);
        }
        out.push(w);
    } else {
        assert(acc =~= acc + words_walk(s@, start as int, i as int));
    }
    out
}

} // verus!
