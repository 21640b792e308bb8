use vstd::prelude::*;

verus! {

/// A string as the trigram window walks it: two leading spaces and one
/// trailing space, so that even the empty string has one trigram.
pub open spec fn padded(s: Seq<char>) -> Seq<char> {
    seq![' ', ' '] + s + seq![' ']
}

/// Trigram `i` of `s`: three adjacent characters of its padded form,
/// defined for `0 <= i <= s.len()`.
pub open spec fn tri(s: Seq<char>, i: int) -> (char, char, char) {
    (padded(s)[i], padded(s)[i + 1], padded(s)[i + 2])
}

/// Whether `t` occurs among the trigrams of `s`.
pub open spec fn has_tri(s: Seq<char>, t: (char, char, char)) -> bool {
    exists|j: int| 0 <= j <= s.len() && tri(s, j) == t
}

/// How many of the first `upto` trigrams of `q` occur among the trigrams
/// of `name`.
pub open spec fn match_count_upto(q: Seq<char>, name: Seq<char>, upto: int) -> int
    decreases upto,
{
    if upto <= 0 {
        0
    } else {
        match_count_upto(q, name, upto - 1) + if has_tri(name, tri(q, upto - 1)) {
            1int
        } else {
            0int
        }
    }
}

/// The fuzzy match count of `name` against the query `q`: how many of the
/// query's `q.len() + 1` trigrams occur among the name's trigrams.
///
/// The similarity score is this count divided by `q.len() + 1`, a fraction
/// in `[0, 1]`. Within one projection the query — and so the denominator —
/// is fixed, so ranking by descending score is ranking by descending count.
/// Two names whose exact fractions are equal tie; ties keep listing order.
pub open spec fn match_count(q: Seq<char>, name: Seq<char>) -> int {
    match_count_upto(q, name, q.len() as int + 1)
}

/// The match count of the first `upto` trigrams lies in `[0, upto]`; with
/// all `q.len() + 1` trigrams counted, the score `count / (q.len() + 1)`
/// therefore lies in `[0, 1]`.
pub proof fn lemma_match_count_bounds(q: Seq<char>, name: Seq<char>, upto: int)
    ensures
        0 <= match_count_upto(q, name, upto),
        upto >= 0 ==> match_count_upto(q, name, upto) <= upto,
    decreases upto,
{
    if upto > 0 {
        lemma_match_count_bounds(q, name, upto - 1);
    }
}

/// For a fixed query, an edit that worsens a name's match — its score does
/// not increase — cannot lift that name above an unchanged better match:
/// the worsened name still scores no higher than the better one.
pub proof fn lemma_rank_monotonic(q: Seq<char>, better: Seq<char>, name: Seq<char>, worsened: Seq<char>)
    requires
        match_count(q, worsened) <= match_count(q, name),
        match_count(q, name) <= match_count(q, better),
    ensures
        match_count(q, worsened) <= match_count(q, better),
{
}

/// The characters of a string, one by one.
fn chars_vec(s: &str) -> (v: Vec<char>)
    ensures
        v@ == s@,
{
    let len = s.unicode_len();
    let mut v: Vec<char> = Vec::new();
    let mut i: usize = 0;
    while i < len
        invariant
            0 <= i <= len,
            len == s@.len(),
            v@ =~= s@.take(i as int),
        decreases len - i,
    {
        v.push(s.get_char(i));
        i = i + 1;
    }
    proof {
        assert(s@.take(len as int) =~= s@);
    }
    v
}

/// The padded form of a string as a character vector.
fn padded_chars(s: &str) -> (v: Vec<char>)
    ensures
        v@ == padded(s@),
{
    let mut v: Vec<char> = Vec::new();
    v.push(' ');
    v.push(' ');
    let mut cs = chars_vec(s);
    v.append(&mut cs);
    v.push(' ');
    proof {
        assert(v@ =~= padded(s@));
    }
    v
}

/// Count how many of the query's trigrams occur among the name's trigrams.
pub fn fuzzy_match_count(q: &str, name: &str) -> (m: usize)
    ensures
        m == match_count(q@, name@),
        m <= q@.len() + 1,
{
    let pq = padded_chars(q);
    let pn = padded_chars(name);
    let qtris = pq.len() - 2;
    let ntris = pn.len() - 2;
    let mut m: usize = 0;
    let mut i: usize = 0;
    while i < qtris
        invariant
            0 <= i <= qtris,
            qtris == q@.len() + 1,
            ntris == name@.len() + 1,
            q@.len() + 3 <= usize::MAX,
            name@.len() + 3 <= usize::MAX,
            pq@ == padded(q@),
            pn@ == padded(name@),
            m == match_count_upto(q@, name@, i as int),
            m <= i,
        decreases qtris - i,
    {
        let mut found = false;
        let mut j: usize = 0;
        while j < ntris
            invariant
                0 <= j <= ntris,
                i < qtris,
                qtris == q@.len() + 1,
                ntris == name@.len() + 1,
                q@.len() + 3 <= usize::MAX,
                name@.len() + 3 <= usize::MAX,
                pq@ == padded(q@),
                pn@ == padded(name@),
                found == exists|j0: int|
                    0 <= j0 < j && tri(name@, j0) == tri(q@, i as int),
            decreases ntris - j,
        {
            if pq[i] == pn[j] && pq[i + 1] == pn[j + 1] && pq[i + 2] == pn[j + 2] {
                proof {
                    assert(tri(name@, j as int) == tri(q@, i as int));
                }
                found = true;
            }
            j = j + 1;
        }
        if found {
            m = m + 1;
        }
        i = i + 1;
    }
    m
}

} // verus!
