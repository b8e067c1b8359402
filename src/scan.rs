//! Literal marker search and the capture of marker-bounded spans.
use vstd::prelude::*;

verus! {

/// `pat` occurs in `s` starting at index `i`.
pub open spec fn occurs_at(s: Seq<char>, pat: Seq<char>, i: int) -> bool {
    0 <= i && i + pat.len() <= s.len() && s.subrange(i, i + pat.len()) == pat
}

/// The first index at or after `from` where `pat` occurs in `s`.
pub open spec fn first_from(s: Seq<char>, pat: Seq<char>, from: int) -> Option<int>
    decreases s.len() + 1 - from,
{
    if from < 0 || from + pat.len() > s.len() {
        None
    } else if occurs_at(s, pat, from) {
        Some(from)
    } else {
        first_from(s, pat, from + 1)
    }
}

/// What `first_from` returns is the least occurrence at or after `from`.
pub proof fn lemma_first_from(s: Seq<char>, pat: Seq<char>, from: int)
    requires
        0 <= from,
    ensures
        match first_from(s, pat, from) {
            Some(i) => from <= i && occurs_at(s, pat, i) && forall|k: int|
                from <= k < i ==> !occurs_at(s, pat, k),
            None => forall|k: int| from <= k ==> !occurs_at(s, pat, k),
        },
    decreases s.len() + 1 - from,
{
    if from + pat.len() > s.len() {
    } else if occurs_at(s, pat, from) {
    } else {
        lemma_first_from(s, pat, from + 1);
    }
}

/// The span after the first `start` at or after `pos`, up to the first `end`
/// that follows it: the span's bounds and the position just after `end`.
pub open spec fn between_spec(s: Seq<char>, start: Seq<char>, end: Seq<char>, pos: int) -> Option<(int, int, int)> {
    match first_from(s, start, pos) {
        None => None,
        Some(i) => match first_from(s, end, i + start.len()) {
            None => None,
            Some(j) => Some((i + start.len(), j, j + end.len())),
        },
    }
}

/// A captured span lies after the start marker, and the scan moves past both markers.
pub proof fn lemma_between_bounds(s: Seq<char>, start: Seq<char>, end: Seq<char>, pos: int)
    requires
        0 <= pos,
    ensures
        between_spec(s, start, end, pos) matches Some((a, b, c)) ==> pos + start.len() <= a <= b
            && c == b + end.len() && c <= s.len(),
{
    lemma_first_from(s, start, pos);
    if let Some(i) = first_from(s, start, pos) {
        lemma_first_from(s, end, i + start.len());
    }
}

/// Every span captured by repeated scans from `pos`, left to right, until no
/// further one is found.
pub open spec fn spans_from(s: Seq<char>, start: Seq<char>, end: Seq<char>, pos: int) -> Seq<Seq<char>>
    decreases s.len() + 1 - pos
    via spans_from_decreases
{
    if pos < 0 || pos > s.len() || start.len() + end.len() == 0 {
        seq![]
    } else {
        match between_spec(s, start, end, pos) {
            None => seq![],
            Some((a, b, c)) => seq![s.subrange(a, b)] + spans_from(s, start, end, c),
        }
    }
}

#[via_fn]
proof fn spans_from_decreases(s: Seq<char>, start: Seq<char>, end: Seq<char>, pos: int) {
    if !(pos < 0 || pos > s.len() || start.len() + end.len() == 0) {
        lemma_between_bounds(s, start, end, pos);
    }
}

/// The characters of `s`, in order.
pub fn chars_of(s: &str) -> (r: Vec<char>)
    ensures
        r@ == s@,
{
    let mut r: Vec<char> = Vec::new();
    for c in it: s.chars()
        invariant
            r@ == it.seq().take(it.index() as int),
    {
        r.push(c);
    }
    r
}

/// Whether `pat` occurs in `s` starting at index `i`.
fn occurs_here(s: &Vec<char>, pat: &Vec<char>, i: usize) -> (r: bool)
    requires
        i + pat.len() <= s.len(),
    ensures
        r == occurs_at(s@, pat@, i as int),
{
    let mut j: usize = 0;
    while j < pat.len()
        invariant
            i + pat.len() <= s.len(),
            j <= pat.len(),
            forall|k: int| 0 <= k < j ==> s@[i + k] == pat@[k],
        decreases pat.len() - j,
    {
        if s[i + j] != pat[j] {
            assert(s@.subrange(i as int, i + pat.len())[j as int] != pat@[j as int]);
            return false;
        }
        j = j + 1;
    }
    assert(s@.subrange(i as int, i + pat.len()) =~= pat@);
    true
}

/// The first index at or after `from` where `pat` occurs in `s`.
pub fn find_from(s: &Vec<char>, pat: &Vec<char>, from: usize) -> (r: Option<usize>)
    ensures
        match r {
            Some(i) => first_from(s@, pat@, from as int) == Some(i as int),
            None => first_from(s@, pat@, from as int) is None,
        },
        r matches Some(i) ==> i + pat.len() <= s.len(),
{
    if pat.len() > s.len() {
        return None;
    }
    let last: usize = s.len() - pat.len();
    let mut i: usize = from;
    while i <= last
        invariant
            last == s.len() - pat.len(),
            from <= i,
            first_from(s@, pat@, from as int) == first_from(s@, pat@, i as int),
        decreases last + 1 - i,
    {
        if occurs_here(s, pat, i) {
            return Some(i);
        }
        if i == last {
            return None;
        }
        i = i + 1;
    }
    None
}

/// Scans `s` from `pos` for the first `start`, then for the first `end` after
/// it; on success gives the bounds of the text between them and the position
/// just after `end`.
pub fn between(s: &Vec<char>, start: &Vec<char>, end: &Vec<char>, pos: usize) -> (r: Option<(usize, usize, usize)>)
    ensures
        match r {
            Some((a, b, c)) => between_spec(s@, start@, end@, pos as int) == Some((a as int, b as int, c as int)),
            None => between_spec(s@, start@, end@, pos as int) is None,
        },
{
    let i = match find_from(s, start, pos) {
        Some(i) => i,
        None => return None,
    };
    let j = match find_from(s, end, i + start.len()) {
        Some(j) => j,
        None => return None,
    };
    Some((i + start.len(), j, j + end.len()))
}

} // verus!
