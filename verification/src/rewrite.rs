//! The link rewriter: a single-pass multi-pattern text substitution.
//!
//! After all downloads are done, every saved page is rewritten so that each
//! `attr="relative-link"` occurrence becomes `attr="local-path"`.  The
//! substitution scans left to right; at each position the longest matching
//! pattern wins (the earliest in the list on a tie), its replacement is
//! emitted, and scanning continues after the matched text — replacements
//! are never rescanned.
use vstd::prelude::*;

use crate::text::matches_at;
use crate::text::match_at;
use crate::text::append_chars;
use crate::session::LinkInfo;

verus! {

/// Pattern `k` is non-empty and occurs in `text` at position `i`.
pub open spec fn pat_matches_here(
    text: Seq<char>,
    pats: Seq<Seq<char>>,
    k: int,
    i: int,
) -> bool {
    0 <= k < pats.len() && pats[k].len() > 0 && matches_at(text, pats[k], i)
}

/// The winning pattern at position `i` among the first `k` patterns: the
/// longest one matching there, the earliest on a tie.
pub open spec fn best_upto(text: Seq<char>, pats: Seq<Seq<char>>, i: int, k: int) -> Option<int>
    decreases k,
{
    if k <= 0 {
        None
    } else {
        let prev = best_upto(text, pats, i, k - 1);
        if pat_matches_here(text, pats, k - 1, i) {
            match prev {
                None => Some(k - 1),
                Some(m) => if pats[k - 1].len() > pats[m].len() {
                    Some(k - 1)
                } else {
                    Some(m)
                },
            }
        } else {
            prev
        }
    }
}

/// The winning pattern at position `i`, among all patterns.
pub open spec fn best_of(text: Seq<char>, pats: Seq<Seq<char>>, i: int) -> Option<int> {
    best_upto(text, pats, i, pats.len() as int)
}

/// The rewritten text from position `i` on.
pub open spec fn rewrite_from(
    text: Seq<char>,
    pats: Seq<Seq<char>>,
    reps: Seq<Seq<char>>,
    i: int,
) -> Seq<char>
    decreases text.len() - i,
{
    if i < 0 || i >= text.len() {
        Seq::empty()
    } else {
        match best_of(text, pats, i) {
            None => seq![text[i]] + rewrite_from(text, pats, reps, i + 1),
            Some(k) => if pat_matches_here(text, pats, k, i) {
                reps[k] + rewrite_from(text, pats, reps, i + pats[k].len())
            } else {
                // never reached: the winner always matches where it won
                Seq::empty()
            },
        }
    }
}

/// The whole text rewritten: every occurrence of a pattern replaced by its
/// replacement exactly once, longest-then-first match at each position, no
/// rescan of replaced text.
pub open spec fn rewrite_spec(text: Seq<char>, pats: Seq<Seq<char>>, reps: Seq<Seq<char>>) -> Seq<
    char,
> {
    rewrite_from(text, pats, reps, 0)
}

proof fn lemma_best_bounds(text: Seq<char>, pats: Seq<Seq<char>>, i: int, k: int)
    ensures
        match best_upto(text, pats, i, k) {
            Some(m) => 0 <= m < k && pat_matches_here(text, pats, m, i),
            None => forall|j: int| 0 <= j < k ==> !pat_matches_here(text, pats, j, i),
        },
    decreases k,
{
    if k > 0 {
        lemma_best_bounds(text, pats, i, k - 1);
    }
}

/// The winning pattern at position `i`, as executable search.
fn best_match(text: &Vec<char>, pats: &Vec<Vec<char>>, i: usize) -> (r: Option<usize>)
    ensures
        match r {
            Some(k) => best_of(text@, pats.deep_view(), i as int) == Some(k as int),
            None => best_of(text@, pats.deep_view(), i as int) is None,
        },
{
    let n: usize = pats.len();
    let mut cur: Option<usize> = None;
    let mut k: usize = 0;
    assert(pats.deep_view().len() == n);
    while k < n
        invariant
            n == pats@.len(),
            pats.deep_view().len() == n,
            k <= n,
            forall|j: int| 0 <= j < n ==> pats.deep_view()[j] == pats@[j]@,
            match cur {
                Some(m) => best_upto(text@, pats.deep_view(), i as int, k as int) == Some(m as int)
                    && m < k,
                None => best_upto(text@, pats.deep_view(), i as int, k as int) is None,
            },
        decreases n - k,
    {
        let p = &pats[k];
        if p.len() > 0 && match_at(text, p, i) {
            assert(pat_matches_here(text@, pats.deep_view(), k as int, i as int));
            cur = match cur {
                None => Some(k),
                Some(m) => {
                    let lm: usize = pats[m].len();
                    if p.len() > lm {
                        Some(k)
                    } else {
                        Some(m)
                    }
                },
            };
        } else {
            assert(!pat_matches_here(text@, pats.deep_view(), k as int, i as int));
        }
        k = k + 1;
    }
    cur
}

/// Rewrites `text` in one left-to-right pass over the parallel pattern and
/// replacement lists.
pub fn rewrite_all(text: &Vec<char>, pats: &Vec<Vec<char>>, reps: &Vec<Vec<char>>) -> (r: Vec<
    char,
>)
    requires
        pats@.len() == reps@.len(),
    ensures
        r@ == rewrite_spec(text@, pats.deep_view(), reps.deep_view()),
{
    let n: usize = text.len();
    let mut out: Vec<char> = Vec::new();
    let mut i: usize = 0;
    while i < n
        invariant
            n == text@.len(),
            i <= n,
            pats@.len() == reps@.len(),
            pats.deep_view().len() == pats@.len(),
            reps.deep_view().len() == reps@.len(),
            forall|j: int| 0 <= j < reps@.len() ==> reps.deep_view()[j] == reps@[j]@,
            rewrite_spec(text@, pats.deep_view(), reps.deep_view()) == out@ + rewrite_from(
                text@,
                pats.deep_view(),
                reps.deep_view(),
                i as int,
            ),
        decreases n - i,
    {
        match best_match(text, pats, i) {
            None => {
                out.push(text[i]);
                i = i + 1;
            },
            Some(k) => {
                proof {
                    lemma_best_bounds(text@, pats.deep_view(), i as int, pats.deep_view().len() as int);
                }
                append_chars(&mut out, &reps[k]);
                i = i + pats[k].len();
            },
        }
    }
    assert(rewrite_from(text@, pats.deep_view(), reps.deep_view(), i as int)
        =~= Seq::<char>::empty());
    assert(out@ =~= out@ + Seq::<char>::empty());
    out
}

proof fn lemma_matches_offset(text: Seq<char>, p: Seq<char>, i: int, j: int)
    requires
        0 <= i <= text.len(),
        0 <= j,
    ensures
        matches_at(text, p, i + j) == matches_at(text.skip(i), p, j),
{
    if i + j + p.len() <= text.len() {
        assert(text.skip(i).subrange(j, j + p.len()) =~= text.subrange(i + j, i + j + p.len()));
    }
}

proof fn lemma_best_upto_offset(text: Seq<char>, pats: Seq<Seq<char>>, i: int, j: int, k: int)
    requires
        0 <= i <= text.len(),
        0 <= j,
    ensures
        best_upto(text, pats, i + j, k) == best_upto(text.skip(i), pats, j, k),
    decreases k,
{
    if k > 0 {
        lemma_best_upto_offset(text, pats, i, j, k - 1);
        lemma_matches_offset(text, pats[k - 1], i, j);
    }
}

proof fn lemma_rewrite_from_skip(text: Seq<char>, pats: Seq<Seq<char>>, reps: Seq<Seq<char>>, i: int, j: int)
    requires
        0 <= i <= text.len(),
        0 <= j,
    ensures
        rewrite_from(text, pats, reps, i + j) == rewrite_from(text.skip(i), pats, reps, j),
    decreases text.len() - i - j,
{
    lemma_best_upto_offset(text, pats, i, j, pats.len() as int);
    if i + j < text.len() {
        match best_of(text, pats, i + j) {
            None => {
                lemma_rewrite_from_skip(text, pats, reps, i, j + 1);
                assert(text.skip(i)[j] == text[i + j]);
            },
            Some(k) => {
                lemma_matches_offset(text, pats[k], i, j);
                if pat_matches_here(text, pats, k, i + j) {
                    lemma_rewrite_from_skip(text, pats, reps, i, j + pats[k].len());
                }
            },
        }
    }
}

/// A text in which no pattern occurs is left exactly as it was.
pub proof fn lemma_rewrite_untouched(text: Seq<char>, pats: Seq<Seq<char>>, reps: Seq<Seq<char>>)
    requires
        forall|k: int, j: int| !pat_matches_here(text, pats, k, j),
    ensures
        rewrite_spec(text, pats, reps) == text,
{
    lemma_rewrite_untouched_from(text, pats, reps, 0);
    assert(text.skip(0) =~= text);
}

proof fn lemma_rewrite_untouched_from(
    text: Seq<char>,
    pats: Seq<Seq<char>>,
    reps: Seq<Seq<char>>,
    i: int,
)
    requires
        0 <= i <= text.len(),
        forall|k: int, j: int| !pat_matches_here(text, pats, k, j),
    ensures
        rewrite_from(text, pats, reps, i) == text.skip(i),
    decreases text.len() - i,
{
    if i >= text.len() {
        assert(text.skip(i) =~= Seq::<char>::empty());
    } else {
        lemma_best_bounds(text, pats, i, pats.len() as int);
        match best_of(text, pats, i) {
            Some(m) => {
                assert(false);
            },
            None => {
                lemma_rewrite_untouched_from(text, pats, reps, i + 1);
                assert(seq![text[i]] + text.skip(i + 1) =~= text.skip(i));
            },
        }
    }
}

/// The rewrite round trip for one pattern: when `p` first occurs right
/// after a prefix `a` that holds no occurrence, the rewritten text keeps
/// `a` verbatim, replaces that occurrence of `p` by `q` exactly once, does
/// not rescan `q`, and continues on the remainder `b` alone.  Applied
/// repeatedly, this replaces every occurrence exactly once.
pub proof fn lemma_rewrite_first_occurrence(a: Seq<char>, p: Seq<char>, b: Seq<char>, q: Seq<char>)
    requires
        p.len() > 0,
        forall|j: int| 0 <= j < a.len() ==> !matches_at(a + p + b, p, j),
    ensures
        rewrite_spec(a + p + b, seq![p], seq![q]) == a + q + rewrite_spec(b, seq![p], seq![q]),
{
    lemma_rewrite_first_from(a, p, b, q, 0);
    assert((a + p + b).subrange(0, a.len() as int) =~= a);
}

proof fn lemma_rewrite_first_from(a: Seq<char>, p: Seq<char>, b: Seq<char>, q: Seq<char>, i: int)
    requires
        p.len() > 0,
        0 <= i <= a.len(),
        forall|j: int| 0 <= j < a.len() ==> !matches_at(a + p + b, p, j),
    ensures
        rewrite_from(a + p + b, seq![p], seq![q], i) == (a + p + b).subrange(i, a.len() as int) + q
            + rewrite_spec(b, seq![p], seq![q]),
    decreases a.len() - i,
{
    let text = a + p + b;
    let pats = seq![p];
    let reps = seq![q];
    if i == a.len() {
        assert(matches_at(text, p, i)) by {
            assert(text.subrange(a.len() as int, a.len() + p.len() as int) =~= p);
        }
        assert(pat_matches_here(text, pats, 0, i));
        assert(best_upto(text, pats, i, 0) is None);
        assert(best_of(text, pats, i) == Some(0int));
        assert(i < text.len());
        lemma_rewrite_from_skip(text, pats, reps, a.len() + p.len() as int, 0);
        assert(text.skip(a.len() + p.len() as int) =~= b);
        assert(rewrite_from(text, pats, reps, i) == q + rewrite_spec(b, pats, reps));
        assert(text.subrange(i, a.len() as int) =~= Seq::<char>::empty());
        assert(Seq::<char>::empty() + q + rewrite_spec(b, pats, reps) =~= q + rewrite_spec(
            b,
            pats,
            reps,
        ));
    } else {
        assert(!matches_at(text, p, i));
        assert(!pat_matches_here(text, pats, 0, i));
        assert(best_upto(text, pats, i, 0) is None);
        assert(best_of(text, pats, i) is None);
        assert(i < text.len());
        lemma_rewrite_first_from(a, p, b, q, i + 1);
        assert(seq![text[i]] + (text.subrange(i + 1, a.len() as int) + q + rewrite_spec(
            b,
            pats,
            reps,
        )) =~= text.subrange(i, a.len() as int) + q + rewrite_spec(b, pats, reps));
    }
}

/// The search pattern for one recorded resource: `attr="relative-link"`.
pub open spec fn pattern_spec(attr: Seq<char>, link: Seq<char>) -> Seq<char> {
    attr + seq!['=', '"'] + link + seq!['"']
}

/// Builds `attr="value"` as characters.
pub fn attr_pattern(attr: &str, value: &str) -> (r: Vec<char>)
    ensures
        r@ == pattern_spec(attr@, value@),
{
    let mut r = crate::text::to_chars(attr);
    r.push('=');
    r.push('"');
    let v = crate::text::to_chars(value);
    append_chars(&mut r, &v);
    r.push('"');
    assert(r@ =~= pattern_spec(attr@, value@));
    r
}

/// The pattern and replacement pair that one recorded resource
/// contributes: `attr="relative-link"` becomes `attr="file-path"`.
pub fn entry_patterns(info: &LinkInfo) -> (r: (Vec<char>, Vec<char>))
    ensures
        r.0@ == pattern_spec(info@.element_attribute, info@.relative_link),
        r.1@ == pattern_spec(info@.element_attribute, info@.file_path),
{
    let pat = attr_pattern(info.element_attribute.as_str(), info.relative_link.as_str());
    let rep = attr_pattern(info.element_attribute.as_str(), info.file_path.as_str());
    (pat, rep)
}

} // verus!
