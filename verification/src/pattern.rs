//! The wildcard domain-pattern matcher.
//!
//! A pattern is a dot-labeled string where a label may be a literal, a bare
//! `*` (an absorbing wildcard when it is the leading label), or a partial
//! wildcard such as `env-*`. Matching compares labels from the root inward:
//! the label counts must agree unless the pattern opens with a bare `*`
//! label, equal labels continue the scan, and the first differing pattern
//! label that holds a `*` decides the whole match by itself via a
//! prefix/suffix test within that label.

use vstd::prelude::*;

use crate::domain::DomainName;
use crate::text::{
    chars_eq, chars_of, contains_char, ends_with_chars, find_char, lemma_split_len, reverse_segs,
    spec_find, spec_split, split_chars, starts_with_chars, subrange_chars,
};

verus! {

broadcast use crate::text::lemma_chars_deep_view;

/// Whether one candidate label matches one pattern label through the
/// label's wildcard: the pattern label is cut at its first `*` into a head
/// and a tail, and the candidate label must begin with the head and end
/// with the tail. Only the first `*` is a cut point; any further `*` is
/// taken literally as part of the tail.
pub open spec fn spec_wild_label_match(p: Seq<char>, c: Seq<char>) -> bool {
    let cut = spec_find(p, '*');
    let head = p.subrange(0, cut);
    let tail = p.subrange(cut + 1, p.len() as int);
    &&& c.len() >= head.len() && c.subrange(0, head.len() as int) == head
    &&& c.len() >= tail.len() && c.subrange(c.len() - tail.len(), c.len() as int) == tail
}

/// Label-by-label comparison from the root inward, over already-reversed
/// label lists. Equal labels continue the scan; the first pattern label
/// that differs from its candidate and holds a `*` decides the whole match
/// by itself; any other difference denies; the scan stops, allowing, at the
/// end of the shorter list.
pub open spec fn spec_labels_match(p: Seq<Seq<char>>, c: Seq<Seq<char>>) -> bool
    decreases p.len(),
{
    if p.len() == 0 || c.len() == 0 {
        true
    } else if p[0] == c[0] {
        spec_labels_match(p.drop_first(), c.drop_first())
    } else if contains_char(p[0], '*') {
        spec_wild_label_match(p[0], c[0])
    } else {
        false
    }
}

/// Whether a candidate's labels match a pattern's labels, both in their
/// written order: the label counts must agree unless the pattern opens with
/// a bare `*` label, and the labels are then compared from the root inward.
pub open spec fn spec_matches_labels(p: Seq<Seq<char>>, c: Seq<Seq<char>>) -> bool {
    &&& p.len() == c.len() || (p.len() > 0 && p[0] == seq!['*'])
    &&& spec_labels_match(p.reverse(), c.reverse())
}

/// Whether the domain text matches the pattern text, label-wise.
pub open spec fn spec_domain_matches_pattern(pattern: Seq<char>, domain: Seq<char>) -> bool {
    spec_matches_labels(spec_split(pattern, '.'), spec_split(domain, '.'))
}

/// Skipping an equal prefix of both label lists does not change the result
/// of the root-inward scan.
proof fn lemma_labels_match_skip(p: Seq<Seq<char>>, c: Seq<Seq<char>>, k: int)
    requires
        0 <= k <= p.len(),
        k <= c.len(),
        forall|j: int| 0 <= j < k ==> p[j] == c[j],
    ensures
        spec_labels_match(p, c) == spec_labels_match(p.skip(k), c.skip(k)),
    decreases k,
{
    if k > 0 {
        assert(p[0] == c[0]);
        assert forall|j: int| 0 <= j < k - 1 implies p.drop_first()[j] == c.drop_first()[j] by {
            assert(p[j + 1] == c[j + 1]);
        }
        lemma_labels_match_skip(p.drop_first(), c.drop_first(), k - 1);
        assert(p.drop_first().skip(k - 1) =~= p.skip(k));
        assert(c.drop_first().skip(k - 1) =~= c.skip(k));
    } else {
        assert(p.skip(0) =~= p);
        assert(c.skip(0) =~= c);
    }
}

/// Whether `domain` matches the wildcard `pattern`, both given as character
/// vectors.
pub(crate) fn match_chars(pattern: &Vec<char>, domain: &Vec<char>) -> (r: bool)
    ensures
        r == spec_domain_matches_pattern(pattern@, domain@),
{
    let ghost ps = spec_split(pattern@, '.');
    let ghost ds = spec_split(domain@, '.');
    let psegs = split_chars(pattern, '.');
    let dsegs = split_chars(domain, '.');
    proof {
        lemma_split_len(pattern@, '.');
    }
    let first = &psegs[0];
    let leading_star = first.len() == 1 && first[0] == '*';
    proof {
        assert(ps[0] == psegs@[0]@);
        if leading_star {
            assert(ps[0] =~= seq!['*']);
        } else {
            if ps[0] == seq!['*'] {
                assert(psegs@[0]@.len() == 1);
                assert(psegs@[0]@[0] == '*');
            }
        }
    }
    if psegs.len() != dsegs.len() && !leading_star {
        return false;
    }
    let ghost escape = ps.len() == ds.len() || (ps.len() > 0 && ps[0] == seq!['*']);
    proof {
        assert(escape);
    }
    let pr = reverse_segs(psegs);
    let dr = reverse_segs(dsegs);
    let ghost prs = ps.reverse();
    let ghost drs = ds.reverse();
    let n = if pr.len() < dr.len() { pr.len() } else { dr.len() };
    let mut k: usize = 0;
    while k < n
        invariant
            0 <= k <= n,
            n <= prs.len(),
            n <= drs.len(),
            n == prs.len() || n == drs.len(),
            pr.deep_view() == prs,
            dr.deep_view() == drs,
            prs == spec_split(pattern@, '.').reverse(),
            drs == spec_split(domain@, '.').reverse(),
            ps == spec_split(pattern@, '.'),
            ds == spec_split(domain@, '.'),
            escape == (ps.len() == ds.len() || (ps.len() > 0 && ps[0] == seq!['*'])),
            escape,
            forall|j: int| 0 <= j < k ==> prs[j] == drs[j],
        decreases n - k,
    {
        let pl = &pr[k];
        let dl = &dr[k];
        proof {
            assert(pl@ == prs[k as int]);
            assert(dl@ == drs[k as int]);
        }
        if !chars_eq(pl, dl) {
            proof {
                lemma_labels_match_skip(prs, drs, k as int);
                assert(prs.skip(k as int)[0] == prs[k as int]);
                assert(drs.skip(k as int)[0] == drs[k as int]);
            }
            let cut = find_char(pl, '*');
            if cut < pl.len() {
                let head = subrange_chars(pl, 0, cut);
                let tail = subrange_chars(pl, cut + 1, pl.len());
                let sw = starts_with_chars(dl, &head);
                let ew = ends_with_chars(dl, &tail);
                proof {
                    assert(contains_char(prs[k as int], '*'));
                    assert((sw && ew) == spec_wild_label_match(prs[k as int], drs[k as int]));
                }
                return sw && ew;
            } else {
                proof {
                    assert(!contains_char(prs[k as int], '*'));
                }
                return false;
            }
        }
        k = k + 1;
    }
    proof {
        lemma_labels_match_skip(prs, drs, n as int);
        assert(prs.skip(n as int).len() == 0 || drs.skip(n as int).len() == 0);
    }
    true
}

/// Whether `domain` matches the wildcard `pattern`.
pub fn domain_matches_pattern(pattern: &str, domain: &DomainName) -> (r: bool)
    ensures
        r == spec_domain_matches_pattern(pattern@, domain@),
{
    let pc = chars_of(pattern);
    let dc = chars_of(domain.as_str());
    match_chars(&pc, &dc)
}

/// Every wildcard-free domain text matches itself, taken as a pattern.
pub proof fn lemma_matches_reflexive(d: Seq<char>)
    requires
        forall|i: int| 0 <= i < d.len() ==> d[i] != '*',
    ensures
        spec_domain_matches_pattern(d, d),
{
    lemma_labels_match_reflexive(spec_split(d, '.').reverse());
}

proof fn lemma_labels_match_reflexive(s: Seq<Seq<char>>)
    ensures
        spec_labels_match(s, s),
    decreases s.len(),
{
    if s.len() > 0 {
        lemma_labels_match_reflexive(s.drop_first());
    }
}

/// A label-count mismatch denies outright unless the pattern's leading
/// label is a bare `*`.
pub proof fn lemma_count_mismatch_denies(pattern: Seq<char>, domain: Seq<char>)
    requires
        spec_split(pattern, '.').len() != spec_split(domain, '.').len(),
        spec_split(pattern, '.')[0] != seq!['*'],
    ensures
        !spec_domain_matches_pattern(pattern, domain),
{
}

/// The root-inward scan only looks at the first `p.len()` root-side labels
/// of the candidate, so two candidates that agree on those agree on the
/// result.
proof fn lemma_labels_match_prefix(p: Seq<Seq<char>>, c1: Seq<Seq<char>>, c2: Seq<Seq<char>>)
    requires
        c1.len() >= p.len(),
        c2.len() >= p.len(),
        forall|j: int| 0 <= j < p.len() ==> c1[j] == c2[j],
    ensures
        spec_labels_match(p, c1) == spec_labels_match(p, c2),
    decreases p.len(),
{
    if p.len() > 0 {
        assert(c1[0] == c2[0]);
        assert forall|j: int| 0 <= j < p.drop_first().len() implies c1.drop_first()[j]
            == c2.drop_first()[j] by {
            assert(c1[j + 1] == c2[j + 1]);
        }
        lemma_labels_match_prefix(p.drop_first(), c1.drop_first(), c2.drop_first());
    }
}

/// A pattern whose leading label is a bare `*` absorbs arbitrary extra
/// inner labels: for a candidate that already has at least as many labels
/// as the pattern, prepending any further labels does not change the match
/// result.
pub proof fn lemma_leading_wildcard_absorbs(
    p: Seq<Seq<char>>,
    extra: Seq<Seq<char>>,
    c: Seq<Seq<char>>,
)
    requires
        p.len() > 0,
        p[0] == seq!['*'],
        c.len() >= p.len(),
    ensures
        spec_matches_labels(p, extra + c) == spec_matches_labels(p, c),
{
    let pr = p.reverse();
    let cr = c.reverse();
    let er = (extra + c).reverse();
    assert(er =~= cr + extra.reverse());
    assert forall|j: int| 0 <= j < pr.len() implies er[j] == cr[j] by {
        assert(cr.len() >= pr.len());
    }
    lemma_labels_match_prefix(pr, er, cr);
}

} // verus!
