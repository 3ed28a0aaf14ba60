//! Character-level text utilities the pattern matcher and the domain types
//! are built on: turning a string into its characters, splitting on a
//! separator, reversing, ASCII case folding and placeholder substitution.

use vstd::prelude::*;

verus! {

/// For a vector of characters the deep view and the plain view coincide.
pub broadcast proof fn lemma_chars_deep_view(v: Vec<char>)
    ensures
        #[trigger] v.deep_view() == v@,
{
    assert(v.deep_view() =~= v@);
}

/// The characters of `s`, as a vector.
pub fn chars_of(s: &str) -> (r: Vec<char>)
    ensures
        r@ == s@,
{
    let len = s.unicode_len();
    let mut r: Vec<char> = Vec::new();
    let mut i: usize = 0;
    while i < len
        invariant
            i <= len,
            len == s@.len(),
            r@ == s@.take(i as int),
        decreases len - i,
    {
        r.push(s.get_char(i));
        proof {
            assert(r@ =~= s@.take(i + 1));
        }
        i = i + 1;
    }
    proof {
        assert(r@ =~= s@);
    }
    r
}

/// The pieces of `s` between occurrences of the separator `sep`, in order.
/// A string with no separator is a single piece; every separator closes the
/// current piece and opens a new (possibly empty) one, so the result always
/// holds at least one piece and splitting the empty string gives one empty
/// piece.
pub open spec fn spec_split(s: Seq<char>, sep: char) -> Seq<Seq<char>>
    decreases s.len(),
{
    if s.len() == 0 {
        seq![Seq::<char>::empty()]
    } else {
        let init = spec_split(s.drop_last(), sep);
        if s.last() == sep {
            init.push(Seq::<char>::empty())
        } else {
            init.update(init.len() - 1, init.last().push(s.last()))
        }
    }
}

pub proof fn lemma_split_len(s: Seq<char>, sep: char)
    ensures
        spec_split(s, sep).len() >= 1,
    decreases s.len(),
{
    if s.len() > 0 {
        lemma_split_len(s.drop_last(), sep);
    }
}

/// How one more character extends a split.
pub proof fn lemma_split_step(s: Seq<char>, sep: char, c: char)
    ensures
        c == sep ==> spec_split(s.push(c), sep) == spec_split(s, sep).push(Seq::<char>::empty()),
        c != sep ==> spec_split(s.push(c), sep) == spec_split(s, sep).update(
            spec_split(s, sep).len() - 1,
            spec_split(s, sep).last().push(c),
        ),
{
    assert(s.push(c).drop_last() =~= s);
    assert(s.push(c).last() == c);
}

/// The pieces of `s` between occurrences of `sep`, as a vector of
/// character vectors.
pub fn split_chars(s: &Vec<char>, sep: char) -> (r: Vec<Vec<char>>)
    ensures
        r.deep_view() == spec_split(s@, sep),
        r@.len() >= 1,
{
    let mut acc: Vec<Vec<char>> = Vec::new();
    let mut cur: Vec<char> = Vec::new();
    let mut i: usize = 0;
    proof {
        assert(s@.take(0) =~= Seq::<char>::empty());
        assert(acc.deep_view().push(cur@) =~= spec_split(s@.take(0), sep));
    }
    while i < s.len()
        invariant
            i <= s@.len(),
            spec_split(s@.take(i as int), sep) == acc.deep_view().push(cur@),
        decreases s@.len() - i,
    {
        let c = s[i];
        proof {
            assert(s@.take(i + 1) =~= s@.take(i as int).push(s@[i as int]));
            lemma_split_step(s@.take(i as int), sep, s@[i as int]);
        }
        if c == sep {
            let ghost old_acc = acc.deep_view();
            let ghost old_cur = cur@;
            acc.push(cur);
            cur = Vec::new();
            proof {
                assert(acc.deep_view() =~~= old_acc.push(old_cur));
                assert(acc.deep_view().push(cur@) =~= spec_split(s@.take(i + 1), sep));
            }
        } else {
            let ghost old_acc = acc.deep_view();
            let ghost old_cur = cur@;
            cur.push(c);
            proof {
                assert(acc.deep_view() =~= old_acc);
                assert(acc.deep_view().push(cur@) =~= old_acc.push(old_cur).update(
                    old_acc.len() as int,
                    old_cur.push(c),
                ));
                assert(acc.deep_view().push(cur@) =~= spec_split(s@.take(i + 1), sep));
            }
        }
        i = i + 1;
    }
    proof {
        assert(s@.take(s@.len() as int) =~= s@);
    }
    let ghost old_acc = acc.deep_view();
    let ghost old_cur = cur@;
    acc.push(cur);
    proof {
        assert(acc.deep_view() =~~= old_acc.push(old_cur));
        lemma_split_len(s@, sep);
    }
    acc
}

/// The pieces in the opposite order.
pub fn reverse_segs(v: Vec<Vec<char>>) -> (r: Vec<Vec<char>>)
    ensures
        r.deep_view() == v.deep_view().reverse(),
{
    let mut w = v;
    let mut r: Vec<Vec<char>> = Vec::new();
    while w.len() > 0
        invariant
            w@.len() + r@.len() == v@.len(),
            w@ == v@.take(w@.len() as int),
            forall|j: int| 0 <= j < r@.len() ==> r@[j] == v@[v@.len() - 1 - j],
        decreases w@.len(),
    {
        let ghost old_w = w@;
        let e = w.pop().unwrap();
        r.push(e);
        proof {
            assert(w@ =~= v@.take(w@.len() as int));
        }
    }
    proof {
        assert(r.deep_view() =~= v.deep_view().reverse());
    }
    r
}

/// Whether two character vectors hold the same characters.
pub fn chars_eq(a: &Vec<char>, b: &Vec<char>) -> (r: bool)
    ensures
        r == (a@ == b@),
{
    if a.len() != b.len() {
        return false;
    }
    let mut i: usize = 0;
    while i < a.len()
        invariant
            i <= a@.len(),
            a@.len() == b@.len(),
            forall|j: int| 0 <= j < i ==> a@[j] == b@[j],
        decreases a@.len() - i,
    {
        if a[i] != b[i] {
            return false;
        }
        i = i + 1;
    }
    proof {
        assert(a@ =~= b@);
    }
    true
}

/// A lower-case ASCII letter folded to its upper-case form; every other
/// character is left as it is.
pub open spec fn spec_upper_char(c: char) -> char {
    if c == 'a' { 'A' }
    else if c == 'b' { 'B' }
    else if c == 'c' { 'C' }
    else if c == 'd' { 'D' }
    else if c == 'e' { 'E' }
    else if c == 'f' { 'F' }
    else if c == 'g' { 'G' }
    else if c == 'h' { 'H' }
    else if c == 'i' { 'I' }
    else if c == 'j' { 'J' }
    else if c == 'k' { 'K' }
    else if c == 'l' { 'L' }
    else if c == 'm' { 'M' }
    else if c == 'n' { 'N' }
    else if c == 'o' { 'O' }
    else if c == 'p' { 'P' }
    else if c == 'q' { 'Q' }
    else if c == 'r' { 'R' }
    else if c == 's' { 'S' }
    else if c == 't' { 'T' }
    else if c == 'u' { 'U' }
    else if c == 'v' { 'V' }
    else if c == 'w' { 'W' }
    else if c == 'x' { 'X' }
    else if c == 'y' { 'Y' }
    else if c == 'z' { 'Z' }
    else { c }
}

/// `s` with every lower-case ASCII letter folded to upper case.
pub open spec fn spec_upper(s: Seq<char>) -> Seq<char> {
    s.map_values(|c: char| spec_upper_char(c))
}

pub fn upper_char(c: char) -> (r: char)
    ensures
        r == spec_upper_char(c),
{
    match c {
        'a' => 'A',
        'b' => 'B',
        'c' => 'C',
        'd' => 'D',
        'e' => 'E',
        'f' => 'F',
        'g' => 'G',
        'h' => 'H',
        'i' => 'I',
        'j' => 'J',
        'k' => 'K',
        'l' => 'L',
        'm' => 'M',
        'n' => 'N',
        'o' => 'O',
        'p' => 'P',
        'q' => 'Q',
        'r' => 'R',
        's' => 'S',
        't' => 'T',
        'u' => 'U',
        'v' => 'V',
        'w' => 'W',
        'x' => 'X',
        'y' => 'Y',
        'z' => 'Z',
        _ => c,
    }
}

/// Whether two character vectors are equal once both are folded to upper
/// case.
pub fn eq_ignore_case(a: &Vec<char>, b: &Vec<char>) -> (r: bool)
    ensures
        r == (spec_upper(a@) == spec_upper(b@)),
{
    proof {
        assert(spec_upper(a@).len() == a@.len());
        assert(spec_upper(b@).len() == b@.len());
    }
    if a.len() != b.len() {
        return false;
    }
    let mut i: usize = 0;
    while i < a.len()
        invariant
            i <= a@.len(),
            a@.len() == b@.len(),
            forall|j: int| 0 <= j < i ==> spec_upper_char(a@[j]) == spec_upper_char(b@[j]),
        decreases a@.len() - i,
    {
        let ca = upper_char(a[i]);
        let cb = upper_char(b[i]);
        if ca != cb {
            proof {
                assert(spec_upper(a@)[i as int] != spec_upper(b@)[i as int]);
            }
            return false;
        }
        i = i + 1;
    }
    proof {
        assert(spec_upper(a@) =~= spec_upper(b@));
    }
    true
}

/// Folding to upper case twice is the same as folding once.
pub proof fn lemma_upper_idempotent(s: Seq<char>)
    ensures
        spec_upper(spec_upper(s)) == spec_upper(s),
{
    assert forall|i: int| 0 <= i < s.len() implies spec_upper_char(spec_upper_char(s[i]))
        == spec_upper_char(s[i]) by {
    }
    assert(spec_upper(spec_upper(s)) =~= spec_upper(s));
}

/// `s` with every occurrence of `marker` replaced by the sequence `rep`.
pub open spec fn spec_replace(s: Seq<char>, marker: char, rep: Seq<char>) -> Seq<char>
    decreases s.len(),
{
    if s.len() == 0 {
        Seq::<char>::empty()
    } else if s.last() == marker {
        spec_replace(s.drop_last(), marker, rep) + rep
    } else {
        spec_replace(s.drop_last(), marker, rep).push(s.last())
    }
}

pub fn replace_char(s: &Vec<char>, marker: char, rep: &Vec<char>) -> (r: Vec<char>)
    ensures
        r@ == spec_replace(s@, marker, rep@),
{
    let mut r: Vec<char> = Vec::new();
    let mut i: usize = 0;
    proof {
        assert(r@ =~= spec_replace(s@.take(0), marker, rep@));
    }
    while i < s.len()
        invariant
            i <= s@.len(),
            r@ == spec_replace(s@.take(i as int), marker, rep@),
        decreases s@.len() - i,
    {
        proof {
            assert(s@.take(i + 1).drop_last() =~= s@.take(i as int));
            assert(s@.take(i + 1).last() == s@[i as int]);
        }
        if s[i] == marker {
            let ghost r0 = r@;
            let mut k: usize = 0;
            while k < rep.len()
                invariant
                    k <= rep@.len(),
                    r@ == r0 + rep@.take(k as int),
                decreases rep@.len() - k,
            {
                r.push(rep[k]);
                proof {
                    assert(r@ =~= r0 + rep@.take(k + 1));
                }
                k = k + 1;
            }
            proof {
                assert(r@ =~= r0 + rep@);
            }
        } else {
            r.push(s[i]);
        }
        i = i + 1;
    }
    proof {
        assert(s@.take(s@.len() as int) =~= s@);
    }
    r
}

/// The position of the first occurrence of `c` in `s`, or the length of `s`
/// if `c` does not occur.
pub open spec fn spec_find(s: Seq<char>, c: char) -> int
    decreases s.len(),
{
    if s.len() == 0 {
        0
    } else if s[0] == c {
        0
    } else {
        1 + spec_find(s.drop_first(), c)
    }
}

/// Whether `c` occurs anywhere in `s`.
pub open spec fn contains_char(s: Seq<char>, c: char) -> bool {
    spec_find(s, c) < s.len()
}

/// `spec_find` names the first occurrence: nothing before it is `c`, and
/// the character there is `c` whenever one occurs at all.
pub proof fn lemma_find(s: Seq<char>, c: char)
    ensures
        0 <= spec_find(s, c) <= s.len(),
        spec_find(s, c) < s.len() ==> s[spec_find(s, c)] == c,
        forall|j: int| 0 <= j < spec_find(s, c) ==> s[j] != c,
    decreases s.len(),
{
    if s.len() > 0 && s[0] != c {
        lemma_find(s.drop_first(), c);
        assert forall|j: int| 0 <= j < spec_find(s, c) implies s[j] != c by {
            if j > 0 {
                assert(s.drop_first()[j - 1] != c);
            }
        }
    }
}

/// The position of the first occurrence of `c` in `s`, or `s.len()`.
pub fn find_char(s: &Vec<char>, c: char) -> (r: usize)
    ensures
        r as int == spec_find(s@, c),
{
    proof {
        lemma_find(s@, c);
    }
    let mut i: usize = 0;
    while i < s.len()
        invariant
            i <= s@.len(),
            forall|j: int| 0 <= j < i ==> s@[j] != c,
            spec_find(s@, c) >= i,
        decreases s@.len() - i,
    {
        if s[i] == c {
            proof {
                lemma_find(s@, c);
                assert(spec_find(s@, c) <= i) by {
                    if spec_find(s@, c) > i {
                        assert(s@[i as int] != c);
                    }
                }
            }
            return i;
        }
        proof {
            lemma_find(s@, c);
            assert(spec_find(s@, c) != i) by {
                if spec_find(s@, c) == i {
                    assert(s@[i as int] == c);
                }
            }
        }
        i = i + 1;
    }
    proof {
        lemma_find(s@, c);
    }
    i
}

/// The characters of `s` from `from` (inclusive) to `to` (exclusive).
pub fn subrange_chars(s: &Vec<char>, from: usize, to: usize) -> (r: Vec<char>)
    requires
        from <= to <= s@.len(),
    ensures
        r@ == s@.subrange(from as int, to as int),
{
    let mut r: Vec<char> = Vec::new();
    let mut i: usize = from;
    while i < to
        invariant
            from <= i <= to <= s@.len(),
            r@ == s@.subrange(from as int, i as int),
        decreases to - i,
    {
        r.push(s[i]);
        proof {
            assert(r@ =~= s@.subrange(from as int, i + 1));
        }
        i = i + 1;
    }
    r
}

/// Whether `c` begins with the characters of `head`.
pub fn starts_with_chars(c: &Vec<char>, head: &Vec<char>) -> (r: bool)
    ensures
        r == (c@.len() >= head@.len() && c@.subrange(0, head@.len() as int) == head@),
{
    if c.len() < head.len() {
        return false;
    }
    let mut i: usize = 0;
    while i < head.len()
        invariant
            i <= head@.len() <= c@.len(),
            forall|j: int| 0 <= j < i ==> c@[j] == head@[j],
        decreases head@.len() - i,
    {
        if c[i] != head[i] {
            proof {
                assert(c@.subrange(0, head@.len() as int)[i as int] != head@[i as int]);
            }
            return false;
        }
        i = i + 1;
    }
    proof {
        assert(c@.subrange(0, head@.len() as int) =~= head@);
    }
    true
}

/// Whether `c` ends with the characters of `tail`.
pub fn ends_with_chars(c: &Vec<char>, tail: &Vec<char>) -> (r: bool)
    ensures
        r == (c@.len() >= tail@.len() && c@.subrange(
            c@.len() - tail@.len(),
            c@.len() as int,
        ) == tail@),
{
    if c.len() < tail.len() {
        return false;
    }
    let off = c.len() - tail.len();
    let mut i: usize = off;
    while i < c.len()
        invariant
            off <= i <= c@.len(),
            off == c@.len() - tail@.len(),
            forall|j: int| off <= j < i ==> c@[j] == tail@[j - off],
        decreases c@.len() - i,
    {
        if c[i] != tail[i - off] {
            proof {
                assert(c@.subrange(c@.len() - tail@.len(), c@.len() as int)[i - off]
                    != tail@[i - off]);
            }
            return false;
        }
        i = i + 1;
    }
    proof {
        assert(c@.subrange(c@.len() - tail@.len(), c@.len() as int) =~= tail@);
    }
    true
}

} // verus!
