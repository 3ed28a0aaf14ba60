//! Domain-name value types: a plain dot-separated domain name, and a fully
//! qualified (root-anchored) one with its label-wise is-subdomain-of
//! relation.

use vstd::prelude::*;

use crate::text::{chars_eq, chars_of, spec_split, split_chars};

verus! {

broadcast use crate::text::lemma_chars_deep_view;

/// A dot-separated sequence of labels, not necessarily fully qualified.
/// Immutable value type, compared and matched as text.
#[derive(Debug)]
pub struct DomainName {
    text: String,
}

impl View for DomainName {
    type V = Seq<char>;

    closed spec fn view(&self) -> Seq<char> {
        self.text@
    }
}

impl DomainName {
    /// A domain name with exactly the given text. No validation is done:
    /// the engine consumes already-validated names.
    pub fn from(s: &str) -> (d: DomainName)
        ensures
            d@ == s@,
    {
        DomainName { text: s.to_owned() }
    }

    /// The text of the domain name.
    pub fn as_str(&self) -> (r: &str)
        ensures
            r@ == self@,
    {
        self.text.as_str()
    }
}

impl Default for DomainName {
    /// The empty domain name.
    fn default() -> (d: DomainName)
        ensures
            d@ == Seq::<char>::empty(),
    {
        DomainName { text: String::new() }
    }
}

/// Whether a text is fully qualified: non-empty and terminated by the root
/// dot.
pub open spec fn spec_is_fully_qualified(s: Seq<char>) -> bool {
    s.len() > 0 && s.last() == '.'
}

/// Why a text was rejected as a fully qualified domain name.
#[derive(Clone, Copy, Debug, PartialEq, Eq, Structural)]
pub enum FqdnError {
    /// The text does not end with the root dot (or is empty).
    NotFullyQualified,
}

/// A domain name known to be absolute: its text ends with the root dot.
#[derive(Debug)]
pub struct FullyQualifiedDomainName {
    text: String,
}

impl View for FullyQualifiedDomainName {
    type V = Seq<char>;

    closed spec fn view(&self) -> Seq<char> {
        self.text@
    }
}

/// Subdomain relation over domain texts: the child's labels end with all of
/// the parent's labels. A name thereby counts as lying beneath itself, which
/// lets records be declared at the zone apex; the zone authorizer excludes
/// self-delegation separately, by resource identity.
pub open spec fn spec_is_subdomain(child: Seq<char>, parent: Seq<char>) -> bool {
    let c = spec_split(child, '.');
    let p = spec_split(parent, '.');
    c.len() >= p.len() && c.subrange(c.len() - p.len(), c.len() as int) == p
}

/// Equal texts always satisfy the subdomain relation.
pub proof fn lemma_subdomain_reflexive(d: Seq<char>)
    ensures
        spec_is_subdomain(d, d),
{
    let s = spec_split(d, '.');
    assert(s.subrange(0, s.len() as int) =~= s);
}

impl FullyQualifiedDomainName {
    /// Accepts exactly the texts that end with the root dot.
    pub fn try_from(s: &str) -> (r: Result<FullyQualifiedDomainName, FqdnError>)
        ensures
            r is Ok <==> spec_is_fully_qualified(s@),
            r is Ok ==> r.unwrap()@ == s@,
            r is Err ==> r.unwrap_err() == FqdnError::NotFullyQualified,
    {
        let len = s.unicode_len();
        if len == 0 {
            return Err(FqdnError::NotFullyQualified);
        }
        if s.get_char(len - 1) == '.' {
            Ok(FullyQualifiedDomainName { text: s.to_owned() })
        } else {
            Err(FqdnError::NotFullyQualified)
        }
    }

    /// The text of the fully qualified domain name.
    pub fn as_str(&self) -> (r: &str)
        ensures
            r@ == self@,
    {
        self.text.as_str()
    }

    /// Whether `self` lies beneath `parent`: `self`'s labels end with all
    /// of `parent`'s labels. A name lies beneath itself; callers that must
    /// exclude self-reference do so by resource identity.
    pub fn is_subdomain_of(&self, parent: &FullyQualifiedDomainName) -> (r: bool)
        ensures
            r == spec_is_subdomain(self@, parent@),
    {
        let c_chars = chars_of(self.text.as_str());
        let p_chars = chars_of(parent.text.as_str());
        let c_segs = split_chars(&c_chars, '.');
        let p_segs = split_chars(&p_chars, '.');
        let ghost cs = spec_split(self@, '.');
        let ghost ps = spec_split(parent@, '.');
        if c_segs.len() < p_segs.len() {
            return false;
        }
        let off = c_segs.len() - p_segs.len();
        let mut j: usize = off;
        while j < c_segs.len()
            invariant
                off <= j <= c_segs@.len(),
                off == c_segs@.len() - p_segs@.len(),
                c_segs@.len() >= p_segs@.len(),
                c_segs.deep_view() == cs,
                p_segs.deep_view() == ps,
                cs == spec_split(self@, '.'),
                ps == spec_split(parent@, '.'),
                forall|k: int| off <= k < j ==> cs[k] == ps[k - off],
            decreases c_segs@.len() - j,
        {
            if !chars_eq(&c_segs[j], &p_segs[j - off]) {
                proof {
                    assert(cs.subrange(cs.len() - ps.len(), cs.len() as int)[j - off]
                        != ps[j - off]);
                }
                return false;
            }
            j = j + 1;
        }
        proof {
            assert(cs.subrange(cs.len() - ps.len(), cs.len() as int) =~= ps);
        }
        true
    }
}

impl Clone for FullyQualifiedDomainName {
    /// A clone carries the same text.
    fn clone(&self) -> (r: FullyQualifiedDomainName)
        ensures
            r@ == self@,
    {
        FullyQualifiedDomainName { text: self.text.clone() }
    }
}

} // verus!
