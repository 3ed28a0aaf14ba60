//! Reference to a zone by name and optional namespace, and its single-string
//! label form `name` or `name.namespace`.

use vstd::prelude::*;

use crate::text::{contains_char, find_char, chars_of, spec_find};

verus! {

/// Reference to a Zone, optionally in a specific namespace.
#[derive(Debug)]
pub struct ZoneRef {
    pub name: String,
    pub namespace: Option<String>,
}

impl ZoneRef {
    /// The label form of the reference: `name.namespace`, or just `name`
    /// when no namespace is set.
    pub open spec fn spec_as_label(self) -> Seq<char> {
        match self.namespace {
            Some(ns) => self.name@ + seq!['.'] + ns@,
            None => self.name@,
        }
    }

    /// Serialize the ZoneRef into a label-compatible format.
    pub fn as_label(&self) -> (r: String)
        ensures
            r@ == self.spec_as_label(),
    {
        match &self.namespace {
            Some(ns) => {
                let mut r = self.name.clone();
                r.append(".");
                r.append(ns.as_str());
                proof {
                    reveal_strlit(".");
                    assert(r@ =~= self.spec_as_label());
                }
                r
            },
            None => self.name.clone(),
        }
    }

    /// Parse a label: the part before the first dot is the name and the
    /// part after it the namespace; a label without a dot is a bare name
    /// with no namespace.
    pub fn from(s: &str) -> (r: ZoneRef)
        ensures
            contains_char(s@, '.') ==> {
                &&& r.name@ == s@.subrange(0, spec_find(s@, '.'))
                &&& r.namespace is Some
                &&& r.namespace.unwrap()@ == s@.subrange(spec_find(s@, '.') + 1, s@.len() as int)
            },
            !contains_char(s@, '.') ==> r.name@ == s@ && r.namespace is None,
    {
        let cs = chars_of(s);
        let dot = find_char(&cs, '.');
        let len = s.unicode_len();
        if dot < len {
            let name = s.substring_char(0, dot);
            let namespace = s.substring_char(dot + 1, len);
            ZoneRef { name: name.to_owned(), namespace: Some(namespace.to_owned()) }
        } else {
            ZoneRef { name: s.to_owned(), namespace: None }
        }
    }
}

impl Clone for ZoneRef {
    /// A clone refers to the same zone.
    fn clone(&self) -> (r: ZoneRef)
        ensures
            r.name@ == self.name@,
            match (r.namespace, self.namespace) {
                (Some(a), Some(b)) => a@ == b@,
                (None, None) => true,
                _ => false,
            },
    {
        ZoneRef {
            name: self.name.clone(),
            namespace: match &self.namespace {
                Some(ns) => Some(ns.clone()),
                None => None,
            },
        }
    }
}

} // verus!
