//! The slice of resource metadata the engine reads: a name, a namespace, a
//! stable unique identifier, and the resource's labels.

use vstd::prelude::*;

verus! {

/// Metadata carried by every resource handed to the engine. All fields are
/// optional, as they are on a freshly written manifest; the unique
/// identifier is assigned by the cluster store and is what tells two
/// resource instances apart.
pub struct ObjectMeta {
    pub name: Option<String>,
    pub namespace: Option<String>,
    pub uid: Option<String>,
    pub labels: Vec<(String, String)>,
}

impl ObjectMeta {
    /// The namespace's text, or empty when none is set.
    pub open spec fn spec_namespace_or_empty(self) -> Seq<char> {
        match self.namespace {
            Some(ns) => ns@,
            None => Seq::<char>::empty(),
        }
    }

    /// The name's text, or empty when none is set.
    pub open spec fn spec_name_any(self) -> Seq<char> {
        match self.name {
            Some(n) => n@,
            None => Seq::<char>::empty(),
        }
    }
}

/// The value of the first label pair whose key is `key`, if any.
pub open spec fn spec_lookup(pairs: Seq<(String, String)>, key: Seq<char>) -> Option<Seq<char>>
    decreases pairs.len(),
{
    if pairs.len() == 0 {
        None
    } else if pairs[0].0@ == key {
        Some(pairs[0].1@)
    } else {
        spec_lookup(pairs.drop_first(), key)
    }
}

/// The value of the first label pair whose key is `key`, if any.
pub fn lookup_label<'a>(labels: &'a Vec<(String, String)>, key: &str) -> (r: Option<&'a String>)
    ensures
        match r {
            Some(v) => spec_lookup(labels@, key@) == Some(v@),
            None => spec_lookup(labels@, key@) is None,
        },
{
    let k = key.to_owned();
    let mut i: usize = 0;
    proof {
        assert(labels@.skip(0) =~= labels@);
    }
    while i < labels.len()
        invariant
            i <= labels@.len(),
            k@ == key@,
            spec_lookup(labels@, key@) == spec_lookup(labels@.skip(i as int), key@),
        decreases labels@.len() - i,
    {
        proof {
            assert(labels@.skip(i as int).len() > 0);
            assert(labels@.skip(i as int)[0] == labels@[i as int]);
            assert(labels@.skip(i as int).drop_first() =~= labels@.skip(i + 1));
        }
        if labels[i].0 == k {
            return Some(&labels[i].1);
        }
        i = i + 1;
    }
    proof {
        assert(labels@.skip(labels@.len() as int).len() == 0);
    }
    None
}

/// Whether two optional identifiers hold the same text (two absent ones
/// count as the same).
pub open spec fn spec_uid_eq(a: Option<String>, b: Option<String>) -> bool {
    match (a, b) {
        (Some(x), Some(y)) => x@ == y@,
        (None, None) => true,
        _ => false,
    }
}

/// Whether two optional identifiers hold the same text.
pub fn uid_eq(a: &Option<String>, b: &Option<String>) -> (r: bool)
    ensures
        r == spec_uid_eq(*a, *b),
{
    match (a, b) {
        (Some(x), Some(y)) => *x == *y,
        (None, None) => true,
        _ => false,
    }
}

impl Default for ObjectMeta {
    /// Metadata with nothing set.
    fn default() -> (m: ObjectMeta)
        ensures
            m.name is None,
            m.namespace is None,
            m.uid is None,
            m.labels@.len() == 0,
    {
        ObjectMeta { name: None, namespace: None, uid: None, labels: Vec::new() }
    }
}

} // verus!
