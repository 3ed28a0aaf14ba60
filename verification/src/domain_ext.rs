//! Functionality common between Zones and Records: fetching the computed
//! fully qualified domain name of the resource, and reading the parent-zone
//! label as a zone reference. The zone authorizer's callers work against
//! this interface rather than duplicating field access.

use vstd::prelude::*;

use crate::domain::FullyQualifiedDomainName;
use crate::meta::{lookup_label, spec_lookup};
use crate::record::Record;
use crate::text::{contains_char, spec_find};
use crate::zone::Zone;
use crate::zone_ref::ZoneRef;
use crate::PARENT_ZONE_LABEL;

verus! {

/// How a parsed parent reference relates to the label value it came from:
/// the part before the first dot is the name and the part after it the
/// namespace; a value without a dot is a bare name with no namespace.
pub open spec fn spec_parent_of_label(r: ZoneRef, value: Seq<char>) -> bool {
    &&& contains_char(value, '.') ==> {
        &&& r.name@ == value.subrange(0, spec_find(value, '.'))
        &&& r.namespace is Some
        &&& r.namespace.unwrap()@ == value.subrange(spec_find(value, '.') + 1, value.len() as int)
    }
    &&& !contains_char(value, '.') ==> r.name@ == value && r.namespace is None
}

/// Functionality common between Zones and Records, such as fetching the
/// fully qualified domain name of the resource, or parsing the parent zone
/// label.
pub trait DomainExt {
    /// The computed fully qualified domain name, when one has been set.
    spec fn spec_fqdn_of(&self) -> Option<FullyQualifiedDomainName>;

    /// The value of the resource's parent-zone label, when one is set.
    spec fn spec_parent_label(&self) -> Option<Seq<char>>;

    /// Fetch the computed FQDN from this resource, if one has been set.
    fn fqdn(&self) -> (r: Option<&FullyQualifiedDomainName>)
        ensures
            match r {
                Some(f) => self.spec_fqdn_of() == Some(*f),
                None => self.spec_fqdn_of() is None,
            },
    ;

    /// Retrieve the parent-zone label as a ZoneRef, if present.
    fn parent(&self) -> (r: Option<ZoneRef>)
        ensures
            match (r, self.spec_parent_label()) {
                (Some(zone_ref), Some(value)) => spec_parent_of_label(zone_ref, value),
                (None, None) => true,
                _ => false,
            },
    ;
}

impl DomainExt for Zone {
    open spec fn spec_fqdn_of(&self) -> Option<FullyQualifiedDomainName> {
        self.spec_fqdn()
    }

    open spec fn spec_parent_label(&self) -> Option<Seq<char>> {
        spec_lookup(self.metadata.labels@, PARENT_ZONE_LABEL@)
    }

    fn fqdn(&self) -> (r: Option<&FullyQualifiedDomainName>) {
        match &self.status {
            Some(status) => status.fqdn.as_ref(),
            None => None,
        }
    }

    fn parent(&self) -> (r: Option<ZoneRef>) {
        match lookup_label(&self.metadata.labels, PARENT_ZONE_LABEL) {
            Some(value) => Some(ZoneRef::from(value.as_str())),
            None => None,
        }
    }
}

impl DomainExt for Record {
    open spec fn spec_fqdn_of(&self) -> Option<FullyQualifiedDomainName> {
        self.spec_fqdn()
    }

    open spec fn spec_parent_label(&self) -> Option<Seq<char>> {
        spec_lookup(self.metadata.labels@, PARENT_ZONE_LABEL@)
    }

    fn fqdn(&self) -> (r: Option<&FullyQualifiedDomainName>) {
        match &self.status {
            Some(status) => status.fqdn.as_ref(),
            None => None,
        }
    }

    fn parent(&self) -> (r: Option<ZoneRef>) {
        match lookup_label(&self.metadata.labels, PARENT_ZONE_LABEL) {
            Some(value) => Some(ZoneRef::from(value.as_str())),
            None => None,
        }
    }
}

} // verus!
