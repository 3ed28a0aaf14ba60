//! The zone resource, its delegation rules, and the zone authorizer: the
//! top-level decisions whether a candidate record or candidate sub-zone may
//! attach beneath a parent zone.

use vstd::prelude::*;

use crate::domain::{spec_is_subdomain, DomainName, FullyQualifiedDomainName};
use crate::meta::{spec_uid_eq, uid_eq, ObjectMeta};
use crate::pattern::{match_chars, spec_domain_matches_pattern};
use crate::record::Record;
use crate::text::{
    chars_of, eq_ignore_case, lemma_upper_idempotent, replace_char, spec_replace, spec_upper,
};
use crate::zone_ref::ZoneRef;

verus! {

/// Default number of seconds after which secondary name servers should
/// query the master for the SOA record, to detect zone changes.
pub const REFRESH: u32 = 86400;

/// Default time-to-live. Service addresses might change often, so a low
/// value increases cache responsiveness.
pub const TTL: u32 = 360;

/// Default number of seconds after which secondary name servers should
/// retry requesting the serial number from an unresponsive master.
pub const RETRY: u32 = 7200;

/// Default number of seconds after which secondary name servers should stop
/// answering requests for the zone if the master does not respond.
pub const EXPIRE: u32 = 3600000;

/// Default ceiling on the time-to-live used for negative caching.
pub const NEGATIVE_RESPONSE_CACHE: u32 = 360;

/// The default refresh interval.
pub fn refresh() -> (r: u32)
    ensures
        r == REFRESH,
{
    REFRESH
}

/// The default time-to-live.
pub fn ttl() -> (r: u32)
    ensures
        r == TTL,
{
    TTL
}

/// The default retry interval.
pub fn retry() -> (r: u32)
    ensures
        r == RETRY,
{
    RETRY
}

/// The default expiry interval.
pub fn expire() -> (r: u32)
    ensures
        r == EXPIRE,
{
    EXPIRE
}

/// The default negative-response cache ceiling.
pub fn negative_response_cache() -> (r: u32)
    ensures
        r == NEGATIVE_RESPONSE_CACHE,
{
    NEGATIVE_RESPONSE_CACHE
}

/// One rule of a delegation covering records: a domain pattern the record's
/// name must match, and the record kinds the rule allows.
///
/// In the pattern, every `@` stands for the parent zone's fully qualified
/// domain name and is substituted before matching.
pub struct RecordDelegation {
    /// Pattern which delegated records must match.
    pub pattern: String,
    /// Names of the record kinds to allow. An empty list allows any kind.
    pub types: Vec<String>,
}

impl RecordDelegation {
    /// Whether the rule admits a record of the given kind at the given
    /// domain, under the given parent-zone name: the domain must match the
    /// rule's pattern with every `@` replaced by the parent-zone name, and
    /// the kind must be listed (case-insensitively) unless the list is
    /// empty.
    pub open spec fn spec_validate(
        self,
        zone_fqdn: Seq<char>,
        record_type: Seq<char>,
        domain: Seq<char>,
    ) -> bool {
        &&& spec_domain_matches_pattern(spec_replace(self.pattern@, '@', zone_fqdn), domain)
        &&& (self.types@.len() == 0 || exists|i: int|
            0 <= i < self.types@.len() && #[trigger] spec_upper(self.types@[i]@) == spec_upper(
                record_type,
            ))
    }

    /// Whether this rule admits a `(record kind, domain)` pair under the
    /// given parent-zone name.
    pub fn validate(
        &self,
        zone_fqdn: &FullyQualifiedDomainName,
        record_type: &str,
        domain: &DomainName,
    ) -> (r: bool)
        ensures
            r == self.spec_validate(zone_fqdn@, record_type@, domain@),
    {
        let pattern_chars = chars_of(self.pattern.as_str());
        let fqdn_chars = chars_of(zone_fqdn.as_str());
        let substituted = replace_char(&pattern_chars, '@', &fqdn_chars);
        let domain_chars = chars_of(domain.as_str());
        if !match_chars(&substituted, &domain_chars) {
            return false;
        }
        if self.types.len() == 0 {
            return true;
        }
        let rt = chars_of(record_type);
        let mut i: usize = 0;
        while i < self.types.len()
            invariant
                i <= self.types@.len(),
                rt@ == record_type@,
                spec_domain_matches_pattern(
                    spec_replace(self.pattern@, '@', zone_fqdn@),
                    domain@,
                ),
                forall|j: int|
                    0 <= j < i ==> #[trigger] spec_upper(self.types@[j]@) != spec_upper(
                        record_type@,
                    ),
            decreases self.types@.len() - i,
        {
            let t = chars_of(self.types[i].as_str());
            if eq_ignore_case(&t, &rt) {
                return true;
            }
            i = i + 1;
        }
        false
    }
}

/// A declarative grant written by a zone author: the namespaces it covers,
/// the zone-name patterns under which sub-zones may delegate, and the rules
/// under which records may.
pub struct Delegation {
    /// Namespaces the delegation covers. An empty list covers every
    /// namespace.
    pub namespaces: Vec<String>,
    /// Patterns which delegated sub-zone names must match. An empty list
    /// denies all sub-zone delegation.
    pub zones: Vec<String>,
    /// Rules for delegated records. An empty list denies all records.
    pub records: Vec<RecordDelegation>,
}

impl Delegation {
    /// Whether the delegation covers the namespace: it lists it, or it
    /// lists none and so covers every namespace.
    pub open spec fn spec_covers_namespace(self, namespace: Seq<char>) -> bool {
        self.namespaces@.len() == 0 || exists|i: int|
            0 <= i < self.namespaces@.len() && #[trigger] self.namespaces@[i]@ == namespace
    }

    /// Check if the given namespace is covered by this Delegation.
    pub fn covers_namespace(&self, namespace: &str) -> (r: bool)
        ensures
            r == self.spec_covers_namespace(namespace@),
    {
        if self.namespaces.len() == 0 {
            return true;
        }
        let ns = namespace.to_owned();
        let mut i: usize = 0;
        while i < self.namespaces.len()
            invariant
                i <= self.namespaces@.len(),
                ns@ == namespace@,
                forall|j: int| 0 <= j < i ==> #[trigger] self.namespaces@[j]@ != namespace@,
            decreases self.namespaces@.len() - i,
        {
            if self.namespaces[i] == ns {
                return true;
            }
            i = i + 1;
        }
        false
    }

    /// Whether some record rule of this delegation admits the pair.
    pub open spec fn spec_validate_record(
        self,
        zone_fqdn: Seq<char>,
        record_type: Seq<char>,
        domain: Seq<char>,
    ) -> bool {
        exists|i: int|
            0 <= i < self.records@.len() && (#[trigger] self.records@[i]).spec_validate(
                zone_fqdn,
                record_type,
                domain,
            )
    }

    /// Verify that a (record kind, domain) pair matches at least one record
    /// rule of this delegation. With no record rules, deny.
    pub fn validate_record(
        &self,
        zone_fqdn: &FullyQualifiedDomainName,
        record_type: &str,
        domain: &DomainName,
    ) -> (r: bool)
        ensures
            r == self.spec_validate_record(zone_fqdn@, record_type@, domain@),
    {
        let mut i: usize = 0;
        while i < self.records.len()
            invariant
                i <= self.records@.len(),
                forall|j: int|
                    0 <= j < i ==> !(#[trigger] self.records@[j]).spec_validate(
                        zone_fqdn@,
                        record_type@,
                        domain@,
                    ),
            decreases self.records@.len() - i,
        {
            if self.records[i].validate(zone_fqdn, record_type, domain) {
                return true;
            }
            i = i + 1;
        }
        false
    }

    /// Whether some zone pattern of this delegation, with every `@`
    /// replaced by the parent-zone name, matches the domain.
    pub open spec fn spec_validate_zone(self, parent_fqdn: Seq<char>, domain: Seq<char>) -> bool {
        exists|i: int|
            0 <= i < self.zones@.len() && spec_domain_matches_pattern(
                spec_replace(#[trigger] self.zones@[i]@, '@', parent_fqdn),
                domain,
            )
    }

    /// Verify that a domain matches at least one zone pattern of this
    /// delegation. With no zone patterns, deny.
    pub fn validate_zone(&self, parent_fqdn: &FullyQualifiedDomainName, domain: &DomainName) -> (r:
        bool)
        ensures
            r == self.spec_validate_zone(parent_fqdn@, domain@),
    {
        let fqdn_chars = chars_of(parent_fqdn.as_str());
        let domain_chars = chars_of(domain.as_str());
        let mut i: usize = 0;
        while i < self.zones.len()
            invariant
                i <= self.zones@.len(),
                fqdn_chars@ == parent_fqdn@,
                domain_chars@ == domain@,
                forall|j: int|
                    0 <= j < i ==> !spec_domain_matches_pattern(
                        spec_replace(#[trigger] self.zones@[j]@, '@', parent_fqdn@),
                        domain@,
                    ),
            decreases self.zones@.len() - i,
        {
            let pattern_chars = chars_of(self.zones[i].as_str());
            let substituted = replace_char(&pattern_chars, '@', &fqdn_chars);
            if match_chars(&substituted, &domain_chars) {
                return true;
            }
            i = i + 1;
        }
        false
    }
}

/// The declared shape of a zone: its domain name, an optional reference to
/// a parent zone, the delegations it grants, and its SOA timing values.
pub struct ZoneSpec {
    pub domain_name: DomainName,
    /// Optional reference to a parent zone which this zone is a sub-zone
    /// of. A zone has either a zone reference or a fully qualified domain
    /// name, not both.
    pub zone_ref: Option<ZoneRef>,
    /// Namespaced records and zones which are allowed to insert themselves
    /// into this zone.
    pub delegations: Vec<Delegation>,
    /// Time-to-live: how long (in seconds) recursive resolvers should cache
    /// records of this zone.
    pub ttl: u32,
    /// Seconds after which secondary name servers should query the master
    /// for the SOA record.
    pub refresh: u32,
    /// Seconds after which secondary name servers should retry asking an
    /// unresponsive master for the serial. Must be less than refresh.
    pub retry: u32,
    /// Seconds after which secondary name servers should stop answering for
    /// this zone if the master does not respond. Must exceed the sum of
    /// refresh and retry.
    pub expire: u32,
    /// Ceiling on the SOA time-to-live used for negative caching.
    pub negative_response_cache: u32,
}

impl Default for ZoneSpec {
    /// An empty zone declaration: empty domain name, no parent reference,
    /// no delegations, and zeroed timing values.
    fn default() -> (z: ZoneSpec)
        ensures
            z.domain_name@ == Seq::<char>::empty(),
            z.zone_ref is None,
            z.delegations@.len() == 0,
            z.ttl == 0,
            z.refresh == 0,
            z.retry == 0,
            z.expire == 0,
            z.negative_response_cache == 0,
    {
        ZoneSpec {
            domain_name: DomainName::default(),
            zone_ref: None,
            delegations: Vec::new(),
            ttl: 0,
            refresh: 0,
            retry: 0,
            expire: 0,
            negative_response_cache: 0,
        }
    }
}

/// One record line of a generated zonefile.
pub struct ZoneEntry {
    pub fqdn: FullyQualifiedDomainName,
    pub type_: String,
    pub class: String,
    pub ttl: u32,
    pub rdata: String,
}

/// Externally computed attributes of a zone: its entries, its fully
/// qualified domain name once resolved, a hash of the relevant entries, and
/// the serial of the latest generated zonefile.
pub struct ZoneStatus {
    pub entries: Vec<ZoneEntry>,
    /// The zone's fully qualified domain name. If the declared domain name
    /// is already fully qualified the two are identical; a zone anchored to
    /// a parent gets the concatenation of its declared name and the
    /// parent's.
    pub fqdn: Option<FullyQualifiedDomainName>,
    /// Hash value of all relevant zone entries.
    pub hash: Option<String>,
    /// Serial of the latest generated zonefile.
    pub serial: Option<u32>,
}

impl Default for ZoneStatus {
    /// A zone status with nothing computed yet.
    fn default() -> (s: ZoneStatus)
        ensures
            s.entries@.len() == 0,
            s.fqdn is None,
            s.hash is None,
            s.serial is None,
    {
        ZoneStatus { entries: Vec::new(), fqdn: None, hash: None, serial: None }
    }
}

/// A DNS zone resource: metadata, declared spec, and computed status.
pub struct Zone {
    pub metadata: ObjectMeta,
    pub spec: ZoneSpec,
    pub status: Option<ZoneStatus>,
}

impl Zone {
    /// The computed fully qualified domain name, when the status carries
    /// one.
    pub open spec fn spec_fqdn(self) -> Option<FullyQualifiedDomainName> {
        match self.status {
            Some(status) => status.fqdn,
            None => None,
        }
    }

    /// The computed hash, when the status carries one.
    pub open spec fn spec_hash(self) -> Option<Seq<char>> {
        match self.status {
            Some(status) => match status.hash {
                Some(h) => Some(h@),
                None => None,
            },
            None => None,
        }
    }

    /// The computed serial, when the status carries one.
    pub open spec fn spec_serial(self) -> Option<u32> {
        match self.status {
            Some(status) => status.serial,
            None => None,
        }
    }

    /// Produce a zoneRef pointing to this zone.
    pub fn zone_ref(&self) -> (r: ZoneRef)
        ensures
            r.name@ == self.metadata.spec_name_any(),
            r.namespace == self.metadata.namespace,
    {
        ZoneRef { name: self.name_any(), namespace: self.namespace() }
    }

    /// The zone's name, or empty when none is set.
    pub fn name_any(&self) -> (r: String)
        ensures
            r@ == self.metadata.spec_name_any(),
    {
        match &self.metadata.name {
            Some(n) => n.clone(),
            None => String::new(),
        }
    }

    /// The namespace this zone lives in, if one is set.
    pub fn namespace(&self) -> (r: Option<String>)
        ensures
            r == self.metadata.namespace,
    {
        match &self.metadata.namespace {
            Some(ns) => Some(ns.clone()),
            None => None,
        }
    }

    /// Fetch the computed FQDN from this zone, if one has been set.
    pub fn fqdn(&self) -> (r: Option<&FullyQualifiedDomainName>)
        ensures
            match r {
                Some(f) => self.spec_fqdn() == Some(*f),
                None => self.spec_fqdn() is None,
            },
    {
        match &self.status {
            Some(status) => status.fqdn.as_ref(),
            None => None,
        }
    }

    /// The hash of the zone's entries, if one has been computed.
    pub fn hash(&self) -> (r: Option<&str>)
        ensures
            match r {
                Some(h) => self.spec_hash() == Some(h@),
                None => self.spec_hash() is None,
            },
    {
        match &self.status {
            Some(status) => match &status.hash {
                Some(h) => Some(h.as_str()),
                None => None,
            },
            None => None,
        }
    }

    /// The serial of the latest generated zonefile, if one has been
    /// computed.
    pub fn serial(&self) -> (r: Option<u32>)
        ensures
            r == self.spec_serial(),
    {
        match &self.status {
            Some(status) => status.serial,
            None => None,
        }
    }

    /// Whether the parent zone admits the candidate record: both carry a
    /// computed fully qualified domain name, the record's lies beneath the
    /// zone's (the zone apex itself included), and some delegation of the
    /// zone both covers the record's namespace and admits its kind and
    /// declared domain name.
    pub open spec fn spec_validate_record(self, record: Record) -> bool {
        &&& self.spec_fqdn() is Some
        &&& record.spec_fqdn() is Some
        &&& spec_is_subdomain(record.spec_fqdn().unwrap()@, self.spec_fqdn().unwrap()@)
        &&& exists|i: int|
            0 <= i < self.spec.delegations@.len() && {
                &&& (#[trigger] self.spec.delegations@[i]).spec_covers_namespace(
                    record.metadata.spec_namespace_or_empty(),
                )
                &&& self.spec.delegations@[i].spec_validate_record(
                    self.spec_fqdn().unwrap()@,
                    record.spec.type_.spec_name(),
                    record.spec.domain_name@,
                )
            }
    }

    /// Validate that the given Record is allowed, given the delegations of
    /// this Zone.
    pub fn validate_record(&self, record: &Record) -> (r: bool)
        ensures
            r == self.spec_validate_record(*record),
    {
        let parent_fqdn = match self.fqdn() {
            Some(f) => f,
            None => {
                return false;
            },
        };
        let record_fqdn = match record.fqdn() {
            Some(f) => f,
            None => {
                return false;
            },
        };
        if !record_fqdn.is_subdomain_of(parent_fqdn) {
            return false;
        }
        let ns = match &record.metadata.namespace {
            Some(n) => n.clone(),
            None => String::new(),
        };
        let rt = record.spec.type_.as_str();
        let mut i: usize = 0;
        while i < self.spec.delegations.len()
            invariant
                i <= self.spec.delegations@.len(),
                self.spec_fqdn() == Some(*parent_fqdn),
                record.spec_fqdn() is Some,
                spec_is_subdomain(record.spec_fqdn().unwrap()@, parent_fqdn@),
                ns@ == record.metadata.spec_namespace_or_empty(),
                rt@ == record.spec.type_.spec_name(),
                forall|j: int|
                    0 <= j < i ==> !((#[trigger] self.spec.delegations@[j]).spec_covers_namespace(
                        record.metadata.spec_namespace_or_empty(),
                    ) && self.spec.delegations@[j].spec_validate_record(
                        parent_fqdn@,
                        record.spec.type_.spec_name(),
                        record.spec.domain_name@,
                    )),
            decreases self.spec.delegations@.len() - i,
        {
            let delegation = &self.spec.delegations[i];
            if delegation.covers_namespace(ns.as_str()) && delegation.validate_record(
                parent_fqdn,
                rt,
                &record.spec.domain_name,
            ) {
                return true;
            }
            i = i + 1;
        }
        false
    }

    /// Whether the parent zone admits the candidate sub-zone: both carry a
    /// computed fully qualified domain name, the candidate's lies beneath
    /// the parent's, the candidate is not the parent itself (told apart by
    /// resource identity), and some delegation of the parent both covers
    /// the candidate's namespace and has a zone pattern matching its
    /// declared domain name.
    pub open spec fn spec_validate_zone(self, zone: Zone) -> bool {
        &&& self.spec_fqdn() is Some
        &&& zone.spec_fqdn() is Some
        &&& spec_is_subdomain(zone.spec_fqdn().unwrap()@, self.spec_fqdn().unwrap()@)
        &&& !spec_uid_eq(self.metadata.uid, zone.metadata.uid)
        &&& exists|i: int|
            0 <= i < self.spec.delegations@.len() && {
                &&& (#[trigger] self.spec.delegations@[i]).spec_covers_namespace(
                    zone.metadata.spec_namespace_or_empty(),
                )
                &&& self.spec.delegations@[i].spec_validate_zone(
                    self.spec_fqdn().unwrap()@,
                    zone.spec.domain_name@,
                )
            }
    }

    /// Validate that the given Zone is allowed by the delegations specified
    /// in this Zone.
    pub fn validate_zone(&self, zone: &Zone) -> (r: bool)
        ensures
            r == self.spec_validate_zone(*zone),
    {
        let parent_fqdn = match self.fqdn() {
            Some(f) => f,
            None => {
                return false;
            },
        };
        let zone_fqdn = match zone.fqdn() {
            Some(f) => f,
            None => {
                return false;
            },
        };
        if !zone_fqdn.is_subdomain_of(parent_fqdn) {
            return false;
        }
        // Cannot be a subdomain of itself.
        if uid_eq(&self.metadata.uid, &zone.metadata.uid) {
            return false;
        }
        let ns = match &zone.metadata.namespace {
            Some(n) => n.clone(),
            None => String::new(),
        };
        let mut i: usize = 0;
        while i < self.spec.delegations.len()
            invariant
                i <= self.spec.delegations@.len(),
                self.spec_fqdn() == Some(*parent_fqdn),
                zone.spec_fqdn() is Some,
                spec_is_subdomain(zone.spec_fqdn().unwrap()@, parent_fqdn@),
                !spec_uid_eq(self.metadata.uid, zone.metadata.uid),
                ns@ == zone.metadata.spec_namespace_or_empty(),
                forall|j: int|
                    0 <= j < i ==> !((#[trigger] self.spec.delegations@[j]).spec_covers_namespace(
                        zone.metadata.spec_namespace_or_empty(),
                    ) && self.spec.delegations@[j].spec_validate_zone(
                        parent_fqdn@,
                        zone.spec.domain_name@,
                    )),
            decreases self.spec.delegations@.len() - i,
        {
            let delegation = &self.spec.delegations[i];
            if delegation.covers_namespace(ns.as_str()) && delegation.validate_zone(
                parent_fqdn,
                &zone.spec.domain_name,
            ) {
                return true;
            }
            i = i + 1;
        }
        false
    }
}

/// A record rule with an empty kind list admits every record kind alike:
/// only the domain pattern decides.
pub proof fn lemma_empty_types_any_kind(
    rule: RecordDelegation,
    zone_fqdn: Seq<char>,
    kind_a: Seq<char>,
    kind_b: Seq<char>,
    domain: Seq<char>,
)
    requires
        rule.types@.len() == 0,
    ensures
        rule.spec_validate(zone_fqdn, kind_a, domain) == rule.spec_validate(
            zone_fqdn,
            kind_b,
            domain,
        ),
{
}

/// The kind filter of a record rule is case-insensitive: folding the
/// candidate kind to upper case does not change the verdict.
pub proof fn lemma_type_filter_case_insensitive(
    rule: RecordDelegation,
    zone_fqdn: Seq<char>,
    record_type: Seq<char>,
    domain: Seq<char>,
)
    ensures
        rule.spec_validate(zone_fqdn, record_type, domain) == rule.spec_validate(
            zone_fqdn,
            spec_upper(record_type),
            domain,
        ),
{
    lemma_upper_idempotent(record_type);
}

/// A delegation with an empty namespace list covers every namespace.
pub proof fn lemma_empty_namespaces_cover_all(delegation: Delegation, namespace: Seq<char>)
    requires
        delegation.namespaces@.len() == 0,
    ensures
        delegation.spec_covers_namespace(namespace),
{
}

/// Self-delegation is always denied: a zone is never admitted as its own
/// sub-zone, whatever its delegations say.
pub proof fn lemma_self_delegation_denied(zone: Zone)
    ensures
        !zone.spec_validate_zone(zone),
{
    assert(spec_uid_eq(zone.metadata.uid, zone.metadata.uid));
}

/// A missing fully qualified domain name on either side denies a record,
/// independent of delegation content.
pub proof fn lemma_missing_fqdn_denies_record(zone: Zone, record: Record)
    requires
        zone.spec_fqdn() is None || record.spec_fqdn() is None,
    ensures
        !zone.spec_validate_record(record),
{
}

/// A missing fully qualified domain name on either side denies a sub-zone,
/// independent of delegation content.
pub proof fn lemma_missing_fqdn_denies_zone(parent: Zone, zone: Zone)
    requires
        parent.spec_fqdn() is None || zone.spec_fqdn() is None,
    ensures
        !parent.spec_validate_zone(zone),
{
}

} // verus!
