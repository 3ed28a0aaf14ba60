//! Delegation-authorization engine for a hierarchical DNS-zone composition
//! model: given a parent zone's declared delegation rules, decide whether a
//! candidate DNS record or candidate child zone may attach beneath it.
//!
//! The engine is pure decision logic. It performs no I/O and keeps no state:
//! every entry point takes immutable snapshots of the resources involved and
//! returns a definite boolean.

use vstd::prelude::*;

mod domain;
mod domain_ext;
mod meta;
mod pattern;
mod record;
mod text;
mod zone;
mod zone_ref;

pub use domain::DomainName;
pub use domain::FqdnError;
pub use domain::FullyQualifiedDomainName;
pub use domain::lemma_subdomain_reflexive;
pub use domain::spec_is_fully_qualified;
pub use domain::spec_is_subdomain;
pub use pattern::domain_matches_pattern;
pub use pattern::lemma_count_mismatch_denies;
pub use pattern::lemma_leading_wildcard_absorbs;
pub use pattern::lemma_matches_reflexive;
pub use pattern::spec_domain_matches_pattern;
pub use pattern::spec_matches_labels;
pub use domain_ext::DomainExt;
pub use domain_ext::spec_parent_of_label;
pub use meta::ObjectMeta;
pub use meta::spec_lookup;
pub use meta::spec_uid_eq;
pub use record::Class;
pub use record::Record;
pub use record::RecordSpec;
pub use record::RecordStatus;
pub use record::Type;
pub use record::class;
pub use zone_ref::ZoneRef;
pub use zone::Delegation;
pub use zone::RecordDelegation;
pub use zone::Zone;
pub use zone::ZoneEntry;
pub use zone::ZoneSpec;
pub use zone::ZoneStatus;
pub use zone::EXPIRE;
pub use zone::NEGATIVE_RESPONSE_CACHE;
pub use zone::REFRESH;
pub use zone::RETRY;
pub use zone::TTL;
pub use zone::expire;
pub use zone::lemma_empty_namespaces_cover_all;
pub use zone::lemma_empty_types_any_kind;
pub use zone::lemma_missing_fqdn_denies_record;
pub use zone::lemma_missing_fqdn_denies_zone;
pub use zone::lemma_self_delegation_denied;
pub use zone::lemma_type_filter_case_insensitive;
pub use zone::negative_response_cache;
pub use zone::refresh;
pub use zone::retry;
pub use zone::ttl;

verus! {

/// Label under which a child resource names its parent zone.
pub const PARENT_ZONE_LABEL: &'static str = "kubi.zone/parent-zone";

} // verus!
