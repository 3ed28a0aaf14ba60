use kubizone_crds::{
    Class, Delegation, DomainName, FullyQualifiedDomainName, ObjectMeta, Record, RecordDelegation,
    RecordSpec, RecordStatus, Type, Zone, ZoneSpec, ZoneStatus,
};

fn example_zone(delegations: Vec<Delegation>) -> Zone {
    Zone {
        spec: ZoneSpec {
            domain_name: DomainName::from("example.org."),
            zone_ref: None,
            delegations,
            ..Default::default()
        },
        status: Some(ZoneStatus {
            fqdn: Some(FullyQualifiedDomainName::try_from("example.org.").unwrap()),
            ..Default::default()
        }),
        metadata: ObjectMeta::default(),
    }
}

#[test]
fn test_record_delegation() {
    let zone = example_zone(vec![Delegation {
        namespaces: vec![String::from("default")],
        zones: vec![],
        records: vec![RecordDelegation {
            pattern: String::from("*.example.org."),
            types: vec![],
        }],
    }]);

    // Record in delegated namespace should be allowed.
    assert!(zone.validate_record(&Record {
        metadata: ObjectMeta {
            namespace: Some(String::from("default")),
            ..Default::default()
        },
        spec: RecordSpec {
            domain_name: DomainName::from("www.example.org."),
            zone_ref: None,
            type_: Type::A,
            class: Class::IN,
            ttl: None,
            rdata: String::from("192.168.0.1")
        },
        status: Some(RecordStatus {
            fqdn: Some(FullyQualifiedDomainName::try_from("www.example.org.").unwrap())
        })
    }));

    // Record in non-delegated namespace should fail.
    assert!(!zone.validate_record(&Record {
        metadata: ObjectMeta {
            namespace: Some(String::from("not-default")),
            ..Default::default()
        },
        spec: RecordSpec {
            domain_name: DomainName::from("www.example.org."),
            zone_ref: None,
            type_: Type::A,
            class: Class::IN,
            ttl: None,
            rdata: String::from("192.168.0.1")
        },
        status: None
    }));

    // Record in delegated namespace, with invalid super-domain should fail.
    assert!(!zone.validate_record(&Record {
        metadata: ObjectMeta {
            namespace: Some(String::from("default")),
            ..Default::default()
        },
        spec: RecordSpec {
            domain_name: DomainName::from("www.test.com."),
            zone_ref: None,
            type_: Type::A,
            class: Class::IN,
            ttl: None,
            rdata: String::from("192.168.0.1")
        },
        status: None
    }))
}

#[test]
fn test_record_type_limit() {
    let zone = example_zone(vec![Delegation {
        namespaces: vec![String::from("default")],
        zones: vec![],
        records: vec![RecordDelegation {
            pattern: String::from("example.org."),
            types: vec![String::from("MX")],
        }],
    }]);

    // Record in delegated namespace with delegated record type
    // (MX) should be allowed.
    assert!(zone.validate_record(&Record {
        metadata: ObjectMeta {
            namespace: Some(String::from("default")),
            ..Default::default()
        },
        spec: RecordSpec {
            domain_name: DomainName::from("example.org."),
            zone_ref: None,
            type_: Type::MX,
            class: Class::IN,
            ttl: None,
            rdata: String::from("10 mail1.example.org.")
        },
        status: Some(RecordStatus {
            fqdn: Some(FullyQualifiedDomainName::try_from("example.org.").unwrap())
        })
    }));

    // Record in delegated namespace with non-delegated record type
    // (A) should not be allowed.
    assert!(!zone.validate_record(&Record {
        metadata: ObjectMeta {
            namespace: Some(String::from("default")),
            ..Default::default()
        },
        spec: RecordSpec {
            domain_name: DomainName::from("example.org."),
            zone_ref: None,
            type_: Type::A,
            class: Class::IN,
            ttl: None,
            rdata: String::from("192.168.0.1")
        },
        status: None
    }));
}

fn record_in(namespace: &str, domain: &str, fqdn: Option<&str>, type_: Type) -> Record {
    Record {
        metadata: ObjectMeta {
            namespace: Some(String::from(namespace)),
            ..Default::default()
        },
        spec: RecordSpec {
            domain_name: DomainName::from(domain),
            zone_ref: None,
            type_,
            class: Class::IN,
            ttl: None,
            rdata: String::from("192.168.0.1"),
        },
        status: fqdn.map(|f| RecordStatus {
            fqdn: Some(FullyQualifiedDomainName::try_from(f).unwrap()),
        }),
    }
}

fn wildcard_delegation_for_default() -> Delegation {
    Delegation {
        namespaces: vec![String::from("default")],
        zones: vec![],
        records: vec![RecordDelegation {
            pattern: String::from("*.example.org."),
            types: vec![],
        }],
    }
}

#[test]
fn scenario_allowed_in_covered_namespace() {
    let zone = example_zone(vec![wildcard_delegation_for_default()]);
    let record = record_in("default", "www.example.org.", Some("www.example.org."), Type::A);
    assert!(zone.validate_record(&record));
}

#[test]
fn scenario_denied_in_uncovered_namespace() {
    // The record carries a valid FQDN beneath the zone; only the namespace
    // fails to be covered.
    let zone = example_zone(vec![wildcard_delegation_for_default()]);
    let record = record_in("not-default", "www.example.org.", Some("www.example.org."), Type::A);
    assert!(!zone.validate_record(&record));
}

#[test]
fn scenario_denied_outside_parent_domain() {
    // The record's FQDN is computed but lies outside the parent zone, so
    // the containment check denies before any delegation is consulted.
    let zone = example_zone(vec![wildcard_delegation_for_default()]);
    let record = record_in("default", "www.test.com.", Some("www.test.com."), Type::A);
    assert!(!zone.validate_record(&record));
}

#[test]
fn type_filter_is_case_insensitive() {
    // The rule lists the kind in lower case; the record's canonical name is
    // upper case. Comparison folds both.
    let zone = example_zone(vec![Delegation {
        namespaces: vec![],
        zones: vec![],
        records: vec![RecordDelegation {
            pattern: String::from("example.org."),
            types: vec![String::from("mx")],
        }],
    }]);
    let allowed = record_in("default", "example.org.", Some("example.org."), Type::MX);
    let denied = record_in("default", "example.org.", Some("example.org."), Type::A);
    assert!(zone.validate_record(&allowed));
    assert!(!zone.validate_record(&denied));
}

#[test]
fn empty_namespace_list_covers_every_namespace() {
    let delegation = Delegation { namespaces: vec![], zones: vec![], records: vec![] };
    assert!(delegation.covers_namespace("default"));
    assert!(delegation.covers_namespace("anything-else"));
    assert!(delegation.covers_namespace(""));
}

#[test]
fn missing_fqdn_denies_record() {
    // Parent zone without a computed FQDN denies everything.
    let zone = Zone {
        spec: ZoneSpec {
            domain_name: DomainName::from("example.org."),
            zone_ref: None,
            delegations: vec![wildcard_delegation_for_default()],
            ..Default::default()
        },
        status: None,
        metadata: ObjectMeta::default(),
    };
    let record = record_in("default", "www.example.org.", Some("www.example.org."), Type::A);
    assert!(!zone.validate_record(&record));

    // Record without a computed FQDN is denied too.
    let zone = example_zone(vec![wildcard_delegation_for_default()]);
    let record = record_in("default", "www.example.org.", None, Type::A);
    assert!(!zone.validate_record(&record));
}

#[test]
fn missing_fqdn_denies_sub_zone() {
    // A parent without a computed FQDN can delegate nothing; a candidate
    // without one can receive nothing.
    let mut parent = parent_zone_with_zone_patterns("uid-parent", vec![String::from("*.@")]);
    let child = sub_zone("uid-child", "default", "sub.example.org.", Some("sub.example.org."));
    parent.status = None;
    assert!(!parent.validate_zone(&child));

    let parent = parent_zone_with_zone_patterns("uid-parent", vec![String::from("*.@")]);
    let unresolved = sub_zone("uid-child", "default", "sub.example.org.", None);
    assert!(!parent.validate_zone(&unresolved));
}

fn sub_zone(uid: &str, namespace: &str, domain: &str, fqdn: Option<&str>) -> Zone {
    Zone {
        metadata: ObjectMeta {
            namespace: Some(String::from(namespace)),
            uid: Some(String::from(uid)),
            ..Default::default()
        },
        spec: ZoneSpec {
            domain_name: DomainName::from(domain),
            zone_ref: None,
            delegations: vec![],
            ..Default::default()
        },
        status: fqdn.map(|f| ZoneStatus {
            fqdn: Some(FullyQualifiedDomainName::try_from(f).unwrap()),
            ..Default::default()
        }),
    }
}

fn parent_zone_with_zone_patterns(uid: &str, patterns: Vec<String>) -> Zone {
    Zone {
        metadata: ObjectMeta {
            uid: Some(String::from(uid)),
            ..Default::default()
        },
        spec: ZoneSpec {
            domain_name: DomainName::from("example.org."),
            zone_ref: None,
            delegations: vec![Delegation {
                namespaces: vec![],
                zones: patterns,
                records: vec![],
            }],
            ..Default::default()
        },
        status: Some(ZoneStatus {
            fqdn: Some(FullyQualifiedDomainName::try_from("example.org.").unwrap()),
            ..Default::default()
        }),
    }
}

#[test]
fn zone_delegation_allows_matching_sub_zone() {
    let parent = parent_zone_with_zone_patterns("uid-parent", vec![String::from("*.example.org.")]);
    let child = sub_zone("uid-child", "default", "sub.example.org.", Some("sub.example.org."));
    assert!(parent.validate_zone(&child));
}

#[test]
fn zone_delegation_without_patterns_denies() {
    // Absence of explicit zone patterns denies all sub-zone delegation.
    let parent = parent_zone_with_zone_patterns("uid-parent", vec![]);
    let child = sub_zone("uid-child", "default", "sub.example.org.", Some("sub.example.org."));
    assert!(!parent.validate_zone(&child));
}

#[test]
fn self_delegation_is_denied() {
    // Even a zone granting everything cannot be validated as its own child.
    let mut parent =
        parent_zone_with_zone_patterns("uid-same", vec![String::from("*"), String::from("@")]);
    parent.spec.delegations[0].namespaces = vec![];
    assert!(!parent.validate_zone(&parent));
}

#[test]
fn distinct_zone_at_same_name_needs_matching_pattern() {
    // A distinct zone resource declared at the parent's own name passes the
    // containment check; whether it is admitted is decided by the zone
    // patterns alone.
    let parent = parent_zone_with_zone_patterns("uid-parent", vec![String::from("@")]);
    let child = sub_zone("uid-child", "default", "example.org.", Some("example.org."));
    assert!(parent.validate_zone(&child));

    let closed = parent_zone_with_zone_patterns("uid-parent", vec![String::from("sub.@")]);
    assert!(!closed.validate_zone(&child));
}

#[test]
fn pattern_placeholder_expands_to_parent_fqdn() {
    // `*.@` becomes `*.example.org.` once the parent zone's FQDN is
    // substituted for `@`.
    let parent = parent_zone_with_zone_patterns("uid-parent", vec![String::from("*.@")]);
    let child = sub_zone("uid-child", "default", "sub.example.org.", Some("sub.example.org."));
    assert!(parent.validate_zone(&child));
    let outsider = sub_zone("uid-other", "default", "sub.other.org.", Some("sub.other.org."));
    assert!(!parent.validate_zone(&outsider));
}

#[test]
fn record_delegation_empty_rule_list_denies() {
    let zone = example_zone(vec![Delegation {
        namespaces: vec![],
        zones: vec![],
        records: vec![],
    }]);
    let record = record_in("default", "www.example.org.", Some("www.example.org."), Type::A);
    assert!(!zone.validate_record(&record));
}
