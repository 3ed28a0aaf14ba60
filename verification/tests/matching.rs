use kubizone_crds::{
    domain_matches_pattern, expire, negative_response_cache, refresh, retry, ttl, Class,
    DomainExt, DomainName, FqdnError, FullyQualifiedDomainName, ObjectMeta, RecordDelegation,
    Type, Zone, ZoneRef, ZoneSpec, ZoneStatus, EXPIRE, NEGATIVE_RESPONSE_CACHE, PARENT_ZONE_LABEL,
    REFRESH, RETRY, TTL,
};

fn matches(pattern: &str, domain: &str) -> bool {
    domain_matches_pattern(pattern, &DomainName::from(domain))
}

#[test]
fn exact_literal_domain_matches_itself() {
    assert!(matches("example.org.", "example.org."));
    assert!(matches("www.example.org.", "www.example.org."));
    assert!(matches("a.b.c.d.e.", "a.b.c.d.e."));
    assert!(matches("", ""));
}

#[test]
fn leading_bare_wildcard_absorbs_extra_labels() {
    assert!(matches("*.example.org.", "www.test.example.org."));
    assert!(matches("*.example.org.", "www.example.org."));
    assert!(matches("*.example.org.", "a.b.c.d.example.org."));
}

#[test]
fn segment_count_mismatch_without_leading_wildcard_denies() {
    assert!(!matches("example.org.", "www.example.org."));
    assert!(!matches("www.example.org.", "example.org."));
}

#[test]
fn partial_wildcard_stays_within_its_label() {
    // A partial wildcard does not absorb extra labels...
    assert!(!matches("env-*.example.org.", "www.env-dev.example.org."));
    // ...but a leading bare wildcard beside it does.
    assert!(matches("*.env-*.example.org.", "www.env-dev.example.org."));
    // Within its own label it matches by prefix and suffix.
    assert!(matches("env-*.example.org.", "env-dev.example.org."));
    assert!(!matches("env-*.example.org.", "dev-env.example.org."));
}

#[test]
fn interior_wildcard_matches_one_label_only() {
    assert!(matches("www.*.example.org.", "www.test.example.org."));
    assert!(!matches("www.*.example.org.", "www.subdomain.test.example.org."));
}

#[test]
fn wildcard_prefix_and_suffix_both_bind() {
    assert!(matches("env-*-prod.example.org.", "env-eu-prod.example.org."));
    assert!(!matches("env-*-prod.example.org.", "env-eu-dev.example.org."));
}

#[test]
fn fqdn_requires_trailing_root_dot() {
    assert!(FullyQualifiedDomainName::try_from("example.org.").is_ok());
    assert!(FullyQualifiedDomainName::try_from(".").is_ok());
    assert_eq!(
        FullyQualifiedDomainName::try_from("example.org").unwrap_err(),
        FqdnError::NotFullyQualified
    );
    assert_eq!(
        FullyQualifiedDomainName::try_from("").unwrap_err(),
        FqdnError::NotFullyQualified
    );
}

#[test]
fn subdomain_relation_contains_the_apex() {
    let parent = FullyQualifiedDomainName::try_from("example.org.").unwrap();
    let child = FullyQualifiedDomainName::try_from("www.example.org.").unwrap();
    let deeper = FullyQualifiedDomainName::try_from("a.b.www.example.org.").unwrap();
    assert!(child.is_subdomain_of(&parent));
    assert!(deeper.is_subdomain_of(&parent));
    // A name lies beneath itself: records may sit at the zone apex.
    assert!(parent.is_subdomain_of(&parent));
    assert!(!parent.is_subdomain_of(&child));
    assert!(!child.is_subdomain_of(&deeper));
}

#[test]
fn subdomain_requires_label_boundary() {
    // The child must end with the parent's labels, not merely with its
    // text.
    let parent = FullyQualifiedDomainName::try_from("example.org.").unwrap();
    let lookalike = FullyQualifiedDomainName::try_from("wexample.org.").unwrap();
    assert!(!lookalike.is_subdomain_of(&parent));
}

#[test]
fn zone_ref_label_round_trip() {
    let with_namespace = ZoneRef {
        name: String::from("example"),
        namespace: Some(String::from("default")),
    };
    assert_eq!(with_namespace.as_label(), "example.default");

    let bare = ZoneRef { name: String::from("example"), namespace: None };
    assert_eq!(bare.as_label(), "example");

    let parsed = ZoneRef::from("example.default");
    assert_eq!(parsed.name, "example");
    assert_eq!(parsed.namespace.as_deref(), Some("default"));

    let parsed_bare = ZoneRef::from("example");
    assert_eq!(parsed_bare.name, "example");
    assert!(parsed_bare.namespace.is_none());
}

#[test]
fn record_rule_validates_pattern_and_kind() {
    let fqdn = FullyQualifiedDomainName::try_from("example.org.").unwrap();
    let rule = RecordDelegation {
        pattern: String::from("@"),
        types: vec![String::from("MX"), String::from("a")],
    };
    assert!(rule.validate(&fqdn, "MX", &DomainName::from("example.org.")));
    assert!(rule.validate(&fqdn, "mx", &DomainName::from("example.org.")));
    assert!(rule.validate(&fqdn, "A", &DomainName::from("example.org.")));
    assert!(!rule.validate(&fqdn, "TXT", &DomainName::from("example.org.")));
    assert!(!rule.validate(&fqdn, "MX", &DomainName::from("www.example.org.")));
}

#[test]
fn default_timing_values() {
    assert_eq!(refresh(), REFRESH);
    assert_eq!(ttl(), TTL);
    assert_eq!(retry(), RETRY);
    assert_eq!(expire(), EXPIRE);
    assert_eq!(negative_response_cache(), NEGATIVE_RESPONSE_CACHE);
    assert_eq!(REFRESH, 86400);
    assert_eq!(TTL, 360);
    assert_eq!(RETRY, 7200);
    assert_eq!(EXPIRE, 3600000);
    assert_eq!(NEGATIVE_RESPONSE_CACHE, 360);
}

#[test]
fn record_kind_and_class_names() {
    assert_eq!(Type::A.as_str(), "A");
    assert_eq!(Type::MX.as_str(), "MX");
    assert_eq!(Type::NSEC3PARAM.as_str(), "NSEC3PARAM");
    assert_eq!(Class::IN.as_str(), "IN");
    assert_eq!(Class::default(), Class::IN);
    assert_eq!(kubizone_crds::class(), Class::IN);
}

fn zone_with_status(status: Option<ZoneStatus>) -> Zone {
    Zone {
        metadata: ObjectMeta {
            name: Some(String::from("example")),
            namespace: Some(String::from("default")),
            ..Default::default()
        },
        spec: ZoneSpec {
            domain_name: DomainName::from("example.org."),
            ..Default::default()
        },
        status,
    }
}

#[test]
fn zone_status_getters() {
    let zone = zone_with_status(Some(ZoneStatus {
        fqdn: Some(FullyQualifiedDomainName::try_from("example.org.").unwrap()),
        hash: Some(String::from("abc123")),
        serial: Some(2024010101),
        ..Default::default()
    }));
    assert_eq!(zone.fqdn().unwrap().as_str(), "example.org.");
    assert_eq!(zone.hash(), Some("abc123"));
    assert_eq!(zone.serial(), Some(2024010101));

    let bare = zone_with_status(None);
    assert!(bare.fqdn().is_none());
    assert!(bare.hash().is_none());
    assert!(bare.serial().is_none());
}

#[test]
fn zone_ref_points_back_to_zone() {
    let zone = zone_with_status(None);
    let zone_ref = zone.zone_ref();
    assert_eq!(zone_ref.name, "example");
    assert_eq!(zone_ref.namespace.as_deref(), Some("default"));
    assert_eq!(zone_ref.as_label(), "example.default");
}

#[test]
fn parent_label_parses_to_zone_ref() {
    let mut zone = zone_with_status(None);
    assert!(DomainExt::parent(&zone).is_none());
    zone.metadata.labels =
        vec![(String::from(PARENT_ZONE_LABEL), String::from("parent.other-namespace"))];
    let parent = DomainExt::parent(&zone).unwrap();
    assert_eq!(parent.name, "parent");
    assert_eq!(parent.namespace.as_deref(), Some("other-namespace"));
}
