//! The record resource: its enumerated DNS resource-record kind and class,
//! its declared data, and its externally computed status.

use vstd::prelude::*;

use crate::domain::{DomainName, FullyQualifiedDomainName};
use crate::meta::ObjectMeta;
use crate::zone_ref::ZoneRef;

verus! {

/// The DNS resource-record kinds the engine knows. The kind set is closed:
/// the rule set's type filter is safety-critical and profits from
/// exhaustiveness checking.
#[derive(Clone, Copy, Debug, PartialEq, Eq, Structural)]
pub enum Type {
    A,
    AAAA,
    AFSDB,
    APL,
    CAA,
    CDNSKEY,
    CDS,
    CERT,
    CNAME,
    CSYNC,
    DHCID,
    DLV,
    DNAME,
    DNSKEY,
    DS,
    EUI48,
    EUI64,
    HINFO,
    HIP,
    HTTPS,
    IPSECKEY,
    KEY,
    KX,
    LOC,
    MX,
    NAPTR,
    NS,
    NSEC,
    NSEC3,
    NSEC3PARAM,
    OPENPGPKEY,
    PTR,
    RRSIG,
    RP,
    SIG,
    SMIMEA,
    SOA,
    SRV,
    SSHFP,
    SVCB,
    TA,
    TKEY,
    TLSA,
    TSIG,
    TXT,
    URI,
    ZONEMD,
}

impl Type {
    /// The canonical (upper-case) name of the record kind.
    pub open spec fn spec_name(self) -> Seq<char> {
        match self {
            Type::A => "A"@,
            Type::AAAA => "AAAA"@,
            Type::AFSDB => "AFSDB"@,
            Type::APL => "APL"@,
            Type::CAA => "CAA"@,
            Type::CDNSKEY => "CDNSKEY"@,
            Type::CDS => "CDS"@,
            Type::CERT => "CERT"@,
            Type::CNAME => "CNAME"@,
            Type::CSYNC => "CSYNC"@,
            Type::DHCID => "DHCID"@,
            Type::DLV => "DLV"@,
            Type::DNAME => "DNAME"@,
            Type::DNSKEY => "DNSKEY"@,
            Type::DS => "DS"@,
            Type::EUI48 => "EUI48"@,
            Type::EUI64 => "EUI64"@,
            Type::HINFO => "HINFO"@,
            Type::HIP => "HIP"@,
            Type::HTTPS => "HTTPS"@,
            Type::IPSECKEY => "IPSECKEY"@,
            Type::KEY => "KEY"@,
            Type::KX => "KX"@,
            Type::LOC => "LOC"@,
            Type::MX => "MX"@,
            Type::NAPTR => "NAPTR"@,
            Type::NS => "NS"@,
            Type::NSEC => "NSEC"@,
            Type::NSEC3 => "NSEC3"@,
            Type::NSEC3PARAM => "NSEC3PARAM"@,
            Type::OPENPGPKEY => "OPENPGPKEY"@,
            Type::PTR => "PTR"@,
            Type::RRSIG => "RRSIG"@,
            Type::RP => "RP"@,
            Type::SIG => "SIG"@,
            Type::SMIMEA => "SMIMEA"@,
            Type::SOA => "SOA"@,
            Type::SRV => "SRV"@,
            Type::SSHFP => "SSHFP"@,
            Type::SVCB => "SVCB"@,
            Type::TA => "TA"@,
            Type::TKEY => "TKEY"@,
            Type::TLSA => "TLSA"@,
            Type::TSIG => "TSIG"@,
            Type::TXT => "TXT"@,
            Type::URI => "URI"@,
            Type::ZONEMD => "ZONEMD"@,
        }
    }

    /// The canonical (upper-case) name of the record kind.
    pub fn as_str(&self) -> (r: &'static str)
        ensures
            r@ == self.spec_name(),
    {
        match self {
            Type::A => "A",
            Type::AAAA => "AAAA",
            Type::AFSDB => "AFSDB",
            Type::APL => "APL",
            Type::CAA => "CAA",
            Type::CDNSKEY => "CDNSKEY",
            Type::CDS => "CDS",
            Type::CERT => "CERT",
            Type::CNAME => "CNAME",
            Type::CSYNC => "CSYNC",
            Type::DHCID => "DHCID",
            Type::DLV => "DLV",
            Type::DNAME => "DNAME",
            Type::DNSKEY => "DNSKEY",
            Type::DS => "DS",
            Type::EUI48 => "EUI48",
            Type::EUI64 => "EUI64",
            Type::HINFO => "HINFO",
            Type::HIP => "HIP",
            Type::HTTPS => "HTTPS",
            Type::IPSECKEY => "IPSECKEY",
            Type::KEY => "KEY",
            Type::KX => "KX",
            Type::LOC => "LOC",
            Type::MX => "MX",
            Type::NAPTR => "NAPTR",
            Type::NS => "NS",
            Type::NSEC => "NSEC",
            Type::NSEC3 => "NSEC3",
            Type::NSEC3PARAM => "NSEC3PARAM",
            Type::OPENPGPKEY => "OPENPGPKEY",
            Type::PTR => "PTR",
            Type::RRSIG => "RRSIG",
            Type::RP => "RP",
            Type::SIG => "SIG",
            Type::SMIMEA => "SMIMEA",
            Type::SOA => "SOA",
            Type::SRV => "SRV",
            Type::SSHFP => "SSHFP",
            Type::SVCB => "SVCB",
            Type::TA => "TA",
            Type::TKEY => "TKEY",
            Type::TLSA => "TLSA",
            Type::TSIG => "TSIG",
            Type::TXT => "TXT",
            Type::URI => "URI",
            Type::ZONEMD => "ZONEMD",
        }
    }
}

/// The DNS resource classes.
#[derive(Clone, Copy, Debug, PartialEq, Eq, Structural)]
pub enum Class {
    /// Internet.
    IN,
    /// Chaos.
    CH,
    /// Hesiod.
    HS,
}

impl Class {
    /// The canonical name of the class.
    pub fn as_str(&self) -> (r: &'static str)
        ensures
            self is IN ==> r@ == "IN"@,
            self is CH ==> r@ == "CH"@,
            self is HS ==> r@ == "HS"@,
    {
        match self {
            Class::IN => "IN",
            Class::CH => "CH",
            Class::HS => "HS",
        }
    }
}

impl Default for Class {
    /// The class a record carries when none is written: Internet.
    fn default() -> (c: Class)
        ensures
            c == Class::IN,
    {
        Class::IN
    }
}

/// The class a record carries when none is written: Internet.
pub fn class() -> (c: Class)
    ensures
        c == Class::IN,
{
    Class::IN
}

/// The declared shape of a record: its domain name, an optional reference
/// to the parent zone, its kind, class, time-to-live and record data.
pub struct RecordSpec {
    pub domain_name: DomainName,
    pub zone_ref: Option<ZoneRef>,
    pub type_: Type,
    pub class: Class,
    pub ttl: Option<u32>,
    pub rdata: String,
}

/// Externally computed attributes of a record: its fully qualified domain
/// name, once the reconciliation layer has resolved it.
pub struct RecordStatus {
    pub fqdn: Option<FullyQualifiedDomainName>,
}

/// A DNS resource record resource: metadata, declared spec, and computed
/// status.
pub struct Record {
    pub metadata: ObjectMeta,
    pub spec: RecordSpec,
    pub status: Option<RecordStatus>,
}

impl Record {
    /// The computed fully qualified domain name, when the status carries
    /// one.
    pub open spec fn spec_fqdn(self) -> Option<FullyQualifiedDomainName> {
        match self.status {
            Some(status) => status.fqdn,
            None => None,
        }
    }

    /// Fetch the computed FQDN from this record, if one has been set.
    pub fn fqdn(&self) -> (r: Option<&FullyQualifiedDomainName>)
        ensures
            match r {
                Some(f) => self.spec_fqdn() == Some(*f),
                None => self.spec_fqdn() is None,
            },
    {
        match &self.status {
            Some(status) => status.fqdn.as_ref(),
            None => None,
        }
    }

    /// The namespace this record lives in, if one is set.
    pub fn namespace(&self) -> (r: Option<String>)
        ensures
            r == self.metadata.namespace,
    {
        match &self.metadata.namespace {
            Some(ns) => Some(ns.clone()),
            None => None,
        }
    }
}

impl RecordSpec {
    pub fn is_internet(&self) -> (r: bool)
        ensures
            r == (self.class == Class::IN),
    {
        self.class == Class::IN
    }

    pub fn is_chaos(&self) -> (r: bool)
        ensures
            r == (self.class == Class::CH),
    {
        self.class == Class::CH
    }

    pub fn is_hesiod(&self) -> (r: bool)
        ensures
            r == (self.class == Class::HS),
    {
        self.class == Class::HS
    }

    pub fn is_a(&self) -> (r: bool)
        ensures
            r == (self.type_ == Type::A),
    {
        self.type_ == Type::A
    }

    pub fn is_aaaa(&self) -> (r: bool)
        ensures
            r == (self.type_ == Type::AAAA),
    {
        self.type_ == Type::AAAA
    }

    pub fn is_afsdb(&self) -> (r: bool)
        ensures
            r == (self.type_ == Type::AFSDB),
    {
        self.type_ == Type::AFSDB
    }

    pub fn is_apl(&self) -> (r: bool)
        ensures
            r == (self.type_ == Type::APL),
    {
        self.type_ == Type::APL
    }

    pub fn is_caa(&self) -> (r: bool)
        ensures
            r == (self.type_ == Type::CAA),
    {
        self.type_ == Type::CAA
    }

    pub fn is_cdnskey(&self) -> (r: bool)
        ensures
            r == (self.type_ == Type::CDNSKEY),
    {
        self.type_ == Type::CDNSKEY
    }

    pub fn is_cds(&self) -> (r: bool)
        ensures
            r == (self.type_ == Type::CDS),
    {
        self.type_ == Type::CDS
    }

    pub fn is_cert(&self) -> (r: bool)
        ensures
            r == (self.type_ == Type::CERT),
    {
        self.type_ == Type::CERT
    }

    pub fn is_cname(&self) -> (r: bool)
        ensures
            r == (self.type_ == Type::CNAME),
    {
        self.type_ == Type::CNAME
    }

    pub fn is_csync(&self) -> (r: bool)
        ensures
            r == (self.type_ == Type::CSYNC),
    {
        self.type_ == Type::CSYNC
    }

    pub fn is_dhcid(&self) -> (r: bool)
        ensures
            r == (self.type_ == Type::DHCID),
    {
        self.type_ == Type::DHCID
    }

    pub fn is_dlv(&self) -> (r: bool)
        ensures
            r == (self.type_ == Type::DLV),
    {
        self.type_ == Type::DLV
    }

    pub fn is_dname(&self) -> (r: bool)
        ensures
            r == (self.type_ == Type::DNAME),
    {
        self.type_ == Type::DNAME
    }

    pub fn is_dnskey(&self) -> (r: bool)
        ensures
            r == (self.type_ == Type::DNSKEY),
    {
        self.type_ == Type::DNSKEY
    }

    pub fn is_ds(&self) -> (r: bool)
        ensures
            r == (self.type_ == Type::DS),
    {
        self.type_ == Type::DS
    }

    pub fn is_eui48(&self) -> (r: bool)
        ensures
            r == (self.type_ == Type::EUI48),
    {
        self.type_ == Type::EUI48
    }

    pub fn is_eui64(&self) -> (r: bool)
        ensures
            r == (self.type_ == Type::EUI64),
    {
        self.type_ == Type::EUI64
    }

    pub fn is_hinfo(&self) -> (r: bool)
        ensures
            r == (self.type_ == Type::HINFO),
    {
        self.type_ == Type::HINFO
    }

    pub fn is_hip(&self) -> (r: bool)
        ensures
            r == (self.type_ == Type::HIP),
    {
        self.type_ == Type::HIP
    }

    pub fn is_https(&self) -> (r: bool)
        ensures
            r == (self.type_ == Type::HTTPS),
    {
        self.type_ == Type::HTTPS
    }

    pub fn is_ipseckey(&self) -> (r: bool)
        ensures
            r == (self.type_ == Type::IPSECKEY),
    {
        self.type_ == Type::IPSECKEY
    }

    pub fn is_key(&self) -> (r: bool)
        ensures
            r == (self.type_ == Type::KEY),
    {
        self.type_ == Type::KEY
    }

    pub fn is_kx(&self) -> (r: bool)
        ensures
            r == (self.type_ == Type::KX),
    {
        self.type_ == Type::KX
    }

    pub fn is_loc(&self) -> (r: bool)
        ensures
            r == (self.type_ == Type::LOC),
    {
        self.type_ == Type::LOC
    }

    pub fn is_mx(&self) -> (r: bool)
        ensures
            r == (self.type_ == Type::MX),
    {
        self.type_ == Type::MX
    }

    pub fn is_naptr(&self) -> (r: bool)
        ensures
            r == (self.type_ == Type::NAPTR),
    {
        self.type_ == Type::NAPTR
    }

    pub fn is_ns(&self) -> (r: bool)
        ensures
            r == (self.type_ == Type::NS),
    {
        self.type_ == Type::NS
    }

    pub fn is_nsec(&self) -> (r: bool)
        ensures
            r == (self.type_ == Type::NSEC),
    {
        self.type_ == Type::NSEC
    }

    pub fn is_nsec3(&self) -> (r: bool)
        ensures
            r == (self.type_ == Type::NSEC3),
    {
        self.type_ == Type::NSEC3
    }

    pub fn is_nsec3param(&self) -> (r: bool)
        ensures
            r == (self.type_ == Type::NSEC3PARAM),
    {
        self.type_ == Type::NSEC3PARAM
    }

    pub fn is_openpgpkey(&self) -> (r: bool)
        ensures
            r == (self.type_ == Type::OPENPGPKEY),
    {
        self.type_ == Type::OPENPGPKEY
    }

    pub fn is_ptr(&self) -> (r: bool)
        ensures
            r == (self.type_ == Type::PTR),
    {
        self.type_ == Type::PTR
    }

    pub fn is_rrsig(&self) -> (r: bool)
        ensures
            r == (self.type_ == Type::RRSIG),
    {
        self.type_ == Type::RRSIG
    }

    pub fn is_rp(&self) -> (r: bool)
        ensures
            r == (self.type_ == Type::RP),
    {
        self.type_ == Type::RP
    }

    pub fn is_sig(&self) -> (r: bool)
        ensures
            r == (self.type_ == Type::SIG),
    {
        self.type_ == Type::SIG
    }

    pub fn is_smimea(&self) -> (r: bool)
        ensures
            r == (self.type_ == Type::SMIMEA),
    {
        self.type_ == Type::SMIMEA
    }

    pub fn is_soa(&self) -> (r: bool)
        ensures
            r == (self.type_ == Type::SOA),
    {
        self.type_ == Type::SOA
    }

    pub fn is_srv(&self) -> (r: bool)
        ensures
            r == (self.type_ == Type::SRV),
    {
        self.type_ == Type::SRV
    }

    pub fn is_sshfp(&self) -> (r: bool)
        ensures
            r == (self.type_ == Type::SSHFP),
    {
        self.type_ == Type::SSHFP
    }

    pub fn is_svcb(&self) -> (r: bool)
        ensures
            r == (self.type_ == Type::SVCB),
    {
        self.type_ == Type::SVCB
    }

    pub fn is_ta(&self) -> (r: bool)
        ensures
            r == (self.type_ == Type::TA),
    {
        self.type_ == Type::TA
    }

    pub fn is_tkey(&self) -> (r: bool)
        ensures
            r == (self.type_ == Type::TKEY),
    {
        self.type_ == Type::TKEY
    }

    pub fn is_tlsa(&self) -> (r: bool)
        ensures
            r == (self.type_ == Type::TLSA),
    {
        self.type_ == Type::TLSA
    }

    pub fn is_tsig(&self) -> (r: bool)
        ensures
            r == (self.type_ == Type::TSIG),
    {
        self.type_ == Type::TSIG
    }

    pub fn is_txt(&self) -> (r: bool)
        ensures
            r == (self.type_ == Type::TXT),
    {
        self.type_ == Type::TXT
    }

    pub fn is_uri(&self) -> (r: bool)
        ensures
            r == (self.type_ == Type::URI),
    {
        self.type_ == Type::URI
    }

    pub fn is_zonemd(&self) -> (r: bool)
        ensures
            r == (self.type_ == Type::ZONEMD),
    {
        self.type_ == Type::ZONEMD
    }

}

} // verus!
