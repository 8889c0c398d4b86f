use vstd::prelude::*;
use vstd::string::StringExecFns;
use crate::client::{Client, zones_path, zone_path};
use crate::error::{Error, PowerDNSResponseError, response_error, error_response};

verus! {

/// A Zone object represents an authoritative DNS zone. Absent fields are
/// data the server omitted (the list endpoint, for one, leaves out the
/// rrsets); omission is meaningful and is never filled in with defaults.
#[derive(Debug, Clone, PartialEq)]
pub struct Zone {
    /// Opaque zone id, assigned by the server, not to be interpreted by
    /// the application. Guaranteed safe for embedding in URLs.
    pub id: Option<String>,
    /// Name of the zone (e.g. "example.com.") MUST have a trailing dot
    pub name: Option<String>,
    /// Set to "Zone"
    pub type_field: Option<String>,
    /// API endpoint for this zone
    pub url: Option<String>,
    /// Zone kind, one of "Native", "Master", "Slave"
    pub kind: Option<ZoneKind>,
    /// RRSets in this zone (on the single-zone endpoint only; omitted by
    /// the zone list endpoint)
    pub rrsets: Option<Vec<RRSet>>,
    /// The SOA serial number
    pub serial: Option<u32>,
    /// The SOA serial notifications have been sent out for
    pub notified_serial: Option<u32>,
    /// The SOA serial as seen in query responses
    pub edited_serial: Option<u32>,
    /// List of IP addresses configured as a master for this zone
    /// ("Slave" type zones only)
    pub masters: Option<Vec<String>>,
    /// Whether or not this zone is DNSSEC signed
    pub dnssec: Option<bool>,
    /// The NSEC3PARAM record
    pub nsec3param: Option<String>,
    /// Whether or not the zone uses NSEC3 narrow
    pub nsec3narrow: Option<bool>,
    /// Whether or not the zone is pre-signed
    pub presigned: Option<bool>,
    /// The SOA-EDIT metadata item
    pub soa_edit: Option<String>,
    /// The SOA-EDIT-API metadata item
    pub soa_edit_api: Option<String>,
    /// Whether or not the zone will be rectified on data changes via the
    /// API
    pub api_rectify: Option<bool>,
    /// MAY contain a BIND-style zone file when creating a zone
    pub zone: Option<String>,
    /// MAY be set. Its value is defined by local policy
    pub account: Option<String>,
    /// MAY be sent in client bodies during creation, and MUST NOT be sent
    /// by the server. Nameserver names, including the trailing dot. Not
    /// required for slave zones.
    pub nameservers: Option<Vec<String>>,
    /// The id of the TSIG keys used for master operation in this zone
    pub master_tsig_key_ids: Option<Vec<String>>,
    /// The id of the TSIG keys used for slave operation in this zone
    pub slave_tsig_key_ids: Option<Vec<String>>,
}

/// Zone kind, one of "Native", "Master", "Slave".
#[derive(Debug, Clone, PartialEq, Eq, Structural)]
pub enum ZoneKind {
    Native,
    Master,
    Slave,
}

/// The body of a PATCH request: the record sets to apply to a zone.
#[derive(Debug, Clone, PartialEq)]
pub struct PatchZone {
    pub rrsets: Vec<RRSet>,
}

/// A Resource Record Set: all records with the same name and type,
/// together with the changetype that governs how a PATCH applies them.
#[derive(Debug, Clone, PartialEq)]
pub struct RRSet {
    /// Name for record set (e.g. "www.powerdns.com.")
    pub name: String,
    /// Type of this record (e.g. "A", "PTR", "MX")
    pub type_field: String,
    /// DNS TTL of the records, in seconds. MUST NOT be included when
    /// changetype is set to "DELETE".
    pub ttl: u32,
    /// MUST be added when updating the RRSet. Must be REPLACE or DELETE.
    /// With DELETE, all existing RRs matching name and type will be
    /// deleted, including all comments. With REPLACE: when records is
    /// present, all existing RRs matching name and type will be deleted,
    /// and then new records given in records will be created. If no
    /// records are left, any existing comments will be deleted as well.
    /// When comments is present, all existing comments for the RRs
    /// matching name and type will be deleted, and then new comments
    /// given in comments will be created.
    pub changetype: Option<String>,
    /// All records in this RRSet. When updating, this is the list of new
    /// records (replacing the old ones). Must be empty when changetype is
    /// set to DELETE. An empty list results in deletion of all records
    /// (and comments).
    pub records: Vec<Record>,
    /// List of Comment. Must be empty when changetype is set to DELETE.
    /// An empty list results in deletion of all comments.
    pub comments: Option<Vec<Comment>>,
}

/// A single record of an RRSet.
#[derive(Debug, Clone, PartialEq)]
pub struct Record {
    /// The content of this record
    pub content: String,
    /// Whether or not this record is disabled. When unset, the record is
    /// not disabled
    pub disabled: Option<bool>,
}

/// A comment about an RRSet.
#[derive(Debug, Clone, PartialEq)]
pub struct Comment {
    /// The actual comment
    pub content: String,
    /// Name of an account that added the comment
    pub account: String,
    /// Timestamp of the last change to the comment
    pub modified_at: u32,
}

/// What the domain parser says of a string: `None` when it is not a
/// well-formed domain name at all, `Some(k)` when it is, where `k` says
/// whether its public suffix is a recognized one.
pub uninterp spec fn domain_classification(s: Seq<char>) -> Option<bool>;

/// A character that may stand verbatim in a URL path segment built from
/// a domain name: ASCII letters and digits, '-', '.', or a character
/// outside ASCII.
pub open spec fn path_safe_char(c: char) -> bool {
    ||| (97 <= c as u32 && c as u32 <= 122)  // 'a' ..= 'z'
    ||| (65 <= c as u32 && c as u32 <= 90)  // 'A' ..= 'Z'
    ||| (48 <= c as u32 && c as u32 <= 57)  // '0' ..= '9'
    ||| c == '-'
    ||| c == '.'
    ||| c as u32 > 127
}

pub open spec fn path_safe(s: Seq<char>) -> bool {
    forall|i: int| 0 <= i < s.len() ==> path_safe_char(#[trigger] s[i])
}

/// Relies on addr::parse_domain_name, which returns Ok exactly when the
/// input is a well-formed domain name (labels of ASCII alphanumerics,
/// '-' and non-ASCII characters, separated by dots, at most one of them
/// trailing), and on addr::domain::Name::has_known_suffix, which says
/// whether the name's public suffix is in the public-suffix list. Both
/// depend on the input characters alone.
#[verifier::external_body]
fn parse_domain(domain: &str) -> (r: Option<bool>)
    ensures
        r == domain_classification(domain@),
        r is Some ==> path_safe(domain@),
{
    match addr::parse_domain_name(domain) {
        Ok(name) => Some(name.has_known_suffix()),
        Err(_) => None,
    }
}

/// The canonical, fully-qualified form of a domain name: the name itself
/// if it already ends with a dot, else the name with a trailing dot
/// appended.
pub open spec fn canonical_domain(s: Seq<char>) -> Seq<char> {
    if s.len() > 0 && s.last() == '.' {
        s
    } else {
        s + "."@
    }
}

/// When canonicalization succeeds: the input must be a well-formed domain
/// name with a recognized public suffix, and so must its canonical form.
pub open spec fn canonicalize_ok(s: Seq<char>) -> bool {
    &&& domain_classification(s) == Some(true)
    &&& domain_classification(canonical_domain(s)) == Some(true)
}

/// Ensure a domain is canonical and has a recognized public suffix.
///
/// The result is used verbatim as a URL path segment, so success also
/// guarantees that every character of it is safe there.
pub fn canonicalize_domain(domain: &str) -> (r: Result<String, Error>)
    ensures
        r is Ok <==> canonicalize_ok(domain@),
        r matches Ok(c) ==> c@ == canonical_domain(domain@) && path_safe(c@),
        r matches Err(e) ==> e == Error::InvalidDomain,
{
    match parse_domain(domain) {
        Some(true) => {
            let n: usize = domain.unicode_len();
            if n > 0 && domain.get_char(n - 1) == '.' {
                Ok(domain.to_owned())
            } else {
                let mut canonical = String::from_str(domain);
                canonical.append(".");
                match parse_domain(canonical.as_str()) {
                    Some(true) => Ok(canonical),
                    _ => Err(Error::InvalidDomain),
                }
            }
        }
        _ => Err(Error::InvalidDomain),
    }
}

/// A canonical domain is fully qualified: it is never empty and always
/// ends with the trailing dot.
pub proof fn lemma_canonical_domain_fully_qualified(s: Seq<char>)
    ensures
        canonical_domain(s).len() > 0,
        canonical_domain(s).last() == '.',
{
    reveal_strlit(".");
    let c = canonical_domain(s);
    if !(s.len() > 0 && s.last() == '.') {
        assert(c == s + "."@);
        assert(c.last() == c[s.len() as int]);
        assert(c.last() == '.');
    }
}

/// Canonicalization is idempotent: the canonical form of a canonical
/// form is itself, and a name whose canonicalization succeeds has a
/// canonical form whose own canonicalization succeeds too.
pub proof fn lemma_canonicalize_idempotent(s: Seq<char>)
    ensures
        canonical_domain(canonical_domain(s)) == canonical_domain(s),
        canonicalize_ok(s) ==> canonicalize_ok(canonical_domain(s)),
{
    lemma_canonical_domain_fully_qualified(s);
    assert(canonical_domain(canonical_domain(s)) == canonical_domain(s));
}

/// The documented status table for PATCH and DELETE: 400, 404, 422 and
/// 500 carry a structured error body; no other error status does.
pub open spec fn is_known_error_status(status: u16) -> bool {
    status == 400 || status == 404 || status == 422 || status == 500
}

/// The status-code dispatch for a PATCH response: 204 is success
/// regardless of the body; a known error status carries a structured
/// error body, mapped as [`response_error`] says; any other status is
/// surfaced as unexpected, carrying the raw code.
pub fn patch_response(status: u16, error_body: Result<PowerDNSResponseError, String>) -> (r: Result<
    (),
    Error,
>)
    ensures
        status == 204 ==> r == Ok::<(), Error>(()),
        is_known_error_status(status) ==> r == Err::<(), Error>(response_error(error_body)),
        status != 204 && !is_known_error_status(status) ==> r == Err::<(), Error>(
            Error::UnexpectedStatusCode(status),
        ),
{
    match status {
        204 => Ok(()),
        400 | 404 | 422 | 500 => Err(error_response(error_body)),
        _ => Err(Error::UnexpectedStatusCode(status)),
    }
}

/// The status-code dispatch for a DELETE response: any success status is
/// no-content success; anything else carries the server's error body,
/// mapped as [`response_error`] says.
pub fn delete_response(status: u16, error_body: Result<PowerDNSResponseError, String>) -> (r:
    Result<(), Error>)
    ensures
        200 <= status && status < 300 ==> r == Ok::<(), Error>(()),
        !(200 <= status && status < 300) ==> r == Err::<(), Error>(response_error(error_body)),
{
    if 200 <= status && status < 300 {
        Ok(())
    } else {
        Err(error_response(error_body))
    }
}

/// Lists, fetches, deletes and patches the zones of the configured
/// server.
pub struct ZoneClient<'a> {
    pub api_client: &'a Client,
}

impl<'a> ZoneClient<'a> {
    pub fn new(api_client: &'a Client) -> (r: Self)
        ensures
            r.api_client == api_client,
    {
        ZoneClient { api_client }
    }

    /// The URL that lists all zones of the configured server.
    pub fn list_url(&self) -> (url: String)
        ensures
            url@ == zones_path(self.api_client.base_url@, self.api_client.server_name@),
    {
        let url = self.api_client.base_url.clone();
        let url = url.concat("/api/v1/servers");
        let url = url.concat("/");
        let url = url.concat(self.api_client.server_name.as_str());
        let url = url.concat("/zones");
        proof {
            assert(url@ =~= zones_path(self.api_client.base_url@, self.api_client.server_name@));
        }
        url
    }

    /// The URL of the zone `zone_id`, used verbatim: the caller passes a
    /// canonical zone id, or for PATCH the id as given.
    pub fn zone_url(&self, zone_id: &str) -> (url: String)
        ensures
            url@ == zone_path(
                self.api_client.base_url@,
                self.api_client.server_name@,
                zone_id@,
            ),
    {
        let url = self.list_url();
        let url = url.concat("/");
        let url = url.concat(zone_id);
        proof {
            assert(url@ =~= zone_path(
                self.api_client.base_url@,
                self.api_client.server_name@,
                zone_id@,
            ));
        }
        url
    }

    /// The URL a GET or DELETE of the zone `zone_id` addresses:
    /// canonicalizes the zone name first, and rejects it as
    /// [`Error::InvalidDomain`] if it is not a validly-suffixed domain.
    pub fn zone_request_url(&self, zone_id: &str) -> (r: Result<String, Error>)
        ensures
            r is Ok <==> canonicalize_ok(zone_id@),
            r matches Ok(url) ==> url@ == zone_path(
                self.api_client.base_url@,
                self.api_client.server_name@,
                canonical_domain(zone_id@),
            ),
            r matches Err(e) ==> e == Error::InvalidDomain,
    {
        match canonicalize_domain(zone_id) {
            Ok(canonical) => Ok(self.zone_url(canonical.as_str())),
            Err(e) => Err(e),
        }
    }
}

} // verus!
