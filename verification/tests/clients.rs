use powerdns::zones::{Comment, PatchZone, Record, RRSet, ZoneKind};
use powerdns::Client;
use powerdns::Error;

#[test]
fn build_client_keeps_configuration() {
    let client = Client::new("http://localhost:8081", "localhost", "api-key");
    assert_eq!(client.base_url, "http://localhost:8081");
    assert_eq!(client.server_name, "localhost");
    assert_eq!(client.api_token, "api-key");
}

#[test]
fn server_urls() {
    let client = Client::new("http://localhost:8081", "localhost", "key");
    let server_client = client.server();
    assert_eq!(server_client.list_url(), "http://localhost:8081/api/v1/servers");
    assert_eq!(server_client.get_url("localhost"), "http://localhost:8081/api/v1/servers/localhost");
}

#[test]
fn zone_urls() {
    let client = Client::new("http://localhost:8081", "localhost", "key");
    let zone_client = client.zone();
    assert_eq!(zone_client.list_url(), "http://localhost:8081/api/v1/servers/localhost/zones");
    assert_eq!(
        zone_client.zone_url("powerdns.com."),
        "http://localhost:8081/api/v1/servers/localhost/zones/powerdns.com."
    );
}

#[test]
fn zone_request_url_canonicalizes_first() {
    let client = Client::new("http://localhost:8081", "localhost", "key");
    let zone_client = client.zone();
    assert_eq!(
        zone_client.zone_request_url("powerdns.com").unwrap(),
        "http://localhost:8081/api/v1/servers/localhost/zones/powerdns.com."
    );
    assert_eq!(zone_client.zone_request_url("invalidtld.zzzzz"), Err(Error::InvalidDomain));
}

#[test]
fn patch_body_values() {
    let body = PatchZone {
        rrsets: vec![RRSet {
            name: "www.powerdns.com.".to_string(),
            type_field: "A".to_string(),
            ttl: 3600,
            changetype: Some("REPLACE".to_string()),
            records: vec![Record { content: "192.0.2.1".to_string(), disabled: Some(false) }],
            comments: Some(vec![Comment {
                content: "updated".to_string(),
                account: "admin".to_string(),
                modified_at: 1700000000,
            }]),
        }],
    };
    assert_eq!(body.rrsets.len(), 1);
    assert_eq!(body.rrsets[0].records[0].content, "192.0.2.1");
    assert_eq!(ZoneKind::Native, ZoneKind::Native);
    assert_ne!(ZoneKind::Master, ZoneKind::Slave);
}
