use powerdns::error::Error;
use powerdns::zones::canonicalize_domain;

#[test]
fn already_canonical() {
    let root = canonicalize_domain("powerdns.com.").unwrap();
    assert_eq!(root, "powerdns.com.")
}

#[test]
fn not_yet_canonical() {
    let root = canonicalize_domain("powerdns.com").unwrap();
    assert_eq!(root, "powerdns.com.")
}

#[test]
fn not_top_level() {
    let root = canonicalize_domain("doc.powerdns.com").unwrap();
    assert_eq!(root, "doc.powerdns.com.")
}

#[test]
fn example_domains() {
    assert_eq!(canonicalize_domain("example.com").unwrap(), "example.com.");
    assert_eq!(canonicalize_domain("example.com.").unwrap(), "example.com.");
    assert_eq!(canonicalize_domain("sub.example.com").unwrap(), "sub.example.com.");
}

#[test]
fn canonicalize_twice_is_canonicalize_once() {
    for input in ["example.com", "example.com.", "sub.example.com", "powerdns.com"] {
        let once = canonicalize_domain(input).unwrap();
        let twice = canonicalize_domain(once.as_str()).unwrap();
        assert_eq!(twice, once);
    }
}

#[test]
fn unknown_suffix_rejected() {
    let r = canonicalize_domain("invalidtld.zzzzz");
    assert_eq!(r, Err(Error::InvalidDomain));
}

#[test]
fn malformed_name_rejected() {
    assert_eq!(canonicalize_domain(""), Err(Error::InvalidDomain));
    assert_eq!(canonicalize_domain("exa mple.com"), Err(Error::InvalidDomain));
    assert_eq!(canonicalize_domain("bad..example.com"), Err(Error::InvalidDomain));
    assert_eq!(canonicalize_domain("-bad.example.com"), Err(Error::InvalidDomain));
    assert_eq!(canonicalize_domain("bad/path.example.com"), Err(Error::InvalidDomain));
}
