use gophers::{Gopher, GopherError};

#[test]
fn plain_scheme_is_unencrypted() {
    let g = Gopher::new("gopher://example.org").unwrap();
    assert!(!g.tls());
}

#[test]
fn encrypted_scheme_is_encrypted() {
    let g = Gopher::new("gophers://example.org").unwrap();
    assert!(g.tls());
}

#[test]
fn other_schemes_are_unsupported() {
    let r = Gopher::new("http://example.org");
    assert!(matches!(r, Err(GopherError::UnsupportedProtocol)));
    let r = Gopher::new("ftp://example.org");
    assert!(matches!(r, Err(GopherError::UnsupportedProtocol)));
}

#[test]
fn uppercase_scheme_is_recognised() {
    let g = Gopher::new("GOPHER://example.org").unwrap();
    assert!(!g.tls());
}

#[test]
fn missing_port_defaults_to_seventy() {
    let g = Gopher::new("gopher://example.org").unwrap();
    assert_eq!(g.port(), 70);
    let g = Gopher::new("gophers://example.org/some/path").unwrap();
    assert_eq!(g.port(), 70);
}

#[test]
fn explicit_port_is_kept() {
    let g = Gopher::new("gopher://example.org:7070").unwrap();
    assert_eq!(g.port(), 7070);
}

#[test]
fn round_trip_resolution() {
    let g = Gopher::new("gopher://example.org").unwrap();
    assert_eq!(g.host().as_str(), "example.org");
    assert_eq!(g.port(), 70);
    assert!(!g.tls());
}

#[test]
fn encrypted_resolution() {
    let g = Gopher::new("gophers://example.org:105").unwrap();
    assert_eq!(g.host().as_str(), "example.org");
    assert_eq!(g.port(), 105);
    assert!(g.tls());
}

#[test]
fn missing_authority_is_invalid_host() {
    let r = Gopher::new("gopher://");
    assert!(matches!(r, Err(GopherError::InvalidHost)));
    let r = Gopher::new("gopher:selector-only");
    assert!(matches!(r, Err(GopherError::InvalidHost)));
}

#[test]
fn not_a_url_is_a_parse_error() {
    let r = Gopher::new("example.org");
    assert!(matches!(r, Err(GopherError::UrlParseError(_))));
    let r = Gopher::new("no scheme at all");
    assert!(matches!(r, Err(GopherError::UrlParseError(_))));
}

#[test]
fn transport_error_variants_carry_text() {
    let e = GopherError::IoError(String::from("connection refused"));
    assert!(matches!(e, GopherError::IoError(_)));
    let e = GopherError::HandshakeError(String::from("certificate rejected"));
    assert!(matches!(e, GopherError::HandshakeError(_)));
    let e = GopherError::TlsError(String::from("backend unavailable"));
    assert!(matches!(e, GopherError::TlsError(_)));
}
