use ibis_core::db_url::DbUrl;
use ibis_core::error::BackendError;

#[test]
fn parse_reads_host_domain_and_port() {
    let u = DbUrl::parse("https://example.com:8131/comment/5").unwrap();
    assert_eq!(u.text, "https://example.com:8131/comment/5");
    assert_eq!(u.host.as_deref(), Some("example.com"));
    assert_eq!(u.domain.as_deref(), Some("example.com"));
    assert_eq!(u.port, Some(8131));
}

#[test]
fn parse_refuses_what_is_no_url() {
    assert_eq!(DbUrl::parse("not a url").err(), Some(BackendError::InvalidUrl));
}
