use ibis_core::db_url::DbUrl;
use ibis_core::error::{BackendError, ErrorClass};
use ibis_core::validate::{
    decimal_digits, is_local_url, validate_comment_max_depth, verify_domains_match,
    verify_is_remote_object, verify_object_id, verify_same_origin,
};

fn url(text: &str) -> DbUrl {
    DbUrl::parse(text).unwrap()
}

#[test]
fn domains_of_two_urls_of_one_instance_match() {
    let a = url("https://example.com/abc");
    let b = url("https://example.com/123");
    assert_eq!(verify_domains_match(&a, &b), Ok(()));
}

#[test]
fn domains_of_two_instances_do_not_match() {
    let a = url("https://example.com/abc");
    let b = url("https://sample.net/abc");
    assert_eq!(verify_domains_match(&a, &b), Err(BackendError::DomainMismatch));
}

#[test]
fn the_port_plays_no_part_in_the_domain() {
    let a = url("https://example.com:8131/abc");
    let b = url("https://example.com/abc");
    assert_eq!(verify_domains_match(&a, &b), Ok(()));
}

#[test]
fn addresses_without_a_domain_count_as_the_same() {
    let a = url("http://127.0.0.1/a");
    let b = url("http://10.0.0.1/b");
    assert_eq!(a.domain, None);
    assert_eq!(verify_domains_match(&a, &b), Ok(()));
    let c = url("https://example.com/c");
    assert_eq!(verify_domains_match(&a, &c), Err(BackendError::DomainMismatch));
}

#[test]
fn a_url_is_local_where_its_host_is_the_domain() {
    assert!(is_local_url(&url("http://example.com"), &"example.com".to_string()));
    assert!(!is_local_url(&url("http://other.com"), &"example.com".to_string()));
    assert!(!is_local_url(&url("http://127.0.0.1"), &"example.com".to_string()));
}

#[test]
fn a_written_port_belongs_to_the_local_domain() {
    let domain = "localhost:8131".to_string();
    assert!(is_local_url(&url("http://localhost:8131/article/1"), &domain));
    assert!(!is_local_url(&url("http://localhost:8132/article/1"), &domain));
    assert!(!is_local_url(&url("http://localhost/article/1"), &domain));
    assert!(!is_local_url(&url("http://localhost:8131/"), &"localhost".to_string()));
    assert!(!is_local_url(&url("http://localhost:81/"), &domain));
    assert!(!is_local_url(&url("http://localhos:8131/"), &domain));
}

#[test]
fn a_url_without_host_is_never_local() {
    assert!(!is_local_url(&url("mailto:rms@example.net"), &"example.net".to_string()));
}

#[test]
fn ports_are_written_in_decimal() {
    assert_eq!(decimal_digits(0), vec!['0']);
    assert_eq!(decimal_digits(7), vec!['7']);
    assert_eq!(decimal_digits(80), vec!['8', '0']);
    assert_eq!(decimal_digits(8131), vec!['8', '1', '3', '1']);
    assert_eq!(decimal_digits(65535), vec!['6', '5', '5', '3', '5']);
}

#[test]
fn an_object_of_this_instance_is_not_remote() {
    let domain = "example.com".to_string();
    assert_eq!(
        verify_is_remote_object(&url("https://example.com/u/name"), &domain),
        Err(BackendError::ObjectIsLocal)
    );
    assert_eq!(verify_is_remote_object(&url("https://remote.com/u/name"), &domain), Ok(()));
}

#[test]
fn an_object_is_checked_for_its_domain_before_its_origin() {
    let domain = "example.com".to_string();
    let expected = url("https://remote.com/");
    assert_eq!(verify_object_id(&url("https://remote.com/c/1"), &expected, &domain), Ok(()));
    assert_eq!(
        verify_object_id(&url("https://example.com/c/1"), &expected, &domain),
        Err(BackendError::DomainMismatch)
    );
    assert_eq!(
        verify_object_id(&url("https://example.com/c/1"), &url("https://example.com/"), &domain),
        Err(BackendError::ObjectIsLocal)
    );
}

#[test]
fn an_identifier_with_the_fields_of_another_url_is_refused() {
    let domain = "example.com".to_string();
    let expected = url("https://remote.com/");
    let honest = url("https://remote.com/article/1");
    assert!(honest.is_consistent());
    let mut forged = url("https://remote.com/article/1");
    forged.text = "https://example.com/article/1".to_string();
    assert!(!forged.is_consistent());
    assert_eq!(verify_object_id(&forged, &expected, &domain), Err(BackendError::InvalidUrl));
    assert_eq!(verify_object_id(&honest, &forged, &domain), Err(BackendError::InvalidUrl));
    assert_eq!(verify_same_origin(&forged, &expected), Err(BackendError::InvalidUrl));
    assert_eq!(verify_same_origin(&honest, &expected), Ok(()));
    assert_eq!(
        verify_same_origin(&honest, &url("https://other.org/")),
        Err(BackendError::DomainMismatch)
    );
    let mut ported = url("https://remote.com/article/1");
    ported.port = Some(8131);
    assert!(!ported.is_consistent());
    let mut unwritten = url("https://remote.com/article/1");
    unwritten.text = "HTTPS://remote.com/article/1".to_string();
    assert!(!unwritten.is_consistent());
    let mut broken = url("https://remote.com/article/1");
    broken.text = "no url".to_string();
    assert!(!broken.is_consistent());
}

#[test]
fn depth_ten_is_accepted_and_depth_eleven_refused_under_a_maximum_of_ten() {
    assert_eq!(validate_comment_max_depth(10, 10), Ok(()));
    assert_eq!(validate_comment_max_depth(11, 10), Err(BackendError::MaxDepthExceeded));
    assert_eq!(validate_comment_max_depth(0, 10), Ok(()));
    assert_eq!(validate_comment_max_depth(1, 0), Err(BackendError::MaxDepthExceeded));
}

#[test]
fn every_error_has_its_class() {
    assert_eq!(BackendError::DomainMismatch.class(), ErrorClass::Verification);
    assert_eq!(BackendError::ObjectIsLocal.class(), ErrorClass::Verification);
    assert_eq!(BackendError::MaxDepthExceeded.class(), ErrorClass::Verification);
    assert_eq!(BackendError::InvalidUrl.class(), ErrorClass::Verification);
    assert_eq!(BackendError::NotFound.class(), ErrorClass::Resolution);
    assert_eq!(BackendError::UniqueViolation.class(), ErrorClass::Apply);
    assert_eq!(BackendError::IdExhausted.class(), ErrorClass::Apply);
}
