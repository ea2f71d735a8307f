use vixen::auth::{authorize, AuthDecision};

#[test]
fn exact_credential_is_allowed() {
    assert_eq!(authorize(Some("Bearer s3cr3t"), "s3cr3t"), AuthDecision::Allow);
}

#[test]
fn missing_header_is_rejected() {
    assert_eq!(authorize(None, "s3cr3t"), AuthDecision::Reject);
}

#[test]
fn wrong_scheme_is_rejected() {
    assert_eq!(authorize(Some("Basic s3cr3t"), "s3cr3t"), AuthDecision::Reject);
    assert_eq!(authorize(Some("bearer s3cr3t"), "s3cr3t"), AuthDecision::Reject);
    assert_eq!(authorize(Some("Bearers3cr3t"), "s3cr3t"), AuthDecision::Reject);
}

#[test]
fn truncated_credential_is_rejected() {
    assert_eq!(authorize(Some("Bearer s3cr3"), "s3cr3t"), AuthDecision::Reject);
    assert_eq!(authorize(Some("Bearer"), "s3cr3t"), AuthDecision::Reject);
    assert_eq!(authorize(Some(""), "s3cr3t"), AuthDecision::Reject);
}

#[test]
fn padded_credential_is_rejected() {
    assert_eq!(authorize(Some("Bearer s3cr3t "), "s3cr3t"), AuthDecision::Reject);
    assert_eq!(authorize(Some("Bearer s3cr3tX"), "s3cr3t"), AuthDecision::Reject);
    assert_eq!(authorize(Some(" Bearer s3cr3t"), "s3cr3t"), AuthDecision::Reject);
}

#[test]
fn wrong_secret_is_rejected() {
    assert_eq!(authorize(Some("Bearer wrong1"), "s3cr3t"), AuthDecision::Reject);
}

#[test]
fn secret_comparison_is_case_sensitive() {
    assert_eq!(authorize(Some("Bearer S3CR3T"), "s3cr3t"), AuthDecision::Reject);
}

#[test]
fn empty_secret_admits_only_the_bare_scheme() {
    assert_eq!(authorize(Some("Bearer "), ""), AuthDecision::Allow);
    assert_eq!(authorize(Some("Bearer x"), ""), AuthDecision::Reject);
}

#[test]
fn credential_with_multibyte_text_matches_exactly() {
    assert_eq!(authorize(Some("Bearer p\u{e4}ss"), "p\u{e4}ss"), AuthDecision::Allow);
    assert_eq!(authorize(Some("Bearer p\u{e4}ss"), "pass"), AuthDecision::Reject);
}
