use luciuz::cert::{
    bootstrap, exit_status, renewal_action, AcmeEvent, CachedCertificate, CertificateSource, IssueOutcome,
    RenewalAction,
};
use luciuz::error::LuciuzError;

#[test]
fn no_certificate_at_all_is_fatal() {
    let r = bootstrap(CachedCertificate::Missing, IssueOutcome::Unreachable);
    assert!(matches!(r, Err(LuciuzError::Runtime(_))));
    assert_eq!(exit_status(&r.map(|_| ())), 1);
    assert!(bootstrap(CachedCertificate::Expired, IssueOutcome::Unreachable).is_err());
}

#[test]
fn valid_cache_survives_unreachable_authority() {
    let r = bootstrap(CachedCertificate::Valid, IssueOutcome::Unreachable);
    assert!(matches!(r, Ok(CertificateSource::Cache)));
    assert_eq!(exit_status(&r.map(|_| ())), 0);
}

#[test]
fn issued_certificate_is_used() {
    assert!(matches!(bootstrap(CachedCertificate::Missing, IssueOutcome::Issued), Ok(CertificateSource::Authority)));
}

#[test]
fn renewal_failures_are_logged_not_fatal() {
    assert_eq!(renewal_action(AcmeEvent::Progress), RenewalAction::LogInfo);
    assert_eq!(renewal_action(AcmeEvent::Failure), RenewalAction::LogError);
    assert_eq!(renewal_action(AcmeEvent::Closed), RenewalAction::Stop);
}

#[test]
fn error_messages() {
    assert_eq!(LuciuzError::Config("bad".to_string()).message(), "configuration error: bad");
    assert_eq!(LuciuzError::Io("disk".to_string()).message(), "io error: disk");
    assert_eq!(LuciuzError::Runtime("x".to_string()).message(), "runtime error: x");
}
