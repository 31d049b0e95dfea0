//! Decisions of the certificate orchestrator: whether the secure listener
//! may start, and what the renewal task does with each lifecycle event.
use vstd::prelude::*;
use vstd::string::*;
use crate::error::LuciuzError;

verus! {

/// What the certificate cache holds at startup.
#[derive(PartialEq, Eq, Structural, Clone, Copy, Debug)]
pub enum CachedCertificate {
    Missing,
    Expired,
    /// A certificate that is still valid, though it may be due for renewal.
    Valid,
}

/// How the attempt to obtain a certificate from the authority ended.
#[derive(PartialEq, Eq, Structural, Clone, Copy, Debug)]
pub enum IssueOutcome {
    Issued,
    Unreachable,
}

/// Where the secure listener's first certificate comes from.
#[derive(PartialEq, Eq, Structural, Clone, Copy, Debug)]
pub enum CertificateSource {
    Cache,
    Authority,
}

/// The listener may start when the cache holds a valid certificate, or the
/// authority issued one.
pub open spec fn can_start(cache: CachedCertificate, issue: IssueOutcome) -> bool {
    cache == CachedCertificate::Valid || issue == IssueOutcome::Issued
}

/// Decides the startup certificate. A valid cached certificate is used even
/// when the authority is unreachable; with none, a failed issuance is fatal.
pub fn bootstrap(cache: CachedCertificate, issue: IssueOutcome) -> (r: Result<CertificateSource, LuciuzError>)
    ensures
        cache == CachedCertificate::Valid ==> r == Ok::<CertificateSource, LuciuzError>(CertificateSource::Cache),
        cache != CachedCertificate::Valid && issue == IssueOutcome::Issued ==> r == Ok::<CertificateSource, LuciuzError>(CertificateSource::Authority),
        r.is_err() <==> !can_start(cache, issue),
        r matches Err(e) ==> e matches LuciuzError::Runtime(_),
{
    match cache {
        CachedCertificate::Valid => Ok(CertificateSource::Cache),
        _ => match issue {
            IssueOutcome::Issued => Ok(CertificateSource::Authority),
            IssueOutcome::Unreachable => Err(LuciuzError::Runtime(String::from_str("no certificate could be obtained"))),
        },
    }
}

/// The process exit status for how startup or serving ended.
pub fn exit_status(outcome: &Result<(), LuciuzError>) -> (r: i32)
    ensures
        outcome.is_ok() ==> r == 0,
        outcome.is_err() ==> r == 1,
{
    match outcome {
        Ok(()) => 0,
        Err(_) => 1,
    }
}

/// One item from the certificate state's lifecycle stream.
#[derive(PartialEq, Eq, Structural, Clone, Copy, Debug)]
pub enum AcmeEvent {
    /// Progress: an order started, a certificate was deployed or cached.
    Progress,
    /// A failed step; the state retries on its own schedule.
    Failure,
    /// The stream ended.
    Closed,
}

/// What the renewal task does next.
#[derive(PartialEq, Eq, Structural, Clone, Copy, Debug)]
pub enum RenewalAction {
    LogInfo,
    LogError,
    Stop,
}

/// The renewal task logs every event, failures as errors, and stops only
/// when the stream ends: a failure never stops it.
pub fn renewal_action(event: AcmeEvent) -> (r: RenewalAction)
    ensures
        event == AcmeEvent::Progress ==> r == RenewalAction::LogInfo,
        event == AcmeEvent::Failure ==> r == RenewalAction::LogError,
        event == AcmeEvent::Closed ==> r == RenewalAction::Stop,
{
    match event {
        AcmeEvent::Progress => RenewalAction::LogInfo,
        AcmeEvent::Failure => RenewalAction::LogError,
        AcmeEvent::Closed => RenewalAction::Stop,
    }
}

} // verus!
