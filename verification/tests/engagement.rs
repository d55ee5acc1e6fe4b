use std::time::Duration;

use qcs::qpu::engagement::{engagement_outcome, EngagementOutcome};

#[test]
fn successful_statuses_grant_the_engagement() {
    assert_eq!(engagement_outcome(200, None), EngagementOutcome::Granted);
    assert_eq!(engagement_outcome(201, None), EngagementOutcome::Granted);
    assert_eq!(engagement_outcome(302, Some("10")), EngagementOutcome::Granted);
}

#[test]
fn an_unavailable_qpu_says_when_to_retry() {
    assert_eq!(
        engagement_outcome(503, Some("120")),
        EngagementOutcome::QuantumProcessorUnavailable(Duration::from_secs(120))
    );
    assert_eq!(
        engagement_outcome(503, Some("+7")),
        EngagementOutcome::QuantumProcessorUnavailable(Duration::from_secs(7))
    );
    // Without a usable Retry-After, fifteen minutes.
    for retry_after in [None, Some("soon"), Some(""), Some("-5"), Some("99999999999999999999")] {
        assert_eq!(
            engagement_outcome(503, retry_after),
            EngagementOutcome::QuantumProcessorUnavailable(Duration::from_secs(15 * 60))
        );
    }
}

#[test]
fn unauthorized_and_other_errors() {
    assert_eq!(engagement_outcome(401, None), EngagementOutcome::Unauthorized);
    assert_eq!(engagement_outcome(403, None), EngagementOutcome::Unauthorized);
    assert_eq!(engagement_outcome(404, None), EngagementOutcome::Unknown);
    assert_eq!(engagement_outcome(500, None), EngagementOutcome::Unknown);
}
