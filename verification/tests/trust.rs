use attestation_verifier::payload::AttestationPayload;
use attestation_verifier::registry::{
    stub_registry, ConstantVerifier, PlatformVerifier, Registry, SentinelVerifier,
};
use attestation_verifier::trust::{
    Condition, TrustDecision, TrustScore, VerifierOutcome, FULL_TRUST, TRUST_THRESHOLD,
};
use attestation_verifier::validator::AttestationRequest;

fn request(platform: &str, integrity_token: &str) -> AttestationRequest {
    AttestationRequest::from_payload(AttestationPayload {
        platform: platform.to_string(),
        integrity_token: integrity_token.to_string(),
        device_key: "dev".to_string(),
        nonce: "n1".to_string(),
    })
    .unwrap()
}

#[test]
fn score_range_is_enforced() {
    assert_eq!(FULL_TRUST, 10_000);
    assert_eq!(TRUST_THRESHOLD, 5_000);
    assert_eq!(TrustScore::from_basis_points(0).unwrap().basis_points(), 0);
    assert_eq!(TrustScore::from_basis_points(10_000).unwrap().basis_points(), 10_000);
    assert_eq!(TrustScore::from_basis_points(10_001), None);
    assert_eq!(TrustScore::from_basis_points(u16::MAX), None);
    assert_eq!(TrustScore::zero().basis_points(), 0);
}

#[test]
fn threshold_is_one_half() {
    assert!(!TrustScore::from_basis_points(4_999).unwrap().is_trusted());
    assert!(TrustScore::from_basis_points(5_000).unwrap().is_trusted());
    assert!(TrustScore::from_basis_points(10_000).unwrap().is_trusted());
    assert!(!TrustScore::zero().is_trusted());
}

#[test]
fn scored_outcome_is_taken_as_it_is() {
    let decision = TrustDecision::from_outcome(VerifierOutcome::Scored(7_250));
    assert_eq!(decision.score().basis_points(), 7_250);
    assert!(decision.is_trusted());
    assert_eq!(decision.condition(), Condition::Nominal);

    let low = TrustDecision::from_outcome(VerifierOutcome::Scored(4_999));
    assert_eq!(low.score().basis_points(), 4_999);
    assert!(!low.is_trusted());
    assert_eq!(low.condition(), Condition::Nominal);
}

#[test]
fn failure_comes_to_no_trust() {
    let decision = TrustDecision::from_outcome(VerifierOutcome::Failed);
    assert_eq!(decision.score().basis_points(), 0);
    assert!(!decision.is_trusted());
    assert_eq!(decision.condition(), Condition::VerifierFailure);
}

#[test]
fn timeout_comes_to_no_trust() {
    let decision = TrustDecision::from_outcome(VerifierOutcome::TimedOut);
    assert_eq!(decision.score().basis_points(), 0);
    assert!(!decision.is_trusted());
    assert_eq!(decision.condition(), Condition::PlatformTimeout);
}

#[test]
fn score_out_of_range_is_a_failure() {
    let decision = TrustDecision::from_outcome(VerifierOutcome::Scored(10_001));
    assert_eq!(decision.score().basis_points(), 0);
    assert!(!decision.is_trusted());
    assert_eq!(decision.condition(), Condition::VerifierFailure);
}

#[test]
fn sentinel_verifier_knows_its_token() {
    let verifier = SentinelVerifier;
    assert_eq!(verifier.verify(&request("web", "test-token")), VerifierOutcome::Scored(10_000));
    assert_eq!(verifier.verify(&request("web", "  test-token\n")), VerifierOutcome::Scored(10_000));
    assert_eq!(verifier.verify(&request("web", "token")), VerifierOutcome::Scored(0));
    assert_eq!(verifier.verify(&request("web", "test-token2")), VerifierOutcome::Scored(0));
    assert_eq!(verifier.verify(&request("web", "Test-Token")), VerifierOutcome::Scored(0));
    assert_eq!(verifier.verify(&request("web", "test token")), VerifierOutcome::Scored(0));
}

#[test]
fn sentinel_verifier_is_deterministic() {
    let verifier = SentinelVerifier;
    let same = request("web", "test-token");
    assert_eq!(verifier.verify(&same), verifier.verify(&same));
    let other = request("web", "other");
    assert_eq!(verifier.verify(&other), verifier.verify(&other));
}

#[test]
fn constant_verifier_ignores_the_request() {
    let verifier = ConstantVerifier { basis_points: 1_234 };
    assert_eq!(verifier.verify(&request("ios", "a")), VerifierOutcome::Scored(1_234));
    assert_eq!(verifier.verify(&request("web", "test-token")), VerifierOutcome::Scored(1_234));
}

#[test]
fn registry_dispatches_by_platform() {
    let registry = Registry {
        ios: ConstantVerifier { basis_points: 100 },
        android: ConstantVerifier { basis_points: 200 },
        web: ConstantVerifier { basis_points: 300 },
    };
    assert_eq!(registry.dispatch(&request("ios", "t")), VerifierOutcome::Scored(100));
    assert_eq!(registry.dispatch(&request("android", "t")), VerifierOutcome::Scored(200));
    assert_eq!(registry.dispatch(&request("web", "t")), VerifierOutcome::Scored(300));
    assert_eq!(registry.evaluate(&request("android", "t")).score().basis_points(), 200);
}

#[test]
fn stub_registry_scores() {
    let registry = stub_registry();
    assert_eq!(registry.ios, ConstantVerifier { basis_points: 5_000 });
    assert_eq!(registry.android, ConstantVerifier { basis_points: 5_000 });

    let ios = registry.evaluate(&request("ios", "anything"));
    assert_eq!(ios.score().basis_points(), 5_000);
    assert!(ios.is_trusted());

    let android = registry.evaluate(&request("android", "anything"));
    assert_eq!(android.score().basis_points(), 5_000);
    assert!(android.is_trusted());

    let web = registry.evaluate(&request("web", "test-token"));
    assert_eq!(web.score().basis_points(), 10_000);
    assert!(web.is_trusted());
    assert_eq!(web.condition(), Condition::Nominal);

    let stranger = registry.evaluate(&request("web", "token"));
    assert_eq!(stranger.score().basis_points(), 0);
    assert!(!stranger.is_trusted());
    assert_eq!(stranger.condition(), Condition::Nominal);
}

#[test]
fn out_of_range_verifier_is_absorbed() {
    let registry = Registry {
        ios: ConstantVerifier { basis_points: 60_000 },
        android: ConstantVerifier { basis_points: 0 },
        web: SentinelVerifier,
    };
    let decision = registry.evaluate(&request("ios", "t"));
    assert_eq!(decision.score().basis_points(), 0);
    assert_eq!(decision.condition(), Condition::VerifierFailure);
}
