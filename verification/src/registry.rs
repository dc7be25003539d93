//! The platform verifier registry: one verifier per platform, and the
//! dispatch of a validated request to the one that its platform names.

use crate::payload::Platform;
use crate::text::{lemma_trimmed_unchanged, str_eq, trimmed};
use crate::trust::{decision_of, TrustDecision, VerifierOutcome, FULL_TRUST, TRUST_THRESHOLD};
use crate::validator::{AttestationRequest, RequestView};
use vstd::prelude::*;

verus! {

/// The capability to evaluate one platform's integrity tokens.
///
/// A verifier is deterministic: what it returns is a function of the
/// request, named by `outcome_for`. It reports its own failures as
/// [`VerifierOutcome::Failed`] and never checks the request's shape again.
///
/// A verifier that waits on the outside world is no such function. Its
/// caller runs it under a timeout of its own and hands what came of it to
/// [`crate::handler::respond`].
pub trait PlatformVerifier {
    /// The outcome that this verifier assigns to `request`.
    spec fn outcome_for(&self, request: RequestView) -> VerifierOutcome;

    /// Evaluates `request`.
    fn verify(&self, request: &AttestationRequest) -> (outcome: VerifierOutcome)
        ensures
            outcome == self.outcome_for(request@),
    ;
}

/// A verifier that knows one token: the sentinel gets full trust, every
/// other token none. Whitespace around the token does not count.
#[derive(Clone, Copy, Debug, PartialEq, Eq)]
pub struct SentinelVerifier;

/// The token that [`SentinelVerifier`] trusts.
pub open spec fn sentinel_token() -> Seq<char> {
    "test-token"@
}

/// The outcome that [`SentinelVerifier`] assigns to a token.
pub open spec fn sentinel_outcome(integrity_token: Seq<char>) -> VerifierOutcome {
    if trimmed(integrity_token) == sentinel_token() {
        VerifierOutcome::Scored(FULL_TRUST)
    } else {
        VerifierOutcome::Scored(0)
    }
}

/// The sentinel itself gets full trust, and a token that is not the
/// sentinel once trimmed gets none.
pub proof fn lemma_sentinel_outcome(integrity_token: Seq<char>)
    ensures
        integrity_token == sentinel_token() ==> sentinel_outcome(integrity_token)
            == VerifierOutcome::Scored(FULL_TRUST),
        trimmed(integrity_token) != sentinel_token() ==> sentinel_outcome(integrity_token)
            == VerifierOutcome::Scored(0),
{
    if integrity_token == sentinel_token() {
        reveal_strlit("test-token");
        assert(integrity_token.len() == 10);
        assert(integrity_token[0] == 't' && integrity_token.last() == 'n');
        lemma_trimmed_unchanged(integrity_token);
    }
}

impl PlatformVerifier for SentinelVerifier {
    open spec fn outcome_for(&self, request: RequestView) -> VerifierOutcome {
        sentinel_outcome(request.integrity_token)
    }

    fn verify(&self, request: &AttestationRequest) -> (outcome: VerifierOutcome) {
        if str_eq(request.integrity_token().trim(), "test-token") {
            VerifierOutcome::Scored(FULL_TRUST)
        } else {
            VerifierOutcome::Scored(0)
        }
    }
}

/// A verifier that gives every request the same score: a stand-in for a
/// platform whose attestation protocol is not wired up.
#[derive(Clone, Copy, Debug, PartialEq, Eq)]
pub struct ConstantVerifier {
    pub basis_points: u16,
}

impl PlatformVerifier for ConstantVerifier {
    open spec fn outcome_for(&self, request: RequestView) -> VerifierOutcome {
        VerifierOutcome::Scored(self.basis_points)
    }

    fn verify(&self, request: &AttestationRequest) -> (outcome: VerifierOutcome) {
        VerifierOutcome::Scored(self.basis_points)
    }
}

/// One verifier for each platform.
pub struct Registry<I: PlatformVerifier, A: PlatformVerifier, W: PlatformVerifier> {
    pub ios: I,
    pub android: A,
    pub web: W,
}

impl<I: PlatformVerifier, A: PlatformVerifier, W: PlatformVerifier> Registry<I, A, W> {
    /// The outcome of the verifier that the request's platform names.
    pub open spec fn outcome_for(&self, request: RequestView) -> VerifierOutcome {
        match request.platform {
            Platform::Ios => self.ios.outcome_for(request),
            Platform::Android => self.android.outcome_for(request),
            Platform::Web => self.web.outcome_for(request),
        }
    }

    /// Runs the verifier of the request's platform.
    pub fn dispatch(&self, request: &AttestationRequest) -> (outcome: VerifierOutcome)
        ensures
            outcome == self.outcome_for(request@),
    {
        match request.platform() {
            Platform::Ios => self.ios.verify(request),
            Platform::Android => self.android.verify(request),
            Platform::Web => self.web.verify(request),
        }
    }

    /// Evaluates `request` and absorbs the outcome into a decision.
    pub fn evaluate(&self, request: &AttestationRequest) -> (decision: TrustDecision)
        ensures
            decision@ == decision_of(self.outcome_for(request@)),
    {
        TrustDecision::from_outcome(self.dispatch(request))
    }
}

/// The registry to run without any platform SDK: the sentinel verifier for
/// the web, and a constant score at the threshold for iOS and Android.
pub type StubRegistry = Registry<ConstantVerifier, ConstantVerifier, SentinelVerifier>;

/// The outcome that the [`StubRegistry`] assigns to a request.
pub open spec fn stub_outcome(request: RequestView) -> VerifierOutcome {
    match request.platform {
        Platform::Ios => VerifierOutcome::Scored(TRUST_THRESHOLD),
        Platform::Android => VerifierOutcome::Scored(TRUST_THRESHOLD),
        Platform::Web => sentinel_outcome(request.integrity_token),
    }
}

/// Builds the [`StubRegistry`].
pub fn stub_registry() -> (registry: StubRegistry)
    ensures
        registry.ios == (ConstantVerifier { basis_points: TRUST_THRESHOLD }),
        registry.android == (ConstantVerifier { basis_points: TRUST_THRESHOLD }),
        forall|request: RequestView| #[trigger]
            registry.outcome_for(request) == stub_outcome(request),
{
    Registry {
        ios: ConstantVerifier { basis_points: TRUST_THRESHOLD },
        android: ConstantVerifier { basis_points: TRUST_THRESHOLD },
        web: SentinelVerifier,
    }
}

} // verus!
