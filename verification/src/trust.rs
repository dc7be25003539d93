//! Trust scores and the decision that a verifier's outcome is absorbed into.
//!
//! A score is a fraction between 0 and 1, held in basis points (hundredths
//! of a percent), so that the threshold is an exact comparison.

use vstd::prelude::*;

verus! {

/// The basis points of full trust, a score of 1.
pub const FULL_TRUST: u16 = 10_000;

/// The basis points from which a device counts as trusted, a score of one
/// half.
pub const TRUST_THRESHOLD: u16 = 5_000;

/// A trust score between 0 and [`FULL_TRUST`] basis points.
#[derive(Clone, Copy, Debug, PartialEq, Eq, Hash)]
pub struct TrustScore {
    basis_points: u16,
}

impl View for TrustScore {
    type V = nat;

    closed spec fn view(&self) -> nat {
        self.basis_points as nat
    }
}

impl TrustScore {
    #[verifier::type_invariant]
    spec fn in_range(self) -> bool {
        self.basis_points <= FULL_TRUST
    }

    /// The score of `basis_points`, if that is no more than full trust.
    pub fn from_basis_points(basis_points: u16) -> (score: Option<TrustScore>)
        ensures
            match score {
                Some(s) => basis_points <= FULL_TRUST && s@ == basis_points,
                None => basis_points > FULL_TRUST,
            },
    {
        if basis_points <= FULL_TRUST {
            Some(TrustScore { basis_points })
        } else {
            None
        }
    }

    /// The score of no trust at all.
    pub fn zero() -> (score: TrustScore)
        ensures
            score@ == 0,
    {
        TrustScore { basis_points: 0 }
    }

    /// This score in basis points.
    pub fn basis_points(&self) -> (basis_points: u16)
        ensures
            basis_points == self@,
            basis_points <= FULL_TRUST,
    {
        proof {
            use_type_invariant(self);
        }
        self.basis_points
    }

    /// Whether this score reaches the threshold.
    pub fn is_trusted(&self) -> (trusted: bool)
        ensures
            trusted == (self@ >= TRUST_THRESHOLD),
    {
        self.basis_points >= TRUST_THRESHOLD
    }
}

/// What one run of a platform verifier came to.
#[derive(Clone, Copy, Debug, PartialEq, Eq, Hash)]
pub enum VerifierOutcome {
    /// The verifier finished and scored the device, in basis points.
    Scored(u16),
    /// The verifier failed inside.
    Failed,
    /// The verifier did not finish within its time.
    TimedOut,
}

/// Whether a decision was reached the ordinary way. It is there to be
/// logged or counted; it never fails a request.
#[derive(Clone, Copy, Debug, PartialEq, Eq, Hash)]
pub enum Condition {
    /// The verifier gave a score in range.
    Nominal,
    /// The verifier failed, or gave a score out of range.
    VerifierFailure,
    /// The verifier ran out of time.
    PlatformTimeout,
}

/// How trustworthy a device is held to be.
#[derive(Clone, Copy, Debug, PartialEq, Eq, Hash)]
pub struct TrustDecision {
    score: TrustScore,
    trusted: bool,
    condition: Condition,
}

/// What a [`TrustDecision`] holds.
pub struct DecisionView {
    pub score: nat,
    pub trusted: bool,
    pub condition: Condition,
}

impl View for TrustDecision {
    type V = DecisionView;

    closed spec fn view(&self) -> DecisionView {
        DecisionView { score: self.score@, trusted: self.trusted, condition: self.condition }
    }
}

/// The decision that `outcome` is absorbed into. A score in range is taken
/// as it is; a failure, a timeout and a score out of range all come to no
/// trust, and the condition tells them apart. A device is trusted from
/// [`TRUST_THRESHOLD`] on.
pub open spec fn decision_of(outcome: VerifierOutcome) -> DecisionView {
    match outcome {
        VerifierOutcome::Scored(basis_points) => if basis_points <= FULL_TRUST {
            DecisionView {
                score: basis_points as nat,
                trusted: basis_points >= TRUST_THRESHOLD,
                condition: Condition::Nominal,
            }
        } else {
            DecisionView { score: 0, trusted: false, condition: Condition::VerifierFailure }
        },
        VerifierOutcome::Failed => DecisionView {
            score: 0,
            trusted: false,
            condition: Condition::VerifierFailure,
        },
        VerifierOutcome::TimedOut => DecisionView {
            score: 0,
            trusted: false,
            condition: Condition::PlatformTimeout,
        },
    }
}

/// Every decision has a score in range and is trusted exactly from the
/// threshold on; one that was not reached the ordinary way carries no trust.
pub proof fn lemma_decision_bounds(outcome: VerifierOutcome)
    ensures
        decision_of(outcome).score <= FULL_TRUST,
        decision_of(outcome).trusted == (decision_of(outcome).score >= TRUST_THRESHOLD),
        decision_of(outcome).condition != Condition::Nominal ==> decision_of(outcome).score == 0,
{
}

impl TrustDecision {
    #[verifier::type_invariant]
    spec fn thresholded(self) -> bool {
        self.trusted == (self.score@ >= TRUST_THRESHOLD)
    }

    /// Absorbs a verifier's outcome. This cannot fail: whatever the verifier
    /// did, a decision comes out.
    pub fn from_outcome(outcome: VerifierOutcome) -> (decision: TrustDecision)
        ensures
            decision@ == decision_of(outcome),
    {
        match outcome {
            VerifierOutcome::Scored(basis_points) => match TrustScore::from_basis_points(
                basis_points,
            ) {
                Some(score) => TrustDecision {
                    score,
                    trusted: score.is_trusted(),
                    condition: Condition::Nominal,
                },
                None => TrustDecision {
                    score: TrustScore::zero(),
                    trusted: false,
                    condition: Condition::VerifierFailure,
                },
            },
            VerifierOutcome::Failed => TrustDecision {
                score: TrustScore::zero(),
                trusted: false,
                condition: Condition::VerifierFailure,
            },
            VerifierOutcome::TimedOut => TrustDecision {
                score: TrustScore::zero(),
                trusted: false,
                condition: Condition::PlatformTimeout,
            },
        }
    }

    /// The score.
    pub fn score(&self) -> (score: TrustScore)
        ensures
            score@ == self@.score,
    {
        self.score
    }

    /// Whether the score reaches the threshold.
    pub fn is_trusted(&self) -> (trusted: bool)
        ensures
            trusted == self@.trusted,
            trusted == (self@.score >= TRUST_THRESHOLD),
    {
        proof {
            use_type_invariant(self);
        }
        self.trusted
    }

    /// How the decision was reached.
    pub fn condition(&self) -> (condition: Condition)
        ensures
            condition == self@.condition,
    {
        self.condition
    }
}

} // verus!
