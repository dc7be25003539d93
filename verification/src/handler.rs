//! The request handler: validation, evaluation and issuance in turn, and
//! the response that each way through them ends in.
//!
//! A payload that fails validation is rejected with its reason; one that
//! passes is always answered with a session, however little trust the
//! decision carries. What the caller does with a low score is the caller's
//! business.

use crate::issuer::{
    artifact_of, issue, issue_with, lemma_token_injective, ArtifactView, SessionArtifact,
    TOKEN_ENTROPY_BYTES,
};
use crate::payload::{platform_of, AttestationPayload, PayloadView, Platform};
use crate::registry::{
    lemma_sentinel_outcome, sentinel_token, stub_outcome, PlatformVerifier, Registry,
};
use crate::text::{is_blank, trimmed};
use crate::trust::{decision_of, Condition, TrustDecision, VerifierOutcome, FULL_TRUST};
use crate::validator::{reason_of, request_of, validation_of, AttestationRequest, ValidationError};
use vstd::prelude::*;

verus! {

/// The status of a response that carries a session.
pub const STATUS_OK: u16 = 200;

/// The status of a response to a payload that failed validation.
pub const STATUS_BAD_REQUEST: u16 = 400;

/// The status of a response to a request that failed inside.
pub const STATUS_INTERNAL_SERVER_ERROR: u16 = 500;

/// Why a request ended without a session.
#[derive(Clone, Copy, Debug, PartialEq, Eq, Hash)]
pub enum Rejection {
    /// The payload failed validation: the client's error.
    Invalid(ValidationError),
    /// Something failed inside. No detail goes out.
    Internal,
}

/// The body of a response that carries a session.
#[derive(Debug, PartialEq, Eq)]
pub struct SessionResponse {
    /// Whether the device is trusted.
    pub success: bool,
    /// The session that was issued.
    pub artifact: SessionArtifact,
    /// How the decision was reached. For logs and counters, not for the
    /// wire.
    pub condition: Condition,
}

/// The body of a response that carries an error.
#[derive(Debug, PartialEq, Eq)]
pub struct ErrorResponse {
    /// Always `false`.
    pub success: bool,
    /// The machine-readable reason.
    pub error: &'static str,
}

/// The body of a response.
#[derive(Debug, PartialEq, Eq)]
pub enum ResponseBody {
    Session(SessionResponse),
    Error(ErrorResponse),
}

/// What a request is answered with: a status and a body to encode.
#[derive(Debug, PartialEq, Eq)]
pub struct Response {
    pub status: u16,
    pub body: ResponseBody,
}

/// What a [`ResponseBody`] holds.
pub enum BodyView {
    Session { success: bool, artifact: ArtifactView, condition: Condition },
    Error { success: bool, error: Seq<char> },
}

/// What a [`Response`] holds.
pub struct ResponseView {
    pub status: nat,
    pub body: BodyView,
}

impl View for ResponseBody {
    type V = BodyView;

    open spec fn view(&self) -> BodyView {
        match self {
            ResponseBody::Session(session) => BodyView::Session {
                success: session.success,
                artifact: session.artifact@,
                condition: session.condition,
            },
            ResponseBody::Error(error) => BodyView::Error {
                success: error.success,
                error: error.error@,
            },
        }
    }
}

impl View for Response {
    type V = ResponseView;

    open spec fn view(&self) -> ResponseView {
        ResponseView { status: self.status as nat, body: self.body@ }
    }
}

/// The reason that goes out with `rejection`.
pub open spec fn rejection_reason(rejection: Rejection) -> Seq<char> {
    match rejection {
        Rejection::Invalid(error) => reason_of(error),
        Rejection::Internal => "internal_error"@,
    }
}

/// The response to a request that ended in `rejection`: a client error with
/// the validation reason, or a server error without detail.
pub open spec fn rejection_response(rejection: Rejection) -> ResponseView {
    ResponseView {
        status: match rejection {
            Rejection::Invalid(_) => STATUS_BAD_REQUEST as nat,
            Rejection::Internal => STATUS_INTERNAL_SERVER_ERROR as nat,
        },
        body: BodyView::Error { success: false, error: rejection_reason(rejection) },
    }
}

/// The response to a valid request for `device_key` whose verifier came to
/// `outcome`, with `entropy` drawn for the token and the clock reading
/// `issued_at`.
pub open spec fn session_response(
    device_key: Seq<char>,
    outcome: VerifierOutcome,
    entropy: Seq<u8>,
    issued_at: u64,
) -> ResponseView {
    let decision = decision_of(outcome);
    ResponseView {
        status: STATUS_OK as nat,
        body: BodyView::Session {
            success: decision.trusted,
            artifact: artifact_of(decision, device_key, entropy, issued_at),
            condition: decision.condition,
        },
    }
}

/// The response to `payload`, should its verifier come to `outcome`, the
/// token's entropy be `entropy` and the clock read `issued_at`.
pub open spec fn response_of(
    payload: PayloadView,
    outcome: VerifierOutcome,
    entropy: Seq<u8>,
    issued_at: u64,
) -> ResponseView {
    match validation_of(payload) {
        Err(error) => rejection_response(Rejection::Invalid(error)),
        Ok(()) => session_response(payload.device_key, outcome, entropy, issued_at),
    }
}

/// A session goes out exactly with the status of success, and exactly for
/// the payloads that pass validation: no response to a failure carries any
/// part of a session.
pub proof fn lemma_session_iff_valid(
    payload: PayloadView,
    outcome: VerifierOutcome,
    entropy: Seq<u8>,
    issued_at: u64,
)
    ensures
        validation_of(payload) is Ok <==> response_of(payload, outcome, entropy, issued_at).status
            == STATUS_OK,
        validation_of(payload) is Ok <==> response_of(
            payload,
            outcome,
            entropy,
            issued_at,
        ).body is Session,
{
}

/// A payload with a blank integrity token, device key or nonce is answered
/// with a client error that names the first blank one, whatever the rest of
/// it holds and whatever a verifier would have said.
pub proof fn lemma_blank_field_rejected(
    payload: PayloadView,
    outcome: VerifierOutcome,
    entropy: Seq<u8>,
    issued_at: u64,
)
    requires
        is_blank(payload.integrity_token) || is_blank(payload.device_key) || is_blank(
            payload.nonce,
        ),
    ensures
        response_of(payload, outcome, entropy, issued_at).status == STATUS_BAD_REQUEST,
        response_of(payload, outcome, entropy, issued_at).body == (BodyView::Error {
            success: false,
            error: if is_blank(payload.integrity_token) {
                "missing_integrity_token"@
            } else if is_blank(payload.device_key) {
                "missing_device_key"@
            } else {
                "missing_nonce"@
            },
        }),
{
}

/// A payload with no blank field and a platform tag that names none of the
/// platforms is answered with a client error that says so.
pub proof fn lemma_unknown_platform_rejected(
    payload: PayloadView,
    outcome: VerifierOutcome,
    entropy: Seq<u8>,
    issued_at: u64,
)
    requires
        !is_blank(payload.integrity_token),
        !is_blank(payload.device_key),
        !is_blank(payload.nonce),
        payload.platform != "ios"@,
        payload.platform != "android"@,
        payload.platform != "web"@,
    ensures
        response_of(payload, outcome, entropy, issued_at) == (ResponseView {
            status: STATUS_BAD_REQUEST as nat,
            body: BodyView::Error { success: false, error: "unknown_platform"@ },
        }),
{
}

/// With the stub registry, a valid web request whose integrity token is the
/// sentinel is answered with a session of full trust, marked as a success.
pub proof fn lemma_sentinel_token_trusted(payload: PayloadView, entropy: Seq<u8>, issued_at: u64)
    requires
        validation_of(payload) is Ok,
        platform_of(payload.platform) == Some(Platform::Web),
        payload.integrity_token == sentinel_token(),
    ensures
        response_of(payload, stub_outcome(request_of(payload)), entropy, issued_at).status
            == STATUS_OK,
        response_of(payload, stub_outcome(request_of(payload)), entropy, issued_at).body
            matches BodyView::Session { success, artifact, condition } && success
            && artifact.trust_score == FULL_TRUST && condition == Condition::Nominal,
{
    lemma_sentinel_outcome(payload.integrity_token);
}

/// With the stub registry, a valid web request whose integrity token is not
/// the sentinel once trimmed is answered with a session of no trust: still
/// a session, but no success.
pub proof fn lemma_other_token_untrusted(payload: PayloadView, entropy: Seq<u8>, issued_at: u64)
    requires
        validation_of(payload) is Ok,
        platform_of(payload.platform) == Some(Platform::Web),
        trimmed(payload.integrity_token) != sentinel_token(),
    ensures
        response_of(payload, stub_outcome(request_of(payload)), entropy, issued_at).status
            == STATUS_OK,
        response_of(payload, stub_outcome(request_of(payload)), entropy, issued_at).body
            matches BodyView::Session { success, artifact, condition } && !success
            && artifact.trust_score == 0 && condition == Condition::Nominal,
{
    lemma_sentinel_outcome(payload.integrity_token);
}

/// Two valid payloads from one device key are answered with the same
/// nullifier, whatever else they hold and whatever their verifiers said;
/// and with different tokens as soon as the entropy drawn for them differs.
pub proof fn lemma_repeat_device_recognised(
    first: PayloadView,
    first_outcome: VerifierOutcome,
    first_entropy: Seq<u8>,
    first_issued_at: u64,
    second: PayloadView,
    second_outcome: VerifierOutcome,
    second_entropy: Seq<u8>,
    second_issued_at: u64,
)
    requires
        validation_of(first) is Ok,
        validation_of(second) is Ok,
        first.device_key == second.device_key,
    ensures
        response_of(first, first_outcome, first_entropy, first_issued_at).body is Session,
        response_of(second, second_outcome, second_entropy, second_issued_at).body is Session,
        response_of(first, first_outcome, first_entropy, first_issued_at).body->artifact.nullifier
            == response_of(
            second,
            second_outcome,
            second_entropy,
            second_issued_at,
        ).body->artifact.nullifier,
        first_entropy != second_entropy ==> response_of(
            first,
            first_outcome,
            first_entropy,
            first_issued_at,
        ).body->artifact.token != response_of(
            second,
            second_outcome,
            second_entropy,
            second_issued_at,
        ).body->artifact.token,
{
    if first_entropy != second_entropy {
        lemma_token_injective(first_entropy, second_entropy);
    }
}

/// A verifier that runs out of time, or fails, does not fail the request: a
/// valid payload is still answered with a session, of no trust at all, and
/// the condition says what happened.
pub proof fn lemma_degraded_evaluation_answered(
    payload: PayloadView,
    entropy: Seq<u8>,
    issued_at: u64,
)
    requires
        validation_of(payload) is Ok,
    ensures
        response_of(payload, VerifierOutcome::TimedOut, entropy, issued_at).status == STATUS_OK,
        response_of(payload, VerifierOutcome::TimedOut, entropy, issued_at).body
            matches BodyView::Session { success, artifact, condition } && !success
            && artifact.trust_score == 0 && condition == Condition::PlatformTimeout,
        response_of(payload, VerifierOutcome::Failed, entropy, issued_at).status == STATUS_OK,
        response_of(payload, VerifierOutcome::Failed, entropy, issued_at).body
            matches BodyView::Session { success, artifact, condition } && !success
            && artifact.trust_score == 0 && condition == Condition::VerifierFailure,
{
}

/// Turns a rejection into its response.
pub fn handle_rejection(rejection: &Rejection) -> (response: Response)
    ensures
        response@ == rejection_response(*rejection),
{
    match rejection {
        Rejection::Invalid(error) => Response {
            status: STATUS_BAD_REQUEST,
            body: ResponseBody::Error(ErrorResponse { success: false, error: error.reason() }),
        },
        Rejection::Internal => Response {
            status: STATUS_INTERNAL_SERVER_ERROR,
            body: ResponseBody::Error(ErrorResponse { success: false, error: "internal_error" }),
        },
    }
}

/// Wraps an issued session into its response.
pub fn session_reply(decision: TrustDecision, artifact: SessionArtifact) -> (response: Response)
    ensures
        response.status == STATUS_OK,
        response@.body == (BodyView::Session {
            success: decision@.trusted,
            artifact: artifact@,
            condition: decision@.condition,
        }),
{
    Response {
        status: STATUS_OK,
        body: ResponseBody::Session(
            SessionResponse {
                success: decision.is_trusted(),
                artifact,
                condition: decision.condition(),
            },
        ),
    }
}

/// Answers a validated request whose verifier came to `outcome`, from
/// entropy and a clock reading that the caller has drawn. This is the whole
/// way from evaluation to response, and it cannot fail.
pub fn conclude(
    request: &AttestationRequest,
    outcome: VerifierOutcome,
    entropy: &[u8; TOKEN_ENTROPY_BYTES],
    issued_at: u64,
) -> (response: Response)
    ensures
        response@ == session_response(request@.device_key, outcome, entropy@, issued_at),
{
    let decision = TrustDecision::from_outcome(outcome);
    let artifact = issue_with(decision, request.device_key(), entropy, issued_at);
    session_reply(decision, artifact)
}

/// Answers a validated request whose verifier came to `outcome`: draws the
/// token's entropy and reads the clock, then issues and wraps the session.
/// It rejects the request as an internal failure only when the system's
/// random number source fails.
///
/// This is the step for a caller that runs its verifiers itself, under a
/// timeout of its own, and hands in what came of it.
pub fn respond(request: &AttestationRequest, outcome: VerifierOutcome) -> (handled: Result<
    Response,
    Rejection,
>)
    ensures
        match handled {
            Ok(response) => exists|entropy: Seq<u8>, issued_at: u64|
                entropy.len() == TOKEN_ENTROPY_BYTES && response@ == #[trigger] session_response(
                    request@.device_key,
                    outcome,
                    entropy,
                    issued_at,
                ),
            Err(rejection) => rejection == Rejection::Internal,
        },
{
    let decision = TrustDecision::from_outcome(outcome);
    match issue(decision, request.device_key()) {
        Ok(artifact) => {
            let response = session_reply(decision, artifact);
            proof {
                let (entropy, issued_at) = choose|entropy: Seq<u8>, issued_at: u64|
                    entropy.len() == TOKEN_ENTROPY_BYTES && artifact@ == #[trigger] artifact_of(
                        decision@,
                        request@.device_key,
                        entropy,
                        issued_at,
                    );
                assert(response@ == session_response(
                    request@.device_key,
                    outcome,
                    entropy,
                    issued_at,
                ));
            }
            Ok(response)
        },
        Err(_) => Err(Rejection::Internal),
    }
}

/// Runs a payload through validation, evaluation and issuance.
///
/// A payload that fails validation is rejected with its error, and nothing
/// else has run. A valid one is answered with the session issued on the
/// decision of its platform's verifier, unless the system's random number
/// source fails, which rejects the request as an internal failure.
pub fn handle_verify<I: PlatformVerifier, A: PlatformVerifier, W: PlatformVerifier>(
    payload: AttestationPayload,
    registry: &Registry<I, A, W>,
) -> (handled: Result<Response, Rejection>)
    ensures
        match validation_of(payload@) {
            Err(error) => handled == Err::<Response, Rejection>(Rejection::Invalid(error)),
            Ok(()) => match handled {
                Ok(response) => exists|entropy: Seq<u8>, issued_at: u64|
                    entropy.len() == TOKEN_ENTROPY_BYTES && response@ == #[trigger] session_response(
                        payload@.device_key,
                        registry.outcome_for(request_of(payload@)),
                        entropy,
                        issued_at,
                    ),
                Err(rejection) => rejection == Rejection::Internal,
            },
        },
{
    match AttestationRequest::from_payload(payload) {
        Ok(request) => {
            let outcome = registry.dispatch(&request);
            respond(&request, outcome)
        },
        Err(error) => Err(Rejection::Invalid(error)),
    }
}

/// Answers a payload: [`handle_verify`], and [`handle_rejection`] for what
/// it rejects. Every payload gets a response.
pub fn serve<I: PlatformVerifier, A: PlatformVerifier, W: PlatformVerifier>(
    payload: AttestationPayload,
    registry: &Registry<I, A, W>,
) -> (response: Response)
    ensures
        match validation_of(payload@) {
            Err(error) => response@ == rejection_response(Rejection::Invalid(error)),
            Ok(()) => response@ == rejection_response(Rejection::Internal) || exists|
                entropy: Seq<u8>,
                issued_at: u64,
            |
                entropy.len() == TOKEN_ENTROPY_BYTES && response@ == #[trigger] response_of(
                    payload@,
                    registry.outcome_for(request_of(payload@)),
                    entropy,
                    issued_at,
                ),
        },
{
    let ghost received = payload@;
    match handle_verify(payload, registry) {
        Ok(response) => {
            proof {
                let (entropy, issued_at) = choose|entropy: Seq<u8>, issued_at: u64|
                    entropy.len() == TOKEN_ENTROPY_BYTES && response@ == #[trigger] session_response(
                        received.device_key,
                        registry.outcome_for(request_of(received)),
                        entropy,
                        issued_at,
                    );
                assert(response@ == response_of(
                    received,
                    registry.outcome_for(request_of(received)),
                    entropy,
                    issued_at,
                ));
            }
            response
        },
        Err(rejection) => handle_rejection(&rejection),
    }
}

} // verus!
