//! The session issuer: from a trust decision to a session token and a
//! nullifier by which a device is known again.

use crate::clock::current_timestamp;
use crate::digest::{sha256, sha256_digest};
use crate::entropy::os_random;
use crate::hex::{hex_encode, lemma_hex_encode_injective, to_hex};
use crate::trust::{DecisionView, TrustDecision, TrustScore};
use vstd::prelude::*;
use vstd::string::*;
use vstd::utf8::encode_utf8;

verus! {

/// The number of random bytes that go into one session token.
pub const TOKEN_ENTROPY_BYTES: usize = 16;

/// What a successful request is answered with. Nothing of it is kept here.
#[derive(Debug, PartialEq, Eq)]
pub struct SessionArtifact {
    /// The opaque session token.
    pub token: String,
    /// The trust that the decision put in the device.
    pub trust_score: TrustScore,
    /// The time of issuance, in seconds since the Unix epoch.
    pub issued_at: u64,
    /// The device's nullifier.
    pub nullifier: String,
}

/// What a [`SessionArtifact`] holds.
pub struct ArtifactView {
    pub token: Seq<char>,
    pub trust_score: nat,
    pub issued_at: nat,
    pub nullifier: Seq<char>,
}

impl View for SessionArtifact {
    type V = ArtifactView;

    open spec fn view(&self) -> ArtifactView {
        ArtifactView {
            token: self.token@,
            trust_score: self.trust_score@,
            issued_at: self.issued_at as nat,
            nullifier: self.nullifier@,
        }
    }
}

/// The session token made from `entropy`: a fixed prefix and the bytes in
/// hexadecimal. Nothing else goes into it, no clock and no counter.
pub open spec fn token_of(entropy: Seq<u8>) -> Seq<char> {
    "session-"@ + hex_encode(entropy)
}

/// The nullifier of a device: a fixed prefix and, in hexadecimal, the
/// SHA-256 digest of the device key in UTF-8. It depends on the key alone,
/// and on no state of the process.
pub open spec fn nullifier_of(device_key: Seq<char>) -> Seq<char> {
    "nullifier-"@ + hex_encode(sha256(encode_utf8(device_key)))
}

/// The artifact issued on `decision` for `device_key`, with `entropy` drawn
/// for the token and the clock reading `issued_at`.
pub open spec fn artifact_of(
    decision: DecisionView,
    device_key: Seq<char>,
    entropy: Seq<u8>,
    issued_at: u64,
) -> ArtifactView {
    ArtifactView {
        token: token_of(entropy),
        trust_score: decision.score,
        issued_at: issued_at as nat,
        nullifier: nullifier_of(device_key),
    }
}

/// Tokens made from different entropy differ.
pub proof fn lemma_token_injective(first: Seq<u8>, second: Seq<u8>)
    requires
        first != second,
    ensures
        token_of(first) != token_of(second),
{
    if token_of(first) == token_of(second) {
        let prefix = "session-"@;
        assert(token_of(first).subrange(prefix.len() as int, token_of(first).len() as int)
            =~= hex_encode(first));
        assert(token_of(second).subrange(prefix.len() as int, token_of(second).len() as int)
            =~= hex_encode(second));
        lemma_hex_encode_injective(first, second);
    }
}

/// Two issuances for one device key carry the same nullifier, whatever the
/// decisions, the entropy and the clock were; and their tokens differ as
/// soon as the entropy drawn for them does.
pub proof fn lemma_same_device_same_nullifier(
    device_key: Seq<char>,
    first_decision: DecisionView,
    first_entropy: Seq<u8>,
    first_issued_at: u64,
    second_decision: DecisionView,
    second_entropy: Seq<u8>,
    second_issued_at: u64,
)
    ensures
        artifact_of(first_decision, device_key, first_entropy, first_issued_at).nullifier
            == artifact_of(second_decision, device_key, second_entropy, second_issued_at).nullifier,
        first_entropy != second_entropy ==> artifact_of(
            first_decision,
            device_key,
            first_entropy,
            first_issued_at,
        ).token != artifact_of(
            second_decision,
            device_key,
            second_entropy,
            second_issued_at,
        ).token,
{
    if first_entropy != second_entropy {
        lemma_token_injective(first_entropy, second_entropy);
    }
}

/// The time of issuance is the clock reading that was handed in: it is
/// never before the epoch, and issuances keep the order of their readings.
pub proof fn lemma_issued_at_follows_clock(
    decision: DecisionView,
    device_key: Seq<char>,
    entropy: Seq<u8>,
    earlier: u64,
    later: u64,
)
    requires
        earlier <= later,
    ensures
        0 <= artifact_of(decision, device_key, entropy, earlier).issued_at,
        artifact_of(decision, device_key, entropy, earlier).issued_at <= artifact_of(
            decision,
            device_key,
            entropy,
            later,
        ).issued_at,
{
}

/// Why no artifact could be issued.
#[derive(Clone, Copy, Debug, PartialEq, Eq, Hash)]
pub enum IssueError {
    /// The system's random number source gave no bytes.
    EntropyUnavailable,
}

/// Computes the nullifier of a device.
pub fn nullifier_for(device_key: &str) -> (nullifier: String)
    ensures
        nullifier@ == nullifier_of(device_key@),
{
    let digest = sha256_digest(device_key.as_bytes());
    let mut nullifier = "nullifier-".to_owned();
    nullifier.append(to_hex(digest.as_slice()).as_str());
    nullifier
}

/// Issues the artifact for `decision` from entropy and a clock reading that
/// the caller has drawn. This cannot fail.
pub fn issue_with(
    decision: TrustDecision,
    device_key: &str,
    entropy: &[u8; TOKEN_ENTROPY_BYTES],
    issued_at: u64,
) -> (artifact: SessionArtifact)
    ensures
        artifact@ == artifact_of(decision@, device_key@, entropy@, issued_at),
{
    let mut token = "session-".to_owned();
    token.append(to_hex(entropy.as_slice()).as_str());
    SessionArtifact {
        token,
        trust_score: decision.score(),
        issued_at,
        nullifier: nullifier_for(device_key),
    }
}

/// Issues the artifact for `decision`: draws the token's entropy from the
/// system's random number source, reads the clock and calls [`issue_drawn`].
/// It fails only when the random number source does.
pub fn issue(decision: TrustDecision, device_key: &str) -> (issued: Result<
    SessionArtifact,
    IssueError,
>)
    ensures
        match issued {
            Ok(artifact) => exists|entropy: Seq<u8>, issued_at: u64|
                entropy.len() == TOKEN_ENTROPY_BYTES && artifact@ == #[trigger] artifact_of(
                    decision@,
                    device_key@,
                    entropy,
                    issued_at,
                ),
            Err(error) => error == IssueError::EntropyUnavailable,
        },
{
    let drawn = os_random::<TOKEN_ENTROPY_BYTES>();
    let issued_at = current_timestamp();
    issue_drawn(decision, device_key, drawn, issued_at)
}

/// Issues the artifact for `decision` from what a draw of entropy came to
/// and a clock reading. Entropy that was drawn is used as it is; a draw that
/// failed fails the issuance, whatever its error says.
pub fn issue_drawn(
    decision: TrustDecision,
    device_key: &str,
    drawn: Result<[u8; TOKEN_ENTROPY_BYTES], getrandom::Error>,
    issued_at: u64,
) -> (issued: Result<SessionArtifact, IssueError>)
    ensures
        match drawn {
            Ok(entropy) => issued matches Ok(artifact) && artifact@ == artifact_of(
                decision@,
                device_key@,
                entropy@,
                issued_at,
            ),
            Err(_) => issued matches Err(error) && error == IssueError::EntropyUnavailable,
        },
{
    match drawn {
        Ok(entropy) => Ok(issue_with(decision, device_key, &entropy, issued_at)),
        Err(_) => Err(IssueError::EntropyUnavailable),
    }
}

} // verus!
