//! The validator: the checks a payload passes before any trust evaluation.

use crate::payload::{platform_of, AttestationPayload, PayloadView, Platform};
use crate::text::{is_blank, is_blank_str};
use vstd::prelude::*;

verus! {

/// Why a payload was turned away.
#[derive(Clone, Copy, Debug, PartialEq, Eq, Hash)]
pub enum ValidationError {
    MissingIntegrityToken,
    MissingDeviceKey,
    MissingNonce,
    UnknownPlatform,
}

/// The machine-readable reason that goes out with `error`.
pub open spec fn reason_of(error: ValidationError) -> Seq<char> {
    match error {
        ValidationError::MissingIntegrityToken => "missing_integrity_token"@,
        ValidationError::MissingDeviceKey => "missing_device_key"@,
        ValidationError::MissingNonce => "missing_nonce"@,
        ValidationError::UnknownPlatform => "unknown_platform"@,
    }
}

impl ValidationError {
    /// The machine-readable reason of this error.
    pub fn reason(&self) -> (reason: &'static str)
        ensures
            reason@ == reason_of(*self),
    {
        match self {
            ValidationError::MissingIntegrityToken => "missing_integrity_token",
            ValidationError::MissingDeviceKey => "missing_device_key",
            ValidationError::MissingNonce => "missing_nonce",
            ValidationError::UnknownPlatform => "unknown_platform",
        }
    }
}

/// The verdict on a payload. The checks run in a fixed order (integrity
/// token, device key, nonce, platform) and the first that fails is the one
/// reported.
pub open spec fn validation_of(payload: PayloadView) -> Result<(), ValidationError> {
    if is_blank(payload.integrity_token) {
        Err(ValidationError::MissingIntegrityToken)
    } else if is_blank(payload.device_key) {
        Err(ValidationError::MissingDeviceKey)
    } else if is_blank(payload.nonce) {
        Err(ValidationError::MissingNonce)
    } else if platform_of(payload.platform) is None {
        Err(ValidationError::UnknownPlatform)
    } else {
        Ok(())
    }
}

/// Checks a payload, changing nothing.
pub fn validate_payload(payload: &AttestationPayload) -> (verdict: Result<(), ValidationError>)
    ensures
        verdict == validation_of(payload@),
{
    if is_blank_str(payload.integrity_token.as_str()) {
        return Err(ValidationError::MissingIntegrityToken);
    }
    if is_blank_str(payload.device_key.as_str()) {
        return Err(ValidationError::MissingDeviceKey);
    }
    if is_blank_str(payload.nonce.as_str()) {
        return Err(ValidationError::MissingNonce);
    }
    match Platform::parse(payload.platform.as_str()) {
        Some(_) => Ok(()),
        None => Err(ValidationError::UnknownPlatform),
    }
}

/// A request that has passed validation: the platform is known and none of
/// the three strings is blank. The verifiers rely on this and check nothing
/// again.
#[derive(Debug, PartialEq, Eq)]
pub struct AttestationRequest {
    platform: Platform,
    integrity_token: String,
    device_key: String,
    nonce: String,
}

/// What an [`AttestationRequest`] holds.
pub struct RequestView {
    pub platform: Platform,
    pub integrity_token: Seq<char>,
    pub device_key: Seq<char>,
    pub nonce: Seq<char>,
}

/// What validation guarantees of a request.
pub open spec fn well_formed(request: RequestView) -> bool {
    &&& !is_blank(request.integrity_token)
    &&& !is_blank(request.device_key)
    &&& !is_blank(request.nonce)
}

/// The request that a valid payload stands for.
pub open spec fn request_of(payload: PayloadView) -> RequestView
    recommends
        validation_of(payload) is Ok,
{
    RequestView {
        platform: platform_of(payload.platform).unwrap(),
        integrity_token: payload.integrity_token,
        device_key: payload.device_key,
        nonce: payload.nonce,
    }
}

impl View for AttestationRequest {
    type V = RequestView;

    closed spec fn view(&self) -> RequestView {
        RequestView {
            platform: self.platform,
            integrity_token: self.integrity_token@,
            device_key: self.device_key@,
            nonce: self.nonce@,
        }
    }
}

impl Clone for AttestationRequest {
    fn clone(&self) -> (copy: AttestationRequest)
        ensures
            copy@ == self@,
    {
        proof {
            use_type_invariant(self);
        }
        AttestationRequest {
            platform: self.platform,
            integrity_token: self.integrity_token.clone(),
            device_key: self.device_key.clone(),
            nonce: self.nonce.clone(),
        }
    }
}

impl AttestationRequest {
    #[verifier::type_invariant]
    spec fn checked(self) -> bool {
        well_formed(self@)
    }

    /// Validates `payload` and, if it passes, turns it into a request.
    pub fn from_payload(payload: AttestationPayload) -> (accepted: Result<
        AttestationRequest,
        ValidationError,
    >)
        ensures
            match validation_of(payload@) {
                Ok(()) => accepted matches Ok(request) && request@ == request_of(payload@),
                Err(error) => accepted == Err::<AttestationRequest, ValidationError>(error),
            },
    {
        if is_blank_str(payload.integrity_token.as_str()) {
            return Err(ValidationError::MissingIntegrityToken);
        }
        if is_blank_str(payload.device_key.as_str()) {
            return Err(ValidationError::MissingDeviceKey);
        }
        if is_blank_str(payload.nonce.as_str()) {
            return Err(ValidationError::MissingNonce);
        }
        match Platform::parse(payload.platform.as_str()) {
            Some(platform) => Ok(
                AttestationRequest {
                    platform,
                    integrity_token: payload.integrity_token,
                    device_key: payload.device_key,
                    nonce: payload.nonce,
                },
            ),
            None => Err(ValidationError::UnknownPlatform),
        }
    }

    /// The platform to evaluate for.
    pub fn platform(&self) -> (platform: Platform)
        ensures
            platform == self@.platform,
    {
        self.platform
    }

    /// The platform's attestation blob.
    pub fn integrity_token(&self) -> (token: &str)
        ensures
            token@ == self@.integrity_token,
            !is_blank(token@),
    {
        proof {
            use_type_invariant(self);
        }
        self.integrity_token.as_str()
    }

    /// The device's public key.
    pub fn device_key(&self) -> (key: &str)
        ensures
            key@ == self@.device_key,
            !is_blank(key@),
    {
        proof {
            use_type_invariant(self);
        }
        self.device_key.as_str()
    }

    /// The freshness token.
    pub fn nonce(&self) -> (nonce: &str)
        ensures
            nonce@ == self@.nonce,
            !is_blank(nonce@),
    {
        proof {
            use_type_invariant(self);
        }
        self.nonce.as_str()
    }
}

} // verus!
