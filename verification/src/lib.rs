//! Attestation verification pipeline: request validation, per-platform trust
//! evaluation and trust-scored session issuance, with the error-rejection
//! pathway.
//!
//! The pipeline is laid out as one typed value per stage: a
//! [`payload::AttestationPayload`] as received, a
//! [`validator::AttestationRequest`] once validated, a
//! [`trust::TrustDecision`] once evaluated, an [`issuer::SessionArtifact`]
//! once issued and a [`handler::Response`] to answer with. A payload that
//! fails validation ends in a [`handler::Rejection`] instead.
//!
//! Trust scores are held in basis points, not in floating point. What is
//! taken on trust is little: the trimming of std, the wall clock, the
//! operating system's random bytes and SHA-256, each behind one contract in
//! [`text`], [`clock`], [`entropy`] and [`digest`].

pub mod clock;
pub mod digest;
pub mod entropy;
pub mod handler;
pub mod hex;
pub mod issuer;
pub mod payload;
pub mod registry;
pub mod text;
pub mod trust;
pub mod validator;
