//! The attestation request as it arrives: four strings, nothing checked yet.

use crate::text::str_eq;
use vstd::prelude::*;

verus! {

/// The platforms whose integrity tokens can be evaluated.
#[derive(Clone, Copy, Debug, PartialEq, Eq, Hash)]
pub enum Platform {
    Ios,
    Android,
    Web,
}

/// The wire tag of `platform`.
pub open spec fn tag_of(platform: Platform) -> Seq<char> {
    match platform {
        Platform::Ios => "ios"@,
        Platform::Android => "android"@,
        Platform::Web => "web"@,
    }
}

/// The platform that `tag` names on the wire, if any. Tags are matched
/// exactly: lower case, no surrounding whitespace.
pub open spec fn platform_of(tag: Seq<char>) -> Option<Platform> {
    if tag == "ios"@ {
        Some(Platform::Ios)
    } else if tag == "android"@ {
        Some(Platform::Android)
    } else if tag == "web"@ {
        Some(Platform::Web)
    } else {
        None
    }
}

/// Reading back the tag of a platform gives that platform.
pub proof fn lemma_tag_round_trip(platform: Platform)
    ensures
        platform_of(tag_of(platform)) == Some(platform),
{
    reveal_strlit("ios");
    reveal_strlit("android");
    reveal_strlit("web");
    assert("ios"@.len() == 3 && "android"@.len() == 7 && "web"@.len() == 3);
    assert("web"@[0] != "ios"@[0]);
}

impl Platform {
    /// Reads a wire tag.
    pub fn parse(tag: &str) -> (platform: Option<Platform>)
        ensures
            platform == platform_of(tag@),
    {
        if str_eq(tag, "ios") {
            Some(Platform::Ios)
        } else if str_eq(tag, "android") {
            Some(Platform::Android)
        } else if str_eq(tag, "web") {
            Some(Platform::Web)
        } else {
            None
        }
    }

    /// The wire tag of this platform.
    pub fn tag(&self) -> (tag: &'static str)
        ensures
            tag@ == tag_of(*self),
    {
        match self {
            Platform::Ios => "ios",
            Platform::Android => "android",
            Platform::Web => "web",
        }
    }
}

/// An attestation request as decoded from the wire. The platform is still
/// the tag that the client sent, so that an unknown one is reported by the
/// validator instead of being lost in decoding.
#[derive(Debug, PartialEq, Eq)]
pub struct AttestationPayload {
    pub platform: String,
    pub integrity_token: String,
    pub device_key: String,
    pub nonce: String,
}

/// What an [`AttestationPayload`] holds.
pub struct PayloadView {
    pub platform: Seq<char>,
    pub integrity_token: Seq<char>,
    pub device_key: Seq<char>,
    pub nonce: Seq<char>,
}

impl View for AttestationPayload {
    type V = PayloadView;

    open spec fn view(&self) -> PayloadView {
        PayloadView {
            platform: self.platform@,
            integrity_token: self.integrity_token@,
            device_key: self.device_key@,
            nonce: self.nonce@,
        }
    }
}

impl Clone for AttestationPayload {
    fn clone(&self) -> (copy: AttestationPayload)
        ensures
            copy@ == self@,
    {
        AttestationPayload {
            platform: self.platform.clone(),
            integrity_token: self.integrity_token.clone(),
            device_key: self.device_key.clone(),
            nonce: self.nonce.clone(),
        }
    }
}

} // verus!
