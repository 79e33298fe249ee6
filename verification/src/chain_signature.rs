//! The request half of the external-randomness exchange: the payload
//! sent to the remote signer that the engine uses as its randomness
//! authority.

use vstd::prelude::*;
use crate::hex_codec::{hex_encode, hex_of};

verus! {

/// The payload handed to the signer, tagged with the signature scheme
/// it should be signed under.
#[derive(Clone, PartialEq, Eq, Debug)]
pub enum Payload {
    Ecdsa(String),
    Eddsa(String),
}

/// A complete signing request: the payload, a derivation path that
/// keeps callers' randomness independent, and the signer's domain for
/// the chosen scheme.
#[derive(Clone, PartialEq, Eq, Debug)]
pub struct SignRequest {
    pub payload_v2: Payload,
    pub path: String,
    pub domain_id: u64,
}

/// Builds the signing request for one batch: the seed is hex-encoded
/// into the payload, and the scheme picks the payload variant together
/// with its matching domain — 1 for EdDSA, 0 otherwise.
pub fn sign_request_for(path: String, seed: &Vec<u8>, use_eddsa: bool) -> (r: SignRequest)
    ensures
        r.path@ == path@,
        r.domain_id == if use_eddsa { 1int } else { 0int },
        use_eddsa ==> (r.payload_v2 matches Payload::Eddsa(p) && p@ == hex_of(seed@)),
        !use_eddsa ==> (r.payload_v2 matches Payload::Ecdsa(p) && p@ == hex_of(seed@)),
{
    let payload = hex_encode(seed);
    if use_eddsa {
        SignRequest { payload_v2: Payload::Eddsa(payload), path, domain_id: 1 }
    } else {
        SignRequest { payload_v2: Payload::Ecdsa(payload), path, domain_id: 0 }
    }
}

} // verus!
