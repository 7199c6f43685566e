use vstd::prelude::*;
use crate::algorithm::{Algorithm, Mac};
use crate::backend::{Backend, Session};
use crate::key_scope::{
    adds_no_key, hash_with_key, key_scoped, outcome_of, releases_every_key, Outcome,
};
use crate::status::{ErrorKind, Status};
use crate::truncation::{
    be_bytes, checked_truncation, lemma_digest_of_algorithm_fits, lemma_truncated_range, to_be_bytes,
    truncated, window_fits,
};

verus! {

/// The keyed hash that the calculator uses for an algorithm, if it has one.
pub open spec fn spec_calculator_mac(algorithm: Algorithm) -> Option<Mac> {
    match algorithm {
        Algorithm::Sha1 => Some(Mac::HmacSha1),
        Algorithm::Sha256 => Some(Mac::HmacSha256),
        Algorithm::Sha512 => None,
    }
}

/// The keyed hash that the calculator uses for an algorithm, if it has one.
#[verifier::when_used_as_spec(spec_calculator_mac)]
pub fn calculator_mac(algorithm: Algorithm) -> (mac: Option<Mac>)
    ensures
        mac == spec_calculator_mac(algorithm),
{
    match algorithm {
        Algorithm::Sha1 => Some(Mac::HmacSha1),
        Algorithm::Sha256 => Some(Mac::HmacSha256),
        Algorithm::Sha512 => None,
    }
}

/// The code that a key-scoped keyed hash amounts to: the truncated value of
/// the digest, most significant byte first.
pub open spec fn code_of(outcome: Outcome) -> Result<Seq<u8>, Status> {
    match outcome {
        Err(status) => Err(status),
        Ok(None) => Err(Status::UnspecifiedPersistentExecutionError),
        Ok(Some(digest)) => if window_fits(digest) {
            Ok(be_bytes(truncated(digest)))
        } else {
            Err(Status::UnspecifiedPersistentExecutionError)
        },
    }
}

/// A digest as long as the algorithm prescribes always yields a code, and
/// the code spells a value below 2^31.
pub proof fn lemma_full_digest_yields_code(algorithm: Algorithm, digest: Seq<u8>)
    requires
        digest.len() == algorithm.digest_size(),
    ensures
        code_of(Ok(Some(digest))) == Ok::<Seq<u8>, Status>(be_bytes(truncated(digest))),
        0 <= truncated(digest) <= 0x7fff_ffff,
        be_bytes(truncated(digest))[0] < 0x80,
{
    lemma_digest_of_algorithm_fits(algorithm, digest);
    lemma_truncated_range(digest);
}

/// The signature that a key-scoped keyed hash amounts to: the digest as it came.
pub open spec fn signature_of(outcome: Outcome) -> Result<Seq<u8>, Status> {
    match outcome {
        Err(status) => Err(status),
        Ok(None) => Err(Status::UnspecifiedPersistentExecutionError),
        Ok(Some(digest)) => Ok(digest),
    }
}

/// The bytes of a code, where there is one.
pub open spec fn code_view(result: Result<[u8; 4], Status>) -> Result<Seq<u8>, Status> {
    match result {
        Ok(code) => Ok(code@),
        Err(status) => Err(status),
    }
}

/// The bytes of a signature, where there is one.
pub open spec fn signature_view(result: Result<Vec<u8>, Status>) -> Result<Seq<u8>, Status> {
    match result {
        Ok(signature) => Ok(signature@),
        Err(status) => Err(status),
    }
}

/// Turns what `hash_with_key` reported into a four-byte code.
///
/// A digest whose last byte points the window past its end counts as a
/// failed computation.
pub fn code_from(scoped: Result<Option<Vec<u8>>, Status>) -> (result: Result<[u8; 4], Status>)
    ensures
        code_view(result) == code_of(outcome_of(scoped)),
{
    match scoped {
        Err(status) => Err(status),
        Ok(None) => Err(Status::UnspecifiedPersistentExecutionError),
        Ok(Some(digest)) => match checked_truncation(digest.as_slice()) {
            Some(value) => Ok(to_be_bytes(value)),
            None => Err(Status::UnspecifiedPersistentExecutionError),
        },
    }
}

/// Turns what `hash_with_key` reported into a raw signature.
pub fn signature_from(scoped: Result<Option<Vec<u8>>, Status>) -> (result: Result<Vec<u8>, Status>)
    ensures
        signature_view(result) == signature_of(outcome_of(scoped)),
{
    match scoped {
        Err(status) => Err(status),
        Ok(None) => Err(Status::UnspecifiedPersistentExecutionError),
        Ok(Some(digest)) => Ok(digest),
    }
}

/// The core calculation.
///
/// HOTP is defined over HMAC-SHA1 only; TOTP also admits HMAC-SHA256 and
/// HMAC-SHA512, of which the last is not on offer. An algorithm without a
/// keyed hash is refused before the backend is asked anything. Otherwise the
/// challenge is hashed under the secret, inside a key scope, and the digest
/// is truncated to 31 bits and encoded most significant byte first.
pub fn calculate<B: Backend>(
    session: &mut Session<B>,
    algorithm: Algorithm,
    challenge: &[u8],
    key: &[u8],
) -> (result: Result<[u8; 4], Status>)
    ensures
        calculator_mac(algorithm) is None ==> {
            &&& result == Err::<[u8; 4], Status>(Status::FunctionNotSupported)
            &&& result matches Err(status) && status.kind() == ErrorKind::AlgorithmUnsupported
            &&& final(session).calls() == old(session).calls()
        },
        calculator_mac(algorithm) matches Some(mac) ==> exists|outcome: Outcome|
            {
                &&& #[trigger] key_scoped(
                    old(session).calls(),
                    final(session).calls(),
                    key@,
                    mac,
                    challenge@,
                    outcome,
                )
                &&& code_view(result) == code_of(outcome)
            },
        releases_every_key(old(session).calls(), final(session).calls()),
        adds_no_key(old(session).calls(), final(session).calls()),
{
    match calculator_mac(algorithm) {
        None => Err(Status::FunctionNotSupported),
        Some(mac) => {
            let scoped = hash_with_key(session, key, mac, challenge);
            code_from(scoped)
        },
    }
}

/// Challenge-response: the raw HMAC-SHA1 of the challenge under the secret.
///
/// Any other algorithm is refused before the backend is asked anything.
pub fn hmac_challenge<B: Backend>(
    session: &mut Session<B>,
    algorithm: Algorithm,
    challenge: &[u8],
    key: &[u8],
) -> (result: Result<Vec<u8>, Status>)
    ensures
        algorithm != Algorithm::Sha1 ==> {
            &&& signature_view(result) == Err::<Seq<u8>, Status>(
                Status::InstructionNotSupportedOrInvalid,
            )
            &&& result matches Err(status) && status.kind() == ErrorKind::AlgorithmUnsupported
            &&& final(session).calls() == old(session).calls()
        },
        algorithm == Algorithm::Sha1 ==> exists|outcome: Outcome|
            {
                &&& #[trigger] key_scoped(
                    old(session).calls(),
                    final(session).calls(),
                    key@,
                    Mac::HmacSha1,
                    challenge@,
                    outcome,
                )
                &&& signature_view(result) == signature_of(outcome)
            },
        releases_every_key(old(session).calls(), final(session).calls()),
        adds_no_key(old(session).calls(), final(session).calls()),
{
    match algorithm {
        Algorithm::Sha1 => {
            let scoped = hash_with_key(session, key, Mac::HmacSha1, challenge);
            signature_from(scoped)
        },
        _ => Err(Status::InstructionNotSupportedOrInvalid),
    }
}

} // verus!
