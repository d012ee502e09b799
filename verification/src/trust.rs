//! The trust verifier: a downloaded artifact is accepted only when its
//! detached signature decodes, the signature verifies the bytes under
//! the configured public key, and the signed trusted comment names
//! exactly the version the update planned. The cryptographic work is
//! the `minisign` crate's, behind trusted wrappers; the sequencing and
//! the error taxonomy are verified here.

use vstd::prelude::*;
use crate::errors::Error;
use crate::version::{parsed_version, Version, VersionV};

verus! {

/// Whether `minisign::SignatureBox::from_string` accepts the text as a
/// signature container.
pub uninterp spec fn ms_sig_decodes(sig: Seq<char>) -> bool;

/// Whether `minisign::verify` accepts the data under the key (given in
/// its base64 form) and the signature container text.
pub uninterp spec fn ms_verified(pk: Seq<char>, sig: Seq<char>, data: Seq<u8>) -> bool;

/// What `minisign::SignatureBox::trusted_comment` yields for a decoded
/// signature container text.
pub uninterp spec fn ms_trusted_comment(sig: Seq<char>) -> Option<Seq<char>>;

/// Relies on `minisign::SignatureBox::from_string`: whether the text
/// decodes as a signature container.
#[verifier::external_body]
fn decode_ok(sig: &str) -> (r: bool)
    ensures
        r == ms_sig_decodes(sig@),
{
    minisign::SignatureBox::from_string(sig).is_ok()
}

/// Relies on `minisign::verify`, with the key decoded by
/// `minisign::PublicKey::from_base64` and the container decoded by
/// `minisign::SignatureBox::from_string`: whether the signature
/// verifies the data. An undecodable key or container never verifies.
#[verifier::external_body]
fn verify_bytes(pk: &str, sig: &str, data: &[u8]) -> (r: bool)
    ensures
        r == ms_verified(pk@, sig@, data@),
{
    let key = match minisign::PublicKey::from_base64(pk) {
        Ok(k) => k,
        Err(_) => {
            return false;
        },
    };
    let container = match minisign::SignatureBox::from_string(sig) {
        Ok(c) => c,
        Err(_) => {
            return false;
        },
    };
    minisign::verify(&key, &container, std::io::Cursor::new(data), true, false, true).is_ok()
}

/// Relies on `minisign::SignatureBox::trusted_comment`: the signed
/// comment of a decoded container, where there is one.
#[verifier::external_body]
fn trusted_comment_of(sig: &str) -> (r: Option<String>)
    ensures
        ms_sig_decodes(sig@) ==> match r {
            Some(c) => ms_trusted_comment(sig@) == Some(c@),
            None => ms_trusted_comment(sig@) is None,
        },
{
    match minisign::SignatureBox::from_string(sig) {
        Ok(container) => container.trusted_comment().ok(),
        Err(_) => None,
    }
}

/// An artifact is trusted exactly when the container decodes, the
/// signature verifies the bytes under the key, and the trusted comment
/// is the expected version.
pub open spec fn valid_artifact(
    pk: Seq<char>,
    data: Seq<u8>,
    sig: Seq<char>,
    expected: VersionV,
) -> bool {
    &&& ms_sig_decodes(sig)
    &&& ms_verified(pk, sig, data)
    &&& ms_trusted_comment(sig) matches Some(c)
    &&& parsed_version(ms_trusted_comment(sig)->Some_0) matches Some(v) && v == expected
}

/// The exact reason an artifact is rejected: each error class names
/// one — and only one — failing stage of the validation.
pub open spec fn verify_rejects(
    pk: Seq<char>,
    data: Seq<u8>,
    sig: Seq<char>,
    expected: VersionV,
    e: Error,
) -> bool {
    match e {
        Error::DecodeSignature => !ms_sig_decodes(sig),
        Error::InvalidSignature => ms_sig_decodes(sig) && !ms_verified(pk, sig, data),
        Error::InvalidTrustedComment => ms_sig_decodes(sig) && ms_verified(pk, sig, data)
            && ms_trusted_comment(sig) is None,
        Error::InvalidVersion { version } => ms_sig_decodes(sig) && ms_verified(pk, sig, data)
            && ms_trusted_comment(sig) == Some(version@) && parsed_version(version@) is None,
        Error::VersionMismatch { expected: want, comment } => ms_sig_decodes(sig) && ms_verified(
            pk,
            sig,
            data,
        ) && (ms_trusted_comment(sig) matches Some(c) && parsed_version(c) == Some(comment@))
            && want@ == expected && comment@ != expected,
        _ => false,
    }
}

/// Validate an artifact against its detached signature and the planned
/// version. Pure over the given bytes; returns exactly one error class
/// for each way the validation can fail.
pub fn verify(pk: &str, data: &[u8], sig: &str, expected: &Version) -> (r: Result<(), Error>)
    ensures
        r is Ok <==> valid_artifact(pk@, data@, sig@, expected@),
        match r {
            Ok(()) => true,
            Err(e) => verify_rejects(pk@, data@, sig@, expected@, e),
        },
{
    if !decode_ok(sig) {
        return Err(Error::DecodeSignature);
    }
    if !verify_bytes(pk, sig, data) {
        return Err(Error::InvalidSignature);
    }
    match trusted_comment_of(sig) {
        None => Err(Error::InvalidTrustedComment),
        Some(comment) => match Version::parse(comment.as_str()) {
            None => Err(Error::InvalidVersion { version: comment }),
            Some(got) => {
                if got == *expected {
                    Ok(())
                } else {
                    let want = Version {
                        major: expected.major,
                        minor: expected.minor,
                        patch: expected.patch,
                        pre: expected.pre.clone(),
                        build: expected.build.clone(),
                    };
                    proof {
                        assert(want@ =~= expected@);
                    }
                    Err(Error::VersionMismatch { expected: want, comment: got })
                }
            },
        },
    }
}

} // verus!
