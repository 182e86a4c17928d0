//! Ephemeral TLS identity material for a publicly visible session.
//!
//! Going public generates a fresh self-signed certificate scoped to the
//! names the host will be reached by.  The certificate's digests are kept as
//! plain strings so they can be shown to the user and shared out-of-band
//! with a joining peer, which pins them instead of validating a certificate
//! chain.  The identity is discarded when the session goes private again and
//! is never persisted.

use vstd::prelude::*;

verus! {

#[verifier::external_type_specification]
#[verifier::external_body]
pub struct ExIdentity(aeronet_webtransport::wtransport::Identity);

/// The identity of a public listener: the TLS identity itself, opaque, the
/// two base-64 digests of its certificate as plain strings, and the subject
/// names the certificate covers.
pub struct NetworkIdentity {
    pub identity: aeronet_webtransport::wtransport::Identity,
    pub spki_fingerprint: String,
    pub cert_hash: String,
    pub subject_names: Vec<String>,
}

impl NetworkIdentity {
    /// Both digests encode a 32-byte SHA-256 digest in base 64, so each is
    /// 44 characters long; in particular neither is empty.
    pub open spec fn wf(self) -> bool {
        self.spki_fingerprint@.len() == 44 && self.cert_hash@.len() == 44
    }
}

/// Relies on `wtransport::Identity::self_signed`: generates a fresh
/// self-signed TLS identity covering the given subject names.  The
/// certificate and key depend on fresh randomness, so nothing is promised
/// of the identity itself.  The call's only error path is a subject name
/// that is neither an IP address nor an ASCII (IA5) string, so it succeeds
/// whenever every name is ASCII.
#[verifier::external_body]
fn self_signed_identity(names: &Vec<String>) -> (r: Result<
    aeronet_webtransport::wtransport::Identity,
    String,
>)
    ensures
        (forall|i: int| 0 <= i < names@.len() ==> vstd::utf8::is_ascii_chars(
            #[trigger] names@[i]@,
        )) ==> r is Ok,
{
    match aeronet_webtransport::wtransport::Identity::self_signed(names.iter()) {
        Ok(id) => Ok(id),
        Err(e) => Err(format!("{e}")),
    }
}

/// Relies on `Identity::certificate_chain`, `cert::spki_fingerprint_b64` and
/// `cert::hash_to_b64` of aeronet_webtransport: the base-64 SPKI fingerprint
/// and certificate hash of the identity's first certificate.  Both encode a
/// 32-byte SHA-256 digest, so each is 44 characters long.
#[verifier::external_body]
fn identity_digests(id: &aeronet_webtransport::wtransport::Identity) -> (r: Option<
    (String, String),
>)
    ensures
        r matches Some(d) ==> d.0@.len() == 44 && d.1@.len() == 44,
{
    let cert = id.certificate_chain().as_slice().first()?;
    let fingerprint = aeronet_webtransport::cert::spki_fingerprint_b64(cert)?;
    let hash = aeronet_webtransport::cert::hash_to_b64(cert.hash());
    Some((fingerprint, hash))
}

/// A copy of a list of names, value for value.
fn clone_names(names: &Vec<String>) -> (r: Vec<String>)
    ensures
        r@.len() == names@.len(),
        forall|i: int| 0 <= i < names@.len() ==> r@[i]@ == #[trigger] names@[i]@,
{
    let mut out: Vec<String> = Vec::new();
    let n = names.len();
    let mut i: usize = 0;
    while i < n
        invariant
            i <= n == names@.len(),
            out@.len() == i,
            forall|j: int| 0 <= j < i ==> out@[j]@ == #[trigger] names@[j]@,
        decreases n - i,
    {
        out.push(names[i].clone());
        i = i + 1;
    }
    out
}

impl NetworkIdentity {
    /// Generates a fresh identity scoped to the given subject names.
    ///
    /// On success the digests are filled in and the names are kept as the
    /// identity's validity scope; on failure the error carries a non-empty
    /// description, and no identity exists.
    pub fn generate(names: &Vec<String>) -> (r: Result<NetworkIdentity, String>)
        ensures
            r matches Ok(id) ==> id.wf() && id.subject_names@.len() == names@.len() && (forall|
                i: int,
            | 0 <= i < names@.len() ==> id.subject_names@[i]@ == #[trigger] names@[i]@),
            r matches Err(m) ==> m@.len() > 0,
            (forall|i: int| 0 <= i < names@.len() ==> vstd::utf8::is_ascii_chars(
                #[trigger] names@[i]@,
            )) ==> (r is Ok || (r matches Err(m) && m@ == "certificate digest unavailable"@)),
    {
        proof {
            reveal_strlit("identity generation failed: ");
            reveal_strlit("certificate digest unavailable");
        }
        match self_signed_identity(names) {
            Ok(identity) => match identity_digests(&identity) {
                Some((spki_fingerprint, cert_hash)) => {
                    let subject_names = clone_names(names);
                    Ok(NetworkIdentity { identity, spki_fingerprint, cert_hash, subject_names })
                },
                None => Err(String::from_str("certificate digest unavailable")),
            },
            Err(e) => {
                let msg = String::from_str("identity generation failed: ").concat(e.as_str());
                Err(msg)
            },
        }
    }
}

/// What `cert::hash_from_b64` decodes a string to: the 32 digest bytes when
/// the string is the standard base-64 encoding of exactly 32 bytes, nothing
/// otherwise.
pub uninterp spec fn b64_digest(s: Seq<char>) -> Option<Seq<u8>>;

/// Relies on `cert::hash_from_b64` of aeronet_webtransport: decodes a
/// base-64 certificate digest into its 32 bytes.  The result depends on the
/// string alone.
#[verifier::external_body]
fn decode_cert_hash(s: &str) -> (r: Option<Vec<u8>>)
    ensures
        match r {
            Some(v) => b64_digest(s@) == Some(v@) && v@.len() == 32,
            None => b64_digest(s@) is None,
        },
{
    match aeronet_webtransport::cert::hash_from_b64(s) {
        Ok(hash) => Some(hash.to_vec()),
        Err(_) => None,
    }
}

/// How a client validates the server's certificate.
pub enum SecurityMode {
    /// No certificate validation: a development-mode affordance, taken only
    /// when no expected digest is configured.
    NoCertValidation,
    /// Pinned validation against the 32 digest bytes shared out-of-band.
    PinnedHash(Vec<u8>),
}

/// The certificate validation mode for a connection attempt.
///
/// An empty configured digest means no validation (development mode); a
/// non-empty one must decode as a base-64 certificate digest, which is then
/// pinned, and anything else is an error.
pub fn client_security(cert_hash: &str) -> (r: Result<SecurityMode, String>)
    ensures
        cert_hash@.len() == 0 ==> (r matches Ok(m) && m is NoCertValidation),
        cert_hash@.len() > 0 ==> match b64_digest(cert_hash@) {
            Some(d) => (r matches Ok(m) && m matches SecurityMode::PinnedHash(v) && v@ == d),
            None => r is Err,
        },
{
    proof {
        reveal_strlit("not a valid certificate digest");
    }
    if cert_hash.unicode_len() == 0 {
        return Ok(SecurityMode::NoCertValidation);
    }
    match decode_cert_hash(cert_hash) {
        Some(bytes) => Ok(SecurityMode::PinnedHash(bytes)),
        None => Err(String::from_str("not a valid certificate digest")),
    }
}

} // verus!
