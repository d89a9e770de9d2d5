//! Turning a PEM certificate chain and a PEM private key into the identity a
//! TLS endpoint presents.

use vstd::prelude::*;
use std::sync::Arc;
use rustls::pki_types::{
    CertificateDer, PrivateKeyDer, PrivatePkcs1KeyDer, PrivatePkcs8KeyDer, PrivateSec1KeyDer,
};
use rustls::sign::{CertifiedKey, SigningKey};
use crate::error::TlsError;
use crate::pem::{
    pem_certificates, pem_private_key, read_pem_certificates, read_pem_private_key, PrivateKey,
    PrivateKeyFormat,
};

verus! {

/// Makes `rustls::sign::CertifiedKey` known to the verifier as an opaque type.
#[verifier::external_type_specification]
#[verifier::external_body]
pub struct ExCertifiedKey(CertifiedKey);

/// A key able to sign TLS handshakes: the `Arc<dyn rustls::sign::SigningKey>`
/// made by `any_supported_type`. Only `signing_key` makes one and only
/// `certified_key` takes it; its public key is described by
/// `signer_public_key`.
#[verifier::external_body]
struct SigningKeyHandle {
    key: Arc<dyn SigningKey>,
}

/// The DER `SubjectPublicKeyInfo` of the signing key that `rustls` makes
/// from the private key of the given encoding and DER bytes, or `None` when
/// the key is none of RSA, ECDSA or EdDSA.
pub uninterp spec fn signing_public_key(format: PrivateKeyFormat, der: Seq<u8>) -> Option<Seq<u8>>;

/// Whether `rustls` makes an ECDSA signing key of the private key of the
/// given encoding and DER bytes: the key is not read as an RSA key, and is
/// read as an ECDSA P-256 or P-384 key.
pub uninterp spec fn ecdsa_signing_key(format: PrivateKeyFormat, der: Seq<u8>) -> bool;

/// The public key (DER `SubjectPublicKeyInfo`) that the signing key held by
/// `handle` reports.
pub uninterp spec fn signer_public_key(handle: SigningKeyHandle) -> Option<Seq<u8>>;

/// The certificate chain held by an identity, DER certificates, end entity
/// first.
pub uninterp spec fn certified_key_chain(identity: CertifiedKey) -> Seq<Seq<u8>>;

/// The public key (DER `SubjectPublicKeyInfo`) that the signing key of an
/// identity reports.
pub uninterp spec fn certified_key_public_key(identity: CertifiedKey) -> Option<Seq<u8>>;

/// The `SubjectPublicKeyInfo` of the DER certificate `der`, or `None` when it
/// cannot be parsed as an end-entity certificate.
pub uninterp spec fn certificate_spki(der: Seq<u8>) -> Option<Seq<u8>>;

/// Whether a signing key with public key `public_key` belongs to the end-entity
/// certificate of `chain`: the key reports its public key, the chain is not
/// empty, and its first certificate parses and carries that same key.
pub open spec fn public_key_matches_chain(chain: Seq<Seq<u8>>, public_key: Option<Seq<u8>>) -> bool {
    &&& public_key is Some
    &&& chain.len() > 0
    &&& certificate_spki(chain[0]) == public_key
}

/// Whether the private key (encoding and DER bytes) belongs to the
/// end-entity certificate of `chain`.
pub open spec fn key_matches_certificate(
    chain: Seq<Seq<u8>>,
    key: (PrivateKeyFormat, Seq<u8>),
) -> bool {
    public_key_matches_chain(chain, signing_public_key(key.0, key.1))
}

/// Calls `rustls::crypto::ring::sign::any_supported_type` on the key. The
/// contract claims that a key obtained this way reports the public key
/// `signing_public_key` names (every `ring` signing key reports one), so
/// that it fails when that name is `None`. It tries RSA, then ECDSA, then
/// EdDSA; only an ECDSA key, once its bytes are read, draws on the system
/// random generator, and fails when that does. So success is claimed only
/// for a supported key that `rustls` does not make an ECDSA key of.
#[verifier::external_body]
fn signing_key(key: &PrivateKey) -> (r: Result<SigningKeyHandle, rustls::Error>)
    ensures
        r is Ok ==> signing_public_key(key@.0, key@.1) is Some,
        signing_public_key(key@.0, key@.1) is Some && !ecdsa_signing_key(key@.0, key@.1) ==> r is Ok,
        r is Ok ==> signer_public_key(r->Ok_0) == signing_public_key(key@.0, key@.1),
{
    let der: PrivateKeyDer<'static> = match key.format {
        PrivateKeyFormat::Pkcs1 => PrivatePkcs1KeyDer::from(key.der.clone()).into(),
        PrivateKeyFormat::Sec1 => PrivateSec1KeyDer::from(key.der.clone()).into(),
        PrivateKeyFormat::Pkcs8 => PrivatePkcs8KeyDer::from(key.der.clone()).into(),
    };
    rustls::crypto::ring::sign::any_supported_type(&der).map(|key| SigningKeyHandle { key })
}

/// Calls `CertifiedKey::new` with the chain (DER certificates, end entity
/// first) and the signing key. As the source shows, the identity holds that
/// chain as it is and that signing key.
#[verifier::external_body]
fn certified_key(chain: Vec<Vec<u8>>, key: SigningKeyHandle) -> (r: CertifiedKey)
    ensures
        certified_key_chain(r) == chain@.map_values(|c: Vec<u8>| c@),
        certified_key_public_key(r) == signer_public_key(key),
{
    CertifiedKey::new(chain.into_iter().map(CertificateDer::from).collect(), key.key)
}

/// Calls `CertifiedKey::keys_match`. As the source shows, it succeeds
/// exactly when the signing key reports a public key, the chain is not
/// empty, and the first certificate parses and carries that public key.
#[verifier::external_body]
fn keys_match(identity: &CertifiedKey) -> (r: Result<(), rustls::Error>)
    ensures
        r is Ok <==> (certified_key_public_key(*identity) is Some && certified_key_chain(
            *identity,
        ).len() > 0 && certificate_spki(certified_key_chain(*identity)[0])
            == certified_key_public_key(*identity)),
{
    identity.keys_match()
}

/// Whether the identity made of the PEM texts reaches the signing-key step:
/// the certificate text is well-formed, and the key text is well-formed and
/// holds a key.
pub open spec fn identity_reaches_signing(cert_pem: Seq<u8>, key_pem: Seq<u8>) -> bool {
    &&& pem_certificates(cert_pem) is Some
    &&& pem_private_key(key_pem) matches Some(Some(_))
}

/// The certificate chain read from the PEM text of an identity's certificate.
pub open spec fn pem_chain(cert_pem: Seq<u8>) -> Seq<Seq<u8>> {
    pem_certificates(cert_pem)->Some_0
}

/// The private key read from the PEM text of an identity's key.
pub open spec fn pem_key(key_pem: Seq<u8>) -> (PrivateKeyFormat, Seq<u8>) {
    pem_private_key(key_pem)->Some_0->Some_0
}

/// Builds the identity presented by a TLS endpoint from the PEM text of its
/// certificate chain and the PEM text of its private key. The steps fail in
/// this order: the certificate text is not well-formed; the key text is not
/// well-formed; it holds no private key; no signing key can be made of it;
/// the key does not belong to the end-entity certificate (which includes a
/// text without certificates). Making the signing key fails only for a key
/// that is none of RSA, ECDSA or EdDSA, or for an ECDSA key when the system
/// random generator fails. An identity that is returned holds the
/// certificates of the text, in order, and a signing key with the public key
/// of that private key, which matches the end-entity certificate.
pub fn load_certified_key(cert_pem: &[u8], key_pem: &[u8]) -> (r: Result<CertifiedKey, TlsError>)
    ensures
        pem_certificates(cert_pem@) is None <==> r matches Err(TlsError::CertificatePem(_)),
        (pem_certificates(cert_pem@) is Some && pem_private_key(key_pem@) is None) <==> r matches Err(
            TlsError::PrivateKeyPem(_),
        ),
        (pem_certificates(cert_pem@) is Some && pem_private_key(key_pem@) == Some(
            None::<(PrivateKeyFormat, Seq<u8>)>,
        )) <==> r matches Err(TlsError::NoPrivateKey),
        r matches Err(TlsError::UnsupportedPrivateKey(_)) ==> identity_reaches_signing(
            cert_pem@,
            key_pem@,
        ),
        identity_reaches_signing(cert_pem@, key_pem@) && signing_public_key(
            pem_key(key_pem@).0,
            pem_key(key_pem@).1,
        ) is None ==> (r matches Err(TlsError::UnsupportedPrivateKey(_))),
        identity_reaches_signing(cert_pem@, key_pem@) && signing_public_key(
            pem_key(key_pem@).0,
            pem_key(key_pem@).1,
        ) is Some && !ecdsa_signing_key(pem_key(key_pem@).0, pem_key(key_pem@).1) ==> !(r matches Err(
            TlsError::UnsupportedPrivateKey(_),
        )),
        r matches Err(TlsError::KeyMismatch(_)) ==> identity_reaches_signing(cert_pem@, key_pem@)
            && !key_matches_certificate(pem_chain(cert_pem@), pem_key(key_pem@)),
        identity_reaches_signing(cert_pem@, key_pem@) && !key_matches_certificate(
            pem_chain(cert_pem@),
            pem_key(key_pem@),
        ) && !(r matches Err(TlsError::UnsupportedPrivateKey(_))) ==> (r matches Err(
            TlsError::KeyMismatch(_),
        )),
        identity_reaches_signing(cert_pem@, key_pem@) && key_matches_certificate(
            pem_chain(cert_pem@),
            pem_key(key_pem@),
        ) && !(r matches Err(TlsError::UnsupportedPrivateKey(_))) ==> r is Ok,
        r matches Ok(identity) ==> {
            &&& identity_reaches_signing(cert_pem@, key_pem@)
            &&& certified_key_chain(identity) == pem_chain(cert_pem@)
            &&& certified_key_chain(identity).len() > 0
            &&& certified_key_public_key(identity) == signing_public_key(
                pem_key(key_pem@).0,
                pem_key(key_pem@).1,
            )
            &&& key_matches_certificate(pem_chain(cert_pem@), pem_key(key_pem@))
        },
        !(r matches Err(TlsError::PartialClientIdentity)),
        !(r matches Err(TlsError::CaCertificatePem(_))),
        !(r matches Err(TlsError::CaCertificateRejected(_))),
        !(r matches Err(TlsError::EmptyCaStore)),
        !(r matches Err(TlsError::NoClientCaAnchor(_))),
{
    let chain = match read_pem_certificates(cert_pem) {
        Ok(chain) => chain,
        Err(e) => return Err(TlsError::CertificatePem(e)),
    };
    let key = match read_pem_private_key(key_pem) {
        Ok(Some(key)) => key,
        Ok(None) => return Err(TlsError::NoPrivateKey),
        Err(e) => return Err(TlsError::PrivateKeyPem(e)),
    };
    let signer = match signing_key(&key) {
        Ok(signer) => signer,
        Err(e) => return Err(TlsError::UnsupportedPrivateKey(e)),
    };
    let identity = certified_key(chain, signer);
    match keys_match(&identity) {
        Ok(()) => Ok(identity),
        Err(e) => Err(TlsError::KeyMismatch(e)),
    }
}

/// A loaded identity holds the whole certificate chain of its PEM text, in
/// order (end entity first, then the intermediates), with a signing key
/// whose public key is that of the private key of the key text, and that
/// key belongs to the first certificate.
pub proof fn law_loaded_identity_holds_pem_chain(
    cert_pem: &[u8],
    key_pem: &[u8],
    r: Result<CertifiedKey, TlsError>,
)
    requires
        call_ensures(load_certified_key, (cert_pem, key_pem), r),
        r is Ok,
    ensures
        pem_certificates(cert_pem@) is Some,
        pem_private_key(key_pem@) matches Some(Some(_)),
        certified_key_chain(r->Ok_0) == pem_certificates(cert_pem@)->Some_0,
        certified_key_chain(r->Ok_0).len() > 0,
        certified_key_public_key(r->Ok_0) is Some,
        certified_key_public_key(r->Ok_0) == signing_public_key(
            pem_private_key(key_pem@)->Some_0->Some_0.0,
            pem_private_key(key_pem@)->Some_0->Some_0.1,
        ),
        certificate_spki(pem_certificates(cert_pem@)->Some_0[0]) == certified_key_public_key(
            r->Ok_0,
        ),
{
}

} // verus!
