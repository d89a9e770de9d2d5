//! Reading certificates and private keys out of PEM text, through
//! `rustls_pemfile`.

use vstd::prelude::*;
use rustls::pki_types::PrivateKeyDer;

verus! {

/// The encodings in which a private key may be stored.
#[derive(PartialEq, Eq, Structural, Clone, Copy, Debug)]
pub enum PrivateKeyFormat {
    /// An RSA key as in PKCS #1 ("RSA PRIVATE KEY").
    Pkcs1,
    /// An elliptic-curve key as in SEC 1 ("EC PRIVATE KEY").
    Sec1,
    /// A key of any algorithm as in PKCS #8 ("PRIVATE KEY").
    Pkcs8,
}

/// A DER-encoded private key and its encoding.
pub struct PrivateKey {
    pub format: PrivateKeyFormat,
    pub der: Vec<u8>,
}

impl View for PrivateKey {
    type V = (PrivateKeyFormat, Seq<u8>);

    open spec fn view(&self) -> (PrivateKeyFormat, Seq<u8>) {
        (self.format, self.der@)
    }
}

/// The DER encodings of the certificates in the PEM text `pem`, in order,
/// or `None` when the text is not well-formed PEM. Sections of other kinds
/// are skipped.
pub uninterp spec fn pem_certificates(pem: Seq<u8>) -> Option<Seq<Seq<u8>>>;

/// The first private key in the PEM text `pem` (`Some(None)` when it holds
/// none), or `None` when the text is not well-formed PEM up to that key.
pub uninterp spec fn pem_private_key(pem: Seq<u8>) -> Option<Option<(PrivateKeyFormat, Seq<u8>)>>;

/// Calls `rustls_pemfile::certs` on `pem` and collects the certificates,
/// stopping at the first error. The contract claims that the outcome is
/// `pem_certificates(pem)` (each certificate taken as its DER bytes), and,
/// as the source shows, that text without any byte yields no certificate.
#[verifier::external_body]
pub(crate) fn read_pem_certificates(pem: &[u8]) -> (r: Result<Vec<Vec<u8>>, std::io::Error>)
    ensures
        r is Ok <==> pem_certificates(pem@) is Some,
        r matches Ok(certs) ==> certs@.map_values(|c: Vec<u8>| c@) == pem_certificates(pem@).unwrap(),
        pem@.len() == 0 ==> r is Ok && r->Ok_0@.len() == 0,
{
    let mut reader = pem;
    rustls_pemfile::certs(&mut reader)
        .map(|cert| cert.map(|der| der.as_ref().to_vec()))
        .collect()
}

/// Calls `rustls_pemfile::private_key` on `pem`. The contract claims that
/// the outcome is `pem_private_key(pem)`, the key taken as its encoding and
/// DER bytes, and, as the source shows, that text without any byte holds no
/// key. `PrivateKeyDer` is marked non-exhaustive, so the conversion needs a
/// last arm; `private_key` only ever yields the three encodings above (its
/// source builds the key from a PKCS #1, SEC 1 or PKCS #8 section), so that
/// arm is never taken; were it taken, it would report invalid data.
#[verifier::external_body]
pub(crate) fn read_pem_private_key(pem: &[u8]) -> (r: Result<Option<PrivateKey>, std::io::Error>)
    ensures
        r is Ok <==> pem_private_key(pem@) is Some,
        r matches Ok(found) ==> pem_private_key(pem@) == Some(
            match found {
                Some(key) => Some(key@),
                None => None,
            },
        ),
        pem@.len() == 0 ==> r is Ok && r->Ok_0 is None,
{
    let mut reader = pem;
    Ok(match rustls_pemfile::private_key(&mut reader)? {
        None => None,
        Some(PrivateKeyDer::Pkcs1(k)) => Some(PrivateKey { format: PrivateKeyFormat::Pkcs1, der: k.secret_pkcs1_der().to_vec() }),
        Some(PrivateKeyDer::Sec1(k)) => Some(PrivateKey { format: PrivateKeyFormat::Sec1, der: k.secret_sec1_der().to_vec() }),
        Some(PrivateKeyDer::Pkcs8(k)) => Some(PrivateKey { format: PrivateKeyFormat::Pkcs8, der: k.secret_pkcs8_der().to_vec() }),
        Some(_) => return Err(std::io::Error::from(std::io::ErrorKind::InvalidData)),
    })
}

} // verus!
