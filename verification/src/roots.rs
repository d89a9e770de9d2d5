//! Building stores of trusted CA certificates from PEM text, and the
//! verifier a server checks client certificates with.

use vstd::prelude::*;
use std::sync::Arc;
use rustls::crypto::CryptoProvider;
use rustls::server::danger::ClientCertVerifier;
use rustls::server::{ClientCertVerifierBuilder, VerifierBuilderError, WebPkiClientVerifier};
use rustls::RootCertStore;
use crate::error::TlsError;
use crate::pem::{pem_certificates, read_pem_certificates};

verus! {

/// Makes `rustls::RootCertStore` known to the verifier as an opaque type;
/// what it holds is named by `root_store_anchors`.
#[verifier::external_type_specification]
#[verifier::external_body]
pub struct ExRootCertStore(RootCertStore);

/// Makes `rustls::crypto::CryptoProvider` known to the verifier as an opaque
/// type.
#[verifier::external_type_specification]
#[verifier::external_body]
pub struct ExCryptoProvider(CryptoProvider);

/// Makes `rustls::server::ClientCertVerifierBuilder` known to the verifier
/// as an opaque type; the anchors it was given are named by
/// `verifier_builder_anchors`.
#[verifier::external_type_specification]
#[verifier::external_body]
pub struct ExClientCertVerifierBuilder(ClientCertVerifierBuilder);

/// Makes `rustls::server::VerifierBuilderError` known to the verifier as an
/// opaque type.
#[verifier::external_type_specification]
#[verifier::external_body]
pub struct ExVerifierBuilderError(VerifierBuilderError);

/// A trust anchor as DER pieces: the subject, the `SubjectPublicKeyInfo`,
/// and the name constraints if there are any.
pub type AnchorView = (Seq<u8>, Seq<u8>, Option<Seq<u8>>);

/// The trust anchors that `store` holds, in the order in which they were
/// added.
pub uninterp spec fn root_store_anchors(store: RootCertStore) -> Seq<AnchorView>;

/// The trust anchor that `rustls` extracts from the DER certificate `der`
/// (`webpki::anchor_from_trusted_cert`), or `None` when it cannot.
pub uninterp spec fn trust_anchor_of(der: Seq<u8>) -> Option<AnchorView>;

/// The trust anchors of the store a client-certificate verifier builder was
/// made with.
pub uninterp spec fn verifier_builder_anchors(builder: ClientCertVerifierBuilder) -> Seq<AnchorView>;

/// Calls `RootCertStore::empty`, which makes a store without any anchor.
#[verifier::external_body]
fn empty_root_store() -> (store: RootCertStore)
    ensures
        root_store_anchors(store) == Seq::<AnchorView>::empty(),
{
    RootCertStore::empty()
}

/// Calls `RootCertStore::add` with the DER certificate `der`. As the source
/// shows, it succeeds exactly when an anchor can be extracted from the
/// certificate, and then appends that anchor; on failure the store is left
/// as it was.
#[verifier::external_body]
fn add_root_certificate(store: &mut RootCertStore, der: Vec<u8>) -> (r: Result<(), rustls::Error>)
    ensures
        r is Ok <==> trust_anchor_of(der@) is Some,
        r is Ok ==> root_store_anchors(*final(store)) == root_store_anchors(*old(store)).push(
            trust_anchor_of(der@)->Some_0,
        ),
        r is Err ==> root_store_anchors(*final(store)) == root_store_anchors(*old(store)),
{
    store.add(rustls::pki_types::CertificateDer::from(der))
}

/// Calls `RootCertStore::is_empty`, which is true exactly when the store
/// holds no anchor.
#[verifier::external_body]
fn root_store_is_empty(store: &RootCertStore) -> (r: bool)
    ensures
        r == (root_store_anchors(*store).len() == 0),
{
    store.is_empty()
}

/// A verifier of client certificates: the `Arc<dyn ClientCertVerifier>`
/// made by `ClientCertVerifierBuilder::build`. Only `build_client_verifier`
/// makes one; what it checks is described by `client_verifier_anchors` and
/// `client_verifier_requires_certificate`.
#[verifier::external_body]
pub struct ClientVerifierHandle {
    pub verifier: Arc<dyn ClientCertVerifier>,
}

/// The trust anchors against which the verifier checks client certificates.
pub uninterp spec fn client_verifier_anchors(verifier: ClientVerifierHandle) -> Seq<AnchorView>;

/// Whether the verifier asks every client for a certificate and refuses
/// clients that present none.
pub uninterp spec fn client_verifier_requires_certificate(verifier: ClientVerifierHandle) -> bool;

/// The signature verification algorithms of a provider (its
/// `signature_verification_algorithms`), as the 16-bit TLS code points of
/// the signature schemes they map, in order.
pub uninterp spec fn provider_verification_schemes(provider: CryptoProvider) -> Seq<u16>;

/// The signature verification algorithms a client-certificate verifier
/// builder was given, as in `provider_verification_schemes`.
pub uninterp spec fn verifier_builder_schemes(builder: ClientCertVerifierBuilder) -> Seq<u16>;

/// The signature verification algorithms a client-certificate verifier
/// checks signatures with, as in `provider_verification_schemes`.
pub uninterp spec fn client_verifier_schemes(verifier: ClientVerifierHandle) -> Seq<u16>;

/// Calls `WebPkiClientVerifier::builder_with_provider` with the store (in an
/// `Arc`) and the provider. As the source shows, the builder keeps that
/// store and the provider's signature verification algorithms.
#[verifier::external_body]
fn client_verifier_builder(roots: RootCertStore, provider: Arc<CryptoProvider>) -> (builder:
    ClientCertVerifierBuilder)
    ensures
        verifier_builder_anchors(builder) == root_store_anchors(roots),
        verifier_builder_schemes(builder) == provider_verification_schemes(*provider),
{
    WebPkiClientVerifier::builder_with_provider(Arc::new(roots), provider)
}

/// Calls `ClientCertVerifierBuilder::build`. As the source shows, with no
/// revocation list given it fails exactly when the store has no anchor;
/// otherwise the verifier checks client certificates against the builder's
/// store with the builder's signature verification algorithms and, since the
/// builder refuses anonymous clients unless told otherwise, offers client
/// authentication and makes it mandatory.
#[verifier::external_body]
fn build_client_verifier(builder: ClientCertVerifierBuilder) -> (r: Result<
    ClientVerifierHandle,
    VerifierBuilderError,
>)
    ensures
        r is Err <==> verifier_builder_anchors(builder).len() == 0,
        r is Ok ==> client_verifier_anchors(r->Ok_0) == verifier_builder_anchors(builder),
        r is Ok ==> client_verifier_schemes(r->Ok_0) == verifier_builder_schemes(builder),
        r is Ok ==> client_verifier_requires_certificate(r->Ok_0),
{
    builder.build().map(|verifier| ClientVerifierHandle { verifier })
}

/// Whether an anchor can be extracted from every certificate of `certs`.
pub open spec fn all_accepted(certs: Seq<Seq<u8>>) -> bool {
    forall|i: int| 0 <= i < certs.len() ==> (#[trigger] trust_anchor_of(certs[i])) is Some
}

/// The anchors extracted from the certificates `certs`, in order.
pub open spec fn anchors_of(certs: Seq<Seq<u8>>) -> Seq<AnchorView> {
    certs.map_values(|c: Seq<u8>| trust_anchor_of(c)->Some_0)
}

/// The anchors of the store built from the PEM text `pem`, or `None` when
/// it cannot be built.
pub open spec fn trust_store_outcome(pem: Seq<u8>) -> Option<Seq<AnchorView>> {
    match pem_certificates(pem) {
        Some(certs) => if all_accepted(certs) {
            Some(anchors_of(certs))
        } else {
            None
        },
        None => None,
    }
}

/// Reads the CA certificates of the PEM text `pem` into a new store of trust
/// anchors. Fails when the text is not well-formed PEM, or when no anchor
/// can be extracted from one of its certificates; on success the store holds
/// exactly the anchors of the certificates of the text, in order. A text
/// without certificates gives an empty store.
pub fn trust_store_from_pem(pem: &[u8]) -> (r: Result<RootCertStore, TlsError>)
    ensures
        pem_certificates(pem@) is None <==> r matches Err(TlsError::CaCertificatePem(_)),
        (pem_certificates(pem@) matches Some(certs) && !all_accepted(certs)) <==> r matches Err(
            TlsError::CaCertificateRejected(_),
        ),
        r is Ok <==> trust_store_outcome(pem@) is Some,
        r matches Ok(store) ==> root_store_anchors(store) == trust_store_outcome(pem@).unwrap(),
{
    let certs = match read_pem_certificates(pem) {
        Ok(certs) => certs,
        Err(e) => return Err(TlsError::CaCertificatePem(e)),
    };
    let ghost vecs = certs@;
    let ghost parsed = vecs.map_values(|c: Vec<u8>| c@);
    let mut store = empty_root_store();
    let n = certs.len();
    let mut rest = certs;
    let mut i: usize = 0;
    while i < n
        invariant
            i <= n,
            n == vecs.len(),
            parsed == vecs.map_values(|c: Vec<u8>| c@),
            pem_certificates(pem@) == Some(parsed),
            rest@ == vecs.subrange(i as int, n as int),
            root_store_anchors(store) == anchors_of(parsed.subrange(0, i as int)),
            forall|j: int| 0 <= j < i ==> (#[trigger] trust_anchor_of(parsed[j])) is Some,
        decreases n - i,
    {
        let der = rest.remove(0);
        assert(der@ == parsed[i as int]);
        match add_root_certificate(&mut store, der) {
            Ok(()) => {},
            Err(e) => {
                assert(trust_anchor_of(parsed[i as int]) is None);
                assert(!all_accepted(parsed));
                return Err(TlsError::CaCertificateRejected(e));
            },
        }
        assert(anchors_of(parsed.subrange(0, i as int)).push(trust_anchor_of(parsed[i as int])->Some_0)
            =~= anchors_of(parsed.subrange(0, i + 1)));
        assert(rest@ =~= vecs.subrange(i + 1, n as int));
        i = i + 1;
    }
    assert(parsed.subrange(0, n as int) =~= parsed);
    Ok(store)
}

/// The trust anchors a TLS client checks servers against: with a CA file
/// (its PEM text `ca_pem`), exactly the anchors of the certificates of that
/// file, which must hold at least one; without one, no anchor at all.
pub fn client_root_store(ca_pem: Option<&[u8]>) -> (r: Result<RootCertStore, TlsError>)
    ensures
        ca_pem is None ==> r is Ok && root_store_anchors(r->Ok_0).len() == 0,
        ca_pem is Some ==> ({
            let pem = ca_pem->Some_0@;
            &&& pem_certificates(pem) is None <==> (r is Err && r->Err_0 is CaCertificatePem)
            &&& (pem_certificates(pem) is Some && !all_accepted(pem_certificates(pem)->Some_0))
                <==> (r is Err && r->Err_0 is CaCertificateRejected)
            &&& trust_store_outcome(pem) == Some(Seq::<AnchorView>::empty()) <==> (r is Err
                && r->Err_0 is EmptyCaStore)
            &&& r is Ok <==> (trust_store_outcome(pem) is Some && trust_store_outcome(pem)->Some_0.len()
                > 0)
            &&& r is Ok ==> root_store_anchors(r->Ok_0) == trust_store_outcome(pem)->Some_0
        }),
{
    match ca_pem {
        None => Ok(empty_root_store()),
        Some(pem) => {
            let store = match trust_store_from_pem(pem) {
                Ok(store) => store,
                Err(e) => return Err(e),
            };
            if root_store_is_empty(&store) {
                assert(root_store_anchors(store) =~= Seq::<AnchorView>::empty());
                Err(TlsError::EmptyCaStore)
            } else {
                Ok(store)
            }
        },
    }
}

/// The verifier a server checks client certificates with, trusting the CA
/// certificates of the PEM text `client_ca_pem` and using `provider`'s
/// signature algorithms; it requires every client to present a certificate.
/// Fails as `trust_store_from_pem` does, and when the text holds no
/// certificate, since a verifier needs at least one anchor.
pub fn client_certificate_verifier(client_ca_pem: &[u8], provider: Arc<CryptoProvider>) -> (r:
    Result<ClientVerifierHandle, TlsError>)
    ensures
        pem_certificates(client_ca_pem@) is None <==> r matches Err(TlsError::CaCertificatePem(_)),
        (pem_certificates(client_ca_pem@) matches Some(certs) && !all_accepted(certs)) <==> r matches Err(
            TlsError::CaCertificateRejected(_),
        ),
        trust_store_outcome(client_ca_pem@) == Some(Seq::<AnchorView>::empty()) <==> r matches Err(
            TlsError::NoClientCaAnchor(_),
        ),
        r is Ok <==> (trust_store_outcome(client_ca_pem@) is Some && trust_store_outcome(
            client_ca_pem@,
        )->Some_0.len() > 0),
        r is Ok ==> client_verifier_anchors(r->Ok_0) == trust_store_outcome(client_ca_pem@)->Some_0,
        r is Ok ==> client_verifier_requires_certificate(r->Ok_0),
        r is Ok ==> client_verifier_schemes(r->Ok_0) == provider_verification_schemes(*provider),
{
    let store = match trust_store_from_pem(client_ca_pem) {
        Ok(store) => store,
        Err(e) => return Err(e),
    };
    let ghost anchors = root_store_anchors(store);
    let builder = client_verifier_builder(store, provider);
    match build_client_verifier(builder) {
        Ok(verifier) => Ok(verifier),
        Err(e) => {
            assert(anchors =~= Seq::<AnchorView>::empty());
            Err(TlsError::NoClientCaAnchor(e))
        },
    }
}

/// Every certificate of a CA file becomes its own anchor: a store read from
/// PEM text holds one anchor per certificate of the text, and its i-th anchor
/// is the one extracted from the i-th certificate.
pub proof fn law_trust_store_holds_each_certificate_anchor(
    pem: &[u8],
    r: Result<RootCertStore, TlsError>,
)
    requires
        call_ensures(trust_store_from_pem, (pem,), r),
        r is Ok,
    ensures
        pem_certificates(pem@) is Some,
        root_store_anchors(r->Ok_0).len() == pem_certificates(pem@)->Some_0.len(),
        forall|i: int|
            0 <= i < root_store_anchors(r->Ok_0).len() ==> trust_anchor_of(
                #[trigger] pem_certificates(pem@)->Some_0[i],
            ) == Some(root_store_anchors(r->Ok_0)[i]),
{
}

/// The same for the anchors a client checks servers against when a CA file
/// is given: one per certificate of the file, the i-th from the i-th.
pub proof fn law_client_root_store_holds_each_certificate_anchor(
    pem: &[u8],
    r: Result<RootCertStore, TlsError>,
)
    requires
        call_ensures(client_root_store, (Some(pem),), r),
        r is Ok,
    ensures
        pem_certificates(pem@) is Some,
        root_store_anchors(r->Ok_0).len() == pem_certificates(pem@)->Some_0.len(),
        root_store_anchors(r->Ok_0).len() > 0,
        forall|i: int|
            0 <= i < root_store_anchors(r->Ok_0).len() ==> trust_anchor_of(
                #[trigger] pem_certificates(pem@)->Some_0[i],
            ) == Some(root_store_anchors(r->Ok_0)[i]),
{
}

/// The same for the anchors a server checks client certificates against:
/// one per certificate of the client CA file, the i-th from the i-th, and a
/// client certificate is required.
pub proof fn law_client_verifier_trusts_each_certificate_anchor(
    pem: &[u8],
    provider: Arc<CryptoProvider>,
    r: Result<ClientVerifierHandle, TlsError>,
)
    requires
        call_ensures(client_certificate_verifier, (pem, provider), r),
        r is Ok,
    ensures
        pem_certificates(pem@) is Some,
        client_verifier_anchors(r->Ok_0).len() == pem_certificates(pem@)->Some_0.len(),
        client_verifier_anchors(r->Ok_0).len() > 0,
        forall|i: int|
            0 <= i < client_verifier_anchors(r->Ok_0).len() ==> trust_anchor_of(
                #[trigger] pem_certificates(pem@)->Some_0[i],
            ) == Some(client_verifier_anchors(r->Ok_0)[i]),
        client_verifier_requires_certificate(r->Ok_0),
        client_verifier_schemes(r->Ok_0) == provider_verification_schemes(*provider),
{
}

} // verus!
