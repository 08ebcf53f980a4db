//! Certificates and keys read from PEM text: the CA certificates a TLS client trusts and
//! the identity a client presents for mutual TLS.
use rustls::pki_types::{CertificateDer, PrivateKeyDer};
use rustls::{ClientConfig, RootCertStore};
use vstd::prelude::*;

verus! {

/// A DER-encoded certificate.
#[verifier::external_type_specification]
#[verifier::external_body]
pub struct ExCertificateDer<'a>(CertificateDer<'a>);

/// A DER-encoded private key of one of the kinds that PEM files hold.
#[verifier::external_type_specification]
#[verifier::external_body]
pub struct ExPrivateKeyDer<'a>(PrivateKeyDer<'a>);

/// rustls's set of trust anchors.
#[verifier::external_type_specification]
#[verifier::external_body]
pub struct ExRootCertStore(RootCertStore);

/// A rustls TLS client configuration.
#[verifier::external_type_specification]
#[verifier::external_body]
pub struct ExClientConfig(ClientConfig);

/// The DER bytes of a certificate (what it dereferences to).
pub uninterp spec fn certificate_der(cert: CertificateDer<'static>) -> Seq<u8>;

/// The DER bytes of a private key (what `secret_der` gives).
pub uninterp spec fn private_key_der(key: PrivateKeyDer<'static>) -> Seq<u8>;

/// The DER bytes of the certificate sections of PEM text, in order, or `None` where a
/// section cannot be read; what `rustls_pemfile::certs` yields, collected.
pub uninterp spec fn pem_certificates(pem: Seq<u8>) -> Option<Seq<Seq<u8>>>;

/// The DER bytes of the first private-key section of PEM text (`None` inside when there is
/// none), or `None` where a section before it cannot be read; what
/// `rustls_pemfile::private_key` returns.
pub uninterp spec fn pem_private_key(pem: Seq<u8>) -> Option<Option<Seq<u8>>>;

/// rustls can take the certificate with these DER bytes as a trust anchor.
pub uninterp spec fn is_trust_anchor(der: Seq<u8>) -> bool;

/// The trust anchor that rustls derives from the certificate with these DER bytes (its
/// subject, public key and name constraints), standing for that anchor as plain bytes;
/// a function of the certificate's bytes alone.
pub uninterp spec fn anchor_of(der: Seq<u8>) -> Seq<u8>;

/// The trust anchors that a store holds (its `roots`), in the order they were added.
pub uninterp spec fn trust_anchors(store: RootCertStore) -> Seq<Seq<u8>>;

/// The trust anchors of the root store that a client configuration verifies servers with.
pub uninterp spec fn config_trust_anchors(config: ClientConfig) -> Seq<Seq<u8>>;

/// What a client configuration presents for client authentication: `None` when it presents
/// nothing, otherwise the DER bytes of its certificate chain and of the private key its
/// signing key was loaded from.
pub uninterp spec fn config_identity(config: ClientConfig) -> Option<(Seq<Seq<u8>>, Seq<u8>)>;

/// Calls `rustls_pemfile::certs` on the PEM bytes and collects the certificates, stopping at
/// the first section that cannot be read. The outcome depends on the bytes alone and is
/// named `pem_certificates`; the read error itself is dropped.
#[verifier::external_body]
pub(crate) fn parse_pem_certificates(pem: &[u8]) -> (certs: Option<Vec<CertificateDer<'static>>>)
    ensures
        certs is Some == pem_certificates(pem@) is Some,
        certs matches Some(v) ==> {
            let ders = pem_certificates(pem@)->0;
            &&& v@.len() == ders.len()
            &&& forall|i: int| 0 <= i < v@.len() ==> certificate_der(#[trigger] v@[i]) == ders[i]
        },
{
    let mut reader: &[u8] = pem;
    rustls_pemfile::certs(&mut reader).collect::<Result<Vec<_>, _>>().ok()
}

/// Calls `rustls_pemfile::private_key` on the PEM bytes: the first private key, if any.
/// The outcome depends on the bytes alone and is named `pem_private_key`; the read error
/// itself is dropped.
#[verifier::external_body]
pub(crate) fn parse_pem_private_key(pem: &[u8]) -> (key: Option<Option<PrivateKeyDer<'static>>>)
    ensures
        key is Some == pem_private_key(pem@) is Some,
        key matches Some(k) ==> (k is Some == pem_private_key(pem@)->0 is Some),
        key matches Some(Some(k)) ==> private_key_der(k) == pem_private_key(pem@)->0->0,
{
    let mut reader: &[u8] = pem;
    rustls_pemfile::private_key(&mut reader).ok()
}

/// Calls `rustls::RootCertStore::empty`: a store with no anchors.
#[verifier::external_body]
pub(crate) fn empty_root_store() -> (store: RootCertStore)
    ensures
        trust_anchors(store) == Seq::<Seq<u8>>::empty(),
{
    RootCertStore::empty()
}

/// Calls `rustls::RootCertStore::add`: the certificate is parsed as a trust anchor and, if
/// that succeeds, the anchor is appended to the store's roots; otherwise the store is left
/// as it was.
#[verifier::external_body]
pub(crate) fn add_root_certificate(store: &mut RootCertStore, cert: CertificateDer<'static>) -> (added: bool)
    ensures
        added == is_trust_anchor(certificate_der(cert)),
        added ==> trust_anchors(*final(store)) == trust_anchors(*old(store)).push(
            anchor_of(certificate_der(cert)),
        ),
        !added ==> *final(store) == *old(store),
{
    store.add(cert).is_ok()
}

/// Why certificates or keys could not be loaded from PEM text.
#[derive(Debug, PartialEq, Eq, Structural, Clone, Copy)]
pub enum TlsSetupError {
    CaCertificateUnparsable,
    CaCertificateRejected,
    ClientCertificateUnparsable,
    ClientKeyUnparsable,
    NoPrivateKey,
    ClientAuthRejected,
}

impl TlsSetupError {
    /// The text that describes the error.
    pub open spec fn describe(self) -> Seq<char> {
        match self {
            TlsSetupError::CaCertificateUnparsable => "Failed to parse CA certificate"@,
            TlsSetupError::CaCertificateRejected => "Failed to add CA certificate to root store"@,
            TlsSetupError::ClientCertificateUnparsable => "Failed to parse client certificate"@,
            TlsSetupError::ClientKeyUnparsable => "Failed to parse client private key"@,
            TlsSetupError::NoPrivateKey => "No private key found in file"@,
            TlsSetupError::ClientAuthRejected =>
                "Failed to configure client certificate authentication"@,
        }
    }

    /// The text that describes the error.
    pub fn message(&self) -> (text: String)
        ensures
            text@ == self.describe(),
    {
        match self {
            TlsSetupError::CaCertificateUnparsable => String::from_str(
                "Failed to parse CA certificate",
            ),
            TlsSetupError::CaCertificateRejected => String::from_str(
                "Failed to add CA certificate to root store",
            ),
            TlsSetupError::ClientCertificateUnparsable => String::from_str(
                "Failed to parse client certificate",
            ),
            TlsSetupError::ClientKeyUnparsable => String::from_str(
                "Failed to parse client private key",
            ),
            TlsSetupError::NoPrivateKey => String::from_str("No private key found in file"),
            TlsSetupError::ClientAuthRejected => String::from_str(
                "Failed to configure client certificate authentication",
            ),
        }
    }
}

/// The trust anchors of the certificates with the DER bytes `ders`, in order.
pub open spec fn anchors_of(ders: Seq<Seq<u8>>) -> Seq<Seq<u8>> {
    ders.map_values(|d: Seq<u8>| anchor_of(d))
}

/// Every certificate in `ders` can be a trust anchor.
pub open spec fn all_trust_anchors(ders: Seq<Seq<u8>>) -> bool {
    forall|i: int| 0 <= i < ders.len() ==> is_trust_anchor(#[trigger] ders[i])
}

/// The store of the CA certificates in PEM text: refused when the text cannot be read, or
/// when any of its certificates cannot be a trust anchor; otherwise holding the anchor of
/// each certificate, in order.
pub fn root_store_from_pem(pem: &[u8]) -> (store: Result<RootCertStore, TlsSetupError>)
    ensures
        match pem_certificates(pem@) {
            None => store == Err::<RootCertStore, TlsSetupError>(
                TlsSetupError::CaCertificateUnparsable,
            ),
            Some(ders) => if all_trust_anchors(ders) {
                store matches Ok(s) && trust_anchors(s) == anchors_of(ders)
            } else {
                store == Err::<RootCertStore, TlsSetupError>(TlsSetupError::CaCertificateRejected)
            },
        },
{
    let certs = match parse_pem_certificates(pem) {
        Some(certs) => certs,
        None => {
            return Err(TlsSetupError::CaCertificateUnparsable);
        },
    };
    let ghost ders = pem_certificates(pem@)->0;
    let ghost all = certs@;
    let count = certs.len();
    assert(all.len() == count);
    let mut certs = certs;
    let mut store = empty_root_store();
    let mut k: usize = 0;
    while certs.len() > 0
        invariant
            pem_certificates(pem@) == Some(ders),
            all.len() <= usize::MAX,
            all.len() == ders.len(),
            forall|i: int| 0 <= i < all.len() ==> certificate_der(#[trigger] all[i]) == ders[i],
            k <= all.len(),
            certs@ == all.subrange(k as int, all.len() as int),
            forall|i: int| 0 <= i < k ==> is_trust_anchor(#[trigger] ders[i]),
            trust_anchors(store) == anchors_of(ders.subrange(0, k as int)),
        decreases certs.len(),
    {
        let cert = certs.remove(0);
        assert(cert == all[k as int]);
        if !add_root_certificate(&mut store, cert) {
            assert(!is_trust_anchor(ders[k as int]));
            return Err(TlsSetupError::CaCertificateRejected);
        }
        k = k + 1;
        assert(anchors_of(ders.subrange(0, k as int)) =~= anchors_of(ders.subrange(0, k - 1)).push(
            anchor_of(ders[k - 1]),
        ));
    }
    assert(all_trust_anchors(ders));
    assert(ders.subrange(0, k as int) =~= ders);
    Ok(store)
}

/// `certs` are the certificates with the DER bytes `ders`, in order.
pub open spec fn certificates_are(certs: Seq<CertificateDer<'static>>, ders: Seq<Seq<u8>>) -> bool {
    &&& certs.len() == ders.len()
    &&& forall|i: int| 0 <= i < certs.len() ==> certificate_der(#[trigger] certs[i]) == ders[i]
}

/// The certificate chain a client presents for mutual TLS, read from PEM text.
pub fn client_certificates_from_pem(pem: &[u8]) -> (certs: Result<
    Vec<CertificateDer<'static>>,
    TlsSetupError,
>)
    ensures
        match pem_certificates(pem@) {
            None => certs == Err::<Vec<CertificateDer<'static>>, TlsSetupError>(
                TlsSetupError::ClientCertificateUnparsable,
            ),
            Some(ders) => certs matches Ok(v) && certificates_are(v@, ders),
        },
{
    match parse_pem_certificates(pem) {
        Some(certs) => Ok(certs),
        None => Err(TlsSetupError::ClientCertificateUnparsable),
    }
}

/// The private key a client proves its identity with, read from PEM text: the first key
/// in it; refused when the text cannot be read or holds no key.
pub fn client_key_from_pem(pem: &[u8]) -> (key: Result<PrivateKeyDer<'static>, TlsSetupError>)
    ensures
        match pem_private_key(pem@) {
            None => key == Err::<PrivateKeyDer<'static>, TlsSetupError>(
                TlsSetupError::ClientKeyUnparsable,
            ),
            Some(None) => key == Err::<PrivateKeyDer<'static>, TlsSetupError>(
                TlsSetupError::NoPrivateKey,
            ),
            Some(Some(der)) => key matches Ok(k) && private_key_der(k) == der,
        },
{
    match parse_pem_private_key(pem) {
        None => Err(TlsSetupError::ClientKeyUnparsable),
        Some(None) => Err(TlsSetupError::NoPrivateKey),
        Some(Some(k)) => Ok(k),
    }
}

/// Calls `rustls::ClientConfig::builder()`, then `with_root_certificates(roots)` and
/// `with_no_client_auth()`: a configuration that trusts `roots` and presents no certificate.
/// The builder takes the process-wide crypto provider (installing ring, the only provider
/// this build enables, when none is installed); what is stated is the roots the
/// configuration's verifier holds and that it presents no client certificate.
#[verifier::external_body]
pub(crate) fn config_without_client_auth(roots: RootCertStore) -> (config: ClientConfig)
    ensures
        config_trust_anchors(config) == trust_anchors(roots),
        config_identity(config) is None,
{
    ClientConfig::builder().with_root_certificates(roots).with_no_client_auth()
}

/// Calls `rustls::ClientConfig::builder()`, then `with_root_certificates(roots)` and
/// `with_client_auth_cert(certs, key)`: a configuration that also presents the certificate
/// chain and proves it with the key, or `None` where the key cannot be loaded or does not
/// match the chain. Whether it succeeds depends on the process-wide crypto provider, so
/// success is not stated; a configuration it does return verifies servers with `roots`
/// and presents `certs` with `key`. The error itself is dropped.
#[verifier::external_body]
pub(crate) fn config_with_client_auth(
    roots: RootCertStore,
    certs: Vec<CertificateDer<'static>>,
    key: PrivateKeyDer<'static>,
) -> (config: Option<ClientConfig>)
    ensures
        config matches Some(c) ==> {
            &&& config_trust_anchors(c) == trust_anchors(roots)
            &&& config_identity(c) == Some((certs@.map_values(|cert: CertificateDer<'static>| certificate_der(cert)), private_key_der(key)))
        },
{
    ClientConfig::builder().with_root_certificates(roots).with_client_auth_cert(certs, key).ok()
}

/// The certificate chain and private key a client presents for mutual TLS.
pub struct ClientIdentity {
    pub certificates: Vec<CertificateDer<'static>>,
    pub private_key: PrivateKeyDer<'static>,
}

/// What rustls's answer to a client identity becomes: its configuration when it accepted
/// the chain and key, `ClientAuthRejected` when it refused them.
pub fn client_auth_outcome(accepted: Option<ClientConfig>) -> (config: Result<
    ClientConfig,
    TlsSetupError,
>)
    ensures
        match accepted {
            Some(c) => config == Ok::<ClientConfig, TlsSetupError>(c),
            None => config == Err::<ClientConfig, TlsSetupError>(TlsSetupError::ClientAuthRejected),
        },
{
    match accepted {
        Some(c) => Ok(c),
        None => Err(TlsSetupError::ClientAuthRejected),
    }
}

/// The certificate chain and key of an identity, as DER bytes.
pub open spec fn identity_der(identity: ClientIdentity) -> (Seq<Seq<u8>>, Seq<u8>) {
    (
        identity.certificates@.map_values(|cert: CertificateDer<'static>| certificate_der(cert)),
        private_key_der(identity.private_key),
    )
}

/// The TLS configuration of a client that trusts `roots`, presenting `identity` when there
/// is one. Without an identity it always succeeds; with one, rustls may refuse the key,
/// and the only error is `ClientAuthRejected`. A configuration it returns trusts exactly
/// the anchors of `roots` and presents exactly the given identity, or nothing.
pub fn client_tls_config(roots: RootCertStore, identity: Option<ClientIdentity>) -> (config: Result<
    ClientConfig,
    TlsSetupError,
>)
    ensures
        identity is None ==> config is Ok,
        config matches Err(e) ==> e == TlsSetupError::ClientAuthRejected && identity is Some,
        config matches Ok(c) ==> {
            &&& config_trust_anchors(c) == trust_anchors(roots)
            &&& match identity {
                None => config_identity(c) is None,
                Some(id) => config_identity(c) == Some(identity_der(id)),
            }
        },
{
    match identity {
        None => Ok(config_without_client_auth(roots)),
        Some(id) => client_auth_outcome(
            config_with_client_auth(roots, id.certificates, id.private_key),
        ),
    }
}

} // verus!
