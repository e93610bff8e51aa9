//! TLS that trusts the bootstrap's CA and nothing else.
use rustls::pki_types::{CertificateDer, ServerName};
use rustls::{ClientConfig, RootCertStore};
use vstd::prelude::*;
use crate::bootstrap;
use crate::bootstrap::Bootstrap;

verus! {

/// `rustls::RootCertStore`: the trust anchors that a server's certificate may lead to.
#[verifier::external_type_specification]
#[verifier::external_body]
pub struct ExRootCertStore(rustls::RootCertStore);

/// `rustls::ClientConfig`: how a TLS client checks its server.
#[verifier::external_type_specification]
#[verifier::external_body]
pub struct ExClientConfig(rustls::ClientConfig);

/// What a trust anchor is made of: the subject, the public key, and the name constraints where
/// there are any, each in DER.
pub type Anchor = (Seq<u8>, Seq<u8>, Option<Seq<u8>>);

/// The certificates of a PEM text, in DER and in order, as `rustls_pemfile::certs` reads them; or
/// its error.
pub uninterp spec fn pem_certificates(pem: Seq<char>) -> Result<Seq<Seq<u8>>, Seq<char>>;

/// The trust anchor that `RootCertStore::add` makes of a certificate in DER; or its error.
pub uninterp spec fn trust_anchor(der: Seq<u8>) -> Result<Anchor, Seq<char>>;

/// The trust anchors that a root store holds, in order.
pub uninterp spec fn anchors(store: RootCertStore) -> Seq<Anchor>;

/// The trust anchors that a client configuration accepts a server certificate under.
pub uninterp spec fn pinned_roots(config: ClientConfig) -> Seq<Anchor>;

/// The text of the server name that `ServerName::try_from` makes of a host; or its error.
pub uninterp spec fn server_name_of(host: Seq<char>) -> Result<Seq<char>, Seq<char>>;

/// The bytes of each vector.
pub open spec fn blobs(v: Seq<Vec<u8>>) -> Seq<Seq<u8>> {
    v.map_values(|b: Vec<u8>| b@)
}

/// Reads the certificates of a PEM text with `rustls_pemfile::certs`, to the first error where
/// there is one. The result depends on the text alone.
#[verifier::external_body]
fn pem_certs(pem: &str) -> (r: Result<Vec<Vec<u8>>, String>)
    ensures
        match r {
            Ok(certs) => pem_certificates(pem@) == Ok::<Seq<Seq<u8>>, Seq<char>>(blobs(certs@)),
            Err(e) => pem_certificates(pem@) == Err::<Seq<Seq<u8>>, Seq<char>>(e@),
        },
{
    let mut reader = std::io::Cursor::new(pem.as_bytes());
    match rustls_pemfile::certs(&mut reader).collect::<Result<Vec<_>, _>>() {
        Ok(certs) => Ok(certs.into_iter().map(|cert| cert.to_vec()).collect()),
        Err(e) => Err(e.to_string()),
    }
}

/// Makes a root store with `RootCertStore::empty`, which holds no anchor.
#[verifier::external_body]
fn empty_store() -> (r: RootCertStore)
    ensures
        anchors(r).len() == 0,
{
    RootCertStore::empty()
}

/// Adds a certificate with `RootCertStore::add`: its anchor comes after those that are there. A
/// certificate that gives none leaves the store as it is.
#[verifier::external_body]
fn add_root(store: &mut RootCertStore, der: Vec<u8>) -> (r: Result<(), String>)
    ensures
        match trust_anchor(der@) {
            Ok(anchor) => r is Ok && anchors(*final(store)) == anchors(*old(store)).push(anchor),
            Err(e) => r is Err && r->Err_0@ == e && anchors(*final(store)) == anchors(*old(store)),
        },
{
    match store.add(CertificateDer::from(der)) {
        Ok(()) => Ok(()),
        Err(e) => Err(e.to_string()),
    }
}

/// Makes a client configuration with `ClientConfig::builder_with_provider` for the ring provider,
/// the default protocol versions, the given roots and no client certificate. The configuration
/// accepts what these roots vouch for and nothing else. The versions are refused only where the
/// provider has no cipher suite for them or no key exchange group for a suite, and the ring
/// provider has both.
#[verifier::external_body]
fn client_config(store: RootCertStore) -> (r: Result<ClientConfig, String>)
    ensures
        r is Ok,
        pinned_roots(r->Ok_0) == anchors(store),
{
    let provider = std::sync::Arc::new(rustls::crypto::ring::default_provider());
    match ClientConfig::builder_with_provider(provider).with_safe_default_protocol_versions() {
        Ok(builder) => Ok(builder.with_root_certificates(store).with_no_client_auth()),
        Err(e) => Err(e.to_string()),
    }
}

/// Makes a server name of a host with `ServerName::try_from`, which takes a DNS name or an IP
/// address, and gives its text. The result depends on the host alone.
#[verifier::external_body]
fn checked_server_name(host: &str) -> (r: Result<String, String>)
    ensures
        match r {
            Ok(name) => server_name_of(host@) == Ok::<Seq<char>, Seq<char>>(name@),
            Err(e) => server_name_of(host@) == Err::<Seq<char>, Seq<char>>(e@),
        },
{
    match ServerName::try_from(host.to_string()) {
        Ok(name) => Ok(name.to_str().into_owned()),
        Err(e) => Err(e.to_string()),
    }
}

// ---------------------------------------------------------------------------
// The configuration.
// ---------------------------------------------------------------------------

/// Why there is no TLS configuration.
#[derive(Debug, Clone, PartialEq, Eq)]
pub enum TlsError {
    /// The PEM text cannot be read, and why.
    BadPem(String),
    /// The PEM text holds no certificate.
    NoCertificates,
    /// A certificate cannot be trusted, and why.
    BadCertificate(String),
    /// No protocol version can be offered, and why.
    NoVersions(String),
}

impl TlsError {
    /// What is said of this error.
    pub open spec fn text(self) -> Seq<char> {
        match self {
            TlsError::BadPem(e) => "parsing bootstrap ca_cert_pem: "@ + e@,
            TlsError::NoCertificates => "bootstrap ca_cert_pem contained no certificates"@,
            TlsError::BadCertificate(e) => "adding bootstrap CA to root store: "@ + e@,
            TlsError::NoVersions(e) => "selecting rustls protocol versions: "@ + e@,
        }
    }

    /// What is said of this error.
    pub fn message(&self) -> (r: String)
        ensures
            r@ == self.text(),
    {
        match self {
            TlsError::BadPem(e) => "parsing bootstrap ca_cert_pem: ".to_string().concat(e.as_str()),
            TlsError::NoCertificates => {
                "bootstrap ca_cert_pem contained no certificates".to_string()
            },
            TlsError::BadCertificate(e) => {
                "adding bootstrap CA to root store: ".to_string().concat(e.as_str())
            },
            TlsError::NoVersions(e) => {
                "selecting rustls protocol versions: ".to_string().concat(e.as_str())
            },
        }
    }
}

/// The trust anchors of `certs`, in order; or the error of the first that gives none.
pub open spec fn anchors_of(certs: Seq<Seq<u8>>) -> Result<Seq<Anchor>, Seq<char>>
    decreases certs.len(),
{
    if certs.len() == 0 {
        Ok(Seq::empty())
    } else {
        match anchors_of(certs.drop_last()) {
            Ok(before) => match trust_anchor(certs.last()) {
                Ok(anchor) => Ok(before.push(anchor)),
                Err(e) => Err(e),
            },
            Err(e) => Err(e),
        }
    }
}

/// What the certificates `certs` lead to: the anchors to trust, or the error.
pub open spec fn roots_outcome(
    certs: Seq<Seq<u8>>,
    r: Result<Seq<Anchor>, TlsError>,
) -> bool {
    if certs.len() == 0 {
        r == Err::<Seq<Anchor>, TlsError>(TlsError::NoCertificates)
    } else {
        match anchors_of(certs) {
            Ok(roots) => r == Ok::<Seq<Anchor>, TlsError>(roots),
            Err(e) => r is Err && r->Err_0 is BadCertificate && r->Err_0->BadCertificate_0@ == e,
        }
    }
}

/// The anchors that the outcome of a configuration pins.
pub open spec fn pinned(r: Result<ClientConfig, TlsError>) -> Result<Seq<Anchor>, TlsError> {
    match r {
        Ok(config) => Ok(pinned_roots(config)),
        Err(e) => Err(e),
    }
}

/// The error of a prefix is the error of the whole.
proof fn lemma_first_error(certs: Seq<Seq<u8>>, n: int)
    requires
        0 <= n <= certs.len(),
        anchors_of(certs.take(n)) is Err,
    ensures
        anchors_of(certs) == anchors_of(certs.take(n)),
    decreases certs.len() - n,
{
    if n == certs.len() {
        assert(certs.take(n) =~= certs);
    } else {
        assert(certs.take(n + 1).drop_last() =~= certs.take(n));
        lemma_first_error(certs, n + 1);
    }
}

/// A client configuration that trusts `certs` and nothing else.
pub fn config_trusting(certs: &Vec<Vec<u8>>) -> (r: Result<ClientConfig, TlsError>)
    ensures
        roots_outcome(blobs(certs@), pinned(r)),
{
    if certs.len() == 0 {
        return Err(TlsError::NoCertificates);
    }
    let ghost all = blobs(certs@);
    let mut store = empty_store();
    let mut i: usize = 0;
    assert(anchors(store) =~= Seq::<Anchor>::empty());
    while i < certs.len()
        invariant
            i <= certs.len(),
            all == blobs(certs@),
            anchors_of(all.take(i as int)) == Ok::<Seq<Anchor>, Seq<char>>(anchors(store)),
        decreases certs.len() - i,
    {
        proof {
            assert(all.take(i + 1).drop_last() =~= all.take(i as int));
            assert(all.take(i + 1).last() == certs@[i as int]@);
        }
        match add_root(&mut store, copied(&certs[i])) {
            Ok(()) => {},
            Err(e) => {
                proof {
                    lemma_first_error(all, i + 1);
                }
                return Err(TlsError::BadCertificate(e));
            },
        }
        i = i + 1;
    }
    assert(all.take(i as int) =~= all);
    match client_config(store) {
        Ok(config) => Ok(config),
        Err(e) => Err(TlsError::NoVersions(e)),
    }
}

fn copied(bytes: &Vec<u8>) -> (r: Vec<u8>)
    ensures
        r@ == bytes@,
{
    let mut r: Vec<u8> = Vec::new();
    let mut i: usize = 0;
    while i < bytes.len()
        invariant
            i <= bytes.len(),
            r@ == bytes@.take(i as int),
        decreases bytes.len() - i,
    {
        r.push(bytes[i]);
        assert(bytes@.take(i + 1) =~= bytes@.take(i as int).push(bytes@[i as int]));
        i = i + 1;
    }
    assert(bytes@.take(i as int) =~= bytes@);
    r
}

/// What the PEM text `pem` leads to: the anchors to trust, or the error.
pub open spec fn pem_outcome(pem: Seq<char>, r: Result<Seq<Anchor>, TlsError>) -> bool {
    match pem_certificates(pem) {
        Ok(certs) => roots_outcome(certs, r),
        Err(e) => r is Err && r->Err_0 is BadPem && r->Err_0->BadPem_0@ == e,
    }
}

/// A client configuration that trusts the certificates of `ca_cert_pem` and nothing else: no
/// native roots, no bundled roots.
pub fn build_tls_config(ca_cert_pem: &str) -> (r: Result<ClientConfig, TlsError>)
    ensures
        pem_outcome(ca_cert_pem@, pinned(r)),
{
    match pem_certs(ca_cert_pem) {
        Ok(certs) => config_trusting(&certs),
        Err(e) => Err(TlsError::BadPem(e)),
    }
}

/// Only the bootstrap's CA is trusted: each anchor is that of the certificate in its place, none
/// is left out and none is added.
pub proof fn law_only_the_bootstrap_ca_is_trusted(certs: Seq<Seq<u8>>)
    ensures
        anchors_of(certs) is Ok <==> forall|i: int|
            0 <= i < certs.len() ==> trust_anchor(#[trigger] certs[i]) is Ok,
        anchors_of(certs) is Ok ==> anchors_of(certs)->Ok_0 == certs.map_values(
            |der: Seq<u8>| trust_anchor(der)->Ok_0,
        ),
    decreases certs.len(),
{
    if certs.len() > 0 {
        let before = certs.drop_last();
        law_only_the_bootstrap_ca_is_trusted(before);
        if forall|i: int| 0 <= i < certs.len() ==> trust_anchor(#[trigger] certs[i]) is Ok {
            assert forall|i: int| 0 <= i < before.len() implies trust_anchor(
                #[trigger] before[i],
            ) is Ok by {
                assert(before[i] == certs[i]);
            }
        }
        if anchors_of(certs) is Ok {
            assert forall|i: int| 0 <= i < certs.len() implies trust_anchor(
                #[trigger] certs[i],
            ) is Ok by {
                if i < before.len() {
                    assert(certs[i] == before[i]);
                }
            }
            assert(anchors_of(certs)->Ok_0 =~= certs.map_values(
                |der: Seq<u8>| trust_anchor(der)->Ok_0,
            ));
        }
    }
}

// ---------------------------------------------------------------------------
// The server's name.
// ---------------------------------------------------------------------------

/// What the host of `endpoint` gives as a server name.
pub open spec fn names_server(endpoint: Seq<char>, r: Result<Seq<char>, Seq<char>>) -> bool {
    exists|host: Seq<char>| #[trigger]
        bootstrap::host_part(endpoint, host) && r == server_name_of(host)
}

/// The texts of a result.
pub open spec fn texts_of(r: Result<String, String>) -> Result<Seq<char>, Seq<char>> {
    match r {
        Ok(s) => Ok(s@),
        Err(e) => Err(e@),
    }
}

/// The server name of a `host:port` endpoint.
pub fn endpoint_server_name(endpoint: &str) -> (r: Result<String, String>)
    ensures
        names_server(endpoint@, texts_of(r)),
{
    let host = bootstrap::endpoint_host(endpoint);
    checked_server_name(host)
}

// ---------------------------------------------------------------------------
// The bulk upstream.
// ---------------------------------------------------------------------------

/// Why there is no bulk upstream.
#[derive(Debug, Clone, PartialEq, Eq)]
pub enum UpstreamError {
    /// There is no TLS configuration.
    Tls(TlsError),
    /// The endpoint's host is no server name, and why.
    BadServerName(String),
}

impl UpstreamError {
    /// What is said of this error.
    pub open spec fn text(self) -> Seq<char> {
        match self {
            UpstreamError::Tls(e) => e.text(),
            UpstreamError::BadServerName(e) => "invalid bulk TLS server name: "@ + e@,
        }
    }

    /// What is said of this error.
    pub fn message(&self) -> (r: String)
        ensures
            r@ == self.text(),
    {
        match self {
            UpstreamError::Tls(e) => e.message(),
            UpstreamError::BadServerName(e) => {
                "invalid bulk TLS server name: ".to_string().concat(e.as_str())
            },
        }
    }
}

/// The bulk listener of the host: what it is called, where it is, and the token that it is shown.
#[derive(Debug, Clone, PartialEq, Eq)]
pub struct BulkTarget {
    pub server_name: String,
    /// The `host:port` that is connected to and that the `Host` field names.
    pub authority: String,
    pub read_token: String,
}

/// The bulk upstream: how the host is trusted, and where it is.
pub struct HttpsUpstream {
    pub config: ClientConfig,
    pub target: BulkTarget,
}

impl HttpsUpstream {
    /// The bulk upstream that a bootstrap describes.
    pub fn from_bootstrap(bootstrap: &Bootstrap) -> (r: Result<HttpsUpstream, UpstreamError>)
        ensures
            match r {
                Ok(upstream) => {
                    &&& pem_outcome(bootstrap.ca_cert_pem@, Ok(pinned_roots(upstream.config)))
                    &&& names_server(bootstrap.bulk_endpoint@, Ok(upstream.target.server_name@))
                    &&& upstream.target.authority@ == bootstrap.bulk_endpoint@
                    &&& upstream.target.read_token@ == bootstrap.read_token@
                },
                Err(UpstreamError::Tls(e)) => pem_outcome(bootstrap.ca_cert_pem@, Err(e)),
                Err(UpstreamError::BadServerName(e)) => {
                    &&& exists|roots: Seq<Anchor>| #[trigger]
                        pem_outcome(bootstrap.ca_cert_pem@, Ok(roots))
                    &&& names_server(bootstrap.bulk_endpoint@, Err(e@))
                },
            },
    {
        let config = match build_tls_config(bootstrap.ca_cert_pem.as_str()) {
            Ok(config) => config,
            Err(e) => return Err(UpstreamError::Tls(e)),
        };
        let server_name = match endpoint_server_name(bootstrap.bulk_endpoint.as_str()) {
            Ok(name) => name,
            Err(e) => return Err(UpstreamError::BadServerName(e)),
        };
        let target = BulkTarget {
            server_name,
            authority: bootstrap.bulk_endpoint.as_str().to_string(),
            read_token: bootstrap.read_token.as_str().to_string(),
        };
        Ok(HttpsUpstream { config, target })
    }
}

} // verus!
