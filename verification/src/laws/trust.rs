//! Laws of whom the agent trusts.
use rustls::ClientConfig;
use vstd::prelude::*;
use crate::bootstrap;
use crate::bootstrap::{endpoint_host, Bootstrap};
use crate::tls;
use crate::tls::{
    build_tls_config, config_trusting, endpoint_server_name, HttpsUpstream, TlsError,
    UpstreamError,
};

verus! {

proof fn lemma_prefix_anchors(certs: Seq<Seq<u8>>, n: int)
    requires
        0 <= n < certs.len(),
        forall|i: int| 0 <= i < n ==> tls::trust_anchor(#[trigger] certs[i]) is Ok,
        tls::trust_anchor(certs[n]) is Err,
    ensures
        tls::anchors_of(certs) is Err,
        tls::anchors_of(certs)->Err_0 == tls::trust_anchor(certs[n])->Err_0,
    decreases certs.len(),
{
    let before = certs.drop_last();
    if n == certs.len() - 1 {
        tls::law_only_the_bootstrap_ca_is_trusted(before);
        assert forall|i: int| 0 <= i < before.len() implies tls::trust_anchor(
            #[trigger] before[i],
        ) is Ok by {
            assert(before[i] == certs[i]);
        }
    } else {
        assert forall|i: int| 0 <= i < n implies tls::trust_anchor(#[trigger] before[i]) is Ok by {
            assert(before[i] == certs[i]);
        }
        lemma_prefix_anchors(before, n);
    }
}

/// No certificates are an error of their own; certificates that all give an anchor are trusted,
/// each in its place and nothing beside them; and the first that gives none is the error.
pub proof fn law_every_certificate_is_trusted_and_nothing_else(
    certs: Vec<Vec<u8>>,
    n: int,
    r: Result<ClientConfig, TlsError>,
)
    requires
        call_ensures(config_trusting, (&certs,), r),
    ensures
        certs@.len() == 0 ==> r is Err && r->Err_0 is NoCertificates,
        certs@.len() > 0 && (forall|i: int|
            0 <= i < certs@.len() ==> tls::trust_anchor((#[trigger] certs@[i])@) is Ok) ==> {
            &&& r is Ok
            &&& tls::pinned_roots(r->Ok_0).len() == certs@.len()
            &&& forall|i: int|
                0 <= i < certs@.len() ==> (#[trigger] tls::pinned_roots(r->Ok_0)[i])
                    == tls::trust_anchor(certs@[i]@)->Ok_0
        },
        0 <= n < certs@.len() && tls::trust_anchor(certs@[n]@) is Err && (forall|i: int|
            0 <= i < n ==> tls::trust_anchor((#[trigger] certs@[i])@) is Ok) ==> {
            &&& r is Err
            &&& r->Err_0 is BadCertificate
            &&& r->Err_0->BadCertificate_0@ == tls::trust_anchor(certs@[n]@)->Err_0
        },
{
    let all = tls::blobs(certs@);
    assert(all.len() == certs@.len());
    assert(forall|i: int| 0 <= i < certs@.len() ==> all[i] == (#[trigger] certs@[i])@);
    assert(tls::roots_outcome(all, tls::pinned(r)));
    if certs@.len() > 0 && (forall|i: int|
        0 <= i < certs@.len() ==> tls::trust_anchor((#[trigger] certs@[i])@) is Ok) {
        assert forall|i: int| 0 <= i < all.len() implies tls::trust_anchor(#[trigger] all[i]) is Ok by {
            assert(all[i] == certs@[i]@);
        }
        tls::law_only_the_bootstrap_ca_is_trusted(all);
        let roots = tls::anchors_of(all)->Ok_0;
        assert(tls::pinned_roots(r->Ok_0) == roots);
        assert forall|i: int| 0 <= i < certs@.len() implies (#[trigger] tls::pinned_roots(
            r->Ok_0,
        )[i]) == tls::trust_anchor(certs@[i]@)->Ok_0 by {
            assert(all[i] == certs@[i]@);
        }
    }
    if 0 <= n < certs@.len() && tls::trust_anchor(certs@[n]@) is Err && (forall|i: int|
        0 <= i < n ==> tls::trust_anchor((#[trigger] certs@[i])@) is Ok) {
        assert(all[n] == certs@[n]@);
        assert forall|i: int| 0 <= i < n implies tls::trust_anchor(#[trigger] all[i]) is Ok by {
            assert(all[i] == certs@[i]@);
        }
        lemma_prefix_anchors(all, n);
    }
}

/// Whether two errors are of one sort and have one cause.
pub open spec fn same_reason(a: TlsError, b: TlsError) -> bool {
    match a {
        TlsError::BadPem(x) => b is BadPem && b->BadPem_0@ == x@,
        TlsError::NoCertificates => b is NoCertificates,
        TlsError::BadCertificate(x) => b is BadCertificate && b->BadCertificate_0@ == x@,
        TlsError::NoVersions(x) => b is NoVersions && b->NoVersions_0@ == x@,
    }
}

/// A PEM text is trusted for the certificates that it holds, all of them and no others; one that
/// cannot be read is an error of its own, with the cause.
pub proof fn law_a_pem_is_trusted_for_what_it_holds(
    pem: &str,
    certs: Vec<Vec<u8>>,
    held: Result<ClientConfig, TlsError>,
    r: Result<ClientConfig, TlsError>,
)
    requires
        call_ensures(build_tls_config, (pem,), r),
        call_ensures(config_trusting, (&certs,), held),
    ensures
        tls::pem_certificates(pem@) is Err ==> r is Err && r->Err_0 is BadPem
            && r->Err_0->BadPem_0@ == tls::pem_certificates(pem@)->Err_0,
        tls::pem_certificates(pem@) is Ok && tls::pem_certificates(pem@)->Ok_0 == tls::blobs(
            certs@,
        ) ==> {
            &&& r is Ok <==> held is Ok
            &&& r is Ok ==> tls::pinned_roots(r->Ok_0) == tls::pinned_roots(held->Ok_0)
            &&& r is Err ==> same_reason(r->Err_0, held->Err_0)
        },
{
}

/// The server is called by the host of its endpoint, whatever its port.
pub proof fn law_the_server_is_called_by_its_host(
    endpoint: &str,
    host: &str,
    r: Result<String, String>,
)
    requires
        call_ensures(endpoint_host, (endpoint,), host),
        call_ensures(endpoint_server_name, (endpoint,), r),
    ensures
        r is Ok <==> tls::server_name_of(host@) is Ok,
        r is Ok ==> r->Ok_0@ == tls::server_name_of(host@)->Ok_0,
        r is Err ==> r->Err_0@ == tls::server_name_of(host@)->Err_0,
{
    let name = tls::texts_of(r);
    let h = choose|h: Seq<char>| #[trigger]
        bootstrap::host_part(endpoint@, h) && name == tls::server_name_of(h);
    bootstrap::law_host_is_unique(endpoint@, h, host@);
}

/// The bulk upstream is the bootstrap's: its CA alone is trusted, its bulk endpoint is dialled and
/// named, and its token is shown; a CA that cannot be trusted is the error, and else a host that
/// is no server name.
pub proof fn law_the_upstream_is_the_bootstraps(
    b: Bootstrap,
    pem: &str,
    endpoint: &str,
    config: Result<ClientConfig, TlsError>,
    name: Result<String, String>,
    r: Result<HttpsUpstream, UpstreamError>,
)
    requires
        pem@ == b.ca_cert_pem@,
        endpoint@ == b.bulk_endpoint@,
        call_ensures(build_tls_config, (pem,), config),
        call_ensures(endpoint_server_name, (endpoint,), name),
        call_ensures(HttpsUpstream::from_bootstrap, (&b,), r),
    ensures
        r is Ok <==> config is Ok && name is Ok,
        r is Ok ==> {
            &&& tls::pinned_roots(r->Ok_0.config) == tls::pinned_roots(config->Ok_0)
            &&& r->Ok_0.target.server_name@ == name->Ok_0@
            &&& r->Ok_0.target.authority@ == b.bulk_endpoint@
            &&& r->Ok_0.target.read_token@ == b.read_token@
        },
        config is Err ==> r is Err && r->Err_0 is Tls && same_reason(r->Err_0->Tls_0, config->Err_0),
        config is Ok && name is Err ==> r is Err && r->Err_0 is BadServerName
            && r->Err_0->BadServerName_0@ == name->Err_0@,
{
    let said = tls::texts_of(name);
    let h = choose|h: Seq<char>| #[trigger]
        bootstrap::host_part(endpoint@, h) && said == tls::server_name_of(h);
    let own: Option<Result<Seq<char>, Seq<char>>> = match r {
        Ok(upstream) => Some(Ok(upstream.target.server_name@)),
        Err(UpstreamError::BadServerName(e)) => Some(Err(e@)),
        Err(UpstreamError::Tls(_)) => None,
    };
    if own is Some {
        let g = choose|g: Seq<char>| #[trigger]
            bootstrap::host_part(endpoint@, g) && own->0 == tls::server_name_of(g);
        bootstrap::law_host_is_unique(endpoint@, g, h);
    }
}

/// An error says what was being done and ends in its cause.
pub proof fn law_trust_errors_end_in_their_cause(
    e: TlsError,
    said: String,
    up: UpstreamError,
    q: String,
)
    requires
        call_ensures(TlsError::message, (&e,), said),
        call_ensures(UpstreamError::message, (&up,), q),
    ensures
        e matches TlsError::BadPem(c) ==> said@ == "parsing bootstrap ca_cert_pem: "@ + c@,
        e is NoCertificates ==> said@ == "bootstrap ca_cert_pem contained no certificates"@,
        e matches TlsError::BadCertificate(c) ==> said@ == "adding bootstrap CA to root store: "@
            + c@,
        e matches TlsError::NoVersions(c) ==> said@ == "selecting rustls protocol versions: "@ + c@,
        up matches UpstreamError::BadServerName(c) ==> q@ == "invalid bulk TLS server name: "@
            + c@,
        up == UpstreamError::Tls(e) ==> q@ == said@,
{
}

} // verus!
