//! The session material that the host delivers to the device.
use vstd::prelude::*;
use crate::text;

verus! {

/// The device-side bootstrap, read from the writable partition.
#[derive(Debug, Clone, PartialEq, Eq)]
pub struct Bootstrap {
    /// The `host:port` of the bulk read listener that the device pulls from.
    pub bulk_endpoint: String,
    /// The Bearer read/control token, the only token that a device holds.
    pub read_token: String,
    /// The CA certificate (PEM) that the device pins the host's leaf to.
    pub ca_cert_pem: String,
    /// The `host:port` of the control WebSocket. Empty where the host did not say.
    pub ws_endpoint: String,
}

impl Bootstrap {
    /// Whether this bootstrap and `other` carry the same session material.
    pub open spec fn same_session(self, other: Bootstrap) -> bool {
        &&& self.read_token@ == other.read_token@
        &&& self.bulk_endpoint@ == other.bulk_endpoint@
        &&& self.ws_endpoint@ == other.ws_endpoint@
        &&& self.ca_cert_pem@ == other.ca_cert_pem@
    }

    /// Whether this bootstrap and `other` carry the same session material.
    ///
    /// A change of the token, of an endpoint or of the CA means that the session in progress is
    /// finished.
    pub fn same_session_as(&self, other: &Bootstrap) -> (r: bool)
        ensures
            r == self.same_session(*other),
    {
        self.read_token == other.read_token && self.bulk_endpoint == other.bulk_endpoint
            && self.ws_endpoint == other.ws_endpoint && self.ca_cert_pem == other.ca_cert_pem
    }
}

/// Whether `host` is what stands in `endpoint` before its last colon, or all of it where it has
/// none.
pub open spec fn host_part(endpoint: Seq<char>, host: Seq<char>) -> bool {
    if endpoint.contains(':') {
        exists|port: Seq<char>|
            !port.contains(':') && endpoint == #[trigger] (host.push(':') + port)
    } else {
        host == endpoint
    }
}

/// The host of a `host:port` endpoint, for use as a server name.
pub fn endpoint_host(endpoint: &str) -> (host: &str)
    ensures
        host_part(endpoint@, host@),
{
    match text::last_position(endpoint, ':') {
        Some(at) => {
            let host = endpoint.substring_char(0, at);
            proof {
                let port = endpoint@.skip(at + 1);
                assert(!port.contains(':')) by {
                    if port.contains(':') {
                        let k = port.index_of(':');
                        assert(endpoint@[at + 1 + k] == ':');
                    }
                }
                assert(endpoint@ =~= host@.push(':') + port);
            }
            host
        },
        None => endpoint,
    }
}

/// An endpoint has one host: no other split of it leaves a port without a colon.
pub proof fn law_host_is_unique(endpoint: Seq<char>, a: Seq<char>, b: Seq<char>)
    requires
        host_part(endpoint, a),
        host_part(endpoint, b),
    ensures
        a == b,
{
    if endpoint.contains(':') {
        let p = choose|port: Seq<char>|
            !port.contains(':') && endpoint == #[trigger] (a.push(':') + port);
        let q = choose|port: Seq<char>|
            !port.contains(':') && endpoint == #[trigger] (b.push(':') + port);
        assert(endpoint[a.len() as int] == ':');
        assert(endpoint[b.len() as int] == ':');
        if a.len() < b.len() {
            assert(p[b.len() - a.len() - 1] == ':');
        } else if b.len() < a.len() {
            assert(q[a.len() - b.len() - 1] == ':');
        }
        assert(a =~= endpoint.take(a.len() as int));
        assert(b =~= endpoint.take(b.len() as int));
    }
}

} // verus!
