//! Who is at the other end of a connection, and whether it speaks HTTP.

use std::sync::Arc;

use vstd::prelude::*;
use vstd::slice::slice_to_vec;

use crate::base32;
use crate::base32::base32_encode;
use crate::error::ConnectionServeError;

verus! {

/// The raw public key that identifies an endpoint. Its view is the key's bytes.
#[derive(Clone, Copy, Debug)]
pub struct EndpointId {
    bytes: [u8; 32],
}

impl View for EndpointId {
    type V = Seq<u8>;

    closed spec fn view(&self) -> Seq<u8> {
        self.bytes@
    }
}

impl EndpointId {
    /// The endpoint with this public key.
    pub fn from_bytes(bytes: [u8; 32]) -> (id: EndpointId)
        ensures
            id@ == bytes@,
    {
        EndpointId { bytes }
    }

    /// The bytes of the public key.
    pub fn as_bytes(&self) -> (bytes: &[u8; 32])
        ensures
            bytes@ == self@,
            self@.len() == 32,
    {
        &self.bytes
    }

    /// Whether both name the same endpoint.
    pub fn same(&self, other: &EndpointId) -> (same: bool)
        ensures
            same <==> self@ == other@,
    {
        let mut i: usize = 0;
        while i < 32
            invariant
                i <= 32,
                forall|j: int| 0 <= j < i ==> self.bytes@[j] == other.bytes@[j],
            decreases 32 - i,
        {
            if self.bytes[i] != other.bytes[i] {
                assert(self@[i as int] != other@[i as int]);
                return false;
            }
            i = i + 1;
        }
        assert(self@ =~= other@);
        true
    }
}

impl PartialEq for EndpointId {
    fn eq(&self, other: &EndpointId) -> (equal: bool) {
        self.same(other)
    }
}

impl Eq for EndpointId {

}

impl vstd::std_specs::cmp::PartialEqSpecImpl for EndpointId {
    open spec fn obeys_eq_spec() -> bool {
        true
    }

    open spec fn eq_spec(&self, other: &EndpointId) -> bool {
        self@ == other@
    }
}

/// Authenticated peer of the connection a request arrived on, as lowercase,
/// unpadded RFC 4648 base32. Kept for compatibility.
#[derive(Clone, Debug)]
pub struct RemoteNodeId(pub Arc<String>);

/// Authenticated raw identity of the peer of the connection a request arrived
/// on.
#[derive(Clone, Copy, Debug, PartialEq, Eq)]
pub struct RemoteEndpointId(pub EndpointId);

/// Both forms of a peer's identity, from a connection that speaks HTTP.
#[derive(Clone, Debug)]
pub struct ValidatedRemoteIdentity {
    /// The raw identity.
    pub endpoint_id: EndpointId,
    /// The same identity in base32.
    pub legacy_node_id: String,
}

impl ValidatedRemoteIdentity {
    /// Whether the text is the base32 form of the raw identity.
    pub open spec fn consistent(self) -> bool {
        self.legacy_node_id@ == base32::encoded(self.endpoint_id@)
    }

    /// The extensions that every request on the connection carries.
    pub fn extensions(&self) -> (extensions: (RemoteEndpointId, RemoteNodeId))
        ensures
            extensions.0.0@ == self.endpoint_id@,
            (*extensions.1.0)@ == self.legacy_node_id@,
    {
        (RemoteEndpointId(self.endpoint_id), RemoteNodeId(Arc::new(self.legacy_node_id.clone())))
    }
}

/// How a connection is closed: the QUIC application code and the reason.
#[derive(Clone, Copy, Debug)]
pub struct Close {
    /// Application close code.
    pub code: u32,
    /// Reason sent to the peer.
    pub reason: &'static str,
}

/// Whether `close` closes with code zero and `reason`.
pub open spec fn closes_with(close: Option<Close>, reason: Seq<char>) -> bool {
    close matches Some(c) && c.code == 0 && c.reason@ == reason
}

/// A connection that is turned away: it is closed as said, or just let go of,
/// and the error is returned.
#[derive(Debug)]
pub struct Refusal {
    /// What the caller is told.
    pub error: ConnectionServeError,
    /// What the peer is told.
    pub close: Option<Close>,
}

fn same_bytes(a: &[u8], b: &[u8]) -> (same: bool)
    ensures
        same <==> a@ == b@,
{
    if a.len() != b.len() {
        return false;
    }
    let mut i: usize = 0;
    while i < a.len()
        invariant
            i <= a.len(),
            a.len() == b.len(),
            forall|j: int| 0 <= j < i ==> a@[j] == b@[j],
        decreases a.len() - i,
    {
        if a[i] != b[i] {
            return false;
        }
        i = i + 1;
    }
    assert(a@ =~= b@);
    true
}

/// Accept a connection only where it negotiated `expected`, and name its peer.
///
/// `negotiated` is the protocol name (ALPN) that the handshake settled on, and
/// `remote_id` the peer that it authenticated.
pub fn validate_http_connection(
    negotiated: &[u8],
    expected: &[u8],
    remote_id: EndpointId,
) -> (checked: Result<ValidatedRemoteIdentity, Refusal>)
    ensures
        checked is Ok <==> negotiated@ == expected@,
        checked matches Ok(identity) ==> {
            &&& identity.endpoint_id == remote_id
            &&& identity.consistent()
        },
        checked matches Err(refusal) ==> {
            &&& refusal.error matches ConnectionServeError::UnexpectedAlpn { actual }
            &&& actual@ == negotiated@
            &&& closes_with(refusal.close, "unexpected ALPN"@)
        },
{
    if !same_bytes(negotiated, expected) {
        return Err(
            Refusal {
                error: ConnectionServeError::UnexpectedAlpn { actual: slice_to_vec(negotiated) },
                close: Some(Close { code: 0, reason: "unexpected ALPN" }),
            },
        );
    }
    let legacy_node_id = base32_encode(remote_id.as_bytes());
    Ok(ValidatedRemoteIdentity { endpoint_id: remote_id, legacy_node_id })
}

/// Two peers have the same base32 identity only if they are the same endpoint,
/// so a service that tells peers apart by either form tells the same peers
/// apart.
pub proof fn law_node_ids_distinguish_endpoints(
    a: ValidatedRemoteIdentity,
    b: ValidatedRemoteIdentity,
)
    requires
        a.consistent(),
        b.consistent(),
    ensures
        a.legacy_node_id@ == b.legacy_node_id@ <==> a.endpoint_id@ == b.endpoint_id@,
{
    if a.legacy_node_id@ == b.legacy_node_id@ {
        base32::law_encoding_is_injective(a.endpoint_id@, b.endpoint_id@);
    }
}

/// A close that is to tell `reason` does so, with code zero, and is there.
pub proof fn law_closing_tells_the_reason(close: Option<Close>, reason: Seq<char>)
    ensures
        closes_with(close, reason) ==> close is Some && close->0.code == 0 && close->0.reason@
            == reason,
{
}

} // verus!
