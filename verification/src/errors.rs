use vstd::prelude::*;

verus! {

/// Every way a single connection attempt can fail.
///
/// Each error is fatal to the current connection attempt only: the
/// supervisor logs it, applies backoff, and redials from scratch.
#[derive(Debug, PartialEq, Eq)]
pub enum ProxyError {
    /// The auth server rejected a handshake or refresh call.
    AuthenticationError(String),
    /// A credential received from the server was malformed
    /// (absent, or missing a field).
    BadAuthenticationToken(String),
    /// Dialing the auth endpoint exceeded the connection timeout.
    AuthenticationConnectionTimeout,
    /// Dialing the auth endpoint failed outright.
    AuthenticationConnectionError(String),
    /// The handshake itself exceeded the connection timeout.
    AuthenticationTimeout,
    /// Dialing the relayer endpoint exceeded the connection timeout.
    RelayerConnectionTimeout,
    /// Dialing the relayer endpoint failed outright.
    RelayerConnectionError(String),
    /// The relayer did not advertise the named TPU socket.
    MissingTpuSocket(String),
    /// The relayer advertised a TPU socket that does not parse.
    BadTpuSocket(String),
    /// The packet stream ended without an error.
    GrpcStreamDisconnected,
    /// The packet stream failed with a transport error.
    GrpcError(String),
    /// No heartbeat arrived within the allowed staleness window.
    HeartbeatExpired,
    /// The heartbeat sink was closed.
    HeartbeatChannelError,
    /// A packet sink was closed.
    PacketForwardError,
    /// The local signing identity rotated after the connection was
    /// authorized for the old identity.
    IdentityChanged,
}

} // verus!
