use vstd::prelude::*;

use crate::error::ErrorCode;

verus! {

/// Status of the response that opens a tunnel.
pub const STATUS_OK: u16 = 200;

/// Status of the response when the upstream cannot be reached.
pub const STATUS_BAD_GATEWAY: u16 = 502;

/// What the server does with a stream a client opened.
#[derive(Clone, Copy, Debug, PartialEq, Eq, Structural)]
pub enum ServerAction {
    /// Reset the stream with this code.
    Refuse(ErrorCode),
    /// Connect to the upstream address.
    DialUpstream,
    /// Send response headers with this status.
    Respond { status: u16, end_stream: bool },
}

/// The server's answer to a request: only CONNECT opens a tunnel; any other
/// method has its stream refused.
pub fn on_request(is_connect: bool) -> (r: ServerAction)
    ensures
        is_connect ==> r == ServerAction::DialUpstream,
        !is_connect ==> r == ServerAction::Refuse(ErrorCode::RefusedStream),
{
    if is_connect {
        ServerAction::DialUpstream
    } else {
        ServerAction::Refuse(ErrorCode::RefusedStream)
    }
}

/// The server's response once the upstream dial is over: 200 with the stream
/// left open for the tunnel, or 502 ending the stream.
pub fn on_upstream_dialed(connected: bool) -> (r: ServerAction)
    ensures
        connected ==> r == (ServerAction::Respond { status: STATUS_OK, end_stream: false }),
        !connected ==> r == (ServerAction::Respond { status: STATUS_BAD_GATEWAY, end_stream: true }),
{
    if connected {
        ServerAction::Respond { status: STATUS_OK, end_stream: false }
    } else {
        ServerAction::Respond { status: STATUS_BAD_GATEWAY, end_stream: true }
    }
}

/// Whether the client splices a tunnel onto a response: only on status 200;
/// otherwise both sides are closed.
pub fn tunnel_accepted(status: u16) -> (r: bool)
    ensures
        r == (status == STATUS_OK),
{
    status == STATUS_OK
}

/// The encodings a server private key may be loaded from.
#[derive(Clone, Copy, Debug, PartialEq, Eq, Structural)]
pub enum KeyFormat {
    Pkcs8,
    Rsa,
}

/// Which of the keys found in a key file to use: PKCS#8 when there is one,
/// else RSA; `None` when the file holds neither.
pub fn preferred_key(pkcs8_keys: usize, rsa_keys: usize) -> (r: Option<KeyFormat>)
    ensures
        pkcs8_keys > 0 ==> r == Some(KeyFormat::Pkcs8),
        pkcs8_keys == 0 && rsa_keys > 0 ==> r == Some(KeyFormat::Rsa),
        pkcs8_keys == 0 && rsa_keys == 0 ==> r == None::<KeyFormat>,
{
    if pkcs8_keys > 0 {
        Some(KeyFormat::Pkcs8)
    } else if rsa_keys > 0 {
        Some(KeyFormat::Rsa)
    } else {
        None
    }
}

} // verus!
