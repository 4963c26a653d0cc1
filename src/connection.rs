use vstd::prelude::*;

use crate::wire::push_all;

verus! {

/// The connection preface a client sends first: `PRI * HTTP/2.0\r\n\r\nSM\r\n\r\n`.
pub open spec fn client_magic() -> Seq<u8> {
    seq![
        0x50u8, 0x52u8, 0x49u8, 0x20u8, 0x2au8, 0x20u8, 0x48u8, 0x54u8, 0x54u8, 0x50u8, 0x2fu8,
        0x32u8, 0x2eu8, 0x30u8, 0x0du8, 0x0au8, 0x0du8, 0x0au8, 0x53u8, 0x4du8, 0x0du8, 0x0au8,
        0x0du8, 0x0au8,
    ]
}

/// A transport-layer connection between two endpoints.
pub struct Connection<S> {
    socket: S,
    counter: u32,
}

impl<S> Connection<S> {
    /// Number of streams this endpoint has opened on the connection.
    pub closed spec fn streams_opened(&self) -> u32 {
        self.counter
    }

    /// The transport the connection runs on.
    pub closed spec fn socket(&self) -> S {
        self.socket
    }

    pub fn new(socket: S) -> (r: Connection<S>)
        ensures
            r.socket() == socket,
            r.streams_opened() == 0,
    {
        Connection { socket, counter: 0 }
    }

    pub fn handle(&self) -> (r: Handle) {
        Handle {  }
    }

    pub fn incoming(self) -> (r: Incoming<S>)
        ensures
            r.connection() == self,
    {
        Incoming { conn: self }
    }
}

/// A handle through which frames are queued on a connection.
pub struct Handle {}

impl Handle {
    /// Appends the client connection preface to the outgoing bytes.
    pub fn send_client_magic(&self, dst: &mut Vec<u8>)
        ensures
            final(dst)@ == old(dst)@ + client_magic(),
    {
        let magic: Vec<u8> = vec![
            0x50u8, 0x52u8, 0x49u8, 0x20u8, 0x2au8, 0x20u8, 0x48u8, 0x54u8, 0x54u8, 0x50u8, 0x2fu8,
            0x32u8, 0x2eu8, 0x30u8, 0x0du8, 0x0au8, 0x0du8, 0x0au8, 0x53u8, 0x4du8, 0x0du8, 0x0au8,
            0x0du8, 0x0au8,
        ];
        assert(magic@ =~= client_magic());
        push_all(dst, magic.as_slice());
    }
}

/// The streams a peer opens on a connection.
pub struct Incoming<S> {
    conn: Connection<S>,
}

impl<S> Incoming<S> {
    pub closed spec fn connection(&self) -> Connection<S> {
        self.conn
    }
}

/// A bidirectional flow of frames within an HTTP/2 connection.
pub struct Stream {}

} // verus!
