use vstd::prelude::*;

verus! {

/// Where a pump of a CONNECT tunnel stands.
#[derive(Clone, Copy, Debug, PartialEq, Eq, Structural)]
pub enum PumpState {
    /// Waiting for bytes from its source.
    ReadingSrc,
    /// Holding bytes that the stream has no send capacity for yet.
    WaitingForCapacity,
    /// Holding bytes that the destination socket has not taken yet.
    WritingDst,
    /// Finished; its count is final.
    Done,
}

/// What the local-to-stream pump asks its driver to do next.
#[derive(Debug)]
pub enum SendAction {
    /// Send these bytes as one DATA frame.
    Send { data: Vec<u8>, end_stream: bool },
    /// Reserve this much send capacity on the stream, then report the capacity
    /// the stream has.
    Reserve(usize),
    /// Nothing to send yet: report the stream's capacity when it changes.
    Wait,
}

/// The pump that copies bytes read from the local socket into DATA frames on an
/// HTTP/2 stream, sending no more than the stream's send capacity at a time.
///
/// Driver loop: in `ReadingSrc`, read from the socket and call `on_read`; in
/// `WaitingForCapacity`, call `on_capacity` with the stream's capacity. Perform
/// each returned action. A read of zero bytes means the local side closed: the
/// pump then sends one empty DATA frame with END_STREAM and is done.
pub struct SendPump {
    buffer: Vec<u8>,
    count: usize,
    finished: bool,
    read: Ghost<Seq<u8>>,
    sent: Ghost<Seq<u8>>,
}

impl SendPump {
    /// All bytes read from the local socket so far, in order.
    pub closed spec fn read_bytes(&self) -> Seq<u8> {
        self.read@
    }

    /// All bytes sent in DATA frames so far, in order.
    pub closed spec fn sent_bytes(&self) -> Seq<u8> {
        self.sent@
    }

    /// The bytes read and not yet sent.
    pub closed spec fn buffered(&self) -> Seq<u8> {
        self.buffer@
    }

    /// The number of bytes sent so far.
    pub closed spec fn count(&self) -> nat {
        self.count as nat
    }

    pub closed spec fn spec_state(&self) -> PumpState {
        if self.finished {
            PumpState::Done
        } else if self.buffer@.len() > 0 {
            PumpState::WaitingForCapacity
        } else {
            PumpState::ReadingSrc
        }
    }

    /// What was sent, followed by what is buffered, is what was read; the count
    /// is the number of bytes sent.
    pub closed spec fn wf(&self) -> bool {
        &&& self.sent@ + self.buffer@ == self.read@
        &&& self.read@.len() <= usize::MAX
        &&& self.count as nat == self.sent@.len()
        &&& self.finished ==> self.buffer@.len() == 0
    }

    pub fn new() -> (r: SendPump)
        ensures
            r.wf(),
            r.spec_state() == PumpState::ReadingSrc,
            r.read_bytes() == Seq::<u8>::empty(),
            r.sent_bytes() == Seq::<u8>::empty(),
    {
        SendPump {
            buffer: Vec::new(),
            count: 0,
            finished: false,
            read: Ghost(Seq::empty()),
            sent: Ghost(Seq::empty()),
        }
    }

    pub fn state(&self) -> (r: PumpState)
        ensures
            r == self.spec_state(),
    {
        if self.finished {
            PumpState::Done
        } else if self.buffer.len() > 0 {
            PumpState::WaitingForCapacity
        } else {
            PumpState::ReadingSrc
        }
    }

    /// The number of bytes sent; the pump's result once it is done.
    pub fn bytes_sent(&self) -> (r: usize)
        ensures
            r == self.count(),
    {
        self.count
    }

    /// Whether the stream must be reset if the tunnel is dropped now: it must
    /// unless the pump has already ended it.
    pub fn must_reset_on_cancel(&self) -> (r: bool)
        ensures
            r == (self.spec_state() != PumpState::Done),
    {
        !self.finished
    }

    /// Takes the bytes of one read from the local socket. Zero bytes end the
    /// stream: one empty DATA frame with END_STREAM is to be sent, and the pump is
    /// done. Otherwise the bytes are held and their length is to be reserved.
    pub fn on_read(&mut self, data: Vec<u8>) -> (r: SendAction)
        requires
            old(self).wf(),
            old(self).spec_state() == PumpState::ReadingSrc,
            old(self).read_bytes().len() + data@.len() <= usize::MAX,
        ensures
            final(self).wf(),
            final(self).read_bytes() == old(self).read_bytes() + data@,
            data@.len() == 0 ==> (r matches SendAction::Send { data: d, end_stream: true } && d@.len()
                == 0) && final(self).spec_state() == PumpState::Done && final(self).sent_bytes()
                == old(self).sent_bytes(),
            data@.len() > 0 ==> r == SendAction::Reserve(data@.len() as usize)
                && final(self).spec_state() == PumpState::WaitingForCapacity
                && final(self).buffered() == data@ && final(self).sent_bytes()
                == old(self).sent_bytes(),
    {
        proof {
            self.read@ = self.read@ + data@;
        }
        if data.len() == 0 {
            self.finished = true;
            assert(self.sent@ + self.buffer@ =~= self.read@);
            SendAction::Send { data: Vec::new(), end_stream: true }
        } else {
            let n = data.len();
            self.buffer = data;
            assert(self.sent@ + self.buffer@ =~= self.read@);
            SendAction::Reserve(n)
        }
    }

    /// Takes the stream's current send capacity. With none, the pump waits. With
    /// capacity for all that is held, all of it is to be sent; with less, as much
    /// as the capacity allows, and the rest stays held. END_STREAM is not set.
    pub fn on_capacity(&mut self, capacity: usize) -> (r: SendAction)
        requires
            old(self).wf(),
            old(self).spec_state() == PumpState::WaitingForCapacity,
        ensures
            final(self).wf(),
            final(self).read_bytes() == old(self).read_bytes(),
            capacity == 0 ==> (r matches SendAction::Wait) && final(self).sent_bytes() == old(self).sent_bytes()
                && final(self).buffered() == old(self).buffered(),
            capacity > 0 ==> match r {
                SendAction::Send { data, end_stream } => {
                    &&& !end_stream
                    &&& data@.len() == if capacity < old(self).buffered().len() {
                        capacity as nat
                    } else {
                        old(self).buffered().len()
                    }
                    &&& final(self).sent_bytes() == old(self).sent_bytes() + data@
                }
                _ => false,
            },
            final(self).spec_state() != PumpState::Done,
    {
        if capacity == 0 {
            return SendAction::Wait;
        }
        let ghost old_buffer = self.buffer@;
        let data = if capacity < self.buffer.len() {
            let rest = self.buffer.split_off(capacity);
            let head = self.buffer.split_off(0);
            self.buffer = rest;
            head
        } else {
            self.buffer.split_off(0)
        };
        assert(data@ + self.buffer@ =~= old_buffer);
        proof {
            self.sent@ = self.sent@ + data@;
        }
        assert(self.sent@ + self.buffer@ =~= self.read@);
        self.count = self.count + data.len();
        SendAction::Send { data, end_stream: false }
    }
}

/// What the stream-to-local pump asks its driver to do after the destination
/// socket took some bytes.
#[derive(Debug, Clone, Copy, PartialEq, Eq, Structural)]
pub struct Release {
    /// Receive capacity to hand back to the peer: exactly the bytes just written.
    pub capacity: usize,
}

/// The pump that copies DATA received on an HTTP/2 stream to the local socket.
/// Receive capacity is released by exactly the number of bytes written to the
/// socket, when they are written, so that a slow local reader holds back the peer.
///
/// Driver loop: in `ReadingSrc`, take the next DATA chunk and call `on_chunk`, or
/// at the end of the stream call `on_end` and shut the socket down for writing;
/// in `WritingDst`, write `unwritten()` to the socket, call `on_written` with what
/// was taken, and release the capacity it returns.
pub struct RecvPump {
    chunk: Vec<u8>,
    offset: usize,
    count: usize,
    finished: bool,
    received: Ghost<Seq<u8>>,
    written: Ghost<Seq<u8>>,
    released: Ghost<nat>,
}

impl RecvPump {
    /// All bytes received from the stream so far, in order.
    pub closed spec fn received_bytes(&self) -> Seq<u8> {
        self.received@
    }

    /// All bytes written to the local socket so far, in order.
    pub closed spec fn written_bytes(&self) -> Seq<u8> {
        self.written@
    }

    /// The sum of the capacity releases asked for so far.
    pub closed spec fn released(&self) -> nat {
        self.released@
    }

    /// The number of bytes written so far.
    pub closed spec fn count(&self) -> nat {
        self.count as nat
    }

    /// The bytes received and not yet written.
    pub closed spec fn pending(&self) -> Seq<u8> {
        self.chunk@.subrange(self.offset as int, self.chunk@.len() as int)
    }

    pub closed spec fn spec_state(&self) -> PumpState {
        if self.finished {
            PumpState::Done
        } else if self.offset < self.chunk@.len() {
            PumpState::WritingDst
        } else {
            PumpState::ReadingSrc
        }
    }

    /// What was written, followed by what is pending, is what was received; the
    /// count is the number of bytes written and the sum of the releases.
    pub closed spec fn wf(&self) -> bool {
        &&& self.offset <= self.chunk@.len() <= usize::MAX
        &&& self.received@.len() <= usize::MAX
        &&& self.written@ + self.pending() == self.received@
        &&& self.count as nat == self.written@.len()
        &&& self.released@ == self.written@.len()
        &&& self.finished ==> self.offset == self.chunk@.len()
    }

    pub fn new() -> (r: RecvPump)
        ensures
            r.wf(),
            r.spec_state() == PumpState::ReadingSrc,
            r.received_bytes() == Seq::<u8>::empty(),
            r.written_bytes() == Seq::<u8>::empty(),
    {
        RecvPump {
            chunk: Vec::new(),
            offset: 0,
            count: 0,
            finished: false,
            received: Ghost(Seq::empty()),
            written: Ghost(Seq::empty()),
            released: Ghost(0),
        }
    }

    pub fn state(&self) -> (r: PumpState)
        ensures
            r == self.spec_state(),
    {
        if self.finished {
            PumpState::Done
        } else if self.offset < self.chunk.len() {
            PumpState::WritingDst
        } else {
            PumpState::ReadingSrc
        }
    }

    /// The number of bytes written; the pump's result once it is done.
    pub fn bytes_received(&self) -> (r: usize)
        ensures
            r == self.count(),
    {
        self.count
    }

    /// Takes one DATA chunk received on the stream.
    pub fn on_chunk(&mut self, chunk: Vec<u8>)
        requires
            old(self).wf(),
            old(self).spec_state() == PumpState::ReadingSrc,
            old(self).received_bytes().len() + chunk@.len() <= usize::MAX,
        ensures
            final(self).wf(),
            final(self).received_bytes() == old(self).received_bytes() + chunk@,
            final(self).written_bytes() == old(self).written_bytes(),
            final(self).pending() == chunk@,
            final(self).spec_state() == if chunk@.len() == 0 {
                PumpState::ReadingSrc
            } else {
                PumpState::WritingDst
            },
    {
        let _n = chunk.len();
        proof {
            self.received@ = self.received@ + chunk@;
        }
        self.chunk = chunk;
        self.offset = 0;
        assert(self.pending() =~= self.chunk@);
        assert(self.written@ + self.pending() =~= self.received@);
    }

    /// The bytes still to be written to the socket.
    pub fn unwritten(&self) -> (r: &[u8])
        requires
            self.wf(),
        ensures
            r@ == self.pending(),
    {
        vstd::slice::slice_subrange(self.chunk.as_slice(), self.offset, self.chunk.len())
    }

    /// Records that the socket took the first `n` pending bytes; returns the
    /// receive capacity to release for them.
    pub fn on_written(&mut self, n: usize) -> (r: Release)
        requires
            old(self).wf(),
            old(self).spec_state() == PumpState::WritingDst,
            n <= old(self).pending().len(),
        ensures
            final(self).wf(),
            r.capacity == n,
            final(self).received_bytes() == old(self).received_bytes(),
            final(self).written_bytes() == old(self).written_bytes() + old(self).pending().subrange(
                0,
                n as int,
            ),
            final(self).pending() == old(self).pending().subrange(
                n as int,
                old(self).pending().len() as int,
            ),
            final(self).released() == old(self).released() + n,
            final(self).spec_state() != PumpState::Done,
    {
        let ghost p = self.pending();
        proof {
            self.written@ = self.written@ + p.subrange(0, n as int);
            self.released@ = (self.released@ + n) as nat;
        }
        self.offset = self.offset + n;
        assert(self.pending() =~= p.subrange(n as int, p.len() as int));
        assert(self.written@ + self.pending() =~= self.received@);
        self.count = self.count + n;
        Release { capacity: n }
    }

    /// The stream ended: the pump is done, and the socket is to be shut down for
    /// writing. Returns the number of bytes written.
    pub fn on_end(&mut self) -> (r: usize)
        requires
            old(self).wf(),
            old(self).spec_state() == PumpState::ReadingSrc,
        ensures
            final(self).wf(),
            final(self).spec_state() == PumpState::Done,
            final(self).received_bytes() == old(self).received_bytes(),
            final(self).written_bytes() == old(self).written_bytes(),
            r == final(self).count(),
    {
        self.finished = true;
        self.count
    }
}

/// Once the local-to-stream pump is done, the stream has carried exactly the
/// bytes read from the local socket, in order, however the capacity came.
pub proof fn lemma_send_pump_delivers_all(p: SendPump)
    requires
        p.wf(),
        p.spec_state() == PumpState::Done,
    ensures
        p.sent_bytes() == p.read_bytes(),
        p.count() == p.read_bytes().len(),
{
    assert(p.sent_bytes() + p.buffered() == p.read_bytes());
    assert(p.buffered().len() == 0);
    assert(p.sent_bytes() =~= p.read_bytes());
}

/// The count of the stream-to-local pump is the number of bytes written to the
/// socket and the sum of the receive capacity released; what was written is what
/// was received, and all of it once the pump is done.
pub proof fn lemma_recv_pump_counts(p: RecvPump)
    requires
        p.wf(),
    ensures
        p.count() == p.written_bytes().len(),
        p.count() == p.released(),
        p.written_bytes() + p.pending() == p.received_bytes(),
        p.spec_state() == PumpState::Done ==> p.written_bytes() == p.received_bytes(),
{
    if p.spec_state() == PumpState::Done {
        assert(p.pending() =~= Seq::<u8>::empty());
        assert(p.written_bytes() + p.pending() =~= p.written_bytes());
    }
}

} // verus!
