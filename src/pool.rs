use vstd::prelude::*;

use std::collections::VecDeque;

verus! {

/// What the pool asks its driver to do to get a connection for a new stream.
#[derive(Clone, Copy, Debug, PartialEq, Eq, Structural)]
pub enum Dispatch {
    /// The pool is empty: dial a new connection and report it with `on_dialed`.
    Dial,
    /// Ask connection `key` whether it can open a new stream; report with `on_probed`.
    Probe(u64),
    /// Open the stream on connection `key`; report with `on_opened` or `on_open_failed`.
    Open(u64),
}

/// The dispatch rules of the client's pool of HTTP/2 connections to one peer.
///
/// Connections are known by keys and pooled in order of insertion. A new stream
/// takes the front connection out of the pool, or dials one if there is none; a
/// connection that is not ready for a new stream is dropped and the next one is
/// tried. After a stream opens, its connection goes back to the end of the pool,
/// so that streams are spread round-robin. Several streams may be dispatched at
/// once: each holds the connection it took until it reports back.
pub struct Dispatcher {
    queue: VecDeque<u64>,
    next_key: u64,
    taken: Ghost<Set<u64>>,
}

impl Dispatcher {
    /// The pooled connections, front first.
    pub closed spec fn connections(&self) -> Seq<u64> {
        self.queue@
    }

    /// The connections taken out of the pool by streams being dispatched.
    pub closed spec fn taken(&self) -> Set<u64> {
        self.taken@
    }

    /// The key the next dialed connection gets; every key handed out is smaller.
    pub closed spec fn next_key(&self) -> u64 {
        self.next_key
    }

    /// Every key is handed out once: pooled keys are distinct, smaller than the
    /// next key, and not taken.
    pub closed spec fn wf(&self) -> bool {
        &&& forall|i: int, j: int|
            0 <= i < j < self.queue@.len() ==> #[trigger] self.queue@[i] != #[trigger] self.queue@[j]
        &&& forall|i: int|
            0 <= i < self.queue@.len() ==> #[trigger] self.queue@[i] < self.next_key
                && !self.taken@.contains(self.queue@[i])
        &&& forall|k: u64| #[trigger] self.taken@.contains(k) ==> k < self.next_key
    }

    pub fn new() -> (r: Dispatcher)
        ensures
            r.wf(),
            r.connections() == Seq::<u64>::empty(),
            r.taken() == Set::<u64>::empty(),
    {
        Dispatcher { queue: VecDeque::new(), next_key: 0, taken: Ghost(Set::empty()) }
    }

    /// Whether a fresh key is left for another dialed connection.
    pub fn can_dial(&self) -> (r: bool)
        ensures
            r == (self.next_key() < u64::MAX),
    {
        self.next_key < u64::MAX
    }

    /// The number of pooled connections.
    pub fn len(&self) -> (r: usize)
        ensures
            r == self.connections().len(),
    {
        self.queue.len()
    }

    /// Starts dispatching a stream: takes the front connection to be probed, or
    /// asks for a dial when the pool is empty.
    pub fn next(&mut self) -> (r: Dispatch)
        requires
            old(self).wf(),
        ensures
            final(self).wf(),
            final(self).next_key() == old(self).next_key(),
            old(self).connections().len() == 0 ==> r == Dispatch::Dial && final(self).connections()
                == old(self).connections() && final(self).taken() == old(self).taken(),
            old(self).connections().len() > 0 ==> r == Dispatch::Probe(old(self).connections()[0])
                && final(self).connections() == old(self).connections().drop_first()
                && final(self).taken() == old(self).taken().insert(old(self).connections()[0]),
    {
        match self.queue.pop_front() {
            Some(k) => {
                proof {
                    self.taken@ = self.taken@.insert(k);
                    assert forall|i: int, j: int|
                        0 <= i < j < self.queue@.len() implies #[trigger] self.queue@[i]
                        != #[trigger] self.queue@[j] by {
                        assert(self.queue@[i] == old(self).queue@[i + 1]);
                        assert(self.queue@[j] == old(self).queue@[j + 1]);
                    }
                    assert forall|i: int| 0 <= i < self.queue@.len() implies #[trigger]
                    self.queue@[i] < self.next_key && !self.taken@.contains(self.queue@[i]) by {
                        assert(self.queue@[i] == old(self).queue@[i + 1]);
                        assert(old(self).queue@[0] != old(self).queue@[i + 1]);
                    }
                }
                Dispatch::Probe(k)
            },
            None => Dispatch::Dial,
        }
    }

    /// A new connection was dialed: it gets a fresh key and is taken by the
    /// stream that asked for it, to be probed. Returns its key.
    pub fn on_dialed(&mut self) -> (r: u64)
        requires
            old(self).wf(),
            old(self).next_key() < u64::MAX,
        ensures
            final(self).wf(),
            r == old(self).next_key(),
            final(self).next_key() == old(self).next_key() + 1,
            final(self).taken() == old(self).taken().insert(r),
            final(self).connections() == old(self).connections(),
    {
        let k = self.next_key;
        self.next_key = k + 1;
        proof {
            self.taken@ = self.taken@.insert(k);
        }
        k
    }

    /// Whether connection `key` can open a new stream. If it can, it is to be
    /// used; if not, it is dropped and dispatch goes on as `next` does.
    pub fn on_probed(&mut self, key: u64, ready: bool) -> (r: Dispatch)
        requires
            old(self).wf(),
            old(self).taken().contains(key),
        ensures
            final(self).wf(),
            final(self).next_key() == old(self).next_key(),
            ready ==> r == Dispatch::Open(key) && final(self).taken() == old(self).taken()
                && final(self).connections() == old(self).connections(),
            !ready && old(self).connections().len() == 0 ==> r == Dispatch::Dial
                && final(self).taken() == old(self).taken().remove(key)
                && final(self).connections() == old(self).connections(),
            !ready && old(self).connections().len() > 0 ==> r == Dispatch::Probe(
                old(self).connections()[0],
            ) && final(self).taken() == old(self).taken().remove(key).insert(
                old(self).connections()[0],
            ) && final(self).connections() == old(self).connections().drop_first(),
    {
        if ready {
            Dispatch::Open(key)
        } else {
            proof {
                self.taken@ = self.taken@.remove(key);
            }
            self.next()
        }
    }

    /// The stream opened on connection `key`: it goes back to the end of the pool.
    pub fn on_opened(&mut self, key: u64)
        requires
            old(self).wf(),
            old(self).taken().contains(key),
        ensures
            final(self).wf(),
            final(self).next_key() == old(self).next_key(),
            final(self).taken() == old(self).taken().remove(key),
            final(self).connections() == old(self).connections().push(key),
    {
        self.queue.push_back(key);
        proof {
            self.taken@ = self.taken@.remove(key);
            assert forall|i: int, j: int|
                0 <= i < j < self.queue@.len() implies #[trigger] self.queue@[i]
                != #[trigger] self.queue@[j] by {
                if j == self.queue@.len() - 1 {
                    assert(self.queue@[i] == old(self).queue@[i]);
                }
            }
            assert forall|i: int| 0 <= i < self.queue@.len() implies #[trigger] self.queue@[i]
                < self.next_key && !self.taken@.contains(self.queue@[i]) by {
                if i < self.queue@.len() - 1 {
                    assert(self.queue@[i] == old(self).queue@[i]);
                }
            }
        }
    }

    /// Opening the stream on connection `key` failed: the connection is dropped.
    pub fn on_open_failed(&mut self, key: u64)
        requires
            old(self).wf(),
            old(self).taken().contains(key),
        ensures
            final(self).wf(),
            final(self).next_key() == old(self).next_key(),
            final(self).taken() == old(self).taken().remove(key),
            final(self).connections() == old(self).connections(),
    {
        proof {
            self.taken@ = self.taken@.remove(key);
        }
    }
}

} // verus!
