//! The forwarding step: one datagram in, one message body out.
//!
//! The process receives each datagram into a fixed buffer of
//! [`RECV_BUF_SIZE`] bytes and publishes the message returned by
//! [`ForwardingLog::relay`] before receiving the next, so messages go out one
//! at a time, in arrival order. The log's ghost history records every
//! datagram handed in and every body handed out, and its invariant keeps the
//! two sequences identical: nothing is altered, duplicated, dropped or
//! reordered.

use vstd::prelude::*;

verus! {

/// Size of the receive buffer: the largest possible UDP datagram.
pub const RECV_BUF_SIZE: usize = 65535;

/// The body to publish for a datagram that arrived as the first `len` bytes
/// of `buf`: exactly those bytes.
pub open spec fn body_of(buf: Seq<u8>, len: int) -> Seq<u8> {
    buf.take(len)
}

/// The relay between the UDP socket and the broker channel, with a ghost
/// history of the datagrams received and the bodies published.
pub struct ForwardingLog {
    /// Every datagram handed to the relay, in arrival order.
    pub received: Ghost<Seq<Seq<u8>>>,
    /// Every message body the relay produced, in publish order.
    pub published: Ghost<Seq<Seq<u8>>>,
}

impl ForwardingLog {
    /// The published history is byte-for-byte the received history.
    pub open spec fn wf(self) -> bool {
        self.published@ == self.received@
    }

    /// A fresh relay: nothing received, nothing published.
    pub fn new() -> (l: ForwardingLog)
        ensures
            l.wf(),
            l.received@ == Seq::<Seq<u8>>::empty(),
            l.published@ == Seq::<Seq<u8>>::empty(),
    {
        ForwardingLog { received: Ghost(Seq::empty()), published: Ghost(Seq::empty()) }
    }

    /// Turn the datagram that arrived as the first `len` bytes of `buf` into
    /// the message body to publish, and record both in the history.
    pub fn relay(&mut self, buf: &Vec<u8>, len: usize) -> (body: Vec<u8>)
        requires
            old(self).wf(),
            len <= buf.len(),
        ensures
            final(self).wf(),
            body@ == body_of(buf@, len as int),
            final(self).received@ == old(self).received@.push(body_of(buf@, len as int)),
            final(self).published@ == old(self).published@.push(body@),
    {
        let mut body: Vec<u8> = Vec::new();
        let mut i: usize = 0;
        while i < len
            invariant
                i <= len,
                len <= buf.len(),
                body@ == buf@.take(i as int),
            decreases len - i,
        {
            body.push(buf[i]);
            proof {
                assert(body@ =~= buf@.take(i + 1));
            }
            i = i + 1;
        }
        proof {
            self.received@ = self.received@.push(buf@.take(len as int));
            self.published@ = self.published@.push(body@);
        }
        body
    }
}

/// Exactness of the forwarding history: as many messages go out as datagrams
/// came in, and the message at each position is byte-for-byte the datagram at
/// that position — no alteration, duplication or reordering.
pub proof fn lemma_forwarding_exact(l: ForwardingLog)
    requires
        l.wf(),
    ensures
        l.published@.len() == l.received@.len(),
        forall|i: int| 0 <= i < l.received@.len() ==> l.published@[i] == l.received@[i],
{
}

} // verus!
