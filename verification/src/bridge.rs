//! The stream bridge: adapts the protocol's chunked inbound body to the
//! reader contract a backend SDK expects.
//!
//! The inbound body arrives as irregularly sized chunks; the SDK asks for
//! arbitrary-sized slices. A bridge handle satisfies each read first from
//! its private carry-over buffer (bytes pulled earlier that did not fit
//! into a previous slice), and only otherwise accepts the next upstream
//! chunk, delivering the requested prefix and retaining the suffix. The
//! chunk source itself lives outside the library, behind the caller's
//! lock when handles are shared; the caller pulls a chunk only when
//! [`StreamBridge::needs_chunk`] says the carry-over is empty.

use vstd::prelude::*;

verus! {

use vstd::math::min;
use crate::errors::ProxyError;

/// One handle onto an inbound byte stream, with a private carry-over
/// buffer and a ghost account of every byte that passed through it.
pub struct StreamBridge {
    carry: Vec<u8>,
    total_len: usize,
    replayable: bool,
    delivered: Ghost<Seq<u8>>,
    pulled: Ghost<Seq<u8>>,
}

impl StreamBridge {
    /// All bytes this handle ever delivered to its caller, in order.
    pub closed spec fn delivered_bytes(self) -> Seq<u8> {
        self.delivered@
    }

    /// All bytes this handle ever accepted from the upstream source, in
    /// order.
    pub closed spec fn pulled_bytes(self) -> Seq<u8> {
        self.pulled@
    }

    /// The carry-over buffer: pulled but not yet delivered.
    pub closed spec fn carry_bytes(self) -> Seq<u8> {
        self.carry@
    }

    /// The total length declared at construction, for backends that need
    /// a content length up front.
    pub closed spec fn declared_len(self) -> nat {
        self.total_len as nat
    }

    /// Whether the upstream source can be replayed from the start.
    pub closed spec fn is_replayable(self) -> bool {
        self.replayable
    }

    /// The accounting invariant: what was pulled is exactly what was
    /// delivered followed by what still waits in the carry-over buffer.
    /// No byte is duplicated, dropped, or reordered.
    pub closed spec fn wf(self) -> bool {
        self.pulled@ == self.delivered@ + self.carry@
    }

    /// A fresh handle at the start of a stream of `total_len` declared
    /// bytes.
    pub fn new(total_len: usize, replayable: bool) -> (b: StreamBridge)
        ensures
            b.wf(),
            b.delivered_bytes() == Seq::<u8>::empty(),
            b.pulled_bytes() == Seq::<u8>::empty(),
            b.carry_bytes() == Seq::<u8>::empty(),
            b.declared_len() == total_len as nat,
            b.is_replayable() == replayable,
    {
        let b = StreamBridge {
            carry: Vec::new(),
            total_len,
            replayable,
            delivered: Ghost(Seq::empty()),
            pulled: Ghost(Seq::empty()),
        };
        proof {
            assert(b.pulled@ =~= b.delivered@ + b.carry@);
        }
        b
    }

    /// True when the next read must pull a fresh chunk from the upstream
    /// source; false while the carry-over buffer can still satisfy reads.
    pub fn needs_chunk(&self) -> (r: bool)
        ensures
            r <==> self.carry_bytes().len() == 0,
    {
        self.carry.is_empty()
    }

    /// The declared total length of the stream.
    pub fn len(&self) -> (r: usize)
        ensures
            r as nat == self.declared_len(),
    {
        self.total_len
    }

    /// Serves a read entirely from the carry-over buffer: delivers at
    /// most `want` bytes, never more than requested, and keeps the
    /// undelivered remainder for the next read.
    pub fn read_buffered(&mut self, want: usize) -> (out: Vec<u8>)
        requires
            old(self).wf(),
            old(self).carry_bytes().len() > 0,
        ensures
            final(self).wf(),
            out@.len() == min(want as int, old(self).carry_bytes().len() as int),
            out@ == old(self).carry_bytes().take(out@.len() as int),
            final(self).carry_bytes() == old(self).carry_bytes().skip(out@.len() as int),
            final(self).delivered_bytes() == old(self).delivered_bytes() + out@,
            final(self).pulled_bytes() == old(self).pulled_bytes(),
            final(self).declared_len() == old(self).declared_len(),
            final(self).is_replayable() == old(self).is_replayable(),
    {
        let n = if want < self.carry.len() {
            want
        } else {
            self.carry.len()
        };
        let mut out: Vec<u8> = Vec::new();
        let mut i: usize = 0;
        while i < n
            invariant
                i <= n,
                n <= self.carry@.len(),
                out@ =~= self.carry@.take(i as int),
            decreases n - i,
        {
            out.push(self.carry[i]);
            i = i + 1;
        }
        let mut rest: Vec<u8> = Vec::new();
        let mut j: usize = n;
        while j < self.carry.len()
            invariant
                n <= j <= self.carry@.len(),
                rest@ =~= self.carry@.subrange(n as int, j as int),
            decreases self.carry@.len() - j,
        {
            rest.push(self.carry[j]);
            j = j + 1;
        }
        proof {
            assert(rest@ =~= self.carry@.skip(n as int));
            assert(self.carry@.take(n as int) + self.carry@.skip(n as int) =~= self.carry@);
        }
        self.delivered = Ghost(self.delivered@ + out@);
        self.carry = rest;
        proof {
            assert(self.pulled@ =~= self.delivered@ + self.carry@);
        }
        out
    }

    /// Accepts the next upstream chunk (empty at end of stream) and
    /// serves a read from it: delivers the requested prefix, never more,
    /// and retains the suffix as the new carry-over. An empty chunk
    /// yields an empty result and leaves the handle unchanged, so end of
    /// stream is reported idempotently.
    pub fn read_with_chunk(&mut self, chunk: Vec<u8>, want: usize) -> (out: Vec<u8>)
        requires
            old(self).wf(),
            old(self).carry_bytes().len() == 0,
        ensures
            final(self).wf(),
            final(self).pulled_bytes() == old(self).pulled_bytes() + chunk@,
            out@.len() == min(want as int, chunk@.len() as int),
            out@ == chunk@.take(out@.len() as int),
            final(self).carry_bytes() == chunk@.skip(out@.len() as int),
            final(self).delivered_bytes() == old(self).delivered_bytes() + out@,
            final(self).declared_len() == old(self).declared_len(),
            final(self).is_replayable() == old(self).is_replayable(),
    {
        let n = if want < chunk.len() {
            want
        } else {
            chunk.len()
        };
        let mut out: Vec<u8> = Vec::new();
        let mut i: usize = 0;
        while i < n
            invariant
                i <= n,
                n <= chunk@.len(),
                out@ =~= chunk@.take(i as int),
            decreases n - i,
        {
            out.push(chunk[i]);
            i = i + 1;
        }
        let mut rest: Vec<u8> = Vec::new();
        let mut j: usize = n;
        while j < chunk.len()
            invariant
                n <= j <= chunk@.len(),
                rest@ =~= chunk@.subrange(n as int, j as int),
            decreases chunk@.len() - j,
        {
            rest.push(chunk[j]);
            j = j + 1;
        }
        proof {
            assert(rest@ =~= chunk@.skip(n as int));
            assert(chunk@.take(n as int) + chunk@.skip(n as int) =~= chunk@);
            assert(old(self).carry@ =~= Seq::<u8>::empty());
            assert(old(self).pulled@ =~= old(self).delivered@);
        }
        self.pulled = Ghost(self.pulled@ + chunk@);
        self.delivered = Ghost(self.delivered@ + out@);
        self.carry = rest;
        proof {
            assert(self.pulled@ =~= self.delivered@ + self.carry@);
        }
        out
    }

    /// Logically rewinds the handle to the start of the stream for a
    /// backend retry. When the upstream source cannot be replayed the
    /// reset fails with [`ProxyError::NotSeekable`] and the handle is
    /// left untouched, rather than silently serving stale data.
    pub fn reset(&mut self) -> (r: Result<(), ProxyError>)
        requires
            old(self).wf(),
        ensures
            final(self).wf(),
            r is Ok <==> old(self).is_replayable(),
            old(self).is_replayable() ==> final(self).delivered_bytes() == Seq::<u8>::empty(),
            old(self).is_replayable() ==> final(self).pulled_bytes() == Seq::<u8>::empty(),
            old(self).is_replayable() ==> final(self).carry_bytes() == Seq::<u8>::empty(),
            !old(self).is_replayable() ==> (r matches Err(e) && e is NotSeekable),
            !old(self).is_replayable() ==> final(self).delivered_bytes() == old(
                self,
            ).delivered_bytes(),
            !old(self).is_replayable() ==> final(self).pulled_bytes() == old(self).pulled_bytes(),
            !old(self).is_replayable() ==> final(self).carry_bytes() == old(self).carry_bytes(),
            final(self).declared_len() == old(self).declared_len(),
            final(self).is_replayable() == old(self).is_replayable(),
    {
        if self.replayable {
            self.carry = Vec::new();
            self.delivered = Ghost(Seq::empty());
            self.pulled = Ghost(Seq::empty());
            proof {
                assert(self.pulled@ =~= self.delivered@ + self.carry@);
            }
            Ok(())
        } else {
            Err(ProxyError::NotSeekable)
        }
    }

    /// Clones the handle. The chunk source stays shared outside the
    /// library (concurrent holders observe one stream position); the new
    /// handle begins with an empty private carry-over buffer, so bytes
    /// already delivered through this handle are never duplicated
    /// through the clone.
    pub fn fresh_handle(&self) -> (h: StreamBridge)
        ensures
            h.wf(),
            h.carry_bytes() == Seq::<u8>::empty(),
            h.delivered_bytes() == Seq::<u8>::empty(),
            h.pulled_bytes() == Seq::<u8>::empty(),
            h.declared_len() == self.declared_len(),
            h.is_replayable() == self.is_replayable(),
    {
        let h = StreamBridge {
            carry: Vec::new(),
            total_len: self.total_len,
            replayable: self.replayable,
            delivered: Ghost(Seq::empty()),
            pulled: Ghost(Seq::empty()),
        };
        proof {
            assert(h.pulled@ =~= h.delivered@ + h.carry@);
        }
        h
    }
}

/// Stream-bridge total-bytes property: once the carry-over buffer is
/// drained, the concatenation of everything a handle delivered equals,
/// byte for byte and in order, everything it pulled from the source —
/// no duplication, no loss. In particular, after the source reports end
/// of stream and the buffer empties, the caller has received exactly the
/// stream's bytes.
pub proof fn lemma_drained_handle_delivered_all_bytes(b: StreamBridge)
    requires
        b.wf(),
        b.carry_bytes().len() == 0,
    ensures
        b.delivered_bytes() == b.pulled_bytes(),
{
    assert(b.delivered_bytes() + b.carry_bytes() =~= b.delivered_bytes());
}

/// At every moment, the bytes a handle has delivered are a prefix of the
/// bytes it pulled, in order: a reader never sees a byte early, twice,
/// or out of place.
pub proof fn lemma_delivered_prefix_of_pulled(b: StreamBridge)
    requires
        b.wf(),
    ensures
        b.delivered_bytes().len() <= b.pulled_bytes().len(),
        b.delivered_bytes() == b.pulled_bytes().take(b.delivered_bytes().len() as int),
{
    assert(b.pulled_bytes().take(b.delivered_bytes().len() as int) =~= b.delivered_bytes());
}

} // verus!
