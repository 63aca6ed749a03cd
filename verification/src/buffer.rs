//! Bounded capture of a guest's output streams.
//!
//! Each stream of a run is captured into a fixed-capacity, append-only byte
//! buffer. Writes past capacity are silently dropped: bounding memory is the
//! policy, and truncation is deliberately not an error and not signalled.

use vstd::prelude::*;

verus! {

/// Capacity, in bytes, of each captured output stream of a run.
pub const STREAM_CAPACITY: usize = 4096;

/// How many of `incoming` bytes a buffer of capacity `cap` that already holds
/// `len` bytes accepts: everything that fits, and nothing beyond.
pub open spec fn fit_len(len: nat, cap: nat, incoming: nat) -> nat {
    if len >= cap {
        0
    } else if incoming <= cap - len {
        incoming
    } else {
        (cap - len) as nat
    }
}

/// A fixed-capacity, append-only byte buffer that silently drops writes past
/// capacity instead of growing or erroring.
pub struct CappedBuffer {
    data: Vec<u8>,
    cap: usize,
}

impl View for CappedBuffer {
    type V = Seq<u8>;

    closed spec fn view(&self) -> Seq<u8> {
        self.data@
    }
}

impl CappedBuffer {
    /// The capacity this buffer was created with.
    pub closed spec fn capacity(&self) -> usize {
        self.cap
    }

    #[verifier::type_invariant]
    spec fn inv(&self) -> bool {
        self.data@.len() <= self.cap
    }

    pub fn new(cap: usize) -> (r: CappedBuffer)
        ensures
            r@ == Seq::<u8>::empty(),
            r.capacity() == cap,
    {
        CappedBuffer { data: Vec::new(), cap }
    }

    pub fn len(&self) -> (n: usize)
        ensures
            n == self@.len(),
            n <= self.capacity(),
    {
        proof {
            use_type_invariant(&*self);
        }
        self.data.len()
    }

    /// Append as much of `bytes` as fits below capacity; drop the rest
    /// without any signal.
    pub fn write(&mut self, bytes: &[u8])
        ensures
            final(self).capacity() == old(self).capacity(),
            final(self)@ == old(self)@ + bytes@.take(
                fit_len(old(self)@.len(), old(self).capacity() as nat, bytes@.len()) as int,
            ),
    {
        proof {
            use_type_invariant(&*self);
        }
        let room: usize = self.cap - self.data.len();
        let accepted: usize = if bytes.len() < room {
            bytes.len()
        } else {
            room
        };
        let mut data: Vec<u8> = Vec::new();
        std::mem::swap(&mut data, &mut self.data);
        let mut i: usize = 0;
        while i < accepted
            invariant
                i <= accepted,
                accepted as nat == fit_len(old(self)@.len(), old(self).capacity() as nat, bytes@.len()),
                accepted <= bytes@.len(),
                self.cap == old(self).cap,
                data@ == old(self).data@ + bytes@.take(i as int),
                data@.len() + accepted - i <= self.cap,
            decreases accepted - i,
        {
            data.push(bytes[i]);
            i += 1;
        }
        proof {
            assert(bytes@.take(i as int) =~= bytes@.take(accepted as int));
        }
        self.data = data;
    }

    /// Hand the captured bytes out, consuming the buffer. Bounded capture:
    /// whatever was written, what comes out never exceeds the capacity.
    pub fn into_bytes(self) -> (r: Vec<u8>)
        ensures
            r@ == self@,
            r@.len() <= self.capacity(),
    {
        proof {
            use_type_invariant(&self);
        }
        self.data
    }
}

} // verus!
