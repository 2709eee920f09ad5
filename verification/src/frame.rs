//! The encoded frame value and the single shared slot that caches the most
//! recent one ("latest frame wins": one writer overwrites, readers copy).
use vstd::prelude::*;

verus! {

/// A fully encoded still image together with its pixel dimensions.
/// Immutable once produced.
pub struct EncodedFrame {
    pub bytes: Vec<u8>,
    pub width: u32,
    pub height: u32,
}

/// Single-slot, overwrite-always cache of the most recently encoded frame.
/// Empty until the worker publishes; cleared once during worker cleanup.
pub struct SharedFrameSlot {
    frame: Option<EncodedFrame>,
}

impl SharedFrameSlot {
    /// The current contents: the latest frame, or nothing.
    pub closed spec fn spec_frame(&self) -> Option<EncodedFrame> {
        self.frame
    }

    pub fn new() -> (s: Self)
        ensures
            s.spec_frame() is None,
    {
        SharedFrameSlot { frame: None }
    }

    /// Overwrite the slot with a new frame, discarding any prior value.
    pub fn publish(&mut self, f: EncodedFrame)
        ensures
            final(self).spec_frame() == Some(f),
    {
        self.frame = Some(f);
    }

    /// Empty the slot.
    pub fn clear(&mut self)
        ensures
            final(self).spec_frame() is None,
    {
        self.frame = None;
    }

    pub fn has_frame(&self) -> (r: bool)
        ensures
            r == (self.spec_frame() is Some),
    {
        match &self.frame {
            Some(_) => true,
            None => false,
        }
    }

    /// Copy out the bytes of the cached frame, if any.  Readers get a
    /// complete, self-consistent copy; the slot itself is untouched.
    pub fn read_bytes(&self) -> (r: Option<Vec<u8>>)
        ensures
            match r {
                Some(b) => self.spec_frame() is Some && b@ == self.spec_frame()->Some_0.bytes@,
                None => self.spec_frame() is None,
            },
    {
        match &self.frame {
            Some(f) => Some(copy_bytes(f.bytes.as_slice())),
            None => None,
        }
    }
}

/// Element-by-element copy of a byte slice into a fresh vector.
pub fn copy_bytes(v: &[u8]) -> (r: Vec<u8>)
    ensures
        r@ == v@,
{
    let mut out: Vec<u8> = Vec::new();
    let mut i: usize = 0;
    while i < v.len()
        invariant
            i <= v.len(),
            out@ == v@.subrange(0, i as int),
        decreases v.len() - i,
    {
        out.push(v[i]);
        i = i + 1;
    }
    proof {
        assert(out@ =~= v@);
    }
    out
}

} // verus!
