//! A growable byte buffer that owns at most one backing allocation at a
//! time. Resizing allocates the new region first and copies a prefix, so the
//! content survives; erasing releases the old region before requesting the
//! fresh zero-filled one, so peak memory stays at one region's worth.
//!
//! The backing store models a raw virtual-memory region: created zero-filled
//! at a fixed length, never resized in place, released exactly once when its
//! owner lets go of it.

use vstd::pervasive::unreached;
use vstd::prelude::*;

verus! {

/// A sequence of `n` zero bytes: what a fresh allocation holds.
pub open spec fn zero_bytes(n: nat) -> Seq<u8> {
    Seq::new(n, |i: int| 0u8)
}

/// Why an allocation request was refused. These are ordinary, recoverable
/// error values: the caller decides whether to retry with another length or
/// give up.
#[derive(Clone, Copy, PartialEq, Eq, Structural, Debug)]
pub enum AllocError {
    /// The requested length exceeds the signed address range.
    LenTooLarge,
    /// The allocation layer refuses zero-length regions; the buffer layer
    /// special-cases zero before asking.
    ZeroLen,
}

/// One backing region of exactly `len` bytes, read-write, zero-filled at
/// creation and never resized in place. Single-owner: it is never shared or
/// cloned, and its storage is released exactly once, when the owner drops it.
pub struct RawAlloc {
    bytes: Vec<u8>,
}

impl View for RawAlloc {
    type V = Seq<u8>;

    closed spec fn view(&self) -> Seq<u8> {
        self.bytes@
    }
}

impl RawAlloc {
    /// Creates a region of exactly `len` zero bytes. Refused when `len` is
    /// zero or exceeds the signed address range.
    pub fn new(len: usize) -> (r: Result<RawAlloc, AllocError>)
        ensures
            r matches Ok(a) <==> (0 < len <= isize::MAX as usize),
            r matches Ok(a) ==> a@ == zero_bytes(len as nat),
            len > isize::MAX as usize ==> (r matches Err(e) && e == AllocError::LenTooLarge),
            len == 0 ==> (r matches Err(e) && e == AllocError::ZeroLen),
    {
        if len > isize::MAX as usize {
            return Err(AllocError::LenTooLarge);
        }
        if len == 0 {
            return Err(AllocError::ZeroLen);
        }
        let mut bytes: Vec<u8> = Vec::new();
        let mut i: usize = 0;
        while i < len
            invariant
                i <= len,
                bytes@ == zero_bytes(i as nat),
            decreases len - i,
        {
            bytes.push(0u8);
            i += 1;
            proof {
                assert(bytes@ =~= zero_bytes(i as nat));
            }
        }
        Ok(RawAlloc { bytes })
    }

    pub fn len(&self) -> (r: usize)
        ensures
            r == self@.len(),
    {
        self.bytes.len()
    }

    pub fn as_slice(&self) -> (r: &[u8])
        ensures
            r@ == self@,
    {
        self.bytes.as_slice()
    }

    pub fn as_slice_mut(&mut self) -> (r: &mut [u8])
        ensures
            r@ == old(self)@,
            final(self)@ == final(r)@,
    {
        self.bytes.as_mut_slice()
    }

    /// Copies the first `amount` bytes of `src` over the start of this
    /// region, leaving the rest unchanged.
    fn copy_prefix_from(&mut self, src: &RawAlloc, amount: usize)
        requires
            amount <= src@.len(),
            amount <= old(self)@.len(),
        ensures
            final(self)@.len() == old(self)@.len(),
            forall|i: int| 0 <= i < amount ==> final(self)@[i] == src@[i],
            forall|i: int| amount <= i < old(self)@.len() ==> final(self)@[i] == old(self)@[i],
    {
        let mut i: usize = 0;
        while i < amount
            invariant
                i <= amount,
                amount <= src@.len(),
                amount <= self@.len(),
                self@.len() == old(self)@.len(),
                forall|j: int| 0 <= j < i ==> self@[j] == src@[j],
                forall|j: int| i <= j < old(self)@.len() ==> self@[j] == old(self)@[j],
            decreases amount - i,
        {
            let b = src.bytes[i];
            self.bytes[i] = b;
            i += 1;
        }
    }
}

/// A byte buffer backed by zero or one regions. Its observable content is
/// the backing region's bytes, or the empty sequence when none is held.
pub struct ByteBuf {
    mmap: Option<RawAlloc>,
}

impl View for ByteBuf {
    type V = Seq<u8>;

    closed spec fn view(&self) -> Seq<u8> {
        match self.mmap {
            Some(m) => m@,
            None => Seq::empty(),
        }
    }
}

impl ByteBuf {
    /// The machine bound every buffer obeys: its length fits the signed
    /// address range. `new` and `realloc` establish it; every operation
    /// preserves it.
    pub closed spec fn wf(&self) -> bool {
        self@.len() <= isize::MAX as usize
    }

    /// Creates a buffer of `len` zero bytes. A zero length yields an empty
    /// buffer owning no region; the only refusal is a length beyond the
    /// signed address range.
    pub fn new(len: usize) -> (r: Result<ByteBuf, AllocError>)
        ensures
            r matches Ok(b) <==> len <= isize::MAX as usize,
            r matches Ok(b) ==> b@ == zero_bytes(len as nat) && b.wf(),
            r matches Err(e) ==> e == AllocError::LenTooLarge,
    {
        let mmap = if len == 0 {
            None
        } else {
            match RawAlloc::new(len) {
                Ok(m) => Some(m),
                Err(e) => {
                    return Err(e);
                },
            }
        };
        Ok(ByteBuf { mmap })
    }

    /// Resizes to `new_len` bytes, preserving the first
    /// `min(old_len, new_len)` bytes and zero-filling the rest. The new
    /// region is allocated before the old one is released, because the
    /// content must survive until copied; on refusal the buffer is left
    /// unchanged.
    pub fn realloc(&mut self, new_len: usize) -> (r: Result<(), AllocError>)
        ensures
            r matches Ok(u) <==> new_len <= isize::MAX as usize,
            r matches Ok(u) ==> {
                &&& final(self)@.len() == new_len
                &&& forall|i: int|
                    0 <= i < new_len && i < old(self)@.len() ==> final(self)@[i] == old(self)@[i]
                &&& forall|i: int|
                    old(self)@.len() <= i < new_len ==> final(self)@[i] == 0u8
                &&& final(self).wf()
            },
            r matches Err(e) ==> {
                &&& e == AllocError::LenTooLarge
                &&& final(self)@ == old(self)@
                &&& (old(self).wf() ==> final(self).wf())
            },
    {
        let new_mmap = if new_len == 0 {
            None
        } else {
            let mut new_mmap = match RawAlloc::new(new_len) {
                Ok(m) => m,
                Err(e) => {
                    return Err(e);
                },
            };
            match &self.mmap {
                Some(cur_mmap) => {
                    let cur_len = cur_mmap.len();
                    let amount = if cur_len < new_len {
                        cur_len
                    } else {
                        new_len
                    };
                    new_mmap.copy_prefix_from(cur_mmap, amount);
                },
                None => {},
            }
            Some(new_mmap)
        };
        self.mmap = new_mmap;
        Ok(())
    }

    /// The buffer's logical length: the backing region's length, or zero
    /// when none is held.
    pub fn len(&self) -> (r: usize)
        ensures
            r == self@.len(),
    {
        match &self.mmap {
            Some(m) => m.len(),
            None => 0,
        }
    }

    /// A read view over exactly the buffer's bytes.
    pub fn as_slice(&self) -> (r: &[u8])
        ensures
            r@ == self@,
    {
        match &self.mmap {
            Some(m) => m.as_slice(),
            None => &[],
        }
    }

    /// A mutable view over exactly the buffer's bytes; what the caller
    /// leaves in the view is what the buffer holds afterwards.
    pub fn as_slice_mut(&mut self) -> (r: &mut [u8])
        ensures
            r@ == old(self)@,
            final(self)@ == final(r)@,
            old(self).wf() && final(r)@.len() == old(self)@.len() ==> final(self).wf(),
    {
        match &mut self.mmap {
            Some(m) => m.as_slice_mut(),
            None => &mut [],
        }
    }

    /// Re-initializes the buffer to its own length of fresh zero bytes. The
    /// held region is released before the fresh one is requested — the
    /// defining property of this operation, which keeps peak memory at one
    /// region's worth instead of two. Empty buffers are left untouched.
    pub fn erase(&mut self) -> (r: Result<(), AllocError>)
        requires
            old(self).wf(),
        ensures
            r is Ok,
            final(self)@ == zero_bytes(old(self)@.len()),
            final(self).wf(),
    {
        let len = self.len();
        if len > 0 {
            // The order is the point: release the current region first, then
            // request the fresh one, so both never coexist.
            self.mmap = None;
            match RawAlloc::new(len) {
                Ok(m) => {
                    self.mmap = Some(m);
                },
                // `len` is positive and, by well-formedness, within the
                // signed range, so the request cannot be refused
                Err(_) => unreached(),
            }
        }
        Ok(())
    }
}

} // verus!
