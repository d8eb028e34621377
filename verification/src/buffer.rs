//! A growable GPU-facing buffer.
//!
//! Models the device-resident arrays that hold the uploaded batch. The
//! capacity never shrinks; growth reallocates to at least the required
//! length — doubling when that is larger, to amortize reallocation — and
//! preserves the uploaded contents at their original offsets. Growth
//! happens lazily, only when a requested write would exceed the capacity.

use vstd::prelude::*;

verus! {

/// The capacity after a growth from `old_cap` forced by `required`:
/// the doubled capacity (saturated at the address-space limit) or the
/// required length, whichever is larger.
pub open spec fn grown_capacity(old_cap: int, required: int) -> int {
    let doubled = if 2 * old_cap <= usize::MAX { 2 * old_cap } else { usize::MAX as int };
    if required >= doubled {
        required
    } else {
        doubled
    }
}

/// A device-resident array with room for `capacity` elements, of which
/// the first `contents().len()` hold the last upload.
pub struct DynBuffer<T> {
    items: Vec<T>,
    cap: usize,
}

impl<T: Copy> DynBuffer<T> {
    /// The elements currently uploaded, in order, starting at offset 0.
    pub closed spec fn contents(&self) -> Seq<T> {
        self.items@
    }

    /// How many elements the allocation can hold.
    pub closed spec fn spec_capacity(&self) -> usize {
        self.cap
    }

    /// The upload never exceeds the allocation.
    pub open spec fn wf(&self) -> bool {
        self.contents().len() <= self.spec_capacity()
    }

    /// An empty buffer with an initial allocation of `capacity` elements.
    pub fn new(capacity: usize) -> (b: DynBuffer<T>)
        ensures
            b.contents().len() == 0,
            b.spec_capacity() == capacity,
            b.wf(),
    {
        DynBuffer { items: Vec::new(), cap: capacity }
    }

    /// Number of elements uploaded.
    pub fn len(&self) -> (n: usize)
        ensures
            n == self.contents().len(),
    {
        self.items.len()
    }

    /// Size of the allocation, in elements.
    pub fn capacity(&self) -> (c: usize)
        ensures
            c == self.spec_capacity(),
    {
        self.cap
    }

    /// Read back one uploaded element.
    pub fn get(&self, i: usize) -> (x: T)
        requires
            i < self.contents().len(),
        ensures
            x == self.contents()[i as int],
    {
        self.items[i]
    }

    /// Grow the allocation so that `required` elements fit. A no-op when
    /// they already do; otherwise the capacity at least doubles, and the
    /// uploaded contents survive at their original offsets.
    pub fn ensure_capacity(&mut self, required: usize)
        ensures
            final(self).contents() == old(self).contents(),
            final(self).spec_capacity() >= old(self).spec_capacity(),
            final(self).spec_capacity() >= required,
            required <= old(self).spec_capacity() ==> final(self).spec_capacity() == old(
                self,
            ).spec_capacity(),
            required > old(self).spec_capacity() ==> final(self).spec_capacity()
                == grown_capacity(old(self).spec_capacity() as int, required as int),
            old(self).wf() ==> final(self).wf(),
    {
        if required <= self.cap {
            return ;
        }
        let doubled = if self.cap <= usize::MAX / 2 {
            self.cap * 2
        } else {
            usize::MAX
        };
        self.cap = if required >= doubled {
            required
        } else {
            doubled
        };
    }

    /// Upload `data`, overwriting the buffer's contents from offset 0.
    /// The logical length becomes exactly `data.len()`, independent of the
    /// capacity; the caller must have made the allocation large enough.
    pub fn write(&mut self, data: &Vec<T>)
        requires
            data@.len() <= old(self).spec_capacity(),
        ensures
            final(self).contents() == data@,
            final(self).spec_capacity() == old(self).spec_capacity(),
            final(self).wf(),
    {
        self.items.clear();
        let n = data.len();
        let mut i: usize = 0;
        while i < n
            invariant
                i <= n,
                n == data@.len(),
                self.items@ == data@.take(i as int),
                self.cap == old(self).cap,
            decreases n - i,
        {
            self.items.push(data[i]);
            proof {
                assert(self.items@ =~= data@.take(i as int + 1));
            }
            i = i + 1;
        }
        proof {
            assert(data@.take(n as int) =~= data@);
        }
    }
}

} // verus!
