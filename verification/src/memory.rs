//! A typed memory block: an owned, contiguous buffer of a known number of
//! homogeneous elements, the backing storage for bulk numeric data.
//!
//! A block is either empty (no storage, length 0) or allocated (storage for
//! `length > 0` elements). It may cycle between the two states indefinitely:
//! construction and growth lead to the allocated state, release and
//! resize-to-zero back to the empty one. The reported length and the byte
//! size always agree: `size() == len() * size_of::<T>()`.

use vstd::layout::size_of;
use vstd::prelude::*;

verus! {

/// Element types with a well-defined zero value, the value a zero-initialized
/// block holds at every position.
pub trait ZeroElement: Sized {
    /// The zero value of the type.
    spec fn zero_spec() -> Self;

    /// Returns the zero value.
    fn zero() -> (r: Self)
        ensures
            r == Self::zero_spec(),
    ;
}

impl ZeroElement for u8 {
    open spec fn zero_spec() -> Self {
        0u8
    }

    fn zero() -> Self {
        0
    }
}

impl ZeroElement for u16 {
    open spec fn zero_spec() -> Self {
        0u16
    }

    fn zero() -> Self {
        0
    }
}

impl ZeroElement for u32 {
    open spec fn zero_spec() -> Self {
        0u32
    }

    fn zero() -> Self {
        0
    }
}

impl ZeroElement for u64 {
    open spec fn zero_spec() -> Self {
        0u64
    }

    fn zero() -> Self {
        0
    }
}

impl ZeroElement for usize {
    open spec fn zero_spec() -> Self {
        0usize
    }

    fn zero() -> Self {
        0
    }
}

impl ZeroElement for i8 {
    open spec fn zero_spec() -> Self {
        0i8
    }

    fn zero() -> Self {
        0
    }
}

impl ZeroElement for i16 {
    open spec fn zero_spec() -> Self {
        0i16
    }

    fn zero() -> Self {
        0
    }
}

impl ZeroElement for i32 {
    open spec fn zero_spec() -> Self {
        0i32
    }

    fn zero() -> Self {
        0
    }
}

impl ZeroElement for i64 {
    open spec fn zero_spec() -> Self {
        0i64
    }

    fn zero() -> Self {
        0
    }
}

impl ZeroElement for isize {
    open spec fn zero_spec() -> Self {
        0isize
    }

    fn zero() -> Self {
        0
    }
}

/// An owned, contiguous block of `T` elements on the heap.
///
/// The block is the exclusive owner of its storage; releasing it, explicitly
/// through [`Block::destroy`] or automatically when the owning scope ends,
/// frees the storage on every exit path and never double-frees.
pub struct Block<T> {
    data: Vec<T>,
}

impl<T> View for Block<T> {
    type V = Seq<T>;

    closed spec fn view(&self) -> Seq<T> {
        self.data@
    }
}

impl<T> Block<T> {
    /// Well-formedness: the byte size of the block fits the address space,
    /// so that `len * size_of::<T>()` can be computed without overflow.
    /// Every constructor establishes it and every method preserves it.
    pub closed spec fn wf(self) -> bool {
        self.data@.len() * size_of::<T>() <= usize::MAX
    }

    /// Returns the length of the block (number of elements of type `T`).
    pub fn len(&self) -> (r: usize)
        ensures
            r == self@.len(),
    {
        self.data.len()
    }

    /// Returns the size of the block in bytes.
    pub fn size(&self) -> (r: usize)
        requires
            self.wf(),
        ensures
            r == self@.len() * size_of::<T>(),
    {
        self.data.len() * core::mem::size_of::<T>()
    }

    /// Returns true if the block owns any storage, which is the case exactly
    /// when its length is positive.
    pub fn has_data(&self) -> (r: bool)
        ensures
            r <==> self@.len() > 0,
    {
        self.data.len() > 0
    }

    /// Borrows the element at position `i`. Access out of range is an
    /// invariant violation: the precondition rules it out, so no call can
    /// reach such a position.
    pub fn index(&self, i: usize) -> (r: &T)
        requires
            i < self@.len(),
        ensures
            *r == self@[i as int],
    {
        &self.data[i]
    }

    /// Mutably borrows the element at position `i`. Access out of range is an
    /// invariant violation: the precondition rules it out, so no call can
    /// reach such a position.
    pub fn index_mut(&mut self, i: usize) -> (r: &mut T)
        requires
            i < old(self)@.len(),
        ensures
            *r == old(self)@[i as int],
            final(self)@ == old(self)@.update(i as int, *final(r)),
            old(self).wf() ==> final(self).wf(),
    {
        &mut self.data[i]
    }

    /// Releases the backing storage and resets the block to the empty state.
    /// A no-op on an empty block; callable any number of times safely.
    pub fn destroy(&mut self)
        ensures
            final(self)@.len() == 0,
            final(self).wf(),
    {
        self.data = Vec::new();
    }
}

impl<T: Default> Block<T> {
    /// Allocates a new block of `len` elements with unspecified contents.
    ///
    /// A length of `0` yields a valid empty block holding no storage. The
    /// allocation fails, and an error is returned instead of a block, exactly
    /// when the byte size `len * size_of::<T>()` does not fit in `usize`.
    pub fn new(len: usize) -> (r: Result<Self, String>)
        ensures
            r matches Ok(b) ==> b@.len() == len && b.wf(),
            r is Ok <==> len * size_of::<T>() <= usize::MAX,
    {
        let elem_size: usize = core::mem::size_of::<T>();
        match len.checked_mul(elem_size) {
            Some(_) => {
                let mut data: Vec<T> = Vec::new();
                while data.len() < len
                    invariant
                        data@.len() <= len,
                        len * size_of::<T>() <= usize::MAX,
                    decreases len - data@.len(),
                {
                    data.push(T::default());
                }
                Ok(Block { data })
            },
            None => Err("Allocation Fail".to_string()),
        }
    }

    /// Resizes the block to `new_len` elements, preserving the overlapping
    /// prefix of `min(old_len, new_len)` elements.
    ///
    /// A new length of `0` is equivalent to a full release. Growth leaves the
    /// elements beyond the old length unspecified; shrinking discards the
    /// elements beyond `new_len`. On failure, reported exactly when the new
    /// byte size does not fit in `usize`, the block is left unchanged, and
    /// on success the reported length equals `new_len` immediately.
    pub fn realloc(&mut self, new_len: usize) -> (r: Result<(), String>)
        ensures
            r is Ok <==> new_len * size_of::<T>() <= usize::MAX,
            r is Ok ==> final(self)@.len() == new_len && final(self).wf(),
            forall|i: int|
                0 <= i < old(self)@.len() && i < new_len && r is Ok ==> final(self)@[i] == old(
                    self,
                )@[i],
            r is Err ==> *final(self) == *old(self),
    {
        if new_len == 0 {
            self.destroy();
            return Ok(());
        }
        let elem_size: usize = core::mem::size_of::<T>();
        match new_len.checked_mul(elem_size) {
            Some(_) => {
                if new_len < self.data.len() {
                    self.data.truncate(new_len);
                } else {
                    while self.data.len() < new_len
                        invariant
                            old(self)@.len() <= self@.len() <= new_len,
                            old(self)@ == self@.subrange(0, old(self)@.len() as int),
                            new_len * size_of::<T>() <= usize::MAX,
                        decreases new_len - self@.len(),
                    {
                        self.data.push(T::default());
                    }
                }
                Ok(())
            },
            None => Err("Allocation Fail".to_string()),
        }
    }
}

impl<T: Default + ZeroElement> Block<T> {
    /// Allocates a new block of `len` elements with every element set to the
    /// zero value of `T`, by allocating first and then zero-filling.
    ///
    /// The sizing and error contract is the same as that of [`Block::new`].
    pub fn new_zeroed(len: usize) -> (r: Result<Self, String>)
        ensures
            r matches Ok(b) ==> b@.len() == len && b.wf() && (forall|i: int|
                0 <= i < len ==> b@[i] == T::zero_spec()),
            r is Ok <==> len * size_of::<T>() <= usize::MAX,
    {
        match Self::new(len) {
            Ok(mut b) => {
                b.init_zeroed();
                Ok(b)
            },
            Err(e) => Err(e),
        }
    }
}

impl<T: ZeroElement> Block<T> {
    /// Sets every element of the block to the zero value of `T`; a no-op on
    /// an empty block.
    pub fn init_zeroed(&mut self)
        ensures
            final(self)@.len() == old(self)@.len(),
            forall|i: int| 0 <= i < old(self)@.len() ==> final(self)@[i] == T::zero_spec(),
            old(self).wf() ==> final(self).wf(),
    {
        let n = self.data.len();
        let mut i: usize = 0;
        while i < n
            invariant
                n == self@.len(),
                i <= n,
                forall|j: int| 0 <= j < i ==> self@[j] == T::zero_spec(),
            decreases n - i,
        {
            let slot = &mut self.data[i];
            *slot = T::zero();
            i = i + 1;
        }
    }
}

impl<T: Copy> Block<T> {
    /// Allocates a fresh block of `len` elements and copies them from the
    /// start of the caller-owned source `src`, which must hold at least `len`
    /// elements. The new block does not alias the source: mutating either
    /// afterwards has no effect on the other.
    ///
    /// A length of `0` yields an empty block and copies nothing. The sizing
    /// and error contract is the same as that of [`Block::new`].
    pub fn from_ptr(src: &[T], len: usize) -> (r: Result<Self, String>)
        requires
            len <= src@.len(),
        ensures
            r matches Ok(b) ==> b@ == src@.subrange(0, len as int) && b.wf(),
            r is Ok <==> len * size_of::<T>() <= usize::MAX,
    {
        let elem_size: usize = core::mem::size_of::<T>();
        match len.checked_mul(elem_size) {
            Some(_) => {
                let mut data: Vec<T> = Vec::new();
                while data.len() < len
                    invariant
                        len <= src@.len(),
                        data@.len() <= len,
                        data@ == src@.subrange(0, data@.len() as int),
                        len * size_of::<T>() <= usize::MAX,
                    decreases len - data@.len(),
                {
                    data.push(src[data.len()]);
                    proof {
                        assert(data@ =~= src@.subrange(0, data@.len() as int));
                    }
                }
                Ok(Block { data })
            },
            None => Err("Allocation Fail".to_string()),
        }
    }

    /// Copies `min(self.len, to.len)` elements from the start of this block
    /// into the start of `to`, leaving any remaining tail of `to` untouched.
    /// Neither block is resized; a no-op if either block is empty.
    pub fn copy_to(&self, to: &mut Self)
        ensures
            final(to)@.len() == old(to)@.len(),
            forall|i: int|
                0 <= i < self@.len() && i < old(to)@.len() ==> final(to)@[i] == self@[i],
            forall|i: int|
                self@.len() <= i < old(to)@.len() ==> final(to)@[i] == old(to)@[i],
            old(to).wf() ==> final(to).wf(),
    {
        let n = if self.data.len() < to.data.len() {
            self.data.len()
        } else {
            to.data.len()
        };
        let mut i: usize = 0;
        while i < n
            invariant
                n <= self@.len(),
                n <= to@.len(),
                to@.len() == old(to)@.len(),
                i <= n,
                forall|j: int| 0 <= j < i ==> to@[j] == self@[j],
                forall|j: int| i <= j < to@.len() ==> to@[j] == old(to)@[j],
            decreases n - i,
        {
            let slot = &mut to.data[i];
            *slot = *self.index(i);
            i = i + 1;
        }
    }
}

impl<T> Block<T> {
    /// Exposes the block's storage as a read-only slice, for handing the
    /// contents to a downstream consumer. The borrow must end before the
    /// block is released or its owning scope ends.
    pub fn as_ptr(&self) -> (r: &[T])
        ensures
            r@ == self@,
    {
        self.data.as_slice()
    }

    /// Begins a linear traversal of the block. The cursor is a separate,
    /// borrowed object: the block itself stays usable for indexed access, and
    /// a fresh traversal can be started at any time with another call.
    pub fn iter(&self) -> (r: BlockIter<'_, T>)
        ensures
            r.elems() == self@,
            r.pos() == 0,
    {
        BlockIter { block: self, pos: 0 }
    }
}

/// A forward-only cursor over a block, yielding a copy of every element from
/// position `0` through `length - 1` and signalling exhaustion after that.
pub struct BlockIter<'a, T> {
    block: &'a Block<T>,
    pos: usize,
}

impl<'a, T> BlockIter<'a, T> {
    /// The elements the cursor walks over.
    pub closed spec fn elems(&self) -> Seq<T> {
        self.block@
    }

    /// The position of the next element to yield.
    pub closed spec fn pos(&self) -> int {
        self.pos as int
    }
}

impl<'a, T: Copy> BlockIter<'a, T> {
    /// Yields a copy of the next element, in ascending index order, or `None`
    /// once all elements have been yielded.
    pub fn next(&mut self) -> (r: Option<T>)
        ensures
            final(self).elems() == old(self).elems(),
            old(self).pos() < old(self).elems().len() ==> (r matches Some(v) && v == old(
                self,
            ).elems()[old(self).pos()] && final(self).pos() == old(self).pos() + 1),
            old(self).pos() >= old(self).elems().len() ==> r is None && final(self).pos() == old(
                self,
            ).pos(),
    {
        if self.pos < self.block.len() {
            let v = *self.block.index(self.pos);
            self.pos = self.pos + 1;
            Some(v)
        } else {
            None
        }
    }
}

} // verus!
