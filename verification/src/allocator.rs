use vstd::prelude::*;

use crate::block::MemoryBlock;
use crate::layout::Layout;

verus! {

/// A zero-information failure signal: the request could not be satisfied.
/// It carries no diagnostic payload, not even the failed layout; a caller
/// that needs that context must retain the layout it requested.
#[derive(Clone, Copy, Debug, PartialEq, Eq, Structural)]
pub struct AllocError;

impl AllocError {
    /// A human-readable description of the failure.
    pub fn message(&self) -> (s: &'static str)
        ensures
            s@ == "memory allocation failed"@,
    {
        "memory allocation failed"
    }
}

/// The allocation capability: one required acquisition primitive
/// (`allocate`), one required release primitive (`deallocate`), and five
/// derived operations implemented generically atop the two, so that a
/// minimal implementation inherits correct zeroing and resize behaviour. A
/// concrete implementation may override a derived operation (say, for true
/// in-place resize) but must preserve the same observable contract, which
/// is therefore stated as `ensures` on the trait itself.
///
/// Zero-size requests are disallowed across the whole interface: every
/// operation requires nonzero size of the layout it allocates by. The one
/// concrete implementation here, `Global`, forwards to host allocation,
/// which leaves zero-size requests undefined, so the contract is narrowed
/// once, at the interface, rather than divergently per implementation.
pub trait Allocator {
    /// Acquires a fresh block for `layout`. On success the block's observed
    /// length is at least `layout.size`; its contents are
    /// implementation-defined. Fails with `AllocError` when the request
    /// cannot be satisfied.
    fn allocate(&self, layout: Layout) -> (r: Result<MemoryBlock, AllocError>)
        requires
            layout.wf(),
            layout.size != 0,
        ensures
            r is Ok ==> r->Ok_0@.len() >= layout.size,
    ;

    /// Releases `block`, which must have been acquired from this allocator
    /// (or an equivalent one) with `layout`: the layout's size may not
    /// exceed the block's observed length. Passing the block by value
    /// surrenders it, so release happens exactly once per acquisition.
    fn deallocate(&self, block: MemoryBlock, layout: Layout)
        requires
            layout.wf(),
            layout.size != 0,
            block@.len() >= layout.size,
    ;

    /// Acquires a block for `layout` and writes zero to every byte of its
    /// observed length before returning it. Fails exactly when `allocate`
    /// fails.
    fn allocate_zeroed(&self, layout: Layout) -> (r: Result<MemoryBlock, AllocError>)
        requires
            layout.wf(),
            layout.size != 0,
        ensures
            r is Ok ==> r->Ok_0@.len() >= layout.size,
            r is Ok ==> forall|i: int| 0 <= i < r->Ok_0@.len() ==> r->Ok_0@[i] == 0,
    {
        let mut block = match self.allocate(layout) {
            Ok(b) => b,
            Err(e) => {
                return Err(e);
            },
        };
        let n = block.len();
        let mut i: usize = 0;
        while i < n
            invariant
                i <= n,
                n == block@.len(),
                forall|j: int| 0 <= j < i ==> block@[j] == 0,
            decreases n - i,
        {
            block.write_byte(i, 0);
            i = i + 1;
        }
        Ok(block)
    }

    /// Moves `block` to a freshly acquired block for `new_layout`, which
    /// must ask for at least as much size and alignment as `old_layout`,
    /// the layout the block currently has. On success the first
    /// `old_layout.size` bytes of the new block equal the old block's, the
    /// bytes beyond them are unspecified, and the old block has been
    /// released. On failure the old block comes back beside the error,
    /// untouched and still owned by the caller.
    fn grow(&self, block: MemoryBlock, old_layout: Layout, new_layout: Layout) -> (r: Result<
        MemoryBlock,
        (MemoryBlock, AllocError),
    >)
        requires
            old_layout.wf(),
            new_layout.wf(),
            old_layout.size != 0,
            new_layout.size >= old_layout.size,
            new_layout.align >= old_layout.align,
            block@.len() >= old_layout.size,
        ensures
            r is Ok ==> r->Ok_0@.len() >= new_layout.size,
            r is Ok ==> forall|i: int| 0 <= i < old_layout.size ==> r->Ok_0@[i] == block@[i],
            r is Err ==> r->Err_0.0@ == block@,
    {
        let mut new_block = match self.allocate(new_layout) {
            Ok(b) => b,
            Err(e) => {
                return Err((block, e));
            },
        };
        let n = old_layout.size;
        let mut i: usize = 0;
        while i < n
            invariant
                i <= n,
                n == old_layout.size,
                block@.len() >= n,
                new_block@.len() >= new_layout.size >= n,
                forall|j: int| 0 <= j < i ==> new_block@[j] == block@[j],
            decreases n - i,
        {
            let value = block.read_byte(i);
            new_block.write_byte(i, value);
            i = i + 1;
        }
        self.deallocate(block, old_layout);
        Ok(new_block)
    }

    /// Like `grow`, but the bytes from offset `old_layout.size` through the
    /// new block's observed length are zero-filled before the old block is
    /// released and the new one returned. Failure leaves the old block
    /// untouched, exactly as in `grow`.
    fn grow_zeroed(&self, block: MemoryBlock, old_layout: Layout, new_layout: Layout) -> (r:
        Result<MemoryBlock, (MemoryBlock, AllocError)>)
        requires
            old_layout.wf(),
            new_layout.wf(),
            old_layout.size != 0,
            new_layout.size >= old_layout.size,
            new_layout.align >= old_layout.align,
            block@.len() >= old_layout.size,
        ensures
            r is Ok ==> r->Ok_0@.len() >= new_layout.size,
            r is Ok ==> forall|i: int| 0 <= i < old_layout.size ==> r->Ok_0@[i] == block@[i],
            r is Ok ==> forall|i: int|
                old_layout.size <= i < r->Ok_0@.len() ==> r->Ok_0@[i] == 0,
            r is Err ==> r->Err_0.0@ == block@,
    {
        let mut new_block = match self.allocate(new_layout) {
            Ok(b) => b,
            Err(e) => {
                return Err((block, e));
            },
        };
        let n = old_layout.size;
        let mut i: usize = 0;
        while i < n
            invariant
                i <= n,
                n == old_layout.size,
                block@.len() >= n,
                new_block@.len() >= new_layout.size >= n,
                forall|j: int| 0 <= j < i ==> new_block@[j] == block@[j],
            decreases n - i,
        {
            let value = block.read_byte(i);
            new_block.write_byte(i, value);
            i = i + 1;
        }
        let m = new_block.len();
        let mut k: usize = n;
        while k < m
            invariant
                n <= k <= m,
                n == old_layout.size,
                m == new_block@.len(),
                forall|j: int| 0 <= j < n ==> new_block@[j] == block@[j],
                forall|j: int| n <= j < k ==> new_block@[j] == 0,
            decreases m - k,
        {
            new_block.write_byte(k, 0);
            k = k + 1;
        }
        self.deallocate(block, old_layout);
        Ok(new_block)
    }

    /// Moves `block` to a freshly acquired block for `new_layout`, which
    /// must ask for at most the size and alignment of `old_layout`, the
    /// layout the block currently has. On success the new block's bytes are
    /// copied from the start of the old block, as far as both blocks reach
    /// (in particular its first `new_layout.size` bytes equal the old
    /// block's), and the old block has been released. On failure the old
    /// block comes back beside the error, untouched and still owned by the
    /// caller.
    fn shrink(&self, block: MemoryBlock, old_layout: Layout, new_layout: Layout) -> (r: Result<
        MemoryBlock,
        (MemoryBlock, AllocError),
    >)
        requires
            old_layout.wf(),
            new_layout.wf(),
            new_layout.size != 0,
            new_layout.size <= old_layout.size,
            new_layout.align <= old_layout.align,
            block@.len() >= old_layout.size,
        ensures
            r is Ok ==> r->Ok_0@.len() >= new_layout.size,
            r is Ok ==> forall|i: int| 0 <= i < new_layout.size ==> r->Ok_0@[i] == block@[i],
            r is Ok ==> forall|i: int|
                0 <= i < r->Ok_0@.len() && i < block@.len() ==> r->Ok_0@[i] == block@[i],
            r is Err ==> r->Err_0.0@ == block@,
    {
        let mut new_block = match self.allocate(new_layout) {
            Ok(b) => b,
            Err(e) => {
                return Err((block, e));
            },
        };
        let nb_len = new_block.len();
        let ob_len = block.len();
        let count = if nb_len <= ob_len {
            nb_len
        } else {
            ob_len
        };
        let mut i: usize = 0;
        while i < count
            invariant
                i <= count,
                nb_len == new_block@.len(),
                ob_len == block@.len(),
                count == (if nb_len <= ob_len { nb_len as int } else { ob_len as int }),
                new_block@.len() >= new_layout.size,
                forall|j: int| 0 <= j < i ==> new_block@[j] == block@[j],
            decreases count - i,
        {
            let value = block.read_byte(i);
            new_block.write_byte(i, value);
            i = i + 1;
        }
        self.deallocate(block, old_layout);
        Ok(new_block)
    }

    /// Returns a reference to this allocator; by the forwarding
    /// implementation for references, the reference itself satisfies the
    /// capability, so the allocator can be handed to a routine that expects
    /// an owned allocator value without giving it up.
    fn by_ref(&self) -> (r: &Self) where Self: Sized
        ensures
            r == self,
    {
        self
    }
}

/// Round-trip integrity, stated for every allocator at once: for any
/// well-formed layout of nonzero size, a block obtained from `allocate`
/// accepts a write of `pattern` into each of its first `layout.size` bytes,
/// holds exactly those bytes afterwards, and is released with the same
/// layout. That this function verifies — every write and read is in
/// bounds, the asserted contents hold, and `deallocate`'s precondition is
/// met — is the property; the returned flag only reports whether the
/// allocation succeeded.
pub fn round_trip<A: Allocator>(allocator: &A, layout: Layout, pattern: u8) -> (allocated: bool)
    requires
        layout.wf(),
        layout.size != 0,
{
    let mut block = match allocator.allocate(layout) {
        Ok(b) => b,
        Err(_) => {
            return false;
        },
    };
    let n = layout.size;
    let mut i: usize = 0;
    while i < n
        invariant
            i <= n,
            block@.len() >= n,
            forall|j: int| 0 <= j < i ==> block@[j] == pattern,
        decreases n - i,
    {
        block.write_byte(i, pattern);
        i = i + 1;
    }
    let mut k: usize = 0;
    while k < n
        invariant
            k <= n,
            block@.len() >= n,
            forall|j: int| 0 <= j < n ==> block@[j] == pattern,
        decreases n - k,
    {
        let value = block.read_byte(k);
        assert(value == pattern);
        k = k + 1;
    }
    allocator.deallocate(block, layout);
    true
}

/// A reference to an allocator satisfies the capability itself, forwarding
/// every call unchanged to the referent; this nests, so any depth of
/// references works.
impl<A: Allocator + ?Sized> Allocator for &A {
    fn allocate(&self, layout: Layout) -> (r: Result<MemoryBlock, AllocError>) {
        (*self).allocate(layout)
    }

    fn deallocate(&self, block: MemoryBlock, layout: Layout) {
        (*self).deallocate(block, layout)
    }
}

/// The sole concrete implementation, backed by the host's own allocation.
/// It holds no state of its own; its derived operations are exactly the
/// generic defaults.
#[derive(Clone, Copy, Debug, Default)]
pub struct Global;

impl Allocator for Global {
    /// Acquires a buffer of exactly `layout.size` bytes. Host allocation
    /// either succeeds or aborts the process, so no `AllocError` arises:
    /// the result is always `Ok`.
    fn allocate(&self, layout: Layout) -> (r: Result<MemoryBlock, AllocError>)
        ensures
            r is Ok,
            r->Ok_0@.len() == layout.size,
    {
        Ok(MemoryBlock::with_size(layout.size))
    }

    /// Releases the block: its buffer is handed back to the host allocator
    /// as the block is dropped.
    fn deallocate(&self, block: MemoryBlock, layout: Layout) {
    }
}

} // verus!
