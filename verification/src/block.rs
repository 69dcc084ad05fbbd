use vstd::prelude::*;

verus! {

/// An owned block of memory: the bytes an allocator committed for one
/// request.
///
/// The view of a block is the sequence of its bytes; the block's observed
/// length is the length of that sequence, which may exceed the size that
/// was requested. Ownership of the block stands for ownership of the
/// allocation: the block is surrendered by passing it back to exactly one
/// consuming call (`Allocator::deallocate`, or the release performed
/// internally by `grow`/`grow_zeroed`/`shrink` on the old block), so reuse
/// after release and double release are ruled out statically rather than
/// left as caller obligations.
#[derive(Debug)]
pub struct MemoryBlock {
    bytes: Vec<u8>,
}

impl View for MemoryBlock {
    type V = Seq<u8>;

    closed spec fn view(&self) -> Seq<u8> {
        self.bytes@
    }
}

impl MemoryBlock {
    /// Builds a block of exactly `n` bytes. The contents are left
    /// unspecified, as a freshly acquired block's contents are
    /// implementation-defined.
    pub fn with_size(n: usize) -> (b: MemoryBlock)
        ensures
            b@.len() == n,
    {
        let mut bytes: Vec<u8> = Vec::new();
        while bytes.len() < n
            invariant
                bytes@.len() <= n,
            decreases n - bytes@.len(),
        {
            bytes.push(0u8);
        }
        MemoryBlock { bytes }
    }

    /// The observed length of the block in bytes.
    pub fn len(&self) -> (n: usize)
        ensures
            n == self@.len(),
    {
        self.bytes.len()
    }

    /// Reads the byte at offset `i`.
    pub fn read_byte(&self, i: usize) -> (b: u8)
        requires
            i < self@.len(),
        ensures
            b == self@[i as int],
    {
        self.bytes[i]
    }

    /// Writes `value` at offset `i`, leaving every other byte unchanged.
    pub fn write_byte(&mut self, i: usize, value: u8)
        requires
            i < old(self)@.len(),
        ensures
            final(self)@ == old(self)@.update(i as int, value),
    {
        self.bytes.set(i, value);
    }
}

} // verus!
