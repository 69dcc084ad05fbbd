use vstd::prelude::*;

verus! {

/// Holds when `n` is a power of two.
pub open spec fn is_power_of_two(n: nat) -> bool
    decreases n,
{
    if n == 0 {
        false
    } else if n == 1 {
        true
    } else {
        n % 2 == 0 && is_power_of_two(n / 2)
    }
}

/// A description of a memory request: a size in bytes and an alignment.
///
/// A layout is well formed (`wf`) when its alignment is a power of two and
/// its size, rounded up to the next multiple of the alignment, still fits in
/// `usize`. Every operation of the allocation capability expects a
/// well-formed layout; `Layout::from_size_align` is the checked way to build
/// one.
#[derive(Clone, Copy, Debug, PartialEq, Eq, Structural)]
pub struct Layout {
    /// The requested size in bytes.
    pub size: usize,
    /// The required alignment in bytes.
    pub align: usize,
}

impl Layout {
    /// Well-formedness: the alignment is a power of two and the size,
    /// rounded up to the alignment, does not overflow `usize`.
    pub open spec fn wf(self) -> bool {
        &&& is_power_of_two(self.align as nat)
        &&& self.size + self.align - 1 <= usize::MAX
    }

    /// Builds a layout, checking well-formedness: returns `Some` exactly
    /// when `align` is a power of two and the rounded-up size fits in
    /// `usize`.
    pub fn from_size_align(size: usize, align: usize) -> (r: Option<Layout>)
        ensures
            r is Some <==> (is_power_of_two(align as nat) && size + align - 1 <= usize::MAX),
            r is Some ==> r->Some_0 == (Layout { size, align }),
            r is Some ==> r->Some_0.wf(),
    {
        if power_of_two(align) && size <= usize::MAX - (align - 1) {
            Some(Layout { size, align })
        } else {
            None
        }
    }
}

/// Decides `is_power_of_two` by repeated halving.
fn power_of_two(n: usize) -> (b: bool)
    ensures
        b == is_power_of_two(n as nat),
{
    let mut m: usize = n;
    while m > 1
        invariant
            is_power_of_two(n as nat) == is_power_of_two(m as nat),
        decreases m,
    {
        if m % 2 != 0 {
            return false;
        }
        m = m / 2;
    }
    m == 1
}

} // verus!
