//! A minimal, swappable memory-allocation capability: an interface that can
//! acquire, release, grow, shrink, and zero-initialize memory blocks, plus
//! one concrete implementation backed by the host's own allocation.
//!
//! The capability has two required primitives, `allocate` and `deallocate`;
//! the derived operations (`allocate_zeroed`, `grow`, `grow_zeroed`,
//! `shrink`, `by_ref`) are implemented generically atop the two, so a
//! minimal implementation inherits correct resize behaviour for free. A
//! memory block is an owned byte buffer whose lifetime is tracked by
//! ownership: it is surrendered by passing it back to exactly one consuming
//! call.

mod allocator;
mod block;
mod layout;

pub use allocator::round_trip;
pub use allocator::AllocError;
pub use allocator::Allocator;
pub use allocator::Global;
pub use block::MemoryBlock;
pub use layout::is_power_of_two;
pub use layout::Layout;
