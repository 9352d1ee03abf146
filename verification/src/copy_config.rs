//! The two sizes that govern every copy.

use vstd::prelude::*;

verus! {

/// The buffer size of a copy that is given none.
pub const DEFAULT_COPY_BUFFER_SIZE: usize = 16384;

/// The smallest buffer a copy works with.
pub const MINIMAL_COPY_BUFFER_SIZE: usize = 4096;

/// The yield size of a copy that is given none.
pub const DEFAULT_COPY_YIELD_SIZE: usize = 1048576;

/// The smallest yield size a copy works with.
pub const MINIMAL_COPY_YIELD_SIZE: usize = 262144;

/// How much a copy buffers, and how many bytes it moves before it lets
/// other tasks run.
#[derive(Clone, Copy, Debug)]
pub struct StreamCopyConfig {
    buffer_size: usize,
    yield_size: usize,
}

impl StreamCopyConfig {
    /// The size of the copy buffer in bytes.
    pub closed spec fn spec_buffer_size(&self) -> usize {
        self.buffer_size
    }

    /// The number of bytes copied in one round before the copy yields.
    pub closed spec fn spec_yield_size(&self) -> usize {
        self.yield_size
    }

    #[verifier::type_invariant]
    spec fn sizes_in_range(&self) -> bool {
        self.buffer_size >= MINIMAL_COPY_BUFFER_SIZE && self.yield_size
            >= MINIMAL_COPY_YIELD_SIZE
    }

    /// A configuration with the given sizes, each raised to its minimum.
    pub fn new(buffer_size: usize, yield_size: usize) -> (r: Self)
        ensures
            r.spec_buffer_size() == raised(buffer_size, MINIMAL_COPY_BUFFER_SIZE),
            r.spec_yield_size() == raised(yield_size, MINIMAL_COPY_YIELD_SIZE),
    {
        StreamCopyConfig {
            buffer_size: if buffer_size < MINIMAL_COPY_BUFFER_SIZE {
                MINIMAL_COPY_BUFFER_SIZE
            } else {
                buffer_size
            },
            yield_size: if yield_size < MINIMAL_COPY_YIELD_SIZE {
                MINIMAL_COPY_YIELD_SIZE
            } else {
                yield_size
            },
        }
    }

    /// Sets the buffer size, raised to the minimum if it is below it.
    pub fn set_buffer_size(&mut self, buffer_size: usize)
        ensures
            final(self).spec_buffer_size() == raised(buffer_size, MINIMAL_COPY_BUFFER_SIZE),
            final(self).spec_yield_size() == old(self).spec_yield_size(),
    {
        proof {
            use_type_invariant(&*self);
        }
        let size: usize = if buffer_size < MINIMAL_COPY_BUFFER_SIZE {
            MINIMAL_COPY_BUFFER_SIZE
        } else {
            buffer_size
        };
        self.buffer_size = size;
    }

    /// Sets the yield size, raised to the minimum if it is below it.
    pub fn set_yield_size(&mut self, yield_size: usize)
        ensures
            final(self).spec_yield_size() == raised(yield_size, MINIMAL_COPY_YIELD_SIZE),
            final(self).spec_buffer_size() == old(self).spec_buffer_size(),
    {
        proof {
            use_type_invariant(&*self);
        }
        let size: usize = if yield_size < MINIMAL_COPY_YIELD_SIZE {
            MINIMAL_COPY_YIELD_SIZE
        } else {
            yield_size
        };
        self.yield_size = size;
    }

    /// The size of the copy buffer in bytes.
    #[verifier::when_used_as_spec(spec_buffer_size)]
    pub fn buffer_size(&self) -> (r: usize)
        ensures
            r == self.spec_buffer_size(),
            r >= MINIMAL_COPY_BUFFER_SIZE,
    {
        proof {
            use_type_invariant(self);
        }
        self.buffer_size
    }

    /// The number of bytes copied in one round before the copy yields.
    #[verifier::when_used_as_spec(spec_yield_size)]
    pub fn yield_size(&self) -> (r: usize)
        ensures
            r == self.spec_yield_size(),
            r >= MINIMAL_COPY_YIELD_SIZE,
    {
        proof {
            use_type_invariant(self);
        }
        self.yield_size
    }

    /// Whether two configurations hold the same sizes.
    pub fn same(&self, other: &StreamCopyConfig) -> (r: bool)
        ensures
            r == (self.spec_buffer_size() == other.spec_buffer_size() && self.spec_yield_size()
                == other.spec_yield_size()),
    {
        self.buffer_size == other.buffer_size && self.yield_size == other.yield_size
    }
}

impl Default for StreamCopyConfig {
    fn default() -> (r: Self)
        ensures
            r.spec_buffer_size() == DEFAULT_COPY_BUFFER_SIZE,
            r.spec_yield_size() == DEFAULT_COPY_YIELD_SIZE,
    {
        StreamCopyConfig {
            buffer_size: DEFAULT_COPY_BUFFER_SIZE,
            yield_size: DEFAULT_COPY_YIELD_SIZE,
        }
    }
}

/// `value`, or `floor` if `value` lies below it.
pub open spec fn raised(value: usize, floor: usize) -> usize {
    if value < floor {
        floor
    } else {
        value
    }
}

} // verus!
