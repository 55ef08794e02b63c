use vstd::prelude::*;

use crate::error::ShareError;

verus! {

/// Hands out share identifiers in strictly increasing order, starting at
/// zero. The counter is the next identifier to hand out, so it is strictly
/// greater than every identifier handed out so far.
pub struct ShareIdAllocator {
    counter: u64,
}

impl ShareIdAllocator {
    /// The next identifier to be handed out.
    pub closed spec fn spec_counter(&self) -> u64 {
        self.counter
    }

    /// An allocator that has handed out nothing yet.
    pub fn new() -> (r: ShareIdAllocator)
        ensures
            r.spec_counter() == 0,
    {
        ShareIdAllocator { counter: 0 }
    }

    /// An allocator that resumes from a persisted counter: `counter` is the
    /// next identifier it hands out.
    pub fn with_counter(counter: u64) -> (r: ShareIdAllocator)
        ensures
            r.spec_counter() == counter,
    {
        ShareIdAllocator { counter }
    }

    /// The next identifier to be handed out.
    pub fn counter(&self) -> (r: u64)
        ensures
            r == self.spec_counter(),
    {
        self.counter
    }

    /// Hands out the next identifier and advances the counter past it. When
    /// the counter can go no further, nothing is handed out and it stays.
    pub fn next_id(&mut self) -> (r: Result<u64, ShareError>)
        ensures
            old(self).spec_counter() < u64::MAX ==> r == Ok::<u64, ShareError>(
                old(self).spec_counter(),
            ) && final(self).spec_counter() == old(self).spec_counter() + 1,
            old(self).spec_counter() == u64::MAX ==> r == Err::<u64, ShareError>(
                ShareError::IdsExhausted,
            ) && final(self).spec_counter() == old(self).spec_counter(),
    {
        if self.counter == u64::MAX {
            return Err(ShareError::IdsExhausted);
        }
        let id = self.counter;
        self.counter = self.counter + 1;
        Ok(id)
    }
}

} // verus!
