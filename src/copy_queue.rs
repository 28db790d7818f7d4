//! A first-in, first-out queue of buffer-to-buffer copies recorded while a
//! frame is prepared and executed later, when a render context is at hand.
use vstd::prelude::*;

verus! {

/// The identity of a device buffer, as the device hands it out.
#[derive(Clone, Copy, Debug, PartialEq, Eq, Structural)]
pub struct BufferHandle {
    pub id: u128,
}

/// A copy of `size` bytes from one buffer to another, not yet executed.
#[derive(Clone, Copy, Debug, PartialEq, Eq, Structural)]
pub struct PendingCopy {
    pub source: BufferHandle,
    pub source_offset: u64,
    pub destination: BufferHandle,
    pub destination_offset: u64,
    pub size: u64,
}

/// The copies recorded and not yet executed, oldest first.
pub struct CopyQueue {
    pending: Vec<PendingCopy>,
}

impl View for CopyQueue {
    type V = Seq<PendingCopy>;

    closed spec fn view(&self) -> Seq<PendingCopy> {
        self.pending@
    }
}

impl CopyQueue {
    /// An empty queue.
    pub fn new() -> (r: Self)
        ensures
            r@ == Seq::<PendingCopy>::empty(),
    {
        CopyQueue { pending: Vec::new() }
    }

    /// The number of copies waiting.
    pub fn len(&self) -> (r: usize)
        ensures
            r == self@.len(),
    {
        self.pending.len()
    }

    /// Records `copy` after every copy already waiting.
    pub fn enqueue(&mut self, copy: PendingCopy)
        ensures
            final(self)@ == old(self)@.push(copy),
    {
        self.pending.push(copy);
    }

    /// Hands out every waiting copy, oldest first, and leaves the queue empty.
    pub fn drain(&mut self) -> (r: Vec<PendingCopy>)
        ensures
            r@ == old(self)@,
            final(self)@ == Seq::<PendingCopy>::empty(),
    {
        let mut r: Vec<PendingCopy> = Vec::new();
        std::mem::swap(&mut r, &mut self.pending);
        r
    }
}

} // verus!
