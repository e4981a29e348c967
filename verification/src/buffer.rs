//! Shared-memory pixel buffers as the lock screen accounts for them: their
//! size, and whether the compositor still holds them.

use vstd::prelude::*;

verus! {

/// The state that a buffer shares with the compositor's release notice.
#[derive(Copy, Clone, Debug, PartialEq, Eq, Structural)]
pub struct NLockBufferState {
    /// Set when the buffer is handed to the compositor, cleared when the
    /// compositor releases it.
    pub in_use: bool,
}

/// One buffer of 32-bit pixels.
#[derive(Copy, Clone, Debug, PartialEq, Eq, Structural)]
pub struct NLockBuffer {
    pub width: i32,
    pub height: i32,
    /// Bytes of shared memory behind the buffer.
    pub size: usize,
    pub state: NLockBufferState,
}

/// The claim on a buffer between drawing and commit. A claim that is given
/// back without a commit frees the buffer again.
#[derive(Debug)]
pub struct NLockBufferGuard {
    committed: bool,
}

/// Bytes from one row of a buffer to the next.
pub open spec fn stride_of(width: int) -> int {
    4 * width
}

/// Bytes of a buffer.
pub open spec fn size_of(width: int, height: int) -> int {
    stride_of(width) * height
}

/// Whether a buffer of this size can be allocated: both sides positive,
/// and the size in bytes within `i32`, as the shared-memory pool counts.
pub open spec fn buffer_size_valid(width: int, height: int) -> bool {
    0 < width && 0 < height && size_of(width, height) <= i32::MAX
}

impl NLockBufferGuard {
    /// Whether the buffer was committed to a surface under this claim.
    pub closed spec fn committed(&self) -> bool {
        self.committed
    }

    /// Records that the buffer was attached to a surface and committed.
    pub fn commit_to(&mut self)
        ensures
            final(self).committed(),
    {
        self.committed = true;
    }

    /// Tells whether the buffer was committed under this claim.
    pub fn is_committed(&self) -> (r: bool)
        ensures
            r == self.committed(),
    {
        self.committed
    }
}

impl NLockBuffer {
    /// Whether the buffer has the given size and is not with the compositor.
    pub open spec fn is_free_for(self, width: int, height: int) -> bool {
        !self.state.in_use && self.width == width && self.height == height
    }

    /// Accounts for a new buffer, free at first. There is none for a size
    /// that cannot be allocated.
    pub fn new(width: i32, height: i32) -> (r: Option<NLockBuffer>)
        ensures
            r is Some <==> buffer_size_valid(width as int, height as int),
            r is Some ==> r.unwrap() == (NLockBuffer {
                width,
                height,
                size: size_of(width as int, height as int) as usize,
                state: NLockBufferState { in_use: false },
            }),
    {
        if width <= 0 || height <= 0 {
            return None;
        }
        let stride: i64 = 4 * (width as i64);
        assert(0 < stride * height <= 0x2_0000_0000 * 0x8000_0000) by (nonlinear_arith)
            requires
                0 < stride <= 0x2_0000_0000,
                0 < height <= 0x8000_0000,
        ;
        let size: i128 = (stride as i128) * (height as i128);
        if size > 0x7fff_ffff {
            return None;
        }
        Some(NLockBuffer { width, height, size: size as usize, state: NLockBufferState { in_use: false } })
    }

    /// Claims the buffer for a commit. A buffer that the compositor holds
    /// cannot be claimed.
    pub fn lock_buffer(&mut self) -> (r: Option<NLockBufferGuard>)
        ensures
            r is Some <==> !old(self).state.in_use,
            r is Some ==> !r.unwrap().committed(),
            final(self).state.in_use,
            final(self).width == old(self).width,
            final(self).height == old(self).height,
            final(self).size == old(self).size,
    {
        if self.state.in_use {
            None
        } else {
            self.state.in_use = true;
            Some(NLockBufferGuard { committed: false })
        }
    }

    /// Gives a claim back. The buffer stays with the compositor if it was
    /// committed, and is free again if it was not.
    pub fn unlock_buffer(&mut self, guard: NLockBufferGuard)
        ensures
            final(self).state.in_use == (if guard.committed() {
                old(self).state.in_use
            } else {
                false
            }),
            final(self).width == old(self).width,
            final(self).height == old(self).height,
            final(self).size == old(self).size,
    {
        if !guard.committed {
            self.state.in_use = false;
        }
    }

    /// Takes note that the compositor has released the buffer.
    pub fn release(&mut self)
        ensures
            !final(self).state.in_use,
            final(self).width == old(self).width,
            final(self).height == old(self).height,
            final(self).size == old(self).size,
    {
        self.state.in_use = false;
    }
}

/// Whether `i` is the first buffer that is free and of the given size.
pub open spec fn is_first_free(buffers: Seq<NLockBuffer>, width: int, height: int, i: int) -> bool {
    &&& 0 <= i < buffers.len()
    &&& buffers[i].is_free_for(width, height)
    &&& forall|j: int| 0 <= j < i ==> !(#[trigger] buffers[j]).is_free_for(width, height)
}

/// Whether no buffer is free and of the given size.
pub open spec fn none_free(buffers: Seq<NLockBuffer>, width: int, height: int) -> bool {
    forall|j: int| 0 <= j < buffers.len() ==> !(#[trigger] buffers[j]).is_free_for(width, height)
}

/// Finds the first buffer that is free and of the given size.
pub fn find_free(buffers: &Vec<NLockBuffer>, width: i32, height: i32) -> (r: Option<usize>)
    ensures
        match r {
            Some(i) => is_first_free(buffers@, width as int, height as int, i as int),
            None => none_free(buffers@, width as int, height as int),
        },
{
    let mut i: usize = 0;
    while i < buffers.len()
        invariant
            i <= buffers@.len(),
            forall|j: int| 0 <= j < i ==> !(#[trigger] buffers@[j]).is_free_for(width as int, height as int),
        decreases buffers@.len() - i,
    {
        let b: &NLockBuffer = &buffers[i];
        if !b.state.in_use && b.width == width && b.height == height {
            return Some(i);
        }
        i += 1;
    }
    None
}

/// A buffer that the compositor holds is not handed out: whatever size
/// is asked for, the search does not find it. It is found again only
/// after its release.
pub proof fn lemma_held_buffer_is_not_found(
    buffers: Seq<NLockBuffer>,
    width: int,
    height: int,
    held: int,
    found: int,
)
    requires
        0 <= held < buffers.len(),
        buffers[held].state.in_use,
        is_first_free(buffers, width, height, found),
    ensures
        found != held,
{
}

/// The search finds at most one buffer.
pub proof fn lemma_first_free_is_unique(buffers: Seq<NLockBuffer>, width: int, height: int, a: int, b: int)
    requires
        is_first_free(buffers, width, height, a),
        is_first_free(buffers, width, height, b),
    ensures
        a == b,
{
}

} // verus!
