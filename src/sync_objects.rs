//! Per-frame-slot fence state and the per-image record of the last writer.
use vstd::prelude::*;

verus! {

/// What the renderer knows of its synchronization objects.
///
/// Each frame slot owns a fence and two semaphores, which the caller's device
/// holds under the slot's index. `in_flight[s]` says that work was submitted
/// on slot `s` and its fence has not been seen signaled since.
/// `images_in_flight[i]` names the slot that last rendered to swapchain
/// image `i`: an index into the slots, so that it owns nothing.
pub struct SyncObjects {
    pub max_frames_in_flight: usize,
    pub in_flight: Vec<bool>,
    pub images_in_flight: Vec<Option<usize>>,
}

/// How many of `flags` are set.
pub open spec fn count_set(flags: Seq<bool>) -> nat
    decreases flags.len(),
{
    if flags.len() == 0 {
        0
    } else {
        count_set(flags.drop_last()) + if flags.last() {
            1nat
        } else {
            0nat
        }
    }
}

/// No more flags are set than there are flags.
pub(crate) proof fn lemma_count_set_le(flags: Seq<bool>)
    ensures
        count_set(flags) <= flags.len(),
    decreases flags.len(),
{
    if flags.len() > 0 {
        lemma_count_set_le(flags.drop_last());
    }
}

/// With one flag clear, fewer flags are set than there are flags.
pub(crate) proof fn lemma_count_set_lt(flags: Seq<bool>, i: int)
    requires
        0 <= i < flags.len(),
        !flags[i],
    ensures
        count_set(flags) < flags.len(),
    decreases flags.len(),
{
    if i == flags.len() - 1 {
        lemma_count_set_le(flags.drop_last());
    } else {
        lemma_count_set_lt(flags.drop_last(), i);
    }
}

impl SyncObjects {
    /// One flag per slot, at least one slot, and every recorded writer is a slot.
    pub open spec fn wf(&self) -> bool {
        &&& self.max_frames_in_flight > 0
        &&& self.in_flight@.len() == self.max_frames_in_flight
        &&& forall|i: int|
            0 <= i < self.images_in_flight@.len() ==> (#[trigger] self.images_in_flight@[i] matches Some(
                s,
            ) ==> s < self.max_frames_in_flight)
    }

    /// Frames submitted whose fence has not been seen signaled.
    pub open spec fn frames_in_flight(&self) -> nat {
        count_set(self.in_flight@)
    }

    /// Synchronization state for `max_frames_in_flight` slots and
    /// `swapchain_image_count` images: fences start signaled, so nothing is in
    /// flight, and no image has a writer.
    pub fn new(swapchain_image_count: usize, max_frames_in_flight: usize) -> (r: Self)
        requires
            max_frames_in_flight > 0,
        ensures
            r.wf(),
            r.max_frames_in_flight == max_frames_in_flight,
            r.in_flight@ == Seq::new(max_frames_in_flight as nat, |i: int| false),
            r.images_in_flight@ == Seq::new(swapchain_image_count as nat, |i: int| None::<usize>),
    {
        let mut in_flight: Vec<bool> = Vec::with_capacity(max_frames_in_flight);
        let mut k: usize = 0;
        while k < max_frames_in_flight
            invariant
                k <= max_frames_in_flight,
                in_flight@ == Seq::new(k as nat, |i: int| false),
            decreases max_frames_in_flight - k,
        {
            in_flight.push(false);
            k += 1;
        }
        let images_in_flight = no_writers(swapchain_image_count);
        SyncObjects { max_frames_in_flight, in_flight, images_in_flight }
    }

    /// Records that the fence of `slot` was seen signaled.
    pub fn fence_signaled(&mut self, slot: usize)
        requires
            old(self).wf(),
            slot < old(self).max_frames_in_flight,
        ensures
            final(self).wf(),
            final(self).in_flight@ == old(self).in_flight@.update(slot as int, false),
            final(self).images_in_flight == old(self).images_in_flight,
            final(self).max_frames_in_flight == old(self).max_frames_in_flight,
    {
        self.in_flight.set(slot, false);
    }

    /// Records that work was submitted on `slot`, whose fence was seen
    /// signaled before.
    pub fn submitted(&mut self, slot: usize)
        requires
            old(self).wf(),
            slot < old(self).max_frames_in_flight,
            !old(self).in_flight@[slot as int],
        ensures
            final(self).wf(),
            final(self).in_flight@ == old(self).in_flight@.update(slot as int, true),
            final(self).images_in_flight == old(self).images_in_flight,
            final(self).max_frames_in_flight == old(self).max_frames_in_flight,
    {
        self.in_flight.set(slot, true);
    }

    /// The slot that last rendered to `image`, if any.
    pub fn last_writer(&self, image: usize) -> (r: Option<usize>)
        requires
            image < self.images_in_flight@.len(),
        ensures
            r == self.images_in_flight@[image as int],
    {
        self.images_in_flight[image]
    }

    /// Records `slot` as the last writer of `image`.
    pub fn claim_image(&mut self, image: usize, slot: usize)
        requires
            old(self).wf(),
            image < old(self).images_in_flight@.len(),
            slot < old(self).max_frames_in_flight,
        ensures
            final(self).wf(),
            final(self).images_in_flight@ == old(self).images_in_flight@.update(
                image as int,
                Some(slot),
            ),
            final(self).in_flight == old(self).in_flight,
            final(self).max_frames_in_flight == old(self).max_frames_in_flight,
    {
        self.images_in_flight.set(image, Some(slot));
    }

    /// After the device went idle every fence is signaled; the swapchain now
    /// has `swapchain_image_count` fresh images, none written yet.
    pub fn device_idle(&mut self, swapchain_image_count: usize)
        requires
            old(self).wf(),
        ensures
            final(self).wf(),
            final(self).max_frames_in_flight == old(self).max_frames_in_flight,
            final(self).in_flight@ == Seq::new(old(self).max_frames_in_flight as nat, |i: int| false),
            final(self).images_in_flight@ == Seq::new(
                swapchain_image_count as nat,
                |i: int| None::<usize>,
            ),
            final(self).frames_in_flight() == 0,
    {
        let mut k: usize = 0;
        while k < self.in_flight.len()
            invariant
                k <= self.in_flight@.len(),
                self.in_flight@.len() == old(self).in_flight@.len(),
                self.max_frames_in_flight == old(self).max_frames_in_flight,
                self.images_in_flight == old(self).images_in_flight,
                forall|i: int| 0 <= i < k ==> !#[trigger] self.in_flight@[i],
            decreases self.in_flight@.len() - k,
        {
            self.in_flight.set(k, false);
            k += 1;
        }
        self.images_in_flight = no_writers(swapchain_image_count);
        proof {
            assert(self.in_flight@ =~= Seq::new(old(self).max_frames_in_flight as nat, |i: int| false));
            lemma_none_set(self.in_flight@);
        }
    }
}

/// `n` images, none with a writer.
fn no_writers(n: usize) -> (r: Vec<Option<usize>>)
    ensures
        r@ == Seq::new(n as nat, |i: int| None::<usize>),
{
    let mut v: Vec<Option<usize>> = Vec::with_capacity(n);
    let mut k: usize = 0;
    while k < n
        invariant
            k <= n,
            v@ == Seq::new(k as nat, |i: int| None::<usize>),
        decreases n - k,
    {
        v.push(None);
        k += 1;
    }
    v
}

/// No flag set: none counted.
pub(crate) proof fn lemma_none_set(flags: Seq<bool>)
    requires
        forall|i: int| 0 <= i < flags.len() ==> !#[trigger] flags[i],
    ensures
        count_set(flags) == 0,
    decreases flags.len(),
{
    if flags.len() > 0 {
        lemma_none_set(flags.drop_last());
    }
}

} // verus!
