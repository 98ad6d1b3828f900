//! The decisions of one frame: wait for a free slot, acquire an image, wait
//! for the image's last writer, record, submit, present. The caller performs
//! each action on the device and reports what happened.
use vstd::prelude::*;

use crate::sync_objects::SyncObjects;

verus! {

/// How many frames the CPU may record ahead of the GPU.
pub const MAX_FRAMES_IN_FLIGHT: usize = 2;

/// Where the current frame stands.
#[derive(Clone, Copy, Debug, PartialEq, Eq, Structural)]
pub enum FramePhase {
    /// No frame under way.
    Idle,
    /// Waiting for the fence of the current slot.
    WaitingSlot,
    /// Acquiring the next presentable image.
    Acquiring,
    /// Waiting for the fence of `writer`, which last rendered to `image`.
    WaitingImage { image: u32, writer: usize },
    /// Recording the command buffer of the current slot for `image`.
    Recording { image: u32 },
    /// Submitting the recorded commands.
    Submitting { image: u32 },
    /// Presenting `image`.
    Presenting { image: u32 },
    /// A fatal error stopped the loop.
    Halted,
}

/// What happened to the last action.
#[derive(Clone, Copy, Debug, PartialEq, Eq, Structural)]
pub enum FrameEvent {
    /// The application asks for a frame.
    Begin,
    /// The awaited fence is signaled.
    FenceSignaled,
    /// An image was acquired; `suboptimal` if the swapchain no longer matches.
    ImageAcquired { image_index: u32, suboptimal: bool },
    /// The command buffer is recorded.
    Recorded,
    /// The fence was reset and the commands submitted.
    Submitted,
    /// The image was queued for presentation.
    Presented { suboptimal: bool },
    /// Acquire or present reported the swapchain out of date.
    OutOfDate,
    /// An allocation, device-lost or timeout error.
    Failed,
}

/// What the caller does next.
#[derive(Clone, Copy, Debug, PartialEq, Eq, Structural)]
pub enum FrameAction {
    /// Wait on the fence of `slot`.
    WaitForFence { slot: usize },
    /// Acquire an image, signaling the image-available semaphore of `slot`.
    AcquireImage { slot: usize },
    /// Reset and record the command buffer of `slot` for `image`.
    Record { slot: usize, image: u32 },
    /// Reset the fence of `slot` and submit its command buffer, signaling its
    /// render-finished semaphore and fence.
    Submit { slot: usize },
    /// Present `image` once the render-finished semaphore of `slot` signals.
    Present { slot: usize, image: u32 },
    /// The frame is over; `recreate` if the swapchain must be rebuilt first.
    FrameDone { recreate: bool },
    /// Stop the render loop after waiting for the device to go idle.
    Abort,
}

/// The frame-lifecycle state machine of the renderer.
pub struct Renderer {
    pub frame_index: usize,
    pub sync_objects: SyncObjects,
    pub phase: FramePhase,
    /// The acquire of this frame reported the swapchain suboptimal.
    pub recreate_pending: bool,
}

impl Renderer {
    /// The slot index is a slot, and while the current frame holds an image the
    /// slot's fence is known signaled and the image exists.
    pub open spec fn wf(&self) -> bool {
        let slots = self.sync_objects.max_frames_in_flight;
        let images = self.sync_objects.images_in_flight@.len();
        &&& self.sync_objects.wf()
        &&& slots == MAX_FRAMES_IN_FLIGHT
        &&& self.frame_index < slots
        &&& match self.phase {
            FramePhase::Acquiring => !self.sync_objects.in_flight@[self.frame_index as int],
            FramePhase::WaitingImage { image, writer } => {
                &&& !self.sync_objects.in_flight@[self.frame_index as int]
                &&& image < images
                &&& writer < slots
                &&& self.sync_objects.images_in_flight@[image as int] == Some(writer)
            },
            FramePhase::Recording { image } => {
                &&& !self.sync_objects.in_flight@[self.frame_index as int]
                &&& image < images
                &&& self.sync_objects.images_in_flight@[image as int] == Some(self.frame_index)
            },
            FramePhase::Submitting { image } => image < images,
            FramePhase::Presenting { image } => image < images,
            _ => true,
        }
    }

    /// Frames submitted whose fence has not been seen signaled.
    pub open spec fn frames_in_flight(&self) -> nat {
        self.sync_objects.frames_in_flight()
    }

    /// Frames recorded, or being recorded, whose fence has not been seen
    /// signaled: those in flight, and the current one while it is recorded.
    pub open spec fn frames_outstanding(&self) -> nat {
        self.frames_in_flight() + if self.phase is Recording {
            1nat
        } else {
            0nat
        }
    }

    /// The slot whose fence must be awaited before rendering to `image`: its
    /// last writer, while that writer is still in flight.
    pub open spec fn blocking_writer(&self, image: u32) -> Option<usize> {
        match self.sync_objects.images_in_flight@[image as int] {
            Some(w) => if self.sync_objects.in_flight@[w as int] {
                Some(w)
            } else {
                None
            },
            None => None,
        }
    }

    /// Whether `image` names an image of the swapchain.
    pub open spec fn has_image(&self, image: u32) -> bool {
        (image as int) < self.sync_objects.images_in_flight@.len()
    }

    /// The action that answers `event`.
    pub open spec fn next_action(&self, event: FrameEvent) -> FrameAction {
        let slot = self.frame_index;
        match (self.phase, event) {
            (_, FrameEvent::Failed) => FrameAction::Abort,
            (FramePhase::Idle, FrameEvent::Begin) => FrameAction::WaitForFence { slot },
            (FramePhase::WaitingSlot, FrameEvent::FenceSignaled) => FrameAction::AcquireImage { slot },
            (FramePhase::Acquiring, FrameEvent::ImageAcquired { image_index, suboptimal }) => {
                if !self.has_image(image_index) {
                    FrameAction::Abort
                } else {
                    match self.blocking_writer(image_index) {
                        Some(w) => FrameAction::WaitForFence { slot: w },
                        None => FrameAction::Record { slot, image: image_index },
                    }
                }
            },
            (FramePhase::Acquiring, FrameEvent::OutOfDate) => FrameAction::FrameDone { recreate: true },
            (FramePhase::WaitingImage { image, writer }, FrameEvent::FenceSignaled) => {
                FrameAction::Record { slot, image }
            },
            (FramePhase::Recording { image }, FrameEvent::Recorded) => FrameAction::Submit { slot },
            (FramePhase::Submitting { image }, FrameEvent::Submitted) => FrameAction::Present {
                slot,
                image,
            },
            (FramePhase::Presenting { image }, FrameEvent::Presented { suboptimal }) => {
                FrameAction::FrameDone { recreate: suboptimal || self.recreate_pending }
            },
            (FramePhase::Presenting { image }, FrameEvent::OutOfDate) => FrameAction::FrameDone {
                recreate: true,
            },
            _ => FrameAction::Abort,
        }
    }

    /// The phase after answering `event`.
    pub open spec fn next_phase(&self, event: FrameEvent) -> FramePhase {
        match self.next_action(event) {
            FrameAction::Abort => FramePhase::Halted,
            FrameAction::FrameDone { .. } => FramePhase::Idle,
            FrameAction::WaitForFence { slot } => if self.phase == FramePhase::Idle {
                FramePhase::WaitingSlot
            } else {
                FramePhase::WaitingImage {
                    image: event->ImageAcquired_image_index,
                    writer: slot,
                }
            },
            FrameAction::AcquireImage { .. } => FramePhase::Acquiring,
            FrameAction::Record { image, .. } => FramePhase::Recording { image },
            FrameAction::Submit { .. } => FramePhase::Submitting { image: self.phase->Recording_image },
            FrameAction::Present { image, .. } => FramePhase::Presenting { image },
        }
    }

    /// The in-flight flags after answering `event`: a fence seen signaled
    /// clears its slot, a submission sets it.
    pub open spec fn next_in_flight(&self, event: FrameEvent) -> Seq<bool> {
        let flags = self.sync_objects.in_flight@;
        match (self.phase, event) {
            (FramePhase::WaitingSlot, FrameEvent::FenceSignaled) => flags.update(
                self.frame_index as int,
                false,
            ),
            (FramePhase::WaitingImage { image, writer }, FrameEvent::FenceSignaled) => flags.update(
                writer as int,
                false,
            ),
            (FramePhase::Recording { image }, FrameEvent::Recorded) => flags.update(
                self.frame_index as int,
                true,
            ),
            _ => flags,
        }
    }

    /// The last-writer table after answering `event`: recording claims the image.
    pub open spec fn next_images_in_flight(&self, event: FrameEvent) -> Seq<Option<usize>> {
        match self.next_action(event) {
            FrameAction::Record { slot, image } => self.sync_objects.images_in_flight@.update(
                image as int,
                Some(slot),
            ),
            _ => self.sync_objects.images_in_flight@,
        }
    }

    /// Whether a rebuild is owed after answering `event`: an acquire that
    /// reports the swapchain suboptimal owes one, the end of the frame pays it.
    pub open spec fn next_recreate_pending(&self, event: FrameEvent) -> bool {
        match self.next_action(event) {
            FrameAction::FrameDone { .. } => false,
            FrameAction::Abort => self.recreate_pending,
            _ => match event {
                FrameEvent::ImageAcquired { image_index, suboptimal } => self.recreate_pending
                    || suboptimal,
                _ => self.recreate_pending,
            },
        }
    }

    /// The slot after answering `event`: a frame that got as far as presenting
    /// moves on to the next slot.
    pub open spec fn next_frame_index(&self, event: FrameEvent) -> usize {
        if self.phase is Presenting && self.next_action(event) is FrameDone {
            ((self.frame_index + 1) % (MAX_FRAMES_IN_FLIGHT as int)) as usize
        } else {
            self.frame_index
        }
    }

    /// A renderer for a swapchain of `swapchain_image_count` images, at slot 0
    /// with nothing in flight.
    pub fn new(swapchain_image_count: usize) -> (r: Self)
        ensures
            r.wf(),
            r.frame_index == 0,
            r.phase == FramePhase::Idle,
            !r.recreate_pending,
            r.sync_objects.images_in_flight@.len() == swapchain_image_count,
            r.frames_in_flight() == 0,
    {
        let sync_objects = SyncObjects::new(swapchain_image_count, MAX_FRAMES_IN_FLIGHT);
        proof {
            crate::sync_objects::lemma_none_set(sync_objects.in_flight@);
        }
        Renderer { frame_index: 0, sync_objects, phase: FramePhase::Idle, recreate_pending: false }
    }

    fn halt(&mut self) -> (r: FrameAction)
        requires
            old(self).wf(),
        ensures
            final(self).wf(),
            final(self).phase == FramePhase::Halted,
            final(self).sync_objects == old(self).sync_objects,
            final(self).frame_index == old(self).frame_index,
            final(self).recreate_pending == old(self).recreate_pending,
            r == FrameAction::Abort,
    {
        self.phase = FramePhase::Halted;
        FrameAction::Abort
    }

    fn finish_frame(&mut self, recreate: bool) -> (r: FrameAction)
        requires
            old(self).wf(),
        ensures
            final(self).wf(),
            final(self).phase == FramePhase::Idle,
            final(self).frame_index == (old(self).frame_index + 1) % (MAX_FRAMES_IN_FLIGHT as int),
            final(self).sync_objects == old(self).sync_objects,
            !final(self).recreate_pending,
            r == (FrameAction::FrameDone { recreate: recreate || old(self).recreate_pending }),
    {
        let again = recreate || self.recreate_pending;
        self.frame_index = (self.frame_index + 1) % MAX_FRAMES_IN_FLIGHT;
        self.phase = FramePhase::Idle;
        self.recreate_pending = false;
        FrameAction::FrameDone { recreate: again }
    }

    fn start_recording(&mut self, image: u32) -> (r: FrameAction)
        requires
            old(self).wf(),
            (image as int) < old(self).sync_objects.images_in_flight@.len(),
            !old(self).sync_objects.in_flight@[old(self).frame_index as int],
            old(self).phase != FramePhase::Halted,
        ensures
            final(self).wf(),
            final(self).phase == (FramePhase::Recording { image }),
            final(self).frame_index == old(self).frame_index,
            final(self).recreate_pending == old(self).recreate_pending,
            final(self).sync_objects.in_flight == old(self).sync_objects.in_flight,
            final(self).sync_objects.images_in_flight@ == old(
                self,
            ).sync_objects.images_in_flight@.update(image as int, Some(old(self).frame_index)),
            r == (FrameAction::Record { slot: old(self).frame_index, image }),
    {
        self.sync_objects.claim_image(image as usize, self.frame_index);
        self.phase = FramePhase::Recording { image };
        FrameAction::Record { slot: self.frame_index, image }
    }

    /// Takes what happened to the last action and returns the next one.
    ///
    /// A slot's commands are submitted only once its fence was seen signaled,
    /// and an image is recorded into only once the fence of the slot that last
    /// wrote it was seen signaled. An event that does not fit the phase, or a
    /// failure, halts the loop; an out-of-date swapchain ends the frame with a
    /// request to rebuild it.
    pub fn step(&mut self, event: FrameEvent) -> (r: FrameAction)
        requires
            old(self).wf(),
        ensures
            final(self).wf(),
            r == old(self).next_action(event),
            final(self).phase == old(self).next_phase(event),
            final(self).sync_objects.in_flight@ == old(self).next_in_flight(event),
            final(self).sync_objects.images_in_flight@ == old(self).next_images_in_flight(event),
            final(self).sync_objects.max_frames_in_flight == old(self).sync_objects.max_frames_in_flight,
            final(self).frame_index == old(self).next_frame_index(event),
            final(self).recreate_pending == old(self).next_recreate_pending(event),
            final(self).frames_outstanding() <= MAX_FRAMES_IN_FLIGHT,
            r matches FrameAction::Submit { slot } ==> {
                &&& slot == old(self).frame_index
                &&& !old(self).sync_objects.in_flight@[slot as int]
                &&& final(self).sync_objects.in_flight@ == old(self).sync_objects.in_flight@.update(
                    slot as int,
                    true,
                )
            },
            r matches FrameAction::Record { slot, image } ==> {
                &&& slot == old(self).frame_index
                &&& (image as int) < old(self).sync_objects.images_in_flight@.len()
                &&& !final(self).sync_objects.in_flight@[slot as int]
                &&& (old(self).sync_objects.images_in_flight@[image as int] matches Some(w)
                    ==> !final(self).sync_objects.in_flight@[w as int])
                &&& final(self).sync_objects.images_in_flight@[image as int] == Some(slot)
            },
            r matches FrameAction::WaitForFence { slot } ==> slot < MAX_FRAMES_IN_FLIGHT,
            r matches FrameAction::AcquireImage { slot } ==> slot == old(self).frame_index,
            r matches FrameAction::Present { slot, image } ==> slot == old(self).frame_index && (image
                as int) < final(self).sync_objects.images_in_flight@.len(),
            event == FrameEvent::Failed ==> r == FrameAction::Abort && final(self).phase
                == FramePhase::Halted,
            old(self).phase == FramePhase::Halted ==> r == FrameAction::Abort && final(self).phase
                == FramePhase::Halted,
            r == FrameAction::Abort ==> final(self).phase == FramePhase::Halted,
            r is FrameDone ==> final(self).phase == FramePhase::Idle,
    {
        let r = match (self.phase, event) {
            (_, FrameEvent::Failed) => self.halt(),
            (FramePhase::Idle, FrameEvent::Begin) => {
                self.phase = FramePhase::WaitingSlot;
                FrameAction::WaitForFence { slot: self.frame_index }
            },
            (FramePhase::WaitingSlot, FrameEvent::FenceSignaled) => {
                self.sync_objects.fence_signaled(self.frame_index);
                self.phase = FramePhase::Acquiring;
                FrameAction::AcquireImage { slot: self.frame_index }
            },
            (FramePhase::Acquiring, FrameEvent::ImageAcquired { image_index, suboptimal }) => {
                if image_index as usize >= self.sync_objects.images_in_flight.len() {
                    self.halt()
                } else {
                    if suboptimal {
                        self.recreate_pending = true;
                    }
                    match self.sync_objects.last_writer(image_index as usize) {
                        Some(writer) => {
                            if self.sync_objects.in_flight[writer] {
                                self.phase = FramePhase::WaitingImage { image: image_index, writer };
                                FrameAction::WaitForFence { slot: writer }
                            } else {
                                self.start_recording(image_index)
                            }
                        },
                        None => self.start_recording(image_index),
                    }
                }
            },
            (FramePhase::Acquiring, FrameEvent::OutOfDate) => {
                self.phase = FramePhase::Idle;
                self.recreate_pending = false;
                FrameAction::FrameDone { recreate: true }
            },
            (FramePhase::WaitingImage { image, writer }, FrameEvent::FenceSignaled) => {
                self.sync_objects.fence_signaled(writer);
                self.start_recording(image)
            },
            (FramePhase::Recording { image }, FrameEvent::Recorded) => {
                self.sync_objects.submitted(self.frame_index);
                self.phase = FramePhase::Submitting { image };
                FrameAction::Submit { slot: self.frame_index }
            },
            (FramePhase::Submitting { image }, FrameEvent::Submitted) => {
                self.phase = FramePhase::Presenting { image };
                FrameAction::Present { slot: self.frame_index, image }
            },
            (FramePhase::Presenting { .. }, FrameEvent::Presented { suboptimal }) => {
                self.finish_frame(suboptimal)
            },
            (FramePhase::Presenting { .. }, FrameEvent::OutOfDate) => self.finish_frame(true),
            _ => self.halt(),
        };
        proof {
            lemma_frames_outstanding_bounded(*self);
        }
        r
    }

    /// After the device went idle and the swapchain was rebuilt with
    /// `swapchain_image_count` images: nothing is in flight and no image has
    /// a writer. Only between frames.
    pub fn swapchain_recreated(&mut self, swapchain_image_count: usize) -> (r: bool)
        requires
            old(self).wf(),
        ensures
            final(self).wf(),
            r == (old(self).phase == FramePhase::Idle),
            r ==> {
                &&& final(self).frames_in_flight() == 0
                &&& final(self).sync_objects.in_flight@ == Seq::new(
                    MAX_FRAMES_IN_FLIGHT as nat,
                    |i: int| false,
                )
                &&& final(self).sync_objects.images_in_flight@ == Seq::new(
                    swapchain_image_count as nat,
                    |i: int| None::<usize>,
                )
                &&& final(self).recreate_pending == old(self).recreate_pending
                &&& final(self).frame_index == old(self).frame_index
                &&& final(self).phase == FramePhase::Idle
            },
            !r ==> *final(self) == *old(self),
    {
        if self.phase != FramePhase::Idle {
            return false;
        }
        self.sync_objects.device_idle(swapchain_image_count);
        true
    }
}

/// However the frame loop runs, no more frames are recorded ahead of the GPU
/// than there are frame slots: each slot holds at most one frame, and the
/// frame being recorded holds a slot whose fence was seen signaled.
pub proof fn lemma_frames_outstanding_bounded(r: Renderer)
    requires
        r.wf(),
    ensures
        r.frames_outstanding() <= MAX_FRAMES_IN_FLIGHT,
{
    if r.phase is Recording {
        crate::sync_objects::lemma_count_set_lt(r.sync_objects.in_flight@, r.frame_index as int);
    } else {
        crate::sync_objects::lemma_count_set_le(r.sync_objects.in_flight@);
    }
}

} // verus!
