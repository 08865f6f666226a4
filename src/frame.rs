//! Frame pacing: frame slots, swapchain images, and which fence guards which image.
//!
//! A frame slot is one of `frames_in_flight` sets of {image-available semaphore,
//! render-finished semaphore, completion fence}. Slots are used round-robin. Each
//! swapchain image remembers the slot whose fence last covered work on it, so that an
//! image handed out again before that work retired is waited on first.
use vstd::arithmetic::div_mod::{lemma_add_mod_noop_right, lemma_mod_add_multiples_vanish, lemma_small_mod};
use vstd::prelude::*;

use crate::error::EngineError;

verus! {

/// Result code with which acquiring reports an out-of-date swapchain.
pub const ERROR_OUT_OF_DATE: i32 = -1000001004;

/// Mathematical model of [`FrameState`].
pub struct FrameModel {
    /// The slot whose fence and semaphores the next frame uses.
    pub current_frame: nat,
    /// Number of frame slots.
    pub frames_in_flight: nat,
    /// For each swapchain image, the slot whose fence last covered work on it.
    pub images_in_flight: Seq<Option<usize>>,
    /// The image acquired most recently.
    pub image_index: nat,
}

impl FrameModel {
    /// The state is usable: at least one slot, the current slot exists, every
    /// recorded slot exists, and image indices fit a `u32`.
    pub open spec fn wf(self) -> bool {
        &&& 0 < self.frames_in_flight <= usize::MAX
        &&& self.current_frame < self.frames_in_flight
        &&& self.images_in_flight.len() <= u32::MAX
        &&& forall|i: int|
            0 <= i < self.images_in_flight.len() ==> match #[trigger] self.images_in_flight[i] {
                Some(s) => (s as nat) < self.frames_in_flight,
                None => true,
            }
    }

    /// The slot whose fence must be waited on, besides the current slot's, before
    /// `image` can be rendered into again: the slot that last covered it, when that
    /// is not the current slot.
    pub open spec fn wait_for(self, image: nat) -> Option<usize> {
        match self.images_in_flight[image as int] {
            Some(s) => if s as nat != self.current_frame {
                Some(s)
            } else {
                None
            },
            None => None,
        }
    }

    /// `image` was acquired: the current slot's fence now covers it.
    pub open spec fn bind(self, image: nat) -> FrameModel {
        FrameModel {
            images_in_flight: self.images_in_flight.update(image as int, Some(self.current_frame as usize)),
            image_index: image,
            ..self
        }
    }

    /// The frame was presented: the next slot becomes current.
    pub open spec fn advance(self) -> FrameModel {
        FrameModel { current_frame: (self.current_frame + 1) % self.frames_in_flight, ..self }
    }

    /// One successful frame that rendered into `image`.
    pub open spec fn tick(self, image: nat) -> FrameModel {
        self.bind(image).advance()
    }

    /// Successful frames, one for each image of `images`, in order.
    pub open spec fn run(self, images: Seq<nat>) -> FrameModel
        decreases images.len(),
    {
        if images.len() == 0 {
            self
        } else {
            self.tick(images[0]).run(images.drop_first())
        }
    }

    /// Every image is covered by no slot or by the slot of its own index.
    pub open spec fn slots_match_images(self) -> bool {
        forall|i: int|
            0 <= i < self.images_in_flight.len() ==> match #[trigger] self.images_in_flight[i] {
                Some(s) => s as int == i,
                None => true,
            }
    }
}

/// What the driver does for the image it acquired.
#[derive(Debug, Clone, Copy, PartialEq, Eq, Structural)]
pub struct FrameAction {
    /// The acquired image; it also selects the uniform buffer and the command buffer.
    pub image_index: u32,
    /// The slot whose semaphores signal and whose fence covers this frame.
    pub frame_slot: usize,
    /// A further slot whose fence must be waited on before the image is reused.
    pub wait_slot: Option<usize>,
}

/// The frame loop's state: the current slot and, per swapchain image, the slot
/// whose fence last covered it.
pub struct FrameState {
    swapchain_image_index: u32,
    current_frame: usize,
    frames_in_flight: usize,
    images_in_flight: Vec<Option<usize>>,
}

impl View for FrameState {
    type V = FrameModel;

    closed spec fn view(&self) -> FrameModel {
        FrameModel {
            current_frame: self.current_frame as nat,
            frames_in_flight: self.frames_in_flight as nat,
            images_in_flight: self.images_in_flight@,
            image_index: self.swapchain_image_index as nat,
        }
    }
}

impl FrameState {
    /// The state before the first frame: slot 0 is current and no image is covered.
    pub fn default(num_swapchain_images: u32, frames_in_flight: u32) -> (s: FrameState)
        requires
            frames_in_flight > 0,
        ensures
            s@.wf(),
            s@.current_frame == 0,
            s@.frames_in_flight == frames_in_flight,
            s@.image_index == 0,
            s@.images_in_flight =~= Seq::new(num_swapchain_images as nat, |i: int| None::<usize>),
    {
        let mut images_in_flight: Vec<Option<usize>> = Vec::new();
        let mut i: u32 = 0;
        while i < num_swapchain_images
            invariant
                i <= num_swapchain_images,
                images_in_flight@ =~= Seq::new(i as nat, |k: int| None::<usize>),
            decreases num_swapchain_images - i,
        {
            images_in_flight.push(None);
            i = i + 1;
        }
        FrameState {
            swapchain_image_index: 0,
            current_frame: 0,
            frames_in_flight: frames_in_flight as usize,
            images_in_flight,
        }
    }

    /// The slot whose fence must be waited on and whose image-available semaphore
    /// is signalled by the next acquisition.
    pub fn current_frame(&self) -> (r: usize)
        ensures
            r == self@.current_frame,
    {
        self.current_frame
    }

    /// Number of frame slots.
    pub fn frames_in_flight(&self) -> (r: usize)
        ensures
            r == self@.frames_in_flight,
    {
        self.frames_in_flight
    }

    /// The image acquired most recently.
    pub fn swapchain_image_index(&self) -> (r: u32)
        ensures
            r == self@.image_index,
    {
        self.swapchain_image_index
    }

    /// Number of swapchain images that the state tracks.
    pub fn image_count(&self) -> (r: usize)
        ensures
            r == self@.images_in_flight.len(),
    {
        self.images_in_flight.len()
    }

    /// The slot whose fence last covered `image`, if any.
    pub fn image_in_flight(&self, image: usize) -> (r: Option<usize>)
        requires
            image < self@.images_in_flight.len(),
        ensures
            r == self@.images_in_flight[image as int],
    {
        self.images_in_flight[image]
    }

    /// Records that `image_index` was acquired for the current slot and says what
    /// the driver must do with it. An index the state does not track is refused and
    /// leaves the state as it was.
    pub fn acquire_image(&mut self, image_index: u32) -> (r: Result<FrameAction, EngineError>)
        requires
            old(self)@.wf(),
        ensures
            final(self)@.wf(),
            (image_index as nat) < old(self)@.images_in_flight.len() ==> {
                &&& r == Ok::<FrameAction, EngineError>(
                    FrameAction {
                        image_index,
                        frame_slot: old(self)@.current_frame as usize,
                        wait_slot: old(self)@.wait_for(image_index as nat),
                    },
                )
                &&& final(self)@ == old(self)@.bind(image_index as nat)
            },
            (image_index as nat) >= old(self)@.images_in_flight.len() ==> {
                &&& r == Err::<FrameAction, EngineError>(EngineError::ImageIndexOutOfRange)
                &&& final(self)@ == old(self)@
            },
    {
        let idx = image_index as usize;
        if idx >= self.images_in_flight.len() {
            return Err(EngineError::ImageIndexOutOfRange);
        }
        let wait_slot = match self.images_in_flight[idx] {
            Some(s) => if s != self.current_frame {
                Some(s)
            } else {
                None
            },
            None => None,
        };
        let slot = self.current_frame;
        self.images_in_flight.set(idx, Some(slot));
        self.swapchain_image_index = image_index;
        let action = FrameAction { image_index, frame_slot: slot, wait_slot };
        proof {
            assert(self@.images_in_flight =~= old(self)@.bind(image_index as nat).images_in_flight);
        }
        Ok(action)
    }

    /// Takes the outcome of presenting the acquired image. A suboptimal swapchain is
    /// reported as invalid and the current slot stays; otherwise the next slot
    /// becomes current.
    pub fn frame_presented(&mut self, suboptimal: bool) -> (r: Result<(), EngineError>)
        requires
            old(self)@.wf(),
        ensures
            final(self)@.wf(),
            suboptimal ==> r == Err::<(), EngineError>(EngineError::SwapchainInvalid)
                && final(self)@ == old(self)@,
            !suboptimal ==> r == Ok::<(), EngineError>(()) && final(self)@ == old(self)@.advance(),
    {
        if suboptimal {
            return Err(EngineError::SwapchainInvalid);
        }
        self.current_frame = (self.current_frame + 1) % self.frames_in_flight;
        Ok(())
    }
}

/// The error for a failed acquisition with the device's result `code`.
pub fn acquire_error(code: i32) -> (r: EngineError)
    ensures
        code == ERROR_OUT_OF_DATE ==> r == EngineError::SwapchainOutOfDate,
        code != ERROR_OUT_OF_DATE ==> r == EngineError::AcquireFailed(code),
{
    if code == ERROR_OUT_OF_DATE {
        EngineError::SwapchainOutOfDate
    } else {
        EngineError::AcquireFailed(code)
    }
}

/// After `k` successful frames the current slot has moved on by `k`, round-robin.
proof fn lemma_run_moves_slot(s: FrameModel, images: Seq<nat>)
    requires
        s.wf(),
        forall|k: int| 0 <= k < images.len() ==> #[trigger] images[k] < s.images_in_flight.len(),
    ensures
        s.run(images).wf(),
        s.run(images).frames_in_flight == s.frames_in_flight,
        s.run(images).images_in_flight.len() == s.images_in_flight.len(),
        s.run(images).current_frame as int == (s.current_frame + images.len()) as int % (s.frames_in_flight as int),
    decreases images.len(),
{
    let n = s.frames_in_flight as int;
    if images.len() == 0 {
        lemma_small_mod(s.current_frame, s.frames_in_flight);
    } else {
        let t = s.tick(images[0]);
        let rest = images.drop_first();
        lemma_tick_wf(s, images[0]);
        assert forall|k: int| 0 <= k < rest.len() implies #[trigger] rest[k] < t.images_in_flight.len() by {
            assert(rest[k] == images[k + 1]);
        }
        lemma_run_moves_slot(t, rest);
        lemma_add_mod_noop_right(rest.len() as int, s.current_frame as int + 1, n);
    }
}

/// A successful frame keeps the state usable.
pub proof fn lemma_tick_wf(s: FrameModel, image: nat)
    requires
        s.wf(),
        image < s.images_in_flight.len(),
    ensures
        s.tick(image).wf(),
        s.tick(image).frames_in_flight == s.frames_in_flight,
        s.tick(image).images_in_flight.len() == s.images_in_flight.len(),
{
    let t = s.tick(image);
    assert forall|i: int| 0 <= i < t.images_in_flight.len() implies match #[trigger] t.images_in_flight[i] {
        Some(f) => (f as nat) < t.frames_in_flight,
        None => true,
    } by {
        if i != image as int {
            assert(t.images_in_flight[i] == s.images_in_flight[i]);
        }
    }
}

/// Frame-slot rotation: after exactly `frames_in_flight` successful frames, whichever
/// images they rendered into, the slot that was current is current again.
pub proof fn lemma_slot_rotation(s: FrameModel, images: Seq<nat>)
    requires
        s.wf(),
        images.len() == s.frames_in_flight,
        forall|k: int| 0 <= k < images.len() ==> #[trigger] images[k] < s.images_in_flight.len(),
    ensures
        s.run(images).current_frame == s.current_frame,
{
    lemma_run_moves_slot(s, images);
    lemma_mod_add_multiples_vanish(s.current_frame as int, s.frames_in_flight as int);
    lemma_small_mod(s.current_frame, s.frames_in_flight);
}

/// With as many swapchain images as slots, handed out in step with the slots, each
/// image stays covered by its own slot alone: no image ever waits on the fence of
/// another slot, and the pairing survives the frame.
pub proof fn lemma_one_image_per_slot(s: FrameModel)
    requires
        s.wf(),
        s.images_in_flight.len() == s.frames_in_flight,
        s.slots_match_images(),
    ensures
        s.wait_for(s.current_frame) == None::<usize>,
        s.tick(s.current_frame).slots_match_images(),
{
    let t = s.tick(s.current_frame);
    assert(s.images_in_flight[s.current_frame as int] matches Some(f) ==> f as int == s.current_frame);
    assert forall|i: int| 0 <= i < t.images_in_flight.len() implies match #[trigger] t.images_in_flight[i] {
        Some(f) => f as int == i,
        None => true,
    } by {
        if i != s.current_frame as int {
            assert(t.images_in_flight[i] == s.images_in_flight[i]);
        }
    }
}

/// No frame renders into an image whose earlier work may still be pending: the slot
/// that last covered the image is either the current slot, whose fence is waited on
/// before acquiring, or the slot that the acquisition asks to wait on.
pub proof fn lemma_reused_image_is_waited_on(s: FrameModel, image: nat)
    requires
        s.wf(),
        image < s.images_in_flight.len(),
    ensures
        s.images_in_flight[image as int] matches Some(f) ==> (f as nat == s.current_frame
            || s.wait_for(image) == Some(f)),
        s.wait_for(image) matches Some(f) ==> (f as nat) < s.frames_in_flight && f as nat != s.current_frame,
{
}

} // verus!
