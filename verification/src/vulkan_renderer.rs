//! The swapchain manager of one window and its per-frame pipeline.
//!
//! The manager never touches the graphics driver. It is told what happened
//! (`FrameEvent`) and answers with what has to be done next (`FrameAction`);
//! whoever owns the driver objects carries the action out and reports back.
//! One frame is one run of that exchange, from `FrameEvent::Requested` to an
//! action that ends the frame.

use vstd::prelude::*;
use crate::bridge::{spec_surface_for_framebuffer, surface_for_framebuffer, BridgeError, RenderTarget};
use crate::geometry::Extent;
use crate::swapchain::{build_targets, spec_targets, DrawTarget, SwapchainConfig, MIN_IMAGES};

verus! {

/// Where a window's swapchain stands.
#[derive(Clone, Copy, Debug, PartialEq, Eq, Structural)]
pub enum SwapchainState {
    /// No swapchain has been made for the window yet.
    Uninitialized,
    /// The swapchain can be drawn to.
    Valid,
    /// The swapchain must be recreated before the next frame.
    Invalid,
    /// The window is closed and its resources are released.
    Destroyed,
}

/// How far the current frame has come.
#[derive(Clone, Copy, Debug, PartialEq, Eq, Structural)]
pub enum FramePhase {
    /// No frame is in progress.
    Idle,
    /// A swapchain made from `config` was asked for; `retried` tells whether
    /// this frame has already seen a stale acquisition.
    Recreating { retried: bool, config: SwapchainConfig },
    /// An image was asked for.
    Acquiring { retried: bool },
    /// Frame number `frame` is being drawn and submitted.
    Painting { frame: u64 },
}

/// What the owner of the driver objects reports.
#[derive(Clone, Debug, PartialEq, Eq)]
pub enum FrameEvent {
    /// A redraw of the window is wanted.
    Requested,
    /// The swapchain asked for exists; these are the handles of its images.
    Recreated { images: Vec<u64> },
    /// An image is ready to be drawn to.
    Acquired { image_index: u32, suboptimal: bool },
    /// The presentation engine refused to hand out an image: the swapchain
    /// no longer fits the surface.
    OutOfDate,
    /// The frame's work was submitted and its presentation queued.
    Presented,
    /// Submitting the frame's work failed.
    SubmitFailed,
}

/// Why a frame ended without being presented.
#[derive(Clone, Copy, Debug, PartialEq, Eq, Structural)]
pub enum SkipReason {
    /// No swapchain exists yet.
    Uninitialized,
    /// The window is closed.
    Destroyed,
    /// The window covers no pixel.
    ZeroSize,
    /// The swapchain was stale and the one retry of this frame is used up,
    /// or the window lost its size meanwhile.
    Stale,
    /// The new swapchain has fewer images than it was asked for.
    TooFewImages,
    /// The frame's work could not be submitted.
    SubmitFailed,
    /// Every frame number has been given out.
    Exhausted,
}

/// What has to be done next.
#[derive(Clone, Copy, Debug, PartialEq, Eq, Structural)]
pub enum FrameAction {
    /// Replace the swapchain by one made from `config`, then report
    /// `FrameEvent::Recreated`. The old swapchain and its targets are to be
    /// kept until frame `retire_after` has run to its end, if there is one:
    /// its work may still draw to them.
    Recreate { config: SwapchainConfig, retire_after: Option<u64> },
    /// Acquire the next image, then report `Acquired` or `OutOfDate`.
    Acquire,
    /// Wrap `target`, let the caller paint, flush, and submit the work so
    /// that it follows the acquisition and frame `after`, then queue the
    /// presentation of image `image_index`; report `Presented` or
    /// `SubmitFailed`.
    Paint { target: RenderTarget, image_index: u32, frame: u64, after: Option<u64> },
    /// The frame with this number is on its way to the display.
    Presented(u64),
    /// The frame is given up; a later request tries again.
    Skipped(SkipReason),
    /// The frame cannot be drawn at all.
    Fatal(BridgeError),
    /// The event answers no action that is outstanding; nothing changed.
    Ignored,
}

impl FrameAction {
    /// The action ends the frame.
    pub open spec fn ends_frame(self) -> bool {
        self is Presented || self is Skipped || self is Fatal
    }
}

/// A swapchain with `n` images can be drawn to when it has at least two and
/// at least as many as were asked for.
pub open spec fn enough_images(config: SwapchainConfig, n: nat) -> bool {
    n >= MIN_IMAGES && n >= config.min_image_count
}

/// The manager as contracts see it.
#[verifier::ext_equal]
pub struct RendererModel {
    /// Configuration of the current swapchain.
    pub config: SwapchainConfig,
    /// The drawing targets, one per image of the current swapchain.
    pub targets: Seq<DrawTarget>,
    pub state: SwapchainState,
    pub phase: FramePhase,
    /// Number of the last frame that reached the painting phase.
    pub last_frame: u64,
    /// Number of the most recent frame whose work was submitted and may
    /// still be running; at most one is tracked.
    pub in_flight: Option<u64>,
}

/// A model and the action that came with it.
pub struct Step {
    pub next: RendererModel,
    pub action: FrameAction,
}

impl RendererModel {
    /// The manager of a window whose first swapchain was made from `config`
    /// and has the images `images`.
    pub open spec fn new(config: SwapchainConfig, images: Seq<u64>) -> RendererModel {
        RendererModel {
            config,
            targets: spec_targets(config, images),
            state: if enough_images(config, images.len()) {
                SwapchainState::Valid
            } else {
                SwapchainState::Invalid
            },
            phase: FramePhase::Idle,
            last_frame: 0,
            in_flight: None,
        }
    }

    /// What every manager satisfies, whatever it was told.
    pub open spec fn wf(self) -> bool {
        &&& self.state !is Uninitialized
        &&& forall|i: int|
            0 <= i < self.targets.len() ==> {
                &&& (#[trigger] self.targets[i]).extent == self.config.extent
                &&& self.targets[i].format == self.config.format
            }
        &&& self.state is Valid ==> enough_images(self.config, self.targets.len())
        &&& self.state is Destroyed ==> self.phase is Idle && self.targets.len() == 0
            && self.in_flight is None
        &&& self.in_flight matches Some(f) ==> 1 <= f <= self.last_frame
        &&& self.phase matches FramePhase::Painting { frame } ==> frame == self.last_frame && frame
            >= 1
        &&& self.phase is Recreating || self.phase is Acquiring ==> self.last_frame < u64::MAX
        &&& self.phase matches FramePhase::Recreating { config, .. } ==> !config.extent.is_empty()
            && config == self.config.resized(config.extent)
        &&& self.phase is Acquiring && self.state is Valid ==> !self.config.extent.is_empty()
    }

    /// The swapchain has to be replaced before a frame can be drawn for a
    /// window of size `window`: the window covers some pixel, and the
    /// swapchain is not valid or has another size.
    pub open spec fn needs_recreation(self, window: Extent) -> bool {
        &&& !window.is_empty()
        &&& self.state !is Destroyed
        &&& (self.state !is Valid || self.config.extent != window)
    }

    /// The manager after a resize notification.
    pub open spec fn invalidated(self) -> RendererModel {
        if self.state is Destroyed {
            self
        } else {
            RendererModel { state: SwapchainState::Invalid, ..self }
        }
    }

    /// The manager after its window was closed.
    pub open spec fn destroyed(self) -> RendererModel {
        RendererModel {
            targets: Seq::empty(),
            state: SwapchainState::Destroyed,
            phase: FramePhase::Idle,
            in_flight: None,
            ..self
        }
    }

    /// A frame was requested while none was in progress.
    pub open spec fn on_requested(self, window: Extent) -> Step {
        if self.state is Destroyed {
            Step { next: self, action: FrameAction::Skipped(SkipReason::Destroyed) }
        } else if window.is_empty() {
            Step { next: self, action: FrameAction::Skipped(SkipReason::ZeroSize) }
        } else if self.last_frame == u64::MAX {
            Step { next: self, action: FrameAction::Skipped(SkipReason::Exhausted) }
        } else if self.needs_recreation(window) {
            let config = self.config.resized(window);
            Step {
                next: RendererModel {
                    phase: FramePhase::Recreating { retried: false, config },
                    ..self
                },
                action: FrameAction::Recreate { config, retire_after: self.in_flight },
            }
        } else {
            Step {
                next: RendererModel { phase: FramePhase::Acquiring { retried: false }, ..self },
                action: FrameAction::Acquire,
            }
        }
    }

    /// The swapchain asked for during this frame exists.
    pub open spec fn on_recreated(self, retried: bool, config: SwapchainConfig, images: Seq<u64>) -> Step {
        let targets = spec_targets(config, images);
        if enough_images(config, images.len()) {
            Step {
                next: RendererModel {
                    config,
                    targets,
                    state: SwapchainState::Valid,
                    phase: FramePhase::Acquiring { retried },
                    ..self
                },
                action: FrameAction::Acquire,
            }
        } else {
            Step {
                next: RendererModel {
                    config,
                    targets,
                    state: SwapchainState::Invalid,
                    phase: FramePhase::Idle,
                    ..self
                },
                action: FrameAction::Skipped(SkipReason::TooFewImages),
            }
        }
    }

    /// The acquisition of this frame found the swapchain stale: recreate and
    /// try once more, unless that was done already or the window has no size.
    pub open spec fn on_stale(self, retried: bool, window: Extent) -> Step {
        if retried || window.is_empty() {
            Step {
                next: RendererModel {
                    state: SwapchainState::Invalid,
                    phase: FramePhase::Idle,
                    ..self
                },
                action: FrameAction::Skipped(SkipReason::Stale),
            }
        } else {
            let config = self.config.resized(window);
            Step {
                next: RendererModel {
                    state: SwapchainState::Invalid,
                    phase: FramePhase::Recreating { retried: true, config },
                    ..self
                },
                action: FrameAction::Recreate { config, retire_after: self.in_flight },
            }
        }
    }

    /// An acquired image can be drawn to: the swapchain is valid, fits the
    /// window, was not reported suboptimal, and has such an image.
    pub open spec fn usable_image(self, image_index: u32, suboptimal: bool, window: Extent) -> bool {
        &&& !suboptimal
        &&& self.state is Valid
        &&& self.config.extent == window
        &&& image_index < self.targets.len()
    }

    /// An image was acquired for this frame.
    pub open spec fn on_acquired(
        self,
        retried: bool,
        image_index: u32,
        suboptimal: bool,
        window: Extent,
    ) -> Step {
        if !self.usable_image(image_index, suboptimal, window) {
            self.on_stale(retried, window)
        } else if self.last_frame == u64::MAX {
            Step {
                next: RendererModel { phase: FramePhase::Idle, ..self },
                action: FrameAction::Skipped(SkipReason::Exhausted),
            }
        } else {
            match spec_surface_for_framebuffer(self.targets[image_index as int]) {
                Err(error) => Step {
                    next: RendererModel { phase: FramePhase::Idle, ..self },
                    action: FrameAction::Fatal(error),
                },
                Ok(target) => {
                    let frame = (self.last_frame + 1) as u64;
                    Step {
                        next: RendererModel {
                            phase: FramePhase::Painting { frame },
                            last_frame: frame,
                            ..self
                        },
                        action: FrameAction::Paint {
                            target,
                            image_index,
                            frame,
                            after: self.in_flight,
                        },
                    }
                },
            }
        }
    }

    /// The frame being painted was submitted, or could not be.
    pub open spec fn on_submitted(self, frame: u64, ok: bool) -> Step {
        if ok {
            Step {
                next: RendererModel { phase: FramePhase::Idle, in_flight: Some(frame), ..self },
                action: FrameAction::Presented(frame),
            }
        } else {
            Step {
                next: RendererModel {
                    state: SwapchainState::Invalid,
                    phase: FramePhase::Idle,
                    in_flight: None,
                    ..self
                },
                action: FrameAction::Skipped(SkipReason::SubmitFailed),
            }
        }
    }

    /// The manager's answer to `event`, when the window has the size
    /// `window` at that moment.
    pub open spec fn step(self, event: FrameEvent, window: Extent) -> Step {
        match (self.phase, event) {
            (FramePhase::Idle, FrameEvent::Requested) => self.on_requested(window),
            (FramePhase::Recreating { retried, config }, FrameEvent::Recreated { images }) => {
                self.on_recreated(retried, config, images@)
            },
            (FramePhase::Acquiring { retried }, FrameEvent::OutOfDate) => self.on_stale(
                retried,
                window,
            ),
            (
                FramePhase::Acquiring { retried },
                FrameEvent::Acquired { image_index, suboptimal },
            ) => self.on_acquired(retried, image_index, suboptimal, window),
            (FramePhase::Painting { frame }, FrameEvent::Presented) => self.on_submitted(
                frame,
                true,
            ),
            (FramePhase::Painting { frame }, FrameEvent::SubmitFailed) => self.on_submitted(
                frame,
                false,
            ),
            _ => Step { next: self, action: FrameAction::Ignored },
        }
    }
}

/// The swapchain manager of one window.
pub struct VulkanRenderer {
    config: SwapchainConfig,
    targets: Vec<DrawTarget>,
    state: SwapchainState,
    phase: FramePhase,
    last_frame: u64,
    in_flight: Option<u64>,
}

impl View for VulkanRenderer {
    type V = RendererModel;

    closed spec fn view(&self) -> RendererModel {
        RendererModel {
            config: self.config,
            targets: self.targets@,
            state: self.state,
            phase: self.phase,
            last_frame: self.last_frame,
            in_flight: self.in_flight,
        }
    }
}

impl VulkanRenderer {
    /// The manager of a window whose first swapchain was made from `config`
    /// and came with the images `images`. It starts valid, with one drawing
    /// target per image; with too few images it starts invalid.
    pub fn new(config: SwapchainConfig, images: &Vec<u64>) -> (res: VulkanRenderer)
        ensures
            res@ == RendererModel::new(config, images@),
            res@.wf(),
    {
        let targets = build_targets(config, images);
        let state = if has_enough_images(config, images.len()) {
            SwapchainState::Valid
        } else {
            SwapchainState::Invalid
        };
        VulkanRenderer {
            config,
            targets,
            state,
            phase: FramePhase::Idle,
            last_frame: 0,
            in_flight: None,
        }
    }

    /// Where the swapchain stands.
    pub fn state(&self) -> (res: SwapchainState)
        ensures
            res == self@.state,
    {
        self.state
    }

    /// How far the current frame has come.
    pub fn phase(&self) -> (res: FramePhase)
        ensures
            res == self@.phase,
    {
        self.phase
    }

    /// The configuration of the current swapchain.
    pub fn config(&self) -> (res: SwapchainConfig)
        ensures
            res == self@.config,
    {
        self.config
    }

    /// The drawing targets, one per image of the current swapchain.
    pub fn targets(&self) -> (res: &Vec<DrawTarget>)
        ensures
            res@ == self@.targets,
    {
        &self.targets
    }

    /// The number of the last frame that reached the painting phase.
    pub fn last_frame(&self) -> (res: u64)
        ensures
            res == self@.last_frame,
    {
        self.last_frame
    }

    /// The number of the frame in flight, if one is tracked.
    pub fn in_flight(&self) -> (res: Option<u64>)
        ensures
            res == self@.in_flight,
    {
        self.in_flight
    }

    /// Marks the swapchain as in need of recreation, as after a resize of
    /// the window. A closed window stays closed.
    pub fn invalidate_swapchain(&mut self)
        ensures
            final(self)@ == old(self)@.invalidated(),
            old(self)@.wf() ==> final(self)@.wf(),
    {
        match self.state {
            SwapchainState::Destroyed => {},
            _ => {
                self.state = SwapchainState::Invalid;
            },
        }
    }

    /// Tells whether the swapchain has to be replaced before a frame for a
    /// window of size `window`, and by what: the same configuration at the
    /// window's size. Nothing is to be done for a window without size, nor
    /// for a valid swapchain of the window's size.
    pub fn prepare_swapchain(&self, window: Extent) -> (res: Option<SwapchainConfig>)
        ensures
            res == if self@.needs_recreation(window) {
                Some(self@.config.resized(window))
            } else {
                None
            },
    {
        if window.is_empty() {
            return None;
        }
        match self.state {
            SwapchainState::Destroyed => None,
            SwapchainState::Valid => {
                if self.config.extent == window {
                    None
                } else {
                    Some(self.config.resized(window))
                }
            },
            _ => Some(self.config.resized(window)),
        }
    }

    /// Releases the manager's resources when its window closes. From then on
    /// every frame request is skipped.
    pub fn destroy(&mut self)
        ensures
            final(self)@ == old(self)@.destroyed(),
            old(self)@.wf() ==> final(self)@.wf(),
    {
        self.targets = Vec::new();
        self.state = SwapchainState::Destroyed;
        self.phase = FramePhase::Idle;
        self.in_flight = None;
    }

    /// Takes one event of the frame pipeline and says what to do next.
    ///
    /// A frame starts with `Requested`. A window without size gets no frame.
    /// A swapchain that is invalid or of another size than the window is
    /// recreated first. A stale acquisition is answered by one recreation
    /// and one more acquisition; a second one ends the frame. A failed
    /// submission invalidates the swapchain and ends the frame. An event
    /// that no outstanding action asked for is ignored.
    pub fn draw_and_present(&mut self, event: FrameEvent, window: Extent) -> (action: FrameAction)
        ensures
            final(self)@ == old(self)@.step(event, window).next,
            action == old(self)@.step(event, window).action,
            old(self)@.wf() ==> final(self)@.wf(),
    {
        match self.phase {
            FramePhase::Idle => match event {
                FrameEvent::Requested => self.start_frame(window),
                _ => FrameAction::Ignored,
            },
            FramePhase::Recreating { retried, config } => match event {
                FrameEvent::Recreated { images } => self.swapchain_recreated(
                    retried,
                    config,
                    &images,
                ),
                _ => FrameAction::Ignored,
            },
            FramePhase::Acquiring { retried } => match event {
                FrameEvent::OutOfDate => self.retry_or_skip(retried, window),
                FrameEvent::Acquired { image_index, suboptimal } => self.get_next_frame(
                    retried,
                    image_index,
                    suboptimal,
                    window,
                ),
                _ => FrameAction::Ignored,
            },
            FramePhase::Painting { frame } => match event {
                FrameEvent::Presented => {
                    self.phase = FramePhase::Idle;
                    self.in_flight = Some(frame);
                    FrameAction::Presented(frame)
                },
                FrameEvent::SubmitFailed => {
                    self.state = SwapchainState::Invalid;
                    self.phase = FramePhase::Idle;
                    self.in_flight = None;
                    FrameAction::Skipped(SkipReason::SubmitFailed)
                },
                _ => FrameAction::Ignored,
            },
        }
    }

    fn start_frame(&mut self, window: Extent) -> (action: FrameAction)
        ensures
            final(self)@ == old(self)@.on_requested(window).next,
            action == old(self)@.on_requested(window).action,
    {
        if let SwapchainState::Destroyed = self.state {
            return FrameAction::Skipped(SkipReason::Destroyed);
        }
        if window.is_empty() {
            return FrameAction::Skipped(SkipReason::ZeroSize);
        }
        if self.last_frame == u64::MAX {
            return FrameAction::Skipped(SkipReason::Exhausted);
        }
        match self.prepare_swapchain(window) {
            Some(config) => {
                self.phase = FramePhase::Recreating { retried: false, config };
                FrameAction::Recreate { config, retire_after: self.in_flight }
            },
            None => {
                self.phase = FramePhase::Acquiring { retried: false };
                FrameAction::Acquire
            },
        }
    }

    fn swapchain_recreated(&mut self, retried: bool, config: SwapchainConfig, images: &Vec<u64>) -> (action:
        FrameAction)
        ensures
            final(self)@ == old(self)@.on_recreated(retried, config, images@).next,
            action == old(self)@.on_recreated(retried, config, images@).action,
    {
        self.config = config;
        self.targets = build_targets(config, images);
        if has_enough_images(config, images.len()) {
            self.state = SwapchainState::Valid;
            self.phase = FramePhase::Acquiring { retried };
            FrameAction::Acquire
        } else {
            self.state = SwapchainState::Invalid;
            self.phase = FramePhase::Idle;
            FrameAction::Skipped(SkipReason::TooFewImages)
        }
    }

    fn retry_or_skip(&mut self, retried: bool, window: Extent) -> (action: FrameAction)
        ensures
            final(self)@ == old(self)@.on_stale(retried, window).next,
            action == old(self)@.on_stale(retried, window).action,
    {
        self.state = SwapchainState::Invalid;
        if retried || window.is_empty() {
            self.phase = FramePhase::Idle;
            FrameAction::Skipped(SkipReason::Stale)
        } else {
            let config = self.config.resized(window);
            self.phase = FramePhase::Recreating { retried: true, config };
            FrameAction::Recreate { config, retire_after: self.in_flight }
        }
    }

    fn get_next_frame(&mut self, retried: bool, image_index: u32, suboptimal: bool, window: Extent) -> (action:
        FrameAction)
        ensures
            final(self)@ == old(self)@.on_acquired(retried, image_index, suboptimal, window).next,
            action == old(self)@.on_acquired(retried, image_index, suboptimal, window).action,
    {
        let valid = match self.state {
            SwapchainState::Valid => true,
            _ => false,
        };
        if suboptimal || !valid || self.config.extent != window || image_index as usize
            >= self.targets.len() {
            return self.retry_or_skip(retried, window);
        }
        if self.last_frame == u64::MAX {
            self.phase = FramePhase::Idle;
            return FrameAction::Skipped(SkipReason::Exhausted);
        }
        match surface_for_framebuffer(self.targets[image_index as usize]) {
            Err(error) => {
                self.phase = FramePhase::Idle;
                FrameAction::Fatal(error)
            },
            Ok(target) => {
                let frame = self.last_frame + 1;
                self.phase = FramePhase::Painting { frame };
                self.last_frame = frame;
                FrameAction::Paint { target, image_index, frame, after: self.in_flight }
            },
        }
    }
}

/// Tells whether a swapchain with `n` images can be drawn to.
fn has_enough_images(config: SwapchainConfig, n: usize) -> (res: bool)
    ensures
        res == enough_images(config, n as nat),
{
    n >= MIN_IMAGES as usize && n >= config.min_image_count as usize
}

} // verus!
