//! What holds of the swapchain manager on every input: its invariant, and the
//! guarantees of the frame pipeline that follow from it.

use vstd::prelude::*;
use crate::bridge::{spec_surface_for_framebuffer, BridgeError, RenderTarget};
use crate::geometry::Extent;
use crate::swapchain::{target_for, SwapchainConfig, MIN_IMAGES};
use crate::vulkan_renderer::{
    enough_images, FrameAction, FrameEvent, FramePhase, RendererModel, SkipReason,
};

verus! {

/// Anything that can be told to a manager.
pub enum Input {
    /// The window was resized.
    Resized,
    /// The window was closed.
    Closed,
    /// An event of the frame pipeline, with the window's size at that time.
    Frame(FrameEvent, Extent),
}

/// The manager after one input.
pub open spec fn apply(model: RendererModel, input: Input) -> RendererModel {
    match input {
        Input::Resized => model.invalidated(),
        Input::Closed => model.destroyed(),
        Input::Frame(event, window) => model.step(event, window).next,
    }
}

/// The manager after a sequence of inputs.
pub open spec fn run(model: RendererModel, inputs: Seq<Input>) -> RendererModel
    decreases inputs.len(),
{
    if inputs.len() == 0 {
        model
    } else {
        apply(run(model, inputs.drop_last()), inputs.last())
    }
}

/// How many more events the frame in progress can take at most.
pub open spec fn steps_left(phase: FramePhase) -> nat {
    match phase {
        FramePhase::Idle => 0,
        FramePhase::Painting { .. } => 1,
        FramePhase::Acquiring { retried: true } => 2,
        FramePhase::Recreating { retried: true, .. } => 3,
        FramePhase::Acquiring { retried: false } => 4,
        FramePhase::Recreating { retried: false, .. } => 5,
    }
}

/// A fresh manager is well formed, and has one drawing target per image of
/// its swapchain, in the images' order.
pub proof fn lemma_new_is_wf(config: SwapchainConfig, images: Seq<u64>)
    ensures
        RendererModel::new(config, images).wf(),
        RendererModel::new(config, images).targets.len() == images.len(),
        forall|i: int|
            0 <= i < images.len() ==> #[trigger] RendererModel::new(config, images).targets[i]
                == target_for(config, images[i]),
{
}

/// No input breaks the invariant.
pub proof fn lemma_apply_keeps_wf(model: RendererModel, input: Input)
    requires
        model.wf(),
    ensures
        apply(model, input).wf(),
{
}

/// Every manager is well formed, whatever sequence of resize notifications,
/// frame events and window sizes it has seen since it was made.
pub proof fn lemma_run_keeps_wf(config: SwapchainConfig, images: Seq<u64>, inputs: Seq<Input>)
    ensures
        run(RendererModel::new(config, images), inputs).wf(),
    decreases inputs.len(),
{
    if inputs.len() > 0 {
        lemma_run_keeps_wf(config, images, inputs.drop_last());
        lemma_apply_keeps_wf(run(RendererModel::new(config, images), inputs.drop_last()), inputs.last());
    }
}

/// A frame is only ever painted on a valid swapchain whose extent is the
/// window's size at that moment; the target handed out has that size, and
/// the window covers some pixel. No stale extent is presented.
pub proof fn lemma_painted_extent_is_window_size(model: RendererModel, event: FrameEvent, window: Extent)
    requires
        model.wf(),
        model.step(event, window).action is Paint,
    ensures
        model.step(event, window).next.state is Valid,
        model.step(event, window).next.config.extent == window,
        !window.is_empty(),
        model.step(event, window).action matches FrameAction::Paint { target, .. } && target.width
            == window.width && target.height == window.height,
{
}

/// The same, after any history: whatever resize notifications and events a
/// manager has seen, the next frame it paints has the size that the window
/// has then.
pub proof fn lemma_no_stale_extent(
    config: SwapchainConfig,
    images: Seq<u64>,
    inputs: Seq<Input>,
    event: FrameEvent,
    window: Extent,
)
    requires
        run(RendererModel::new(config, images), inputs).step(event, window).action is Paint,
    ensures
        run(RendererModel::new(config, images), inputs).step(event, window).next.config.extent
            == window,
{
    lemma_run_keeps_wf(config, images, inputs);
    lemma_painted_extent_is_window_size(run(RendererModel::new(config, images), inputs), event, window);
}

/// After a resize notification the next frame request for a window that
/// covers some pixel asks for a swapchain of the window's size, and for
/// nothing else.
pub proof fn lemma_resize_forces_recreation(model: RendererModel, window: Extent)
    requires
        model.wf(),
        model.phase is Idle,
        !(model.state is Destroyed),
        !window.is_empty(),
        model.last_frame < u64::MAX,
    ensures
        model.invalidated().step(FrameEvent::Requested, window).action == (FrameAction::Recreate {
            config: model.config.resized(window),
            retire_after: model.in_flight,
        }),
        model.config.resized(window).extent == window,
        model.config.resized(window).format == model.config.format,
        model.config.resized(window).present_mode == model.config.present_mode,
        model.config.resized(window).composite_alpha == model.config.composite_alpha,
        model.config.resized(window).min_image_count == model.config.min_image_count,
{
}

/// The swapchain that is replaced outlives the work that may still draw to
/// it: whenever a recreation is asked for, the old swapchain and its targets
/// are to be kept until the frame in flight has run to its end.
pub proof fn lemma_old_swapchain_outlives_pending_work(model: RendererModel, event: FrameEvent, window: Extent)
    ensures
        model.step(event, window).action matches FrameAction::Recreate { config, retire_after } ==> {
            &&& retire_after == model.in_flight
            &&& config == model.config.resized(window)
            &&& model.step(event, window).next.targets == model.targets
            &&& model.step(event, window).next.config == model.config
            &&& model.step(event, window).next.in_flight == model.in_flight
        },
{
}

/// Every recreation rebuilds the drawing targets wholesale: afterwards there
/// is exactly one per image of the new swapchain, in the images' order, each
/// with the new swapchain's extent and format; and the swapchain is valid
/// exactly when it has enough images.
pub proof fn lemma_targets_match_images(
    model: RendererModel,
    retried: bool,
    config: SwapchainConfig,
    images: Vec<u64>,
    window: Extent,
)
    requires
        model.phase == (FramePhase::Recreating { retried, config }),
    ensures
        ({
            let next = model.step(FrameEvent::Recreated { images }, window).next;
            &&& next.config == config
            &&& next.targets.len() == images@.len()
            &&& forall|i: int|
                0 <= i < images@.len() ==> #[trigger] next.targets[i] == target_for(
                    config,
                    images@[i],
                )
            &&& next.state is Valid <==> enough_images(config, images@.len())
        }),
{
}

/// A manager whose swapchain is valid always has at least two drawing
/// targets, and the image that a frame is painted to is one of them.
pub proof fn lemma_painted_target_is_live(model: RendererModel, event: FrameEvent, window: Extent)
    requires
        model.wf(),
    ensures
        model.state is Valid ==> model.targets.len() >= MIN_IMAGES,
        model.step(event, window).action matches FrameAction::Paint { target, image_index, .. }
            ==> {
            &&& image_index < model.targets.len()
            &&& model.step(event, window).next.targets == model.targets
            &&& spec_surface_for_framebuffer(model.targets[image_index as int]) == Ok::<
                RenderTarget,
                BridgeError,
            >(target)
            &&& target.image == model.targets[image_index as int].image
        },
{
}

/// Asking for a frame when the swapchain is valid and has the window's size
/// recreates nothing: the configuration, the targets and the state stay as
/// they are, and the next thing asked for is an image.
pub proof fn lemma_valid_swapchain_is_kept(model: RendererModel, window: Extent)
    requires
        model.state is Valid,
        model.config.extent == window,
    ensures
        !model.needs_recreation(window),
        !(model.step(FrameEvent::Requested, window).action is Recreate),
        model.step(FrameEvent::Requested, window).next.config == model.config,
        model.step(FrameEvent::Requested, window).next.targets == model.targets,
        model.step(FrameEvent::Requested, window).next.state == model.state,
        model.phase is Idle && !window.is_empty() && model.last_frame < u64::MAX ==> model.step(
            FrameEvent::Requested,
            window,
        ).action == FrameAction::Acquire,
{
}

/// A frame requested while the window covers no pixel changes nothing and
/// asks for nothing: no image is acquired and no swapchain is made.
pub proof fn lemma_zero_size_frame_is_skipped(model: RendererModel, window: Extent)
    requires
        window.is_empty(),
    ensures
        model.step(FrameEvent::Requested, window).next == model,
        !(model.step(FrameEvent::Requested, window).action is Acquire),
        !(model.step(FrameEvent::Requested, window).action is Recreate),
        !(model.step(FrameEvent::Requested, window).action is Paint),
        model.phase is Idle && !(model.state is Destroyed) ==> model.step(
            FrameEvent::Requested,
            window,
        ).action == FrameAction::Skipped(SkipReason::ZeroSize),
{
}

/// A stale acquisition is retried once: the first one of a frame is
/// answered by the recreation of the swapchain at the window's size, the
/// second one ends the frame. Either way the swapchain is invalid after it.
pub proof fn lemma_stale_acquisition_retries_once(model: RendererModel, retried: bool, window: Extent)
    requires
        model.phase == (FramePhase::Acquiring { retried }),
        !window.is_empty(),
    ensures
        model.step(FrameEvent::OutOfDate, window).next.state is Invalid,
        !retried ==> {
            &&& model.step(FrameEvent::OutOfDate, window).action == (FrameAction::Recreate {
                config: model.config.resized(window),
                retire_after: model.in_flight,
            })
            &&& model.step(FrameEvent::OutOfDate, window).next.phase == (FramePhase::Recreating {
                retried: true,
                config: model.config.resized(window),
            })
        },
        retried ==> {
            &&& model.step(FrameEvent::OutOfDate, window).action == FrameAction::Skipped(
                SkipReason::Stale,
            )
            &&& model.step(FrameEvent::OutOfDate, window).next.phase is Idle
        },
{
}

/// A frame that meets one stale acquisition on a valid swapchain of the
/// window's size goes on like this: the image is asked for, the swapchain is
/// recreated exactly once, the image is asked for again, and the frame is
/// painted to the image that was acquired then.
pub proof fn lemma_one_stale_acquisition_is_survived(
    model: RendererModel,
    images: Vec<u64>,
    image_index: u32,
    window: Extent,
)
    requires
        model.wf(),
        model.phase is Idle,
        model.state is Valid,
        model.config.extent == window,
        !window.is_empty(),
        model.last_frame < u64::MAX,
        enough_images(model.config, images@.len()),
        image_index < images@.len(),
        spec_surface_for_framebuffer(target_for(model.config, images@[image_index as int])) is Ok,
    ensures
        ({
            let first = model.step(FrameEvent::Requested, window);
            let second = first.next.step(FrameEvent::OutOfDate, window);
            let third = second.next.step(FrameEvent::Recreated { images }, window);
            let fourth = third.next.step(
                FrameEvent::Acquired { image_index, suboptimal: false },
                window,
            );
            &&& first.action == FrameAction::Acquire
            &&& second.action == (FrameAction::Recreate {
                config: model.config,
                retire_after: model.in_flight,
            })
            &&& third.action == FrameAction::Acquire
            &&& fourth.action matches FrameAction::Paint { target, frame, .. } && target.image
                == images@[image_index as int] && frame == model.last_frame + 1
            &&& fourth.next.state is Valid
        }),
{
    let first = model.step(FrameEvent::Requested, window);
    let second = first.next.step(FrameEvent::OutOfDate, window);
    let third = second.next.step(FrameEvent::Recreated { images }, window);
}

/// A suboptimal acquisition counts as a stale one.
pub proof fn lemma_suboptimal_is_stale(
    model: RendererModel,
    retried: bool,
    image_index: u32,
    window: Extent,
)
    requires
        model.phase == (FramePhase::Acquiring { retried }),
    ensures
        model.step(FrameEvent::Acquired { image_index, suboptimal: true }, window) == model.step(
            FrameEvent::OutOfDate,
            window,
        ),
{
}

/// Every frame ends: each event that is not ignored brings the frame
/// nearer to its end, a frame takes six events at most, and the frame is
/// over exactly when the action says so.
pub proof fn lemma_frame_is_bounded(model: RendererModel, event: FrameEvent, window: Extent)
    requires
        model.wf(),
    ensures
        steps_left(model.step(event, window).next.phase) <= 5,
        !(model.phase is Idle) && !(model.step(event, window).action is Ignored) ==> steps_left(
            model.step(event, window).next.phase,
        ) < steps_left(model.phase),
        model.step(event, window).action is Ignored ==> model.step(event, window).next == model,
        model.step(event, window).action.ends_frame() ==> model.step(event, window).next.phase
            is Idle,
        !(model.phase is Idle) && model.step(event, window).next.phase is Idle ==> model.step(
            event,
            window,
        ).action.ends_frame(),
{
}

/// Frames are submitted in the order of their numbers, each chained to the
/// one before: a frame that is painted gets the number after the last one
/// given out, while no other frame is being painted, and its work is to
/// follow the frame in flight, which has a lower number.
pub proof fn lemma_frames_are_ordered(model: RendererModel, event: FrameEvent, window: Extent)
    requires
        model.wf(),
    ensures
        model.step(event, window).next.last_frame >= model.last_frame,
        model.step(event, window).action matches FrameAction::Paint { frame, after, .. } ==> {
            &&& !(model.phase is Painting)
            &&& frame == model.last_frame + 1
            &&& after == model.in_flight
            &&& after matches Some(earlier) ==> earlier < frame
            &&& model.step(event, window).next.phase == (FramePhase::Painting { frame })
        },
        model.step(event, window).action matches FrameAction::Presented(frame) ==> {
            &&& model.phase == (FramePhase::Painting { frame })
            &&& frame == model.last_frame
            &&& model.step(event, window).next.in_flight == Some(frame)
        },
{
}

/// A failed submission does not end the program: the swapchain is invalid
/// afterwards, nothing is in flight, and the next request starts afresh.
pub proof fn lemma_failed_submission_invalidates(model: RendererModel, frame: u64, window: Extent)
    requires
        model.phase == (FramePhase::Painting { frame }),
    ensures
        model.step(FrameEvent::SubmitFailed, window).action == FrameAction::Skipped(
            SkipReason::SubmitFailed,
        ),
        model.step(FrameEvent::SubmitFailed, window).next.state is Invalid,
        model.step(FrameEvent::SubmitFailed, window).next.in_flight is None,
        model.step(FrameEvent::SubmitFailed, window).next.phase is Idle,
{
}

/// A closed window stays closed: no input brings its manager back, and
/// every frame requested of it is skipped.
pub proof fn lemma_destroyed_is_terminal(model: RendererModel, input: Input, window: Extent)
    requires
        model.wf(),
        model.state is Destroyed,
    ensures
        apply(model, input) == model,
        model.step(FrameEvent::Requested, window).action == FrameAction::Skipped(
            SkipReason::Destroyed,
        ),
{
}

} // verus!
