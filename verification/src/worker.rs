//! Decisions of the decode worker.
//!
//! The worker takes decoded pictures one by one, scales each to the fixed
//! size of the character grid, cuts the row padding out and puts the frame on
//! the bounded queue to the render loop. The scaler is kept from picture to
//! picture and is built anew exactly when a picture does not have the size
//! that the scaler is bound to. Decoding, scaling and queueing are done by
//! the caller; what to do next is decided here.

use crate::failure::{policy_of, FailureKind};
use vstd::prelude::*;

verus! {

/// Pixel columns of every scaled frame.
pub const TARGET_WIDTH: u32 = 100;

/// Pixel rows of every scaled frame.
pub const TARGET_HEIGHT: u32 = 50;

/// Frames that the queue to the render loop holds before the worker is made
/// to wait.
pub const FRAME_QUEUE_CAPACITY: usize = 10;

/// Chunks that the queue from the chunk source holds before the source is
/// made to wait.
pub const CHUNK_QUEUE_CAPACITY: usize = 32;

/// The size of picture that the scaler takes, if there is a scaler.
#[derive(Clone, Copy, Debug, PartialEq, Eq, Structural)]
pub enum ScalerBinding {
    /// No scaler has been built yet.
    Unbound,
    /// The scaler takes pictures of this size.
    Bound { width: u32, height: u32 },
}

impl ScalerBinding {
    /// The scaler can take a picture of the given size as it is.
    pub open spec fn accepts(self, width: u32, height: u32) -> bool {
        self == (ScalerBinding::Bound { width, height })
    }

    /// Tells whether the scaler has to be built anew for a picture of the
    /// given size.
    pub fn needs_rebuild(&self, width: u32, height: u32) -> (rebuild: bool)
        ensures
            rebuild == !self.accepts(width, height),
    {
        match self {
            ScalerBinding::Unbound => true,
            ScalerBinding::Bound { width: w, height: h } => *w != width || *h != height,
        }
    }
}

/// How a scaler fills in the pixels between those of its source.
#[derive(Clone, Copy, Debug, PartialEq, Eq, Structural)]
pub enum Resampling {
    /// Each pixel is a weighted mean of the four source pixels around it.
    Bilinear,
}

/// How the scaler lays out the pixels it puts out.
#[derive(Clone, Copy, Debug, PartialEq, Eq, Structural)]
pub enum PixelLayout {
    /// Red, green and blue, one byte each, pixel after pixel.
    Rgb24,
}

/// A scaler to build: what it takes and what it gives.
#[derive(Clone, Copy, Debug, PartialEq, Eq, Structural)]
pub struct ScalerRequest {
    pub source_width: u32,
    pub source_height: u32,
    pub target_width: u32,
    pub target_height: u32,
    pub target_layout: PixelLayout,
    pub resampling: Resampling,
}

/// The scaler that the worker asks for when it meets pictures of the given
/// size: from that size to the fixed size of the grid, in packed RGB, with
/// bilinear resampling.
pub open spec fn scaler_for(width: u32, height: u32) -> ScalerRequest {
    ScalerRequest {
        source_width: width,
        source_height: height,
        target_width: TARGET_WIDTH,
        target_height: TARGET_HEIGHT,
        target_layout: PixelLayout::Rgb24,
        resampling: Resampling::Bilinear,
    }
}

/// Why the worker gave up.
#[derive(Clone, Copy, Debug, PartialEq, Eq, Structural)]
pub enum WorkerError {
    /// No scaler could be built for a picture size.
    ScalerConstruction { width: u32, height: u32 },
    /// The scaler failed on a picture.
    Scaling,
}

/// What the worker waits for.
#[derive(Clone, Copy, Debug, PartialEq, Eq, Structural)]
pub enum WorkerPhase {
    /// The next decoded picture.
    AwaitPicture,
    /// A scaler for pictures of the given size.
    AwaitScaler { width: u32, height: u32 },
    /// The scaled frame.
    AwaitScaled,
    /// Room on the frame queue.
    AwaitQueue,
    /// Nothing: the worker has stopped.
    Stopped,
}

/// State of the worker between two steps.
#[derive(Clone, Copy, Debug, PartialEq, Eq, Structural)]
pub struct WorkerState {
    pub binding: ScalerBinding,
    pub phase: WorkerPhase,
}

/// What happened since the last step.
#[derive(Clone, Copy, Debug, PartialEq, Eq, Structural)]
pub enum WorkerEvent {
    /// The decoder handed out a picture of the given size.
    PictureDecoded { width: u32, height: u32 },
    /// The decoder has no more pictures.
    DecoderEnded,
    /// The scaler asked for was built.
    ScalerBuilt,
    /// The scaler asked for could not be built.
    ScalerFailed,
    /// The picture was scaled.
    PictureScaled,
    /// The scaler failed on the picture.
    ScalingFailed,
    /// The frame was put on the queue.
    FrameQueued,
    /// The render loop has closed the queue.
    QueueClosed,
}

/// What the caller is to do next.
#[derive(Clone, Copy, Debug, PartialEq, Eq, Structural)]
pub enum WorkerAction {
    /// Ask the decoder for the next picture.
    DecodeNext,
    /// Build this scaler, and drop the one held so far.
    BuildScaler(ScalerRequest),
    /// Scale the picture with the scaler held.
    ScalePicture,
    /// Cut the padding out of the scaled frame and put it on the queue,
    /// waiting for room if the queue is full.
    QueueFrame,
    /// Stop: there is nothing more to do.
    Finish,
    /// Stop: the session cannot go on.
    Fail(WorkerError),
    /// Do nothing: the event was no answer to what the worker waits for.
    Ignore,
}

impl WorkerState {
    /// While a picture is being scaled or queued there is a scaler.
    pub open spec fn wf(self) -> bool {
        (self.phase is AwaitScaled || self.phase is AwaitQueue) ==> self.binding is Bound
    }
}

/// The event answers what the phase waits for.
pub open spec fn answers(phase: WorkerPhase, event: WorkerEvent) -> bool {
    match phase {
        WorkerPhase::AwaitPicture => event is PictureDecoded || event is DecoderEnded,
        WorkerPhase::AwaitScaler { .. } => event is ScalerBuilt || event is ScalerFailed,
        WorkerPhase::AwaitScaled => event is PictureScaled || event is ScalingFailed,
        WorkerPhase::AwaitQueue => event is FrameQueued || event is QueueClosed,
        WorkerPhase::Stopped => false,
    }
}

/// The state after a step.
pub open spec fn next_state(state: WorkerState, event: WorkerEvent) -> WorkerState {
    match (state.phase, event) {
        (WorkerPhase::AwaitPicture, WorkerEvent::PictureDecoded { width, height }) => {
            if state.binding.accepts(width, height) {
                WorkerState { binding: state.binding, phase: WorkerPhase::AwaitScaled }
            } else {
                WorkerState {
                    binding: state.binding,
                    phase: WorkerPhase::AwaitScaler { width, height },
                }
            }
        },
        (WorkerPhase::AwaitPicture, WorkerEvent::DecoderEnded) => WorkerState {
            binding: state.binding,
            phase: WorkerPhase::Stopped,
        },
        (WorkerPhase::AwaitScaler { width, height }, WorkerEvent::ScalerBuilt) => WorkerState {
            binding: ScalerBinding::Bound { width, height },
            phase: WorkerPhase::AwaitScaled,
        },
        (WorkerPhase::AwaitScaler { .. }, WorkerEvent::ScalerFailed) => WorkerState {
            binding: ScalerBinding::Unbound,
            phase: WorkerPhase::Stopped,
        },
        (WorkerPhase::AwaitScaled, WorkerEvent::PictureScaled) => WorkerState {
            binding: state.binding,
            phase: WorkerPhase::AwaitQueue,
        },
        (WorkerPhase::AwaitScaled, WorkerEvent::ScalingFailed) => WorkerState {
            binding: state.binding,
            phase: WorkerPhase::Stopped,
        },
        (WorkerPhase::AwaitQueue, WorkerEvent::FrameQueued) => WorkerState {
            binding: state.binding,
            phase: WorkerPhase::AwaitPicture,
        },
        (WorkerPhase::AwaitQueue, WorkerEvent::QueueClosed) => WorkerState {
            binding: state.binding,
            phase: WorkerPhase::Stopped,
        },
        _ => state,
    }
}

/// The action that a step asks for.
pub open spec fn next_action(state: WorkerState, event: WorkerEvent) -> WorkerAction {
    match (state.phase, event) {
        (WorkerPhase::AwaitPicture, WorkerEvent::PictureDecoded { width, height }) => {
            if state.binding.accepts(width, height) {
                WorkerAction::ScalePicture
            } else {
                WorkerAction::BuildScaler(scaler_for(width, height))
            }
        },
        (WorkerPhase::AwaitPicture, WorkerEvent::DecoderEnded) => WorkerAction::Finish,
        (WorkerPhase::AwaitScaler { .. }, WorkerEvent::ScalerBuilt) => WorkerAction::ScalePicture,
        (WorkerPhase::AwaitScaler { width, height }, WorkerEvent::ScalerFailed) => {
            WorkerAction::Fail(WorkerError::ScalerConstruction { width, height })
        },
        (WorkerPhase::AwaitScaled, WorkerEvent::PictureScaled) => WorkerAction::QueueFrame,
        (WorkerPhase::AwaitScaled, WorkerEvent::ScalingFailed) => WorkerAction::Fail(
            WorkerError::Scaling,
        ),
        (WorkerPhase::AwaitQueue, WorkerEvent::FrameQueued) => WorkerAction::DecodeNext,
        (WorkerPhase::AwaitQueue, WorkerEvent::QueueClosed) => WorkerAction::Finish,
        _ => WorkerAction::Ignore,
    }
}

/// The state in which a worker starts.
pub open spec fn initial_state() -> WorkerState {
    WorkerState { binding: ScalerBinding::Unbound, phase: WorkerPhase::AwaitPicture }
}

/// Starts a worker: there is no scaler yet, and the first thing to do is to
/// ask the decoder for a picture.
pub fn start() -> (first: (WorkerState, WorkerAction))
    ensures
        first.0 == initial_state(),
        first.0.wf(),
        first.1 == WorkerAction::DecodeNext,
{
    (
        WorkerState { binding: ScalerBinding::Unbound, phase: WorkerPhase::AwaitPicture },
        WorkerAction::DecodeNext,
    )
}

/// Decides what the worker does next.
pub fn worker_step(state: WorkerState, event: WorkerEvent) -> (next: (WorkerState, WorkerAction))
    ensures
        next.0 == next_state(state, event),
        next.1 == next_action(state, event),
        state.wf() ==> next.0.wf(),
{
    let binding = state.binding;
    match state.phase {
        WorkerPhase::AwaitPicture => match event {
            WorkerEvent::PictureDecoded { width, height } => {
                if binding.needs_rebuild(width, height) {
                    (
                        WorkerState { binding, phase: WorkerPhase::AwaitScaler { width, height } },
                        WorkerAction::BuildScaler(
                            ScalerRequest {
                                source_width: width,
                                source_height: height,
                                target_width: TARGET_WIDTH,
                                target_height: TARGET_HEIGHT,
                                target_layout: PixelLayout::Rgb24,
                                resampling: Resampling::Bilinear,
                            },
                        ),
                    )
                } else {
                    (
                        WorkerState { binding, phase: WorkerPhase::AwaitScaled },
                        WorkerAction::ScalePicture,
                    )
                }
            },
            WorkerEvent::DecoderEnded => (
                WorkerState { binding, phase: WorkerPhase::Stopped },
                WorkerAction::Finish,
            ),
            _ => (state, WorkerAction::Ignore),
        },
        WorkerPhase::AwaitScaler { width, height } => match event {
            WorkerEvent::ScalerBuilt => (
                WorkerState {
                    binding: ScalerBinding::Bound { width, height },
                    phase: WorkerPhase::AwaitScaled,
                },
                WorkerAction::ScalePicture,
            ),
            WorkerEvent::ScalerFailed => (
                WorkerState { binding: ScalerBinding::Unbound, phase: WorkerPhase::Stopped },
                WorkerAction::Fail(WorkerError::ScalerConstruction { width, height }),
            ),
            _ => (state, WorkerAction::Ignore),
        },
        WorkerPhase::AwaitScaled => match event {
            WorkerEvent::PictureScaled => (
                WorkerState { binding, phase: WorkerPhase::AwaitQueue },
                WorkerAction::QueueFrame,
            ),
            WorkerEvent::ScalingFailed => (
                WorkerState { binding, phase: WorkerPhase::Stopped },
                WorkerAction::Fail(WorkerError::Scaling),
            ),
            _ => (state, WorkerAction::Ignore),
        },
        WorkerPhase::AwaitQueue => match event {
            WorkerEvent::FrameQueued => (
                WorkerState { binding, phase: WorkerPhase::AwaitPicture },
                WorkerAction::DecodeNext,
            ),
            WorkerEvent::QueueClosed => (
                WorkerState { binding, phase: WorkerPhase::Stopped },
                WorkerAction::Finish,
            ),
            _ => (state, WorkerAction::Ignore),
        },
        WorkerPhase::Stopped => (state, WorkerAction::Ignore),
    }
}

/// The scaler is built anew exactly when a picture arrives whose size is not
/// the one the scaler is bound to; the first picture always finds it unbound.
pub proof fn lemma_rebuild_exactly_on_size_change(state: WorkerState, event: WorkerEvent)
    ensures
        next_action(state, event) is BuildScaler <==> state.phase is AwaitPicture && (
        event matches WorkerEvent::PictureDecoded { width, height } && !state.binding.accepts(
            width,
            height,
        )),
        forall|width: u32, height: u32| !ScalerBinding::Unbound.accepts(width, height),
{
}

/// Every scaler is asked for with the size of the picture at hand as its
/// source and the fixed size of the grid as its target, and once it is built
/// the worker is bound to that source size.
pub proof fn lemma_scaler_is_bound_to_its_picture(state: WorkerState, width: u32, height: u32)
    requires
        state.phase is AwaitPicture,
        !state.binding.accepts(width, height),
    ensures
        next_action(state, WorkerEvent::PictureDecoded { width, height })
            == WorkerAction::BuildScaler(scaler_for(width, height)),
        scaler_for(width, height).target_width == TARGET_WIDTH,
        scaler_for(width, height).target_height == TARGET_HEIGHT,
        next_state(
            next_state(state, WorkerEvent::PictureDecoded { width, height }),
            WorkerEvent::ScalerBuilt,
        ).binding.accepts(width, height),
{
}

/// A picture is scaled only by a scaler bound to its size.
pub proof fn lemma_scaled_with_matching_scaler(state: WorkerState, event: WorkerEvent)
    requires
        next_action(state, event) is ScalePicture,
    ensures
        state.phase matches WorkerPhase::AwaitScaler { width, height } ==> next_state(
            state,
            event,
        ).binding.accepts(width, height),
        event matches WorkerEvent::PictureDecoded { width, height } ==> next_state(
            state,
            event,
        ).binding.accepts(width, height),
{
}

/// The worker gives up only when a scaler cannot be built or fails; it
/// winds down quietly when the decoder runs dry or the queue is closed.
pub proof fn lemma_stops(state: WorkerState, event: WorkerEvent)
    ensures
        next_action(state, event) is Fail <==> (state.phase is AwaitScaler && event
            is ScalerFailed) || (state.phase is AwaitScaled && event is ScalingFailed),
        next_action(state, event) is Finish <==> (state.phase is AwaitPicture && event
            is DecoderEnded) || (state.phase is AwaitQueue && event is QueueClosed),
        next_state(state, event).phase is Stopped <==> state.phase is Stopped || next_action(
            state,
            event,
        ) is Fail || next_action(state, event) is Finish,
{
}

/// The failure that an event reports, if it reports one.
pub open spec fn failure_of(event: WorkerEvent) -> Option<FailureKind> {
    match event {
        WorkerEvent::ScalerFailed => Some(FailureKind::DimensionChange),
        WorkerEvent::QueueClosed => Some(FailureKind::ChannelClosed),
        _ => None,
    }
}

/// The worker follows the policy for the failures it meets: it gives up
/// when no scaler can be built, and winds down without an error when the
/// queue is closed.
pub proof fn lemma_failures_follow_policy(state: WorkerState, event: WorkerEvent)
    requires
        failure_of(event).is_some(),
        answers(state.phase, event),
    ensures
        next_state(state, event).phase is Stopped,
        policy_of(failure_of(event).unwrap()) is Fatal <==> next_action(state, event) is Fail,
        policy_of(failure_of(event).unwrap()) is Shutdown <==> next_action(state, event)
            is Finish,
{
}

/// No frame is dropped to catch up: after a frame is scaled the worker asks
/// for nothing but to queue it, and it decodes again only once the frame is
/// on the queue.
pub proof fn lemma_no_frame_is_skipped(state: WorkerState, event: WorkerEvent)
    ensures
        state.phase is AwaitScaled && event is PictureScaled ==> next_action(state, event)
            is QueueFrame,
        next_action(state, event) is DecodeNext <==> state.phase is AwaitQueue && event
            is FrameQueued,
{
}

/// An event that is no answer to what the worker waits for changes nothing.
pub proof fn lemma_stray_event_is_ignored(state: WorkerState, event: WorkerEvent)
    ensures
        next_action(state, event) is Ignore <==> !answers(state.phase, event),
        !answers(state.phase, event) ==> next_state(state, event) == state,
{
}

} // verus!
