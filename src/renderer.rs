use vstd::prelude::*;

use crate::error::Error;

verus! {

/// The most frames the frame sink holds before it drops: about a third of a
/// second of video at 30 frames per second.
pub const MAX_QUEUED_FRAMES: u32 = 10;

/// A stage of the rendering segment.
#[derive(Debug, Clone, Copy, PartialEq, Eq, Structural)]
pub enum Stage {
    /// Normalises frame timing.
    VideoRate,
    /// Enforces the format descriptor.
    CapsFilter,
    /// Hands BGRA frames to the frame callback.
    AppSink,
}

/// How the frame sink treats backpressure and the end of the stream.
#[derive(Debug, Clone, Copy, PartialEq, Eq, Structural)]
pub struct SinkSettings {
    /// Drop frames when the queue is full instead of blocking the decoder.
    pub drop: bool,
    /// The bound of the queue, in frames.
    pub max_buffers: u32,
    /// Hold teardown until the end of the stream has been consumed.
    pub wait_on_eos: bool,
}

/// A step of building the rendering segment that the engine may refuse.
#[derive(Debug, Clone, Copy, PartialEq, Eq, Structural)]
pub enum BuildStep {
    CreateElement,
    AddToBin,
    LinkElements,
    SyncState,
}

/// The stages of the segment, from its input pad to the frame sink.
pub open spec fn stage_order() -> Seq<Stage> {
    seq![Stage::VideoRate, Stage::CapsFilter, Stage::AppSink]
}

/// The error kind that names a failed build step, with the engine's message.
pub open spec fn build_error_spec(step: BuildStep, msg: String) -> Error {
    match step {
        BuildStep::CreateElement => Error::ElementFactoryMake(msg),
        BuildStep::AddToBin => Error::BinAdd(msg),
        BuildStep::LinkElements => Error::ElementLink(msg),
        BuildStep::SyncState => Error::ElementSync(msg),
    }
}

/// The layout of the rendering segment.
pub struct Renderer;

impl Renderer {
    /// The stages in the order they are linked; the segment's input pad
    /// forwards to the first one.
    pub fn stages() -> (r: Vec<Stage>)
        ensures
            r@ == stage_order(),
    {
        vec![Stage::VideoRate, Stage::CapsFilter, Stage::AppSink]
    }

    /// The frame sink never blocks the decoder, queues a bounded number of
    /// frames, and does not wait for the end of the stream on teardown.
    pub fn sink_settings() -> (r: SinkSettings)
        ensures
            r.drop,
            r.max_buffers == MAX_QUEUED_FRAMES,
            !r.wait_on_eos,
    {
        SinkSettings { drop: true, max_buffers: MAX_QUEUED_FRAMES, wait_on_eos: false }
    }

    /// The error for a refused build step, carrying the engine's message.
    pub fn build_error(step: BuildStep, msg: String) -> (r: Error)
        ensures
            r == build_error_spec(step, msg),
    {
        match step {
            BuildStep::CreateElement => Error::ElementFactoryMake(msg),
            BuildStep::AddToBin => Error::BinAdd(msg),
            BuildStep::LinkElements => Error::ElementLink(msg),
            BuildStep::SyncState => Error::ElementSync(msg),
        }
    }
}

} // verus!
