//! Decision logic of a frame-extracting media player.
//!
//! The media engine itself (element graph, decoding, the event bus) is driven
//! by the embedding application; this library decides what the engine is told
//! and how its events end a playback session.
pub mod error;
pub mod format;
pub mod frame;
pub mod messages;
pub mod player;
pub mod renderer;

pub use self::error::Error;
pub use self::format::{FormatDescriptor, Fraction};
pub use self::frame::{FrameDecision, decide_frame};
pub use self::messages::{Cleanup, EndReason, LoopState, MessageLoop, PlayMessage, PlayState};
pub use self::player::{EngineCommand, GStreamerPlayer};
pub use self::renderer::{BuildStep, Renderer, SinkSettings, Stage};
