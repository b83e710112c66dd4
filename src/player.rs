use vstd::prelude::*;

use crate::error::Error;
use crate::format::{FormatDescriptor, format_wf, initial_format, with_fps, with_resolution};
use crate::messages::MessageLoop;

verus! {

/// The largest seek target, in whole seconds, whose position in nanoseconds
/// fits the engine's 64-bit clock.
pub const MAX_SEEK_SECONDS: u64 = 18446744073;

/// Nanoseconds in one second.
pub const NANOS_PER_SECOND: u64 = 1000000000;

/// The bit pattern of the IEEE-754 double 1.0, the engine's initial volume.
pub const UNIT_VOLUME_BITS: u64 = 0x3FF0000000000000;

/// The smallest bit pattern of a negative double: the sign bit and the
/// smallest magnitude.
pub const LEAST_NEGATIVE_BITS: u64 = 0x8000000000000001;

/// The bit pattern of negative infinity; above it lie the negative NaNs.
pub const NEGATIVE_INFINITY_BITS: u64 = 0xFFF0000000000000;

/// Whether the double with bit pattern `bits` compares below zero: its sign
/// bit is set and it is neither negative zero nor a NaN.
pub open spec fn is_negative_volume(bits: u64) -> bool {
    LEAST_NEGATIVE_BITS <= bits <= NEGATIVE_INFINITY_BITS
}

/// One instruction for the media engine of a session.
#[derive(Debug, Clone, PartialEq, Eq)]
pub enum EngineCommand {
    /// Replace the frame filter's format descriptor wholesale.
    SetCaps(FormatDescriptor),
    /// Set the URI to play.
    SetUri(String),
    Play,
    Pause,
    Stop,
    /// Seek to an absolute position, in nanoseconds.
    Seek(u64),
    /// Set the playback volume; the IEEE-754 bit pattern of the gain.
    SetVolume(u64),
}

/// The configuration side of one playback session: the format that the
/// frame filter enforces, and the engine commands that each operation issues.
pub struct GStreamerPlayer {
    caps: FormatDescriptor,
    volume: u64,
}

impl GStreamerPlayer {
    /// The descriptor that the frame filter currently holds.
    pub closed spec fn format(&self) -> FormatDescriptor {
        self.caps
    }

    /// The bit pattern of the volume that the engine was last given.
    pub closed spec fn volume(&self) -> u64 {
        self.volume
    }

    pub open spec fn wf(&self) -> bool {
        format_wf(self.format())
    }

    /// A session whose filter leaves every field of the format open.
    pub fn new() -> (r: GStreamerPlayer)
        ensures
            r.format() == initial_format(),
            r.volume() == UNIT_VOLUME_BITS,
            r.wf(),
    {
        GStreamerPlayer { caps: FormatDescriptor::new(), volume: UNIT_VOLUME_BITS }
    }

    /// The descriptor that the frame filter currently holds.
    pub fn caps(&self) -> (r: FormatDescriptor)
        ensures
            r == self.format(),
    {
        self.caps
    }

    /// Fixes the frame rate at `fps` frames per second; the rest of the
    /// descriptor is kept, and the whole new descriptor is handed to the
    /// engine at once.
    pub fn set_fps(&mut self, fps: u16) -> (r: EngineCommand)
        requires
            old(self).wf(),
        ensures
            final(self).format() == with_fps(old(self).format(), fps),
            final(self).volume() == old(self).volume(),
            final(self).wf(),
            r == EngineCommand::SetCaps(final(self).format()),
    {
        self.caps = self.caps.with_fps(fps);
        EngineCommand::SetCaps(self.caps)
    }

    /// Fixes the resolution at `width` by `height`; the rest of the
    /// descriptor is kept, and the whole new descriptor is handed to the
    /// engine at once.
    pub fn set_resolution(&mut self, width: u16, height: u16) -> (r: EngineCommand)
        requires
            old(self).wf(),
        ensures
            final(self).format() == with_resolution(old(self).format(), width, height),
            final(self).volume() == old(self).volume(),
            final(self).wf(),
            r == EngineCommand::SetCaps(final(self).format()),
    {
        self.caps = self.caps.with_resolution(width, height);
        EngineCommand::SetCaps(self.caps)
    }

    /// The bit pattern of the volume that the engine was last given.
    pub fn volume_bits(&self) -> (r: u64)
        ensures
            r == self.volume(),
    {
        self.volume
    }

    /// Sets the volume to the double whose bit pattern is `volume`. A volume
    /// below zero is refused with `InvalidVolume` and nothing is issued; any
    /// other, however large, is passed on to the engine as it is.
    pub fn set_volume(&mut self, volume: u64) -> (r: Result<EngineCommand, Error>)
        ensures
            final(self).format() == old(self).format(),
            is_negative_volume(volume) <==> r is Err,
            r matches Err(e) ==> e == Error::InvalidVolume(volume),
            is_negative_volume(volume) ==> final(self).volume() == old(self).volume(),
            r matches Ok(c) ==> c == EngineCommand::SetVolume(volume) && final(self).volume() == volume,
    {
        if LEAST_NEGATIVE_BITS <= volume && volume <= NEGATIVE_INFINITY_BITS {
            return Err(Error::InvalidVolume(volume));
        }
        self.volume = volume;
        Ok(EngineCommand::SetVolume(volume))
    }

    /// Starts playback of the first URL of `urls`; the others are not read.
    /// With no URL nothing is issued and `MissingUrl` is returned.
    pub fn play(&self, urls: &Vec<String>) -> (r: Result<Vec<EngineCommand>, Error>)
        ensures
            urls@.len() == 0 <==> r is Err,
            r matches Err(e) ==> e == Error::MissingUrl,
            r matches Ok(cmds) ==> cmds@ == seq![EngineCommand::SetUri(urls@[0]), EngineCommand::Play],
    {
        if urls.len() == 0 {
            return Err(Error::MissingUrl);
        }
        let uri = urls[0].clone();
        Ok(vec![EngineCommand::SetUri(uri), EngineCommand::Play])
    }

    /// Pauses playback.
    pub fn pause(&self) -> (r: EngineCommand)
        ensures
            r == EngineCommand::Pause,
    {
        EngineCommand::Pause
    }

    /// Stops playback.
    pub fn stop(&self) -> (r: EngineCommand)
        ensures
            r == EngineCommand::Stop,
    {
        EngineCommand::Stop
    }

    /// Seeks to `seconds` whole seconds from the start.
    pub fn seek(&self, seconds: u64) -> (r: EngineCommand)
        requires
            seconds <= MAX_SEEK_SECONDS,
        ensures
            r == EngineCommand::Seek((seconds * NANOS_PER_SECOND) as u64),
    {
        EngineCommand::Seek(seconds * NANOS_PER_SECOND)
    }

    /// A consumer for this session's bus, that has consumed nothing yet.
    pub fn message_loop(&self) -> (r: MessageLoop)
        ensures
            r.state() is Running,
    {
        MessageLoop::new()
    }
}

} // verus!
