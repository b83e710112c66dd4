use vstd::prelude::*;

verus! {

/// Every way an operation of the player can fail.
///
/// Errors that the media engine reports carry the engine's message text.
#[derive(Debug, Clone, PartialEq, Eq)]
pub enum Error {
    /// Process-wide engine initialisation failed.
    Init(String),
    /// An element of the rendering segment could not be created.
    ElementFactoryMake(String),
    /// An element could not be added to the rendering bin.
    BinAdd(String),
    /// Two elements of the rendering segment could not be linked.
    ElementLink(String),
    /// An element could not follow the state of its parent.
    ElementSync(String),
    /// The engine reported a playback error.
    PlayMessage(String),
    /// A bus message could not be read as a playback message: the parse error
    /// and the kind of the offending message.
    PlayMessageParse(String, String),
    /// An element refused a state change.
    StateChange,
    /// `play` was given no URL.
    MissingUrl,
    /// A negative volume was requested; the volume's IEEE-754 bit pattern.
    InvalidVolume(u64),
}

} // verus!
