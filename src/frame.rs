use vstd::prelude::*;

verus! {

/// What becomes of one decoded sample that the frame sink hands over.
#[derive(Debug, Clone, Copy, PartialEq, Eq, Structural)]
pub enum FrameDecision {
    /// Invoke the frame callback with the sample's bytes and this size.
    Deliver { width: u16, height: u16 },
    /// Drop the sample silently: it holds no bytes, or a side is zero.
    Skip,
    /// The sample's format could not be read: signal a resource error and
    /// end the stream for this sample.
    NotNegotiated,
}

/// The decision for a sample whose format gives `size` (width, height), if it
/// could be read, and whose first memory region holds `byte_len` bytes.
pub open spec fn frame_decision(size: Option<(u32, u32)>, byte_len: nat) -> FrameDecision {
    match size {
        None => FrameDecision::NotNegotiated,
        Some((w, h)) => if byte_len > 0 && w > 0 && h > 0 {
            FrameDecision::Deliver { width: w as u16, height: h as u16 }
        } else {
            FrameDecision::Skip
        },
    }
}

/// Decides what to do with one sample. A readable format's sides must fit in
/// 16 bits. The callback never receives an empty slice or a zero side.
pub fn decide_frame(size: Option<(u32, u32)>, byte_len: usize) -> (r: FrameDecision)
    requires
        size matches Some((w, h)) ==> w <= u16::MAX && h <= u16::MAX,
    ensures
        r == frame_decision(size, byte_len as nat),
        r matches FrameDecision::Deliver { width, height } ==> byte_len > 0 && width > 0 && height > 0,
{
    match size {
        None => FrameDecision::NotNegotiated,
        Some((w, h)) => {
            if byte_len > 0 && w > 0 && h > 0 {
                FrameDecision::Deliver { width: w as u16, height: h as u16 }
            } else {
                FrameDecision::Skip
            }
        },
    }
}

} // verus!
