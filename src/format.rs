use vstd::prelude::*;

verus! {

/// A frame rate as a fraction of frames per second.
#[derive(Debug, Clone, Copy, PartialEq, Eq, Structural)]
pub struct Fraction {
    pub numer: i32,
    pub denom: i32,
}

/// The output format that the rendering segment's filter enforces.
///
/// `None` leaves a field open to negotiation. The pixel format is always BGRA
/// and is not part of the descriptor.
#[derive(Debug, Clone, Copy, PartialEq, Eq, Structural)]
pub struct FormatDescriptor {
    pub framerate: Option<Fraction>,
    pub width: Option<i32>,
    pub height: Option<i32>,
}

/// The descriptor that the filter starts with: every field open.
pub open spec fn initial_format() -> FormatDescriptor {
    FormatDescriptor { framerate: None, width: None, height: None }
}

/// A descriptor that only `set_fps` and `set_resolution` can produce: a whole
/// number of frames per second, and width and height fixed together.
pub open spec fn format_wf(d: FormatDescriptor) -> bool {
    &&& (d.framerate matches Some(f) ==> f.denom == 1 && 0 <= f.numer <= u16::MAX)
    &&& d.width.is_some() == d.height.is_some()
    &&& (d.width matches Some(w) ==> 0 <= w <= u16::MAX)
    &&& (d.height matches Some(h) ==> 0 <= h <= u16::MAX)
}

/// `d` with its frame rate fixed at `fps` frames per second.
pub open spec fn with_fps(d: FormatDescriptor, fps: u16) -> FormatDescriptor {
    FormatDescriptor { framerate: Some(Fraction { numer: fps as i32, denom: 1 }), ..d }
}

/// `d` with its resolution fixed at `width` by `height`.
pub open spec fn with_resolution(d: FormatDescriptor, width: u16, height: u16) -> FormatDescriptor {
    FormatDescriptor { width: Some(width as i32), height: Some(height as i32), ..d }
}

impl FormatDescriptor {
    /// The descriptor with every field open.
    pub fn new() -> (r: FormatDescriptor)
        ensures
            r == initial_format(),
    {
        FormatDescriptor { framerate: None, width: None, height: None }
    }

    /// A copy of `self` whose frame rate is `fps` frames per second;
    /// `self` is left as it was.
    pub fn with_fps(&self, fps: u16) -> (r: FormatDescriptor)
        ensures
            r == with_fps(*self, fps),
    {
        FormatDescriptor { framerate: Some(Fraction { numer: fps as i32, denom: 1 }), ..*self }
    }

    /// A copy of `self` whose resolution is `width` by `height`;
    /// `self` is left as it was.
    pub fn with_resolution(&self, width: u16, height: u16) -> (r: FormatDescriptor)
        ensures
            r == with_resolution(*self, width, height),
    {
        FormatDescriptor { width: Some(width as i32), height: Some(height as i32), ..*self }
    }
}

/// Reconfiguring a well-formed descriptor, by frame rate or by resolution,
/// yields a well-formed descriptor that keeps every field it did not target;
/// so any number of reconfigurations from the initial descriptor, in any
/// order, never yields a partial one.
pub proof fn lemma_reconfigure_keeps_format_wf(d: FormatDescriptor, fps: u16, width: u16, height: u16)
    requires
        format_wf(d),
    ensures
        format_wf(initial_format()),
        format_wf(with_fps(d, fps)),
        format_wf(with_resolution(d, width, height)),
        with_fps(d, fps).width == d.width && with_fps(d, fps).height == d.height,
        with_resolution(d, width, height).framerate == d.framerate,
{
}

} // verus!
