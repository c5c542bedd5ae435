//! The state behind the viewer window, and how each event changes it.
//!
//! The surrounding application performs the device work — opening a
//! device, installing a capture stream, pulling frames — and reports the
//! outcome of each step here. Every decision about that outcome is made
//! and verified in this module: whether a granted format is acceptable,
//! what the window shows next, and at what size it is drawn.

use vstd::prelude::*;
use vstd::string::StringExecFns;
use crate::format::{Format, desired_fourcc, grant_accepted};
use crate::frame::{Frame, is_placeholder, placeholder};

verus! {

/// Milliseconds between two capture ticks.
pub const TICK_MILLIS: u64 = 30;

/// The state behind the viewer window.
#[derive(Debug)]
pub struct Viewer {
    /// Whether a capture stream is currently installed.
    pub streaming: bool,
    /// Width the image container is drawn at.
    pub dim_width: u16,
    /// Height the image container is drawn at.
    pub dim_height: u16,
    /// The frame the window shows.
    pub frame: Frame,
}

impl Viewer {
    /// Every frame held by the state is well-formed.
    pub open spec fn wf(&self) -> bool {
        self.frame.wf()
    }

    /// The state right after start-up: the first device has been opened
    /// and its stream installed, the container is still unsized, and the
    /// window shows the synthetic frame until a capture tick arrives.
    pub fn new() -> (v: Viewer)
        ensures
            v.streaming,
            v.dim_width == 0,
            v.dim_height == 0,
            is_placeholder(v.frame),
            v.wf(),
    {
        Viewer { streaming: true, dim_width: 0, dim_height: 0, frame: placeholder() }
    }

    /// The window title.
    pub fn title(&self) -> (r: String)
        ensures
            r@ == "Eye (iced)"@,
    {
        String::from_str("Eye (iced)")
    }

    /// A device was asked to open and was granted `granted`. The grant is
    /// accepted exactly when its pixel encoding is the desired one; only
    /// then does the caller install the device's stream. Either way the
    /// container is resized to the granted dimensions (wrapped into
    /// 16 bits, as the drawn size is).
    pub fn open(&mut self, granted: &Format) -> (accepted: bool)
        requires
            old(self).wf(),
        ensures
            accepted == (granted.fourcc == desired_fourcc()),
            final(self).streaming == (accepted || old(self).streaming),
            final(self).dim_width == (granted.width % 0x10000) as u16,
            final(self).dim_height == (granted.height % 0x10000) as u16,
            final(self).frame == old(self).frame,
            final(self).wf(),
    {
        let accepted = grant_accepted(granted);
        if accepted {
            self.streaming = true;
        }
        self.dim_width = (granted.width % 0x10000) as u16;
        self.dim_height = (granted.height % 0x10000) as u16;
        accepted
    }

    /// A capture tick. `next` is the frame the stream yielded, or `None`
    /// when no stream is open. The window shows that frame, or the
    /// synthetic one in its stead; nothing else changes.
    pub fn capture(&mut self, next: Option<Frame>)
        requires
            old(self).wf(),
            next matches Some(f) ==> f.wf(),
        ensures
            next matches Some(f) ==> final(self).frame == f,
            next is None ==> is_placeholder(final(self).frame),
            final(self).streaming == old(self).streaming,
            final(self).dim_width == old(self).dim_width,
            final(self).dim_height == old(self).dim_height,
            final(self).wf(),
    {
        match next {
            Some(f) => {
                self.frame = f;
            }
            None => {
                self.frame = placeholder();
            }
        }
    }
}

} // verus!
