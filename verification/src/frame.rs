//! Raw RGBA frames and the synthetic frame shown while no stream is open.

use vstd::prelude::*;

verus! {

/// Bytes per pixel in the "AB24" encoding: 8-bit RGBA.
pub const BYTES_PER_PIXEL: u32 = 4;

/// Side length, in pixels, of the synthetic frame shown when no capture
/// stream is open.
pub const PLACEHOLDER_SIDE: u32 = 1000;

/// How many bytes a `width` x `height` frame must hold.
pub open spec fn frame_byte_count(width: u32, height: u32) -> int {
    width * height * (BYTES_PER_PIXEL as int)
}

/// A raw RGBA frame, either pulled from a capture stream or synthesized.
#[derive(Clone, Debug)]
pub struct Frame {
    pub width: u32,
    pub height: u32,
    pub pixels: Vec<u8>,
}

/// The synthetic frame: 1000 x 1000 pixels, every byte zero.
pub open spec fn is_placeholder(f: Frame) -> bool {
    &&& f.width == PLACEHOLDER_SIDE
    &&& f.height == PLACEHOLDER_SIDE
    &&& f.pixels@ =~= Seq::new(frame_byte_count(PLACEHOLDER_SIDE, PLACEHOLDER_SIDE) as nat, |i: int| 0u8)
}

impl Frame {
    /// The buffer holds exactly the bytes its dimensions call for.
    pub open spec fn wf(&self) -> bool {
        self.pixels@.len() == frame_byte_count(self.width, self.height)
    }

    /// Wrap raw stream data, rejecting a buffer whose size disagrees with
    /// the dimensions it claims.
    pub fn new(width: u32, height: u32, pixels: Vec<u8>) -> (r: Option<Frame>)
        ensures
            r is Some <==> pixels@.len() == frame_byte_count(width, height),
            r matches Some(f) ==> {
                &&& f.width == width
                &&& f.height == height
                &&& f.pixels@ == pixels@
                &&& f.wf()
            },
    {
        proof {
            assert((width as int) * (height as int) * (BYTES_PER_PIXEL as int)
                <= 0xffff_ffff * 0xffff_ffff * 4) by (nonlinear_arith)
                requires
                    width <= 0xffff_ffffu32,
                    height <= 0xffff_ffffu32,
            ;
        }
        let expected: u128 =
            (width as u128) * (height as u128) * (BYTES_PER_PIXEL as u128);
        if (pixels.len() as u128) == expected {
            Some(Frame { width, height, pixels })
        } else {
            None
        }
    }
}

/// The frame shown while no capture stream is open.
pub fn placeholder() -> (r: Frame)
    ensures
        is_placeholder(r),
        r.wf(),
{
    let total: usize = 4_000_000;
    let mut pixels: Vec<u8> = Vec::new();
    let mut i: usize = 0;
    while i < total
        invariant
            i <= total,
            pixels@.len() == i,
            forall|j: int| 0 <= j < i ==> pixels@[j] == 0u8,
        decreases total - i,
    {
        pixels.push(0u8);
        i = i + 1;
    }
    Frame { width: PLACEHOLDER_SIDE, height: PLACEHOLDER_SIDE, pixels }
}

} // verus!
