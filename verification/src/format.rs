//! Pixel-format codes and the format request the viewer makes.

use vstd::prelude::*;

verus! {

/// A four-character pixel-format code, as capture devices report it.
#[derive(Clone, Copy, Debug, PartialEq, Eq, Structural)]
pub struct FourCC {
    pub b0: u8,
    pub b1: u8,
    pub b2: u8,
    pub b3: u8,
}

impl FourCC {
    /// Build a code from its four bytes.
    pub fn new(bytes: [u8; 4]) -> (r: FourCC)
        ensures
            r.b0 == bytes[0],
            r.b1 == bytes[1],
            r.b2 == bytes[2],
            r.b3 == bytes[3],
    {
        FourCC { b0: bytes[0], b1: bytes[1], b2: bytes[2], b3: bytes[3] }
    }

    /// The four bytes of the code, in order, for display by a caller.
    pub fn label_bytes(&self) -> (r: Vec<u8>)
        ensures
            r@ =~= seq![self.b0, self.b1, self.b2, self.b3],
    {
        let mut v: Vec<u8> = Vec::new();
        v.push(self.b0);
        v.push(self.b1);
        v.push(self.b2);
        v.push(self.b3);
        v
    }
}

/// A capture format: resolution and pixel encoding.
#[derive(Clone, Copy, Debug, PartialEq, Eq, Structural)]
pub struct Format {
    pub width: u32,
    pub height: u32,
    pub fourcc: FourCC,
}

/// The pixel encoding the viewer insists on: "AB24", 32-bit RGBA.
pub open spec fn desired_fourcc() -> FourCC {
    FourCC { b0: 65, b1: 66, b2: 50, b3: 52 }
}

/// The format the viewer asks of every device: 1280x720 in "AB24".
pub open spec fn desired_format() -> Format {
    Format { width: 1280, height: 720, fourcc: desired_fourcc() }
}

/// The format to hand to a device when opening it.
pub fn requested_format() -> (r: Format)
    ensures
        r == desired_format(),
{
    Format { width: 1280, height: 720, fourcc: FourCC::new([65, 66, 50, 52]) }
}

/// Whether a format a device granted is acceptable: only the pixel
/// encoding matters; a device may grant another resolution.
pub fn grant_accepted(granted: &Format) -> (r: bool)
    ensures
        r == (granted.fourcc == desired_fourcc()),
{
    let want = FourCC::new([65, 66, 50, 52]);
    granted.fourcc == want
}

} // verus!
