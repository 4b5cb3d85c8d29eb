//! Pixel data in the layout of a drawing surface: four bytes to a pixel, red,
//! green, blue and alpha, one pixel after the other.

use vstd::prelude::*;

verus! {

/// Bytes to a pixel.
pub const CHANNELS: usize = 4;

/// The alpha of a pixel that hides what lies under it.
pub const OPAQUE: u8 = 255;

/// `count` opaque pixels of one colour, as a sequence of bytes.
pub open spec fn opaque_run(red: u8, green: u8, blue: u8, count: nat) -> Seq<u8> {
    Seq::new(
        4 * count,
        |i: int|
            if i % 4 == 0 {
                red
            } else if i % 4 == 1 {
                green
            } else if i % 4 == 2 {
                blue
            } else {
                255u8
            },
    )
}

/// A rectangle of pixel data and the place on the surface where its top left
/// corner goes.
#[derive(Debug)]
pub struct Patch {
    pub data: Vec<u8>,
    pub width: u32,
    pub height: u32,
    pub left: u32,
    pub top: u32,
}

impl Patch {
    /// The data holds exactly one pixel for each cell of the rectangle.
    pub open spec fn wf(&self) -> bool {
        self.data@.len() == 4 * self.width * self.height
    }
}

/// Builds the data of `count` opaque pixels of the colour given.
pub fn opaque_pixels(red: u8, green: u8, blue: u8, count: usize) -> (data: Vec<u8>)
    ensures
        data@ == opaque_run(red, green, blue, count as nat),
{
    let mut data: Vec<u8> = Vec::new();
    let mut done: usize = 0;
    while done < count
        invariant
            done <= count,
            data@ == opaque_run(red, green, blue, done as nat),
        decreases count - done,
    {
        data.push(red);
        data.push(green);
        data.push(blue);
        data.push(OPAQUE);
        done = done + 1;
    }
    data
}

/// The patch that is drawn once at startup to show that the surface is
/// reached: a single opaque red pixel, ten pixels in from the left and ten
/// down from the top.
pub fn startup_patch() -> (patch: Patch)
    ensures
        patch.wf(),
        patch.data@ == seq![255u8, 0u8, 0u8, 255u8],
        patch.width == 1,
        patch.height == 1,
        patch.left == 10,
        patch.top == 10,
{
    let data = opaque_pixels(255, 0, 0, 1);
    Patch { data, width: 1, height: 1, left: 10, top: 10 }
}

} // verus!
