//! Hand-over of a depth frame to a display surface.

use vstd::prelude::*;
use crate::frame::{column_of, pixel_at, pixel_count, row_of, DepthFrame};

verus! {

/// One write to the display surface: the pixel at column `x`, row `y`
/// takes the colour `rgb`.
#[derive(Clone, Copy, Debug, PartialEq, Eq)]
pub struct PixelFill {
    pub x: u32,
    pub y: u32,
    pub rgb: (u8, u8, u8),
}

/// The grey of a depth byte: the byte in each of the three channels.
pub open spec fn gray(depth: u8) -> (u8, u8, u8) {
    (depth, depth, depth)
}

/// The write that shows byte `idx` of a frame `width` pixels wide.
pub open spec fn fill_of(depths: Seq<u8>, width: u32, idx: int) -> PixelFill {
    PixelFill {
        x: column_of(idx, width),
        y: row_of(idx, width),
        rgb: gray(depths[idx]),
    }
}

/// The colour in which a depth byte is shown.
pub fn grayscale(depth: u8) -> (rgb: (u8, u8, u8))
    ensures
        rgb == gray(depth),
{
    (depth, depth, depth)
}

/// The writes that show a frame: one per pixel, in the order of the linear
/// index, each the grey of the pixel's depth.
pub fn pixel_fills(frame: &DepthFrame) -> (fills: Vec<PixelFill>)
    ensures
        fills@.len() == frame@.len(),
        forall|idx: int|
            0 <= idx < fills@.len() ==> #[trigger] fills@[idx] == fill_of(
                frame@,
                frame.width(),
                idx,
            ),
{
    let width = frame.width();
    let height = frame.height();
    let depths = frame.depths();
    let mut fills: Vec<PixelFill> = Vec::new();
    let mut idx: usize = 0;
    while idx < depths.len()
        invariant
            idx <= depths@.len(),
            depths@ == frame@,
            width == frame.width(),
            depths@.len() == pixel_count(width, height),
            fills@.len() == idx,
            forall|i: int| 0 <= i < idx ==> #[trigger] fills@[i] == fill_of(depths@, width, i),
        decreases depths@.len() - idx,
    {
        let (x, y) = pixel_at(idx, width, height).unwrap();
        fills.push(PixelFill { x, y, rgb: grayscale(depths[idx]) });
        idx += 1;
    }
    fills
}

} // verus!
