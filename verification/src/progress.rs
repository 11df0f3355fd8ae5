//! Progress marks for a render that goes through the pixels in order.

use vstd::prelude::*;

verus! {

/// What to show before a pixel is rendered.
#[derive(Clone, Copy, Debug, PartialEq, Eq, Structural)]
pub enum Mark {
    /// The opening of the progress bar.
    Open,
    /// One more tick of the bar.
    Tick,
    /// Nothing.
    Quiet,
}

/// The progress to show for one pixel.
#[derive(Clone, Copy, Debug, PartialEq, Eq, Structural)]
pub struct Progress {
    /// What to show before the pixel.
    pub mark: Mark,
    /// Whether the pixel is the last, after which the bar is closed.
    pub last: bool,
}

/// The number of pixels between two ticks: a fiftieth of the image.
pub open spec fn stride(width: int, height: int) -> int {
    (width * height) / 50
}

/// The mark for the pixel at place `current` of an image.
pub open spec fn mark_of(current: int, width: int, height: int) -> Mark {
    if current == 0 {
        Mark::Open
    } else if current % stride(width, height) == 0 {
        Mark::Tick
    } else {
        Mark::Quiet
    }
}

/// The progress to show for the pixel in column `x` of row `y`.
///
/// The bar opens at the first pixel, gains a tick at every further pixel
/// whose place is a multiple of a fiftieth of the image, and closes after
/// the last. The places of the image's pixels must be countable in 32 bits,
/// and past the first pixel the image must hold at least fifty, so that a
/// fiftieth of it is at least one.
pub fn progress(x: u32, y: u32, width: u32, height: u32) -> (p: Progress)
    requires
        width * y + x <= u32::MAX,
        1 <= width * height <= u32::MAX,
        width * y + x != 0 ==> width * height >= 50,
    ensures
        p.mark == mark_of(width * y + x, width as int, height as int),
        p.last <==> width * y + x == width * height - 1,
{
    assert(0 <= width * y) by (nonlinear_arith);
    let current: u32 = width * y + x;
    let max: u32 = width * height;
    let mark = if current == 0 {
        Mark::Open
    } else if current % (max / 50) == 0 {
        Mark::Tick
    } else {
        Mark::Quiet
    };
    Progress { mark, last: current == max - 1 }
}

} // verus!
