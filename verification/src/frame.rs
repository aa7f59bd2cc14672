//! The frame buffer the rendering pipeline draws into.

use vstd::prelude::*;

verus! {

/// Frame width in pixels.
pub const WIDTH: usize = 256;

/// Frame height in pixels.
pub const HEIGHT: usize = 240;

/// A fixed 256 x 240 grid of RGB pixels, three bytes per pixel in row-major
/// order.
pub struct Frame {
    pub data: Vec<u8>,
}

impl Frame {
    /// Well-formedness: three bytes for each of the 256 x 240 pixels.
    pub open spec fn wf(self) -> bool {
        self.data@.len() == WIDTH * HEIGHT * 3
    }

    /// Paints the pixel at (x, y) with the given RGB colour.
    pub fn set_pixel(&mut self, x: usize, y: usize, color: (u8, u8, u8))
        requires
            old(self).wf(),
            x < WIDTH,
            y < HEIGHT,
        ensures
            final(self).wf(),
            final(self).data@ == old(self).data@.update(
                (y * 3 * WIDTH + x * 3) as int,
                color.0,
            ).update((y * 3 * WIDTH + x * 3 + 1) as int, color.1).update(
                (y * 3 * WIDTH + x * 3 + 2) as int,
                color.2,
            ),
    {
        let first: usize = y * 3 * WIDTH + x * 3;
        self.data.set(first, color.0);
        self.data.set(first + 1, color.1);
        self.data.set(first + 2, color.2);
    }
}

impl Default for Frame {
    /// An all-black frame.
    fn default() -> (r: Frame)
        ensures
            r.wf(),
            r.data@ == Seq::new((WIDTH * HEIGHT * 3) as nat, |i: int| 0u8),
    {
        let total: usize = WIDTH * HEIGHT * 3;
        let mut data: Vec<u8> = Vec::new();
        let mut i: usize = 0;
        while i < total
            invariant
                i <= total,
                data@ == Seq::new(i as nat, |j: int| 0u8),
            decreases total - i,
        {
            data.push(0);
            proof {
                assert(Seq::new((i + 1) as nat, |j: int| 0u8) =~= Seq::new(
                    i as nat,
                    |j: int| 0u8,
                ).push(0u8));
            }
            i = i + 1;
        }
        Frame { data }
    }
}

} // verus!
