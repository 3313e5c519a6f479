//! Plain pixel buffers the verified logic works on.
//!
//! `RgbaBuf` carries four bytes per pixel, `RgbBuf` three, both row-major:
//! the channel `c` of the pixel at `(x, y)` sits at byte
//! `channels * (y * width + x) + c`.

use vstd::prelude::*;

verus! {

/// A decoded image with four channels (red, green, blue, alpha) per pixel.
pub struct RgbaBuf {
    pub width: usize,
    pub height: usize,
    pub pixels: Vec<u8>,
}

impl RgbaBuf {
    pub open spec fn wf(&self) -> bool {
        self.pixels@.len() == 4 * (self.width as int) * (self.height as int)
    }

    /// Channel `c` of the pixel at `(x, y)`.
    pub open spec fn chan(&self, x: int, y: int, c: int) -> u8 {
        self.pixels@[4 * (y * (self.width as int) + x) + c]
    }

    pub fn get(&self, x: usize, y: usize, c: usize) -> (v: u8)
        requires
            self.wf(),
            x < self.width,
            y < self.height,
            c < 4,
        ensures
            v == self.chan(x as int, y as int, c as int),
    {
        let n = self.pixels.len();
        proof {
            assert(0 <= (y as int) * (self.width as int) && (y as int) * (self.width as int) + (
            x as int) < self.pixels@.len() && 4 * ((y as int) * (self.width as int) + (x as int))
                + (c as int) < self.pixels@.len()) by (nonlinear_arith)
                requires
                    self.pixels@.len() == 4 * (self.width as int) * (self.height as int),
                    0 <= (x as int) < (self.width as int),
                    0 <= (y as int) < (self.height as int),
                    0 <= (c as int) < 4,
            ;
        }
        self.pixels[4 * (y * self.width + x) + c]
    }
}

/// A decoded image with three channels (red, green, blue) per pixel.
pub struct RgbBuf {
    pub width: usize,
    pub height: usize,
    pub pixels: Vec<u8>,
}

impl RgbBuf {
    pub open spec fn wf(&self) -> bool {
        self.pixels@.len() == 3 * (self.width as int) * (self.height as int)
    }

    /// Channel `c` of the pixel at `(x, y)`.
    pub open spec fn chan(&self, x: int, y: int, c: int) -> u8 {
        self.pixels@[3 * (y * (self.width as int) + x) + c]
    }

    pub fn get(&self, x: usize, y: usize, c: usize) -> (v: u8)
        requires
            self.wf(),
            x < self.width,
            y < self.height,
            c < 3,
        ensures
            v == self.chan(x as int, y as int, c as int),
    {
        let n = self.pixels.len();
        proof {
            assert(0 <= (y as int) * (self.width as int) && (y as int) * (self.width as int) + (
            x as int) < self.pixels@.len() && 3 * ((y as int) * (self.width as int) + (x as int))
                + (c as int) < self.pixels@.len()) by (nonlinear_arith)
                requires
                    self.pixels@.len() == 3 * (self.width as int) * (self.height as int),
                    0 <= (x as int) < (self.width as int),
                    0 <= (y as int) < (self.height as int),
                    0 <= (c as int) < 3,
            ;
        }
        self.pixels[3 * (y * self.width + x) + c]
    }
}

/// A byte-for-byte copy of a pixel vector.
pub fn copy_bytes(src: &Vec<u8>) -> (out: Vec<u8>)
    ensures
        out@ == src@,
{
    let mut out: Vec<u8> = Vec::new();
    let mut i: usize = 0;
    while i < src.len()
        invariant
            i <= src@.len(),
            out@ == src@.subrange(0, i as int),
        decreases src@.len() - i,
    {
        out.push(src[i]);
        i = i + 1;
    }
    proof {
        assert(out@ =~= src@);
    }
    out
}

} // verus!
