//! The framebuffer: a fixed-size 2D grid of pixels in row-major order.

use vstd::prelude::*;

verus! {

/// A `width` x `height` grid of pixels, stored row-major: the pixel at
/// `(x, y)` lives at flat index `y * width + x`.
///
/// Row `y = 0` is the bottom of the rendered scene; the serializer emits
/// rows top-first (see `ppm`), so image row 0 is the top.
pub struct Framebuf<Pixel> {
    pub width: u32,
    pub height: u32,
    pub buffer: Vec<Pixel>,
}

impl<Pixel> View for Framebuf<Pixel> {
    type V = Seq<Pixel>;

    open spec fn view(&self) -> Seq<Pixel> {
        self.buffer@
    }
}

impl<Pixel> Framebuf<Pixel> {
    /// The grid is well formed: the backing storage holds exactly one
    /// pixel per grid cell, and the cell count fits a `usize`.
    pub open spec fn wf(&self) -> bool {
        &&& self@.len() == self.width as int * self.height as int
        &&& self.width as int * self.height as int <= usize::MAX as int
    }

    /// The pixel stored at `(x, y)`.
    pub open spec fn pixel_at(&self, x: int, y: int) -> Pixel {
        self@[y * self.width as int + x]
    }

    /// Maps a 2D index to the flat row-major index.
    pub fn flat_ix(&self, index: (u32, u32)) -> (i: usize)
        requires
            self.wf(),
            index.0 < self.width,
            index.1 < self.height,
        ensures
            i == index.1 as int * self.width as int + index.0 as int,
            i < self@.len(),
    {
        proof {
            lemma_flat_ix_in_range(
                index.0 as int,
                index.1 as int,
                self.width as int,
                self.height as int,
            );
        }
        index.1 as usize * self.width as usize + index.0 as usize
    }
}

impl<Pixel: Copy> Framebuf<Pixel> {
    /// Builds a framebuffer with every pixel set to `init`.
    pub fn new(width: u32, height: u32, init: Pixel) -> (fb: Self)
        requires
            width as int * height as int <= usize::MAX as int,
        ensures
            fb.wf(),
            fb.width == width,
            fb.height == height,
            forall|i: int| 0 <= i < fb@.len() ==> fb@[i] == init,
            forall|x: int, y: int|
                0 <= x < width && 0 <= y < height ==> fb.pixel_at(x, y) == init,
    {
        let bufsize: usize = (width as usize) * (height as usize);
        let mut vec: Vec<Pixel> = Vec::new();
        while vec.len() < bufsize
            invariant
                vec.len() <= bufsize,
                forall|i: int| 0 <= i < vec.len() ==> vec@[i] == init,
            decreases bufsize - vec.len(),
        {
            vec.push(init);
        }
        let fb = Self { width, height, buffer: vec };
        proof {
            assert forall|x: int, y: int|
                0 <= x < width && 0 <= y < height implies fb.pixel_at(x, y) == init by {
                lemma_flat_ix_in_range(x, y, width as int, height as int);
            }
        }
        fb
    }

    /// Reads the pixel at `(x, y)`.
    pub fn pixel(&self, x: u32, y: u32) -> (p: Pixel)
        requires
            self.wf(),
            x < self.width,
            y < self.height,
        ensures
            p == self.pixel_at(x as int, y as int),
    {
        let i = self.flat_ix((x, y));
        self.buffer[i]
    }

    /// Overwrites the pixel at `(x, y)`, leaving every other pixel as it
    /// was.
    pub fn set_pixel(&mut self, x: u32, y: u32, p: Pixel)
        requires
            old(self).wf(),
            x < old(self).width,
            y < old(self).height,
        ensures
            final(self).wf(),
            final(self).width == old(self).width,
            final(self).height == old(self).height,
            final(self)@ == old(self)@.update(
                y as int * old(self).width as int + x as int,
                p,
            ),
            final(self).pixel_at(x as int, y as int) == p,
            forall|i: int, j: int|
                0 <= i < old(self).width && 0 <= j < old(self).height && !(i == x && j == y)
                    ==> final(self).pixel_at(i, j) == old(self).pixel_at(i, j),
    {
        let i = self.flat_ix((x, y));
        self.buffer[i] = p;
        proof {
            let w = self.width as int;
            let h = self.height as int;
            assert forall|i: int, j: int|
                0 <= i < w && 0 <= j < h && !(i == x as int && j == y as int) implies self.pixel_at(
                i,
                j,
            ) == old(self).pixel_at(i, j) by {
                lemma_flat_ix_in_range(i, j, w, h);
                lemma_flat_ix_injective(w, i, j, x as int, y as int);
            }
        }
    }
}

/// A row-major index computed from an in-range 2D index is in range.
proof fn lemma_flat_ix_in_range(x: int, y: int, w: int, h: int)
    requires
        0 <= x < w,
        0 <= y < h,
    ensures
        0 <= y * w + x < h * w,
        h * w == w * h,
{
    assert(y * w + x < h * w) by (nonlinear_arith)
        requires
            0 <= x < w,
            0 <= y < h,
    ;
}

/// Distinct in-range 2D indices map to distinct row-major indices.
proof fn lemma_flat_ix_injective(w: int, x1: int, y1: int, x2: int, y2: int)
    requires
        0 <= x1 < w,
        0 <= x2 < w,
        0 <= y1,
        0 <= y2,
        !(x1 == x2 && y1 == y2),
    ensures
        y1 * w + x1 != y2 * w + x2,
{
    assert(y1 * w + x1 != y2 * w + x2) by (nonlinear_arith)
        requires
            0 <= x1 < w,
            0 <= x2 < w,
            0 <= y1,
            0 <= y2,
            !(x1 == x2 && y1 == y2),
    ;
}

} // verus!
