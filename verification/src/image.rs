use vstd::prelude::*;
use vstd::pervasive::VecAdditionalExecFns;
use crate::color::Rgba;

verus! {

/// A raster image: width, height and a row-major RGBA pixel buffer,
/// four bytes per pixel. This is the working copy that the controller
/// owns and mutates in place during keying.
pub struct Image {
    pub width: usize,
    pub height: usize,
    pub data: Vec<u8>,
}

impl Image {
    /// The buffer holds exactly four bytes for every pixel.
    pub open spec fn wf(self) -> bool {
        self.data@.len() == self.width * self.height * 4
    }

    /// The pixel at column `x` of row `y`.
    pub open spec fn spec_pixel(self, x: int, y: int) -> Rgba {
        let i = (y * self.width + x) * 4;
        Rgba {
            r: self.data@[i],
            g: self.data@[i + 1],
            b: self.data@[i + 2],
            a: self.data@[i + 3],
        }
    }

    /// Builds an image from a raw RGBA buffer; succeeds exactly when the
    /// buffer length matches the dimensions.
    pub fn from_pixels(width: usize, height: usize, data: Vec<u8>) -> (r: Option<Image>)
        ensures
            r is Some <==> data@.len() == width * height * 4,
            r matches Some(img) ==> img == (Image { width, height, data: data }),
            r matches Some(img) ==> img.wf(),
    {
        proof {
            assert(data.len() == data@.len());
        }
        match width.checked_mul(height) {
            Some(n) => match n.checked_mul(4) {
                Some(bytes) => {
                    if bytes == data.len() {
                        Some(Image { width, height, data })
                    } else {
                        None
                    }
                },
                None => None,
            },
            None => {
                proof {
                    assert(width * height * 4 >= width * height) by (nonlinear_arith);
                }
                None
            },
        }
    }

    /// The pixel count fits the machine word that indexes the buffer.
    pub proof fn lemma_area_fits(self)
        requires
            self.wf(),
        ensures
            self.width * self.height * 4 == self.data@.len(),
            0 <= self.width * self.height,
            self.width * self.height <= usize::MAX,
    {
        assert(self.data.len() == self.data@.len());
        assert(0 <= self.width * self.height && self.width * self.height <= self.width
            * self.height * 4) by (nonlinear_arith);
    }

    proof fn lemma_pixel_index_in_bounds(self, x: int, y: int)
        requires
            self.wf(),
            0 <= x < self.width,
            0 <= y < self.height,
        ensures
            0 <= (y * self.width + x) * 4,
            (y * self.width + x) * 4 + 3 < self.data@.len(),
            self.data@.len() <= usize::MAX,
    {
        assert(self.data.len() == self.data@.len());
        assert((y * self.width + x) * 4 + 3 < self.width * self.height * 4) by (nonlinear_arith)
            requires
                0 <= x < self.width,
                0 <= y < self.height,
        ;
        assert(0 <= (y * self.width + x) * 4) by (nonlinear_arith)
            requires
                0 <= x,
                0 <= y,
                0 <= self.width,
        ;
    }

    /// Reads the pixel at `(x, y)`.
    pub fn get_pixel(&self, x: usize, y: usize) -> (p: Rgba)
        requires
            self.wf(),
            x < self.width,
            y < self.height,
        ensures
            p == self.spec_pixel(x as int, y as int),
    {
        proof {
            self.lemma_pixel_index_in_bounds(x as int, y as int);
        }
        let i: usize = (y * self.width + x) * 4;
        Rgba {
            r: self.data[i],
            g: self.data[i + 1],
            b: self.data[i + 2],
            a: self.data[i + 3],
        }
    }

    /// Overwrites the pixel at `(x, y)`; every other pixel keeps its value.
    pub fn set_pixel(&mut self, x: usize, y: usize, c: Rgba)
        requires
            old(self).wf(),
            x < old(self).width,
            y < old(self).height,
        ensures
            final(self).wf(),
            final(self).width == old(self).width,
            final(self).height == old(self).height,
            final(self).spec_pixel(x as int, y as int) == c,
            forall|xx: int, yy: int|
                0 <= xx < old(self).width && 0 <= yy < old(self).height
                    && !(xx == x && yy == y)
                    ==> final(self).spec_pixel(xx, yy) == old(self).spec_pixel(xx, yy),
    {
        proof {
            self.lemma_pixel_index_in_bounds(x as int, y as int);
        }
        let i: usize = (y * self.width + x) * 4;
        self.data.set(i, c.r);
        self.data.set(i + 1, c.g);
        self.data.set(i + 2, c.b);
        self.data.set(i + 3, c.a);
        proof {
            assert forall|xx: int, yy: int|
                0 <= xx < old(self).width && 0 <= yy < old(self).height && !(xx == x && yy == y)
                    implies self.spec_pixel(xx, yy) == old(self).spec_pixel(xx, yy) by {
                Self::lemma_pixel_index_injective(
                    old(self).width as int, x as int, y as int, xx, yy);
                old(self).lemma_pixel_index_in_bounds(xx, yy);
            }
        }
    }

    proof fn lemma_pixel_index_injective(w: int, x: int, y: int, xx: int, yy: int)
        requires
            0 <= x < w,
            0 <= xx < w,
            0 <= y,
            0 <= yy,
            !(xx == x && yy == y),
        ensures
            yy * w + xx != y * w + x,
    {
        assert(yy * w + xx != y * w + x) by (nonlinear_arith)
            requires
                0 <= x < w,
                0 <= xx < w,
                0 <= y,
                0 <= yy,
                !(xx == x && yy == y),
        ;
    }
}

} // verus!
