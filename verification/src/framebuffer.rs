//! The framebuffer that applications draw to.

use vstd::prelude::*;

verus! {

/// One pixel.
#[derive(Clone, Copy, Debug, PartialEq, Eq, Structural)]
pub struct RGBA {
    pub r: u8,
    pub g: u8,
    pub b: u8,
    pub a: u8,
}

/// The colour that the GPU driver fills the framebuffer with before it
/// shows it for the first time.
pub fn initial_fill() -> (c: RGBA)
    ensures
        c == (RGBA { r: 100, g: 120, b: 140, a: 125 }),
{
    RGBA { r: 100, g: 120, b: 140, a: 125 }
}

/// The framebuffer: `w` times `h` pixels, row by row, and a back buffer
/// of the same size.
pub struct FB {
    pub pixels: Vec<RGBA>,
    pub backbuffer: Vec<RGBA>,
    pub w: usize,
    pub h: usize,
}

/// The framebuffer as an application gets it for one call.
pub struct FBShare<'a> {
    pub pixels: &'a mut Vec<RGBA>,
    pub w: usize,
    pub h: usize,
}

/// The pixel that a new framebuffer holds at column `x` of row `y`: red
/// grows with the column and green with the row, both modulo 256.
pub open spec fn gradient(x: int, y: int) -> RGBA {
    RGBA { r: (x % 256) as u8, g: (y % 256) as u8, b: 0, a: 0 }
}

impl FB {
    /// Both buffers hold one pixel for each position.
    pub open spec fn wf(&self) -> bool {
        self.pixels@.len() == self.w * self.h && self.backbuffer@.len() == self.w * self.h
    }

    /// A framebuffer of `w` by `h` pixels, both buffers filled with a
    /// gradient.
    pub fn new(w: usize, h: usize) -> (r: Self)
        requires
            w * h <= usize::MAX,
        ensures
            r.wf(),
            r.w == w,
            r.h == h,
            r.backbuffer@ == r.pixels@,
            forall|i: int| 0 <= i < w * h ==> r.pixels@[i] == gradient(i % (w as int), i / (w as int)),
    {
        let mut pixels: Vec<RGBA> = Vec::new();
        let mut backbuffer: Vec<RGBA> = Vec::new();
        let mut y: usize = 0;
        while y < h
            invariant
                y <= h,
                w * h <= usize::MAX,
                pixels@.len() == y * w,
                backbuffer@ == pixels@,
                forall|i: int|
                    0 <= i < y * w ==> pixels@[i] == gradient(i % (w as int), i / (w as int)),
            decreases h - y,
        {
            let mut x: usize = 0;
            while x < w
                invariant
                    x <= w,
                    y < h,
                    w * h <= usize::MAX,
                    pixels@.len() == y * w + x,
                    backbuffer@ == pixels@,
                    forall|i: int|
                        0 <= i < y * w + x ==> pixels@[i] == gradient(
                            i % (w as int),
                            i / (w as int),
                        ),
                decreases w - x,
            {
                proof {
                    assert(y * w + x < w * h) by (nonlinear_arith)
                        requires
                            x < w,
                            y < h,
                    ;
                    vstd::arithmetic::div_mod::lemma_fundamental_div_mod_converse(
                        y * w + x,
                        w as int,
                        y as int,
                        x as int,
                    );
                }
                let pixel = RGBA { r: (x % 256) as u8, g: (y % 256) as u8, b: 0, a: 0 };
                pixels.push(pixel);
                backbuffer.push(pixel);
                x += 1;
            }
            assert((y + 1) * w == y * w + w) by (nonlinear_arith);
            y += 1;
        }
        assert(h * w == w * h) by (nonlinear_arith);
        FB { pixels, w, h, backbuffer }
    }

    /// Points the framebuffer at other pixels: `pixels` become the pixels
    /// that applications draw to, `w` wide and `h` high.
    pub fn update(&mut self, pixels: Vec<RGBA>, w: usize, h: usize)
        requires
            pixels@.len() == w * h,
        ensures
            final(self).pixels@ == pixels@,
            final(self).w == w,
            final(self).h == h,
            final(self).backbuffer == old(self).backbuffer,
    {
        self.pixels = pixels;
        self.w = w;
        self.h = h;
    }

    /// Lends the pixels, with the width and the height, for one call of
    /// an application.
    pub fn share(&mut self) -> (share: FBShare<'_>)
        ensures
            *share.pixels == old(self).pixels,
            share.w == old(self).w,
            share.h == old(self).h,
            final(self).pixels == *final(share.pixels),
            final(self).w == old(self).w,
            final(self).h == old(self).h,
            final(self).backbuffer == old(self).backbuffer,
    {
        FBShare { pixels: &mut self.pixels, w: self.w, h: self.h }
    }

    /// The bytes of the first `count` pixels, four for each pixel: red,
    /// green, blue, alpha.
    pub open spec fn bytes(pixels: Seq<RGBA>, count: int) -> Seq<u8>
        decreases count,
    {
        if count <= 0 {
            Seq::empty()
        } else {
            let p = pixels[count - 1];
            Self::bytes(pixels, count - 1) + seq![p.r, p.g, p.b, p.a]
        }
    }

    /// The pixels as the bytes that the display reads.
    pub fn flush(&self) -> (out: Vec<u8>)
        requires
            self.pixels@.len() * 4 <= usize::MAX,
        ensures
            out@ == Self::bytes(self.pixels@, self.pixels@.len() as int),
            out@.len() == 4 * self.pixels@.len(),
    {
        let mut out: Vec<u8> = Vec::new();
        let mut i: usize = 0;
        while i < self.pixels.len()
            invariant
                i <= self.pixels@.len(),
                out@ == Self::bytes(self.pixels@, i as int),
                out@.len() == 4 * i,
            decreases self.pixels@.len() - i,
        {
            let p: RGBA = self.pixels[i];
            let ghost before = out@;
            out.push(p.r);
            out.push(p.g);
            out.push(p.b);
            out.push(p.a);
            assert(out@ =~= before + seq![p.r, p.g, p.b, p.a]);
            i += 1;
        }
        out
    }
}

} // verus!
