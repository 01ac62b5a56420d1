//! Small helpers around the core: a deterministic pseudo-random source, the
//! fixed colour palette, and the frame buffer the picture unit draws into.

use vstd::prelude::*;

verus! {

/// One red, green, blue triple.
pub type PPUColor = (u8, u8, u8);

/// The next state of the exclusive-or shift generator.
pub open spec fn xorshift_next(x: u64) -> u64 {
    ((x ^ (x << 13u64)) ^ ((x ^ (x << 13u64)) >> 7u64)) ^ (((x ^ (x << 13u64)) ^ ((x ^ (x
        << 13u64)) >> 7u64)) << 17u64)
}

/// A small deterministic pseudo-random generator: three exclusive-or shifts
/// per draw. The same seed always yields the same stream.
pub struct XORShiftRand {
    /// The generator state; the last value drawn.
    pub state: u64,
}

impl XORShiftRand {
    /// A generator starting from `init`.
    pub fn new(init: u64) -> (r: XORShiftRand)
        ensures
            r.state == init,
    {
        XORShiftRand { state: init }
    }

    /// Draw the next value and keep it as the new state.
    pub fn rand(&mut self) -> (r: u64)
        ensures
            r == xorshift_next(old(self).state),
            final(self).state == r,
    {
        let mut x = self.state;
        x = x ^ (x << 13u64);
        x = x ^ (x >> 7u64);
        x = x ^ (x << 17u64);
        self.state = x;
        x
    }
}

/// The composite palette as a specification: the red, green and blue
/// levels of each colour index, folded at sixty-four.
pub open spec fn spec_ppu_color(i: int) -> (u8, u8, u8) {
    let k = i % 64;
    if k == 0 {
        (84u8, 84u8, 84u8)
    } else if k == 1 {
        (0u8, 30u8, 116u8)
    } else if k == 2 {
        (8u8, 16u8, 144u8)
    } else if k == 3 {
        (48u8, 0u8, 136u8)
    } else if k == 4 {
        (68u8, 0u8, 100u8)
    } else if k == 5 {
        (92u8, 0u8, 48u8)
    } else if k == 6 {
        (84u8, 4u8, 0u8)
    } else if k == 7 {
        (60u8, 24u8, 0u8)
    } else if k == 8 {
        (32u8, 42u8, 0u8)
    } else if k == 9 {
        (8u8, 58u8, 0u8)
    } else if k == 10 {
        (0u8, 64u8, 0u8)
    } else if k == 11 {
        (0u8, 60u8, 0u8)
    } else if k == 12 {
        (0u8, 50u8, 60u8)
    } else if k == 13 {
        (0u8, 0u8, 0u8)
    } else if k == 14 {
        (0u8, 0u8, 0u8)
    } else if k == 15 {
        (0u8, 0u8, 0u8)
    } else if k == 16 {
        (152u8, 150u8, 152u8)
    } else if k == 17 {
        (8u8, 76u8, 196u8)
    } else if k == 18 {
        (48u8, 50u8, 236u8)
    } else if k == 19 {
        (92u8, 30u8, 228u8)
    } else if k == 20 {
        (136u8, 20u8, 176u8)
    } else if k == 21 {
        (160u8, 20u8, 100u8)
    } else if k == 22 {
        (152u8, 34u8, 32u8)
    } else if k == 23 {
        (120u8, 60u8, 0u8)
    } else if k == 24 {
        (84u8, 90u8, 0u8)
    } else if k == 25 {
        (40u8, 114u8, 0u8)
    } else if k == 26 {
        (8u8, 124u8, 0u8)
    } else if k == 27 {
        (0u8, 118u8, 40u8)
    } else if k == 28 {
        (0u8, 102u8, 120u8)
    } else if k == 29 {
        (0u8, 0u8, 0u8)
    } else if k == 30 {
        (0u8, 0u8, 0u8)
    } else if k == 31 {
        (0u8, 0u8, 0u8)
    } else if k == 32 {
        (236u8, 238u8, 236u8)
    } else if k == 33 {
        (76u8, 154u8, 236u8)
    } else if k == 34 {
        (120u8, 124u8, 236u8)
    } else if k == 35 {
        (176u8, 98u8, 236u8)
    } else if k == 36 {
        (228u8, 84u8, 236u8)
    } else if k == 37 {
        (236u8, 88u8, 180u8)
    } else if k == 38 {
        (236u8, 106u8, 100u8)
    } else if k == 39 {
        (212u8, 136u8, 32u8)
    } else if k == 40 {
        (160u8, 170u8, 0u8)
    } else if k == 41 {
        (116u8, 196u8, 0u8)
    } else if k == 42 {
        (76u8, 208u8, 32u8)
    } else if k == 43 {
        (56u8, 204u8, 108u8)
    } else if k == 44 {
        (56u8, 180u8, 204u8)
    } else if k == 45 {
        (60u8, 60u8, 60u8)
    } else if k == 46 {
        (0u8, 0u8, 0u8)
    } else if k == 47 {
        (0u8, 0u8, 0u8)
    } else if k == 48 {
        (236u8, 238u8, 236u8)
    } else if k == 49 {
        (168u8, 204u8, 236u8)
    } else if k == 50 {
        (188u8, 188u8, 236u8)
    } else if k == 51 {
        (212u8, 178u8, 236u8)
    } else if k == 52 {
        (236u8, 174u8, 236u8)
    } else if k == 53 {
        (236u8, 174u8, 212u8)
    } else if k == 54 {
        (236u8, 180u8, 176u8)
    } else if k == 55 {
        (228u8, 196u8, 144u8)
    } else if k == 56 {
        (204u8, 210u8, 120u8)
    } else if k == 57 {
        (180u8, 222u8, 120u8)
    } else if k == 58 {
        (168u8, 226u8, 144u8)
    } else if k == 59 {
        (152u8, 226u8, 180u8)
    } else if k == 60 {
        (160u8, 214u8, 228u8)
    } else if k == 61 {
        (160u8, 162u8, 160u8)
    } else if k == 62 {
        (0u8, 0u8, 0u8)
    } else {
        (0u8, 0u8, 0u8)
    }
}

/// The fixed composite palette of the picture unit: the red, green and blue
/// levels each of the 64 colour indices drives out.
pub fn ppu_color(index: usize) -> (r: (u8, u8, u8))
    ensures
        r == spec_ppu_color(index as int),
{
    match index % 64 {
        0 => (84, 84, 84),
        1 => (0, 30, 116),
        2 => (8, 16, 144),
        3 => (48, 0, 136),
        4 => (68, 0, 100),
        5 => (92, 0, 48),
        6 => (84, 4, 0),
        7 => (60, 24, 0),
        8 => (32, 42, 0),
        9 => (8, 58, 0),
        10 => (0, 64, 0),
        11 => (0, 60, 0),
        12 => (0, 50, 60),
        13 => (0, 0, 0),
        14 => (0, 0, 0),
        15 => (0, 0, 0),
        16 => (152, 150, 152),
        17 => (8, 76, 196),
        18 => (48, 50, 236),
        19 => (92, 30, 228),
        20 => (136, 20, 176),
        21 => (160, 20, 100),
        22 => (152, 34, 32),
        23 => (120, 60, 0),
        24 => (84, 90, 0),
        25 => (40, 114, 0),
        26 => (8, 124, 0),
        27 => (0, 118, 40),
        28 => (0, 102, 120),
        29 => (0, 0, 0),
        30 => (0, 0, 0),
        31 => (0, 0, 0),
        32 => (236, 238, 236),
        33 => (76, 154, 236),
        34 => (120, 124, 236),
        35 => (176, 98, 236),
        36 => (228, 84, 236),
        37 => (236, 88, 180),
        38 => (236, 106, 100),
        39 => (212, 136, 32),
        40 => (160, 170, 0),
        41 => (116, 196, 0),
        42 => (76, 208, 32),
        43 => (56, 204, 108),
        44 => (56, 180, 204),
        45 => (60, 60, 60),
        46 => (0, 0, 0),
        47 => (0, 0, 0),
        48 => (236, 238, 236),
        49 => (168, 204, 236),
        50 => (188, 188, 236),
        51 => (212, 178, 236),
        52 => (236, 174, 236),
        53 => (236, 174, 212),
        54 => (236, 180, 176),
        55 => (228, 196, 144),
        56 => (204, 210, 120),
        57 => (180, 222, 120),
        58 => (168, 226, 144),
        59 => (152, 226, 180),
        60 => (160, 214, 228),
        61 => (160, 162, 160),
        62 => (0, 0, 0),
        _ => (0, 0, 0),
    }
}

/// A frame buffer of 8-bit red, green, blue, alpha samples, row-major from
/// the top-left corner.
pub struct Screen {
    /// Width in pixels.
    pub width: usize,
    /// Height in pixels.
    pub height: usize,
    /// The sample bytes, four per pixel.
    pub image: Vec<u8>,
}

impl Screen {
    /// Whether the buffer has exactly four bytes per pixel.
    pub open spec fn wf(&self) -> bool {
        self.image@.len() == self.width * self.height * 4
    }

    /// A black, fully transparent buffer of the given size.
    pub fn new(width: usize, height: usize) -> (r: Screen)
        requires
            width * height * 4 <= usize::MAX,
        ensures
            r.wf(),
            r.width == width,
            r.height == height,
    {
        proof {
            vstd::arithmetic::mul::lemma_mul_nonnegative(width as int, height as int);
        }
        let count: usize = width * height * 4;
        let mut image: Vec<u8> = Vec::new();
        let mut i: usize = 0;
        while i < count
            invariant
                i <= count,
                image@.len() == i,
            decreases count - i,
        {
            image.push(0);
            i = i + 1;
        }
        Screen { width, height, image }
    }

    /// Paint one pixel opaque with the given colour.
    pub fn set_pixel(&mut self, x: usize, y: usize, color: PPUColor)
        requires
            old(self).wf(),
            x < old(self).width,
            y < old(self).height,
        ensures
            final(self).wf(),
            final(self).width == old(self).width,
            final(self).height == old(self).height,
            final(self).image@ == old(self).image@.update(
                (old(self).width * y + x) * 4,
                color.0,
            ).update((old(self).width * y + x) * 4 + 1, color.1).update(
                (old(self).width * y + x) * 4 + 2,
                color.2,
            ).update((old(self).width * y + x) * 4 + 3, 255u8),
    {
        let n = self.image.len();
        proof {
            assert((self.width * y + x) * 4 + 3 < self.width * self.height * 4) by (nonlinear_arith)
                requires
                    x < self.width,
                    y < self.height,
            ;
        }
        let pos: usize = (self.width * y + x) * 4;
        self.image.set(pos, color.0);
        self.image.set(pos + 1, color.1);
        self.image.set(pos + 2, color.2);
        self.image.set(pos + 3, 255);
    }

    /// Width in pixels.
    pub fn width(&self) -> (r: usize)
        ensures
            r == self.width,
    {
        self.width
    }

    /// Height in pixels.
    pub fn height(&self) -> (r: usize)
        ensures
            r == self.height,
    {
        self.height
    }

    /// The sample bytes.
    pub fn image(&self) -> (r: &Vec<u8>)
        ensures
            r@ == self.image@,
    {
        &self.image
    }

    /// Copy the whole buffer into `buffer`, which must have the same length.
    pub fn copy_to(&self, buffer: &mut Vec<u8>)
        requires
            old(buffer)@.len() == self.image@.len(),
        ensures
            final(buffer)@ == self.image@,
    {
        let len = self.image.len();
        let mut i: usize = 0;
        while i < len
            invariant
                i <= len == self.image@.len(),
                buffer@.len() == self.image@.len(),
                forall|j: int| 0 <= j < i ==> buffer@[j] == self.image@[j],
            decreases len - i,
        {
            buffer.set(i, self.image[i]);
            i = i + 1;
        }
        proof {
            assert(buffer@ =~= self.image@);
        }
    }
}

} // verus!
