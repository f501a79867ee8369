use vstd::prelude::*;

verus! {

/// One pixel of an image, as three 8-bit channels.
#[derive(Clone, Copy, Debug, PartialEq, Eq, Structural)]
pub struct Pixel {
    pub r: u8,
    pub g: u8,
    pub b: u8,
}

/// ASCII code of the digit `0`; the other digits follow it in order.
pub const ASCII_ZERO: u8 = 48;

/// ASCII code of the space that separates the header's fields.
pub const ASCII_SPACE: u8 = 32;

/// ASCII code of the newline that ends the header.
pub const ASCII_NEWLINE: u8 = 10;

/// ASCII code of the letter `P` that opens the header.
pub const ASCII_P: u8 = 80;

/// The decimal digits of `n` in ASCII, most significant first, with no
/// leading zeros.
pub open spec fn decimal(n: nat) -> Seq<u8>
    decreases n,
{
    if n < 10 {
        seq![(ASCII_ZERO + n) as u8]
    } else {
        decimal(n / 10).push((ASCII_ZERO + n % 10) as u8)
    }
}

/// The binary PPM header `P6 <width> <height> 255` followed by a newline.
pub open spec fn header_of(width: nat, height: nat) -> Seq<u8> {
    seq![ASCII_P, (ASCII_ZERO + 6) as u8, ASCII_SPACE] + decimal(width) + seq![ASCII_SPACE]
        + decimal(height) + seq![ASCII_SPACE] + decimal(255) + seq![ASCII_NEWLINE]
}

/// Appends the decimal digits of `n` to `out`.
fn push_decimal(out: &mut Vec<u8>, n: u32)
    ensures
        final(out)@ == old(out)@ + decimal(n as nat),
    decreases n,
{
    if n >= 10 {
        push_decimal(out, n / 10);
    }
    let digit: u8 = (n % 10) as u8;
    out.push(ASCII_ZERO + digit);
    proof {
        if n < 10 {
            assert(decimal(n as nat) =~= seq![(ASCII_ZERO + n) as u8]);
        } else {
            assert(decimal(n as nat) == decimal((n / 10) as nat).push((ASCII_ZERO + n % 10) as u8));
        }
        assert(final(out)@ =~= old(out)@ + decimal(n as nat));
    }
}

/// Index of the first byte of pixel `(x, y)` in a row-major buffer of
/// three bytes per pixel and `width` pixels per row.
pub open spec fn offset_of(width: nat, x: nat, y: nat) -> nat {
    3 * (y * width + x)
}

/// An in-memory RGB image of `width` by `height` pixels, three bytes per
/// pixel, stored row by row starting from row 0.
pub struct PPM {
    height: u32,
    width: u32,
    data: Vec<u8>,
}

impl PPM {
    /// Width in pixels.
    pub closed spec fn spec_width(&self) -> nat {
        self.width as nat
    }

    /// Height in pixels.
    pub closed spec fn spec_height(&self) -> nat {
        self.height as nat
    }

    /// The raw channel bytes, row by row.
    pub closed spec fn spec_data(&self) -> Seq<u8> {
        self.data@
    }

    /// The buffer holds three bytes for every pixel, and its size fits in a `u32`.
    pub closed spec fn wf(&self) -> bool {
        &&& 3 * (self.width * self.height) <= u32::MAX
        &&& self.data@.len() == 3 * (self.width * self.height)
    }

    /// The three bytes of pixel `(x, y)`, for a pixel inside the image.
    pub open spec fn spec_pixel(&self, x: nat, y: nat) -> Pixel {
        let o = offset_of(self.spec_width(), x, y) as int;
        Pixel { r: self.spec_data()[o], g: self.spec_data()[o + 1], b: self.spec_data()[o + 2] }
    }

    /// A black image of `width` by `height` pixels.
    pub fn new(width: u32, height: u32) -> (r: PPM)
        requires
            3 * (width * height) <= u32::MAX,
        ensures
            r.wf(),
            r.spec_width() == width,
            r.spec_height() == height,
            r.spec_data() == Seq::new((3 * (width * height)) as nat, |i: int| 0u8),
    {
        let pixels: u32 = width * height;
        let size: u32 = 3 * pixels;
        let buffer = vec![0u8; size as usize];
        proof {
            assert(buffer@ =~= Seq::new((3 * (width * height)) as nat, |i: int| 0u8));
        }
        PPM { height, width, data: buffer }
    }

    /// Width in pixels.
    pub fn width(&self) -> (r: u32)
        ensures
            r == self.spec_width(),
    {
        self.width
    }

    /// Height in pixels.
    pub fn height(&self) -> (r: u32)
        ensures
            r == self.spec_height(),
    {
        self.height
    }

    /// Number of bytes in the pixel buffer: three per pixel.
    pub fn buffer_size(&self) -> (r: u32)
        requires
            self.wf(),
        ensures
            r == 3 * (self.spec_width() * self.spec_height()),
            r == self.spec_data().len(),
    {
        3 * (self.width * self.height)
    }

    /// Index of the first byte of pixel `(x, y)`, or `None` when the pixel
    /// lies outside the image.
    pub fn get_offset(&self, x: u32, y: u32) -> (r: Option<usize>)
        requires
            self.wf(),
        ensures
            r is Some <==> x < self.spec_width() && y < self.spec_height(),
            r matches Some(o) ==> o == offset_of(self.spec_width(), x as nat, y as nat),
            r matches Some(o) ==> o + 2 < self.spec_data().len(),
    {
        if x < self.width && y < self.height {
            proof {
                assert(y * self.width + x < self.width * self.height) by (nonlinear_arith)
                    requires
                        x < self.width,
                        y < self.height,
                ;
            }
            let offset: u32 = 3 * (y * self.width + x);
            Some(offset as usize)
        } else {
            None
        }
    }

    /// The pixel at `(x, y)`, or `None` when it lies outside the image.
    pub fn get_pixel(&self, x: u32, y: u32) -> (r: Option<Pixel>)
        requires
            self.wf(),
        ensures
            r == (if x < self.spec_width() && y < self.spec_height() {
                Some(self.spec_pixel(x as nat, y as nat))
            } else {
                None
            }),
    {
        match self.get_offset(x, y) {
            Some(offset) => {
                Some(
                    Pixel {
                        r: self.data[offset],
                        g: self.data[offset + 1],
                        b: self.data[offset + 2],
                    },
                )
            },
            None => None,
        }
    }

    /// Writes `pixel` at `(x, y)` and returns `true`; returns `false` and
    /// leaves the image as it was when `(x, y)` lies outside it.
    pub fn set_pixel(&mut self, x: u32, y: u32, pixel: Pixel) -> (r: bool)
        requires
            old(self).wf(),
        ensures
            final(self).wf(),
            r == (x < old(self).spec_width() && y < old(self).spec_height()),
            final(self).spec_width() == old(self).spec_width(),
            final(self).spec_height() == old(self).spec_height(),
            r ==> {
                let o = offset_of(old(self).spec_width(), x as nat, y as nat) as int;
                final(self).spec_data() == old(self).spec_data().update(o, pixel.r).update(
                    o + 1,
                    pixel.g,
                ).update(o + 2, pixel.b)
            },
            !r ==> final(self).spec_data() == old(self).spec_data(),
    {
        match self.get_offset(x, y) {
            Some(offset) => {
                self.data.set(offset, pixel.r);
                self.data.set(offset + 1, pixel.g);
                self.data.set(offset + 2, pixel.b);
                true
            },
            None => false,
        }
    }

    /// The file header: `P6 <width> <height> 255` and a newline.
    pub fn header(&self) -> (r: Vec<u8>)
        ensures
            r@ == header_of(self.spec_width(), self.spec_height()),
    {
        let mut out: Vec<u8> = Vec::new();
        out.push(ASCII_P);
        out.push(ASCII_ZERO + 6);
        out.push(ASCII_SPACE);
        push_decimal(&mut out, self.width);
        out.push(ASCII_SPACE);
        push_decimal(&mut out, self.height);
        out.push(ASCII_SPACE);
        push_decimal(&mut out, 255);
        out.push(ASCII_NEWLINE);
        proof {
            assert(out@ =~= header_of(self.spec_width(), self.spec_height()));
        }
        out
    }

    /// The whole file: the header followed by the raw pixel bytes.
    pub fn encode(&self) -> (r: Vec<u8>)
        requires
            self.wf(),
        ensures
            r@ == header_of(self.spec_width(), self.spec_height()) + self.spec_data(),
    {
        let mut out = self.header();
        let mut i: usize = 0;
        while i < self.data.len()
            invariant
                i <= self.data@.len(),
                out@ == header_of(self.spec_width(), self.spec_height()) + self.data@.subrange(
                    0,
                    i as int,
                ),
            decreases self.data@.len() - i,
        {
            out.push(self.data[i]);
            i = i + 1;
            proof {
                assert(out@ =~= header_of(self.spec_width(), self.spec_height())
                    + self.data@.subrange(0, i as int));
            }
        }
        proof {
            assert(self.data@.subrange(0, self.data@.len() as int) =~= self.data@);
        }
        out
    }
}

} // verus!
