//! Pictures as plain values: a size, a colour model and the raw samples,
//! row by row, eight bits per channel.

use vstd::prelude::*;

verus! {

/// How the samples of one pixel are laid out.
#[derive(Clone, Copy, Debug, PartialEq, Eq, Structural)]
pub enum ColorModel {
    /// One sample: brightness.
    Gray,
    /// Two samples: brightness, opacity.
    GrayAlpha,
    /// Three samples: red, green, blue.
    Rgb,
    /// Four samples: red, green, blue, opacity.
    Rgba,
}

impl ColorModel {
    /// Samples per pixel.
    pub open spec fn channel_count(self) -> nat {
        match self {
            ColorModel::Gray => 1,
            ColorModel::GrayAlpha => 2,
            ColorModel::Rgb => 3,
            ColorModel::Rgba => 4,
        }
    }

    /// The colour model with the given number of samples per pixel.
    pub open spec fn of_channels(n: nat) -> ColorModel {
        if n == 1 {
            ColorModel::Gray
        } else if n == 2 {
            ColorModel::GrayAlpha
        } else if n == 3 {
            ColorModel::Rgb
        } else {
            ColorModel::Rgba
        }
    }

    /// Samples per pixel.
    pub fn channels(self) -> (n: usize)
        ensures
            n == self.channel_count(),
    {
        match self {
            ColorModel::Gray => 1,
            ColorModel::GrayAlpha => 2,
            ColorModel::Rgb => 3,
            ColorModel::Rgba => 4,
        }
    }
}

/// One pixel with colour and opacity.
#[derive(Clone, Copy, Debug, PartialEq, Eq, Structural)]
pub struct Pixel {
    pub r: u8,
    pub g: u8,
    pub b: u8,
    pub a: u8,
}

impl Pixel {
    /// Sample `c` of the pixel in the order red, green, blue, opacity.
    pub open spec fn channel(self, c: int) -> u8 {
        if c == 0 {
            self.r
        } else if c == 1 {
            self.g
        } else if c == 2 {
            self.b
        } else {
            self.a
        }
    }
}

/// The mathematical content of an [`Image`].
pub struct ImageView {
    pub width: nat,
    pub height: nat,
    pub color: ColorModel,
    pub data: Seq<u8>,
}

impl ImageView {
    /// The samples fill the rectangle exactly.
    pub open spec fn wf(self) -> bool {
        &&& self.width <= u32::MAX
        &&& self.height <= u32::MAX
        &&& self.data.len() == self.width * self.height * self.color.channel_count()
    }

    /// Whether `(x, y)` is a coordinate of the picture.
    pub open spec fn contains(self, x: int, y: int) -> bool {
        0 <= x < self.width && 0 <= y < self.height
    }

    /// Where the samples of pixel `(x, y)` start.
    pub open spec fn offset(self, x: int, y: int) -> int {
        (y * self.width + x) * self.color.channel_count()
    }

    /// Pixel `(x, y)`, widened to colour with opacity: brightness fills the
    /// three colour channels, and a picture without opacity is fully opaque.
    pub open spec fn pixel(self, x: int, y: int) -> Pixel
        recommends
            self.wf(),
            self.contains(x, y),
    {
        let at = self.offset(x, y);
        let d = self.data;
        match self.color {
            ColorModel::Gray => Pixel { r: d[at], g: d[at], b: d[at], a: 255 },
            ColorModel::GrayAlpha => Pixel { r: d[at], g: d[at], b: d[at], a: d[at + 1] },
            ColorModel::Rgb => Pixel { r: d[at], g: d[at + 1], b: d[at + 2], a: 255 },
            ColorModel::Rgba => Pixel { r: d[at], g: d[at + 1], b: d[at + 2], a: d[at + 3] },
        }
    }

    /// The size as a pair, width first.
    pub open spec fn dimensions(self) -> (nat, nat) {
        (self.width, self.height)
    }
}

/// The samples of a pixel inside the picture lie inside the data.
pub proof fn lemma_offset_in_bounds(v: ImageView, x: int, y: int)
    requires
        v.wf(),
        v.contains(x, y),
    ensures
        0 <= y * v.width <= y * v.width + x < v.width * v.height <= v.data.len(),
        0 <= v.offset(x, y),
        v.offset(x, y) + v.color.channel_count() <= v.data.len(),
{
    let w = v.width as int;
    let h = v.height as int;
    let n = v.color.channel_count() as int;
    assert(0 <= y * w && y * w + w <= w * h) by (nonlinear_arith)
        requires
            0 <= y < h,
            0 <= w,
    ;
    assert((y * w + x) * n + n <= w * h * n && 0 <= (y * w + x) * n && w * h <= w * h * n)
        by (nonlinear_arith)
        requires
            0 <= y * w + x < w * h,
            1 <= n,
    ;
}

/// A picture: `width * height` pixels of one colour model.
#[derive(Debug)]
pub struct Image {
    width: u32,
    height: u32,
    color: ColorModel,
    data: Vec<u8>,
}

impl View for Image {
    type V = ImageView;

    closed spec fn view(&self) -> ImageView {
        ImageView {
            width: self.width as nat,
            height: self.height as nat,
            color: self.color,
            data: self.data@,
        }
    }
}

impl Clone for Image {
    /// A copy with the same size, colour model and samples.
    fn clone(&self) -> (copy: Image)
        ensures
            copy@ == self@,
    {
        proof {
            use_type_invariant(self);
        }
        let data = self.data.clone();
        assert(data@ =~= self.data@);
        Image { width: self.width, height: self.height, color: self.color, data }
    }
}

impl Image {
    #[verifier::type_invariant]
    spec fn well_formed(self) -> bool {
        self@.wf()
    }

    /// Makes a picture from samples that are known to fill the rectangle.
    pub(crate) fn assemble(width: u32, height: u32, color: ColorModel, data: Vec<u8>) -> (img:
        Image)
        requires
            data@.len() == width * height * color.channel_count(),
        ensures
            img@ == (ImageView { width: width as nat, height: height as nat, color, data: data@ }),
            img@.wf(),
    {
        Image { width, height, color, data }
    }

    /// Makes a picture of the given size from its samples. The samples must
    /// fill the rectangle exactly, else there is no picture.
    pub fn from_raw(width: u32, height: u32, color: ColorModel, data: Vec<u8>) -> (r: Option<
        Image,
    >)
        ensures
            r is Some <==> data@.len() == width * height * color.channel_count(),
            r matches Some(img) ==> img@ == (ImageView {
                width: width as nat,
                height: height as nat,
                color,
                data: data@,
            }) && img@.wf(),
    {
        let n = color.channels();
        assert(0 <= width * height <= 0xffff_ffff * 0xffff_ffff) by (nonlinear_arith)
            requires
                0 <= width <= 0xffff_ffff,
                0 <= height <= 0xffff_ffff,
        ;
        let area: u128 = width as u128 * height as u128;
        assert(area * n == width * height * n);
        assert(0 <= area * n <= 0xffff_ffff * 0xffff_ffff * 4) by (nonlinear_arith)
            requires
                0 <= area <= 0xffff_ffff * 0xffff_ffff,
                0 <= n <= 4,
        ;
        let needed: u128 = area * n as u128;
        if data.len() as u128 == needed {
            Some(Image::assemble(width, height, color, data))
        } else {
            None
        }
    }

    /// Width in pixels.
    pub fn width(&self) -> (w: u32)
        ensures
            w == self@.width,
            self@.wf(),
    {
        proof {
            use_type_invariant(self);
        }
        self.width
    }

    /// Height in pixels.
    pub fn height(&self) -> (h: u32)
        ensures
            h == self@.height,
            self@.wf(),
    {
        proof {
            use_type_invariant(self);
        }
        self.height
    }

    /// Width and height.
    pub fn dimensions(&self) -> (d: (u32, u32))
        ensures
            d.0 == self@.width,
            d.1 == self@.height,
            self@.wf(),
    {
        proof {
            use_type_invariant(self);
        }
        (self.width, self.height)
    }

    /// The colour model of the samples.
    pub fn color(&self) -> (c: ColorModel)
        ensures
            c == self@.color,
            self@.wf(),
    {
        proof {
            use_type_invariant(self);
        }
        self.color
    }

    /// The samples, row by row.
    pub fn as_raw(&self) -> (d: &Vec<u8>)
        ensures
            d@ == self@.data,
            self@.wf(),
    {
        proof {
            use_type_invariant(self);
        }
        &self.data
    }

    /// Gives up the picture for its samples.
    pub fn into_raw(self) -> (d: Vec<u8>)
        ensures
            d@ == self@.data,
            self@.wf(),
    {
        proof {
            use_type_invariant(&self);
        }
        self.data
    }

    /// Pixel `(x, y)` as colour with opacity.
    pub fn pixel(&self, x: u32, y: u32) -> (p: Pixel)
        requires
            self@.contains(x as int, y as int),
        ensures
            p == self@.pixel(x as int, y as int),
    {
        proof {
            use_type_invariant(self);
            lemma_offset_in_bounds(self@, x as int, y as int);
            assert(y * self.width + x < self.data.len());
        }
        let n = self.color.channels();
        let row: usize = y as usize * self.width as usize;
        let at: usize = (row + x as usize) * n;
        let d = &self.data;
        match self.color {
            ColorModel::Gray => Pixel { r: d[at], g: d[at], b: d[at], a: 255 },
            ColorModel::GrayAlpha => Pixel { r: d[at], g: d[at], b: d[at], a: d[at + 1] },
            ColorModel::Rgb => Pixel { r: d[at], g: d[at + 1], b: d[at + 2], a: 255 },
            ColorModel::Rgba => Pixel { r: d[at], g: d[at + 1], b: d[at + 2], a: d[at + 3] },
        }
    }
}

} // verus!
