//! The raster that an image holds, as the contracts of the operations see it:
//! a sample layout, a size, and one number for each channel of each pixel.

use vstd::prelude::*;

verus! {

/// How the samples of a pixel are laid out and how wide they are.
#[derive(Debug, Clone, Copy, PartialEq, Eq)]
pub enum ColorKind {
    /// One 8-bit luminance sample.
    L8,
    /// 8-bit luminance and alpha.
    La8,
    /// 8-bit red, green and blue.
    Rgb8,
    /// 8-bit red, green, blue and alpha.
    Rgba8,
    /// One 16-bit luminance sample.
    L16,
    /// 16-bit luminance and alpha.
    La16,
    /// 16-bit red, green and blue.
    Rgb16,
    /// 16-bit red, green, blue and alpha.
    Rgba16,
    /// Floating-point red, green and blue.
    Rgb32F,
    /// Floating-point red, green, blue and alpha.
    Rgba32F,
    /// A layout that these contracts say nothing about.
    Other,
}

impl ColorKind {
    /// The number of samples in a pixel.
    pub open spec fn channels(self) -> int {
        match self {
            ColorKind::L8 | ColorKind::L16 => 1,
            ColorKind::La8 | ColorKind::La16 => 2,
            ColorKind::Rgb8 | ColorKind::Rgb16 | ColorKind::Rgb32F => 3,
            ColorKind::Rgba8 | ColorKind::Rgba16 | ColorKind::Rgba32F => 4,
            ColorKind::Other => 0,
        }
    }

    /// Whether the last sample of a pixel is its alpha.
    pub open spec fn has_alpha(self) -> bool {
        match self {
            ColorKind::La8 | ColorKind::Rgba8 | ColorKind::La16 | ColorKind::Rgba16
            | ColorKind::Rgba32F => true,
            _ => false,
        }
    }

    /// Whether a pixel holds red, green and blue rather than luminance.
    pub open spec fn has_color(self) -> bool {
        match self {
            ColorKind::Rgb8 | ColorKind::Rgba8 | ColorKind::Rgb16 | ColorKind::Rgba16
            | ColorKind::Rgb32F | ColorKind::Rgba32F => true,
            _ => false,
        }
    }

    /// The number of samples in a pixel that are not its alpha.
    pub open spec fn color_channels(self) -> int {
        if self.has_alpha() {
            self.channels() - 1
        } else {
            self.channels()
        }
    }

    /// Whether the samples are 8-bit or 16-bit integers.
    pub open spec fn is_integer(self) -> bool {
        match self {
            ColorKind::L8 | ColorKind::La8 | ColorKind::Rgb8 | ColorKind::Rgba8 | ColorKind::L16
            | ColorKind::La16 | ColorKind::Rgb16 | ColorKind::Rgba16 => true,
            _ => false,
        }
    }

    /// The largest value of an integer sample; 0 for the other kinds.
    pub open spec fn max_sample(self) -> int {
        match self {
            ColorKind::L8 | ColorKind::La8 | ColorKind::Rgb8 | ColorKind::Rgba8 => 255,
            ColorKind::L16 | ColorKind::La16 | ColorKind::Rgb16 | ColorKind::Rgba16 => 65535,
            _ => 0,
        }
    }

    /// The kind of the grayscale version of an image of this kind: luminance
    /// of the same width, with alpha where there was alpha. Floating-point
    /// kinds stay as they are.
    pub open spec fn gray(self) -> ColorKind {
        match self {
            ColorKind::L8 | ColorKind::Rgb8 => ColorKind::L8,
            ColorKind::La8 | ColorKind::Rgba8 => ColorKind::La8,
            ColorKind::L16 | ColorKind::Rgb16 => ColorKind::L16,
            ColorKind::La16 | ColorKind::Rgba16 => ColorKind::La16,
            other => other,
        }
    }

    /// The number of samples in a pixel.
    pub fn channel_count(self) -> (n: u8)
        ensures
            n == self.channels(),
    {
        match self {
            ColorKind::L8 | ColorKind::L16 => 1,
            ColorKind::La8 | ColorKind::La16 => 2,
            ColorKind::Rgb8 | ColorKind::Rgb16 | ColorKind::Rgb32F => 3,
            ColorKind::Rgba8 | ColorKind::Rgba16 | ColorKind::Rgba32F => 4,
            ColorKind::Other => 0,
        }
    }

    /// Whether the samples are 8-bit or 16-bit integers.
    pub fn integer_samples(self) -> (b: bool)
        ensures
            b == self.is_integer(),
    {
        match self {
            ColorKind::L8 | ColorKind::La8 | ColorKind::Rgb8 | ColorKind::Rgba8 | ColorKind::L16
            | ColorKind::La16 | ColorKind::Rgb16 | ColorKind::Rgba16 => true,
            _ => false,
        }
    }

    /// The largest value of an integer sample; 0 for the other kinds.
    pub fn largest_sample(self) -> (m: i32)
        ensures
            m == self.max_sample(),
    {
        match self {
            ColorKind::L8 | ColorKind::La8 | ColorKind::Rgb8 | ColorKind::Rgba8 => 255,
            ColorKind::L16 | ColorKind::La16 | ColorKind::Rgb16 | ColorKind::Rgba16 => 65535,
            _ => 0,
        }
    }
}

/// `v`, or the nearer of `low` and `high` where `v` lies outside them.
pub open spec fn clamp(v: int, low: int, high: int) -> int {
    if v < low {
        low
    } else if v > high {
        high
    } else {
        v
    }
}

/// Where a crop that is asked to start at `at` does start along a side of
/// `size` pixels: at `at`, or at the end of the side.
pub open spec fn crop_start(at: int, size: int) -> int {
    if at <= size {
        at
    } else {
        size
    }
}

/// How many pixels a crop takes along a side of `size` pixels when it is
/// asked for `length` of them from `at` on: `length`, or what is left of the
/// side.
pub open spec fn crop_length(at: int, length: int, size: int) -> int {
    if length <= size - crop_start(at, size) {
        length
    } else {
        size - crop_start(at, size)
    }
}

/// The luminance of the colour `(red, green, blue)`.
pub open spec fn luma(red: int, green: int, blue: int) -> int {
    (2126 * red + 7152 * green + 722 * blue) / 10000
}

/// A grid of pixels. `samples` is defined at `(x, y, c)` for each column `x`,
/// row `y` and channel `c` of the grid and nowhere else. An integer sample is
/// its value; a floating-point sample is its bit pattern.
pub struct Raster {
    pub kind: ColorKind,
    pub width: nat,
    pub height: nat,
    pub samples: Map<(int, int, int), int>,
}

impl Raster {
    /// The raster of the given kind and size whose sample at `(x, y, c)` is
    /// `sample(x, y, c)`.
    pub open spec fn new(
        kind: ColorKind,
        width: nat,
        height: nat,
        sample: spec_fn(int, int, int) -> int,
    ) -> Raster {
        Raster {
            kind,
            width,
            height,
            samples: Map::new(
                |p: (int, int, int)|
                    0 <= p.0 < width && 0 <= p.1 < height && 0 <= p.2 < kind.channels(),
                |p: (int, int, int)| sample(p.0, p.1, p.2),
            ),
        }
    }

    /// Whether `(x, y, c)` is a channel of a pixel of the grid.
    pub open spec fn holds(self, x: int, y: int, c: int) -> bool {
        0 <= x < self.width && 0 <= y < self.height && 0 <= c < self.kind.channels()
    }

    /// Whether `samples` is defined exactly on the grid.
    pub open spec fn wf(self) -> bool {
        forall|p: (int, int, int)| #[trigger]
            self.samples.dom().contains(p) <==> self.holds(p.0, p.1, p.2)
    }

    /// The sample of channel `c` at column `x`, row `y`.
    pub open spec fn at(self, x: int, y: int, c: int) -> int {
        self.samples[(x, y, c)]
    }

    /// Whether the two rasters have the same kind and the same size.
    pub open spec fn same_shape(self, other: Raster) -> bool {
        self.kind == other.kind && self.width == other.width && self.height == other.height
    }

    /// The raster turned a quarter turn clockwise.
    pub open spec fn rotated90(self) -> Raster {
        Raster::new(
            self.kind,
            self.height,
            self.width,
            |x: int, y: int, c: int| self.at(y, self.height - 1 - x, c),
        )
    }

    /// The raster turned half a turn.
    pub open spec fn rotated180(self) -> Raster {
        Raster::new(
            self.kind,
            self.width,
            self.height,
            |x: int, y: int, c: int| self.at(self.width - 1 - x, self.height - 1 - y, c),
        )
    }

    /// The raster turned three quarter turns clockwise.
    pub open spec fn rotated270(self) -> Raster {
        Raster::new(
            self.kind,
            self.height,
            self.width,
            |x: int, y: int, c: int| self.at(self.width - 1 - y, x, c),
        )
    }

    /// The part of the raster inside the rectangle whose top left corner is
    /// `(x, y)` and whose size is `width` by `height`. A corner outside the
    /// raster is moved to its edge, and the rectangle ends where the raster
    /// ends.
    pub open spec fn cropped(self, x: nat, y: nat, width: nat, height: nat) -> Raster {
        Raster::new(
            self.kind,
            crop_length(x as int, width as int, self.width as int) as nat,
            crop_length(y as int, height as int, self.height as int) as nat,
            |i: int, j: int, c: int|
                self.at(
                    crop_start(x as int, self.width as int) + i,
                    crop_start(y as int, self.height as int) + j,
                    c,
                ),
        )
    }

    /// The raster with each sample but alpha taken from the largest value.
    pub open spec fn inverted(self) -> Raster {
        Raster::new(
            self.kind,
            self.width,
            self.height,
            |x: int, y: int, c: int|
                if c < self.kind.color_channels() {
                    self.kind.max_sample() - self.at(x, y, c)
                } else {
                    self.at(x, y, c)
                },
        )
    }

    /// The raster with `delta` added to each sample but alpha, the sum kept
    /// between 0 and the largest value.
    pub open spec fn brightened(self, delta: int) -> Raster {
        Raster::new(
            self.kind,
            self.width,
            self.height,
            |x: int, y: int, c: int|
                if c < self.kind.color_channels() {
                    clamp(self.at(x, y, c) + delta, 0, self.kind.max_sample())
                } else {
                    self.at(x, y, c)
                },
        )
    }

    /// The luminance of the pixel at column `x`, row `y`.
    pub open spec fn luma_at(self, x: int, y: int) -> int {
        if self.kind.has_color() {
            luma(self.at(x, y, 0), self.at(x, y, 1), self.at(x, y, 2))
        } else {
            self.at(x, y, 0)
        }
    }

    /// The raster in shades of gray: each pixel keeps its luminance, and its
    /// alpha if it has one.
    pub open spec fn grayscaled(self) -> Raster {
        Raster::new(
            self.kind.gray(),
            self.width,
            self.height,
            |x: int, y: int, c: int|
                if c == 0 {
                    self.luma_at(x, y)
                } else {
                    self.at(x, y, self.kind.channels() - 1)
                },
        )
    }

    /// The 8-bit raster of `width` by `height` pixels that all have the
    /// colour `(red, green, blue)`.
    pub open spec fn solid(width: nat, height: nat, red: u8, green: u8, blue: u8) -> Raster {
        Raster::new(
            ColorKind::Rgb8,
            width,
            height,
            |x: int, y: int, c: int|
                if c == 0 {
                    red as int
                } else if c == 1 {
                    green as int
                } else {
                    blue as int
                },
        )
    }

    /// Two rasters of one kind and size with the same sample in every
    /// channel of every pixel are the same raster.
    pub proof fn lemma_same(self, other: Raster)
        requires
            self.wf(),
            other.wf(),
            self.kind == other.kind,
            self.width == other.width,
            self.height == other.height,
            forall|x: int, y: int, c: int|
                self.holds(x, y, c) ==> #[trigger] self.at(x, y, c) == other.at(x, y, c),
        ensures
            self == other,
    {
        assert forall|p: (int, int, int)| self.samples.dom().contains(p) implies self.samples[p]
            == other.samples[p] by {
            assert(self.at(p.0, p.1, p.2) == other.at(p.0, p.1, p.2));
        }
        assert(self.samples =~= other.samples);
    }

    /// A quarter turn clockwise and then three more bring every pixel back:
    /// the result is the raster that was there before.
    pub proof fn lemma_quarter_then_three_quarters(self)
        requires
            self.wf(),
        ensures
            self.rotated90().rotated270() == self,
    {
        let back = self.rotated90().rotated270();
        back.lemma_same(self);
    }

    /// Three quarter turns clockwise and then one more bring every pixel
    /// back.
    pub proof fn lemma_three_quarters_then_quarter(self)
        requires
            self.wf(),
        ensures
            self.rotated270().rotated90() == self,
    {
        let back = self.rotated270().rotated90();
        back.lemma_same(self);
    }

    /// Two half turns bring every pixel back.
    pub proof fn lemma_half_turn_twice(self)
        requires
            self.wf(),
        ensures
            self.rotated180().rotated180() == self,
    {
        let back = self.rotated180().rotated180();
        back.lemma_same(self);
    }

    /// Inverting a raster of integer samples twice gives every sample its
    /// first value again.
    pub proof fn lemma_invert_twice(self)
        requires
            self.wf(),
            self.kind.is_integer(),
        ensures
            self.inverted().inverted() == self,
    {
        let back = self.inverted().inverted();
        back.lemma_same(self);
    }

    /// A rectangle that lies inside the raster is cut out at its own size.
    pub proof fn lemma_crop_inside(self, x: nat, y: nat, width: nat, height: nat)
        requires
            x + width <= self.width,
            y + height <= self.height,
        ensures
            self.cropped(x, y, width, height).width == width,
            self.cropped(x, y, width, height).height == height,
            self.cropped(x, y, width, height).kind == self.kind,
            forall|i: int, j: int, c: int|
                0 <= i < width && 0 <= j < height && 0 <= c < self.kind.channels()
                    ==> #[trigger] self.cropped(x, y, width, height).at(i, j, c) == self.at(
                    x + i,
                    y + j,
                    c,
                ),
    {
    }
}

} // verus!
