//! The operations that make an image of an image.

use crate::builder::FromArgumentBuilder;
use crate::imaging::{image_height, image_kind, is_walkable, kind_of, raster};
use crate::raster::{ColorKind, Raster};
use crate::text::{
    is_decimal_number, is_decimal_token, parse_i32, parse_u32, signed_value, token_is,
    unsigned_value,
};
use image::DynamicImage;
use std::str::FromStr;
use vstd::prelude::*;

verus! {

/// An operation that makes an image of an image.
pub trait TransformOperation {
    /// Whether the operation is defined on `img`.
    spec fn applies_to(&self, img: DynamicImage) -> bool;

    /// The raster that the operation makes of the raster `r`.
    spec fn transformed(&self, r: Raster) -> Raster;

    /// Whether `transformed` gives every sample of the result for an image
    /// of the kind `kind`.
    spec fn exact_on(&self, kind: ColorKind) -> bool;

    /// Applies the operation to `img`. The result has the kind and the size
    /// of `transformed`, and holds that raster where the operation is exact
    /// on the kind of `img`.
    fn apply(&self, img: DynamicImage) -> (out: DynamicImage)
        requires
            self.applies_to(img),
        ensures
            raster(out).same_shape(self.transformed(raster(img))),
            self.exact_on(image_kind(img)) ==> raster(out) == self.transformed(raster(img)),
    ;
}

/// Gaussian blur. The operation keeps the text of its argument, which is the
/// standard deviation written as a decimal number.
#[derive(Debug, PartialEq, Eq)]
pub struct BlurOperation {
    sigma: String,
}

impl View for BlurOperation {
    type V = Seq<char>;

    closed spec fn view(&self) -> Seq<char> {
        self.sigma@
    }
}

impl BlurOperation {
    #[verifier::type_invariant]
    spec fn well_formed(self) -> bool {
        is_decimal_number(self.sigma@)
    }

    /// The text of the standard deviation.
    pub fn sigma(&self) -> (text: &str)
        ensures
            text@ == self@,
            is_decimal_number(text@),
    {
        proof {
            use_type_invariant(self);
        }
        self.sigma.as_str()
    }
}

impl FromArgumentBuilder for BlurOperation {
    type Err = &'static str;

    open spec fn built_from(args: Seq<Seq<char>>) -> Result<Seq<char>, &'static str> {
        if args.len() == 0 {
            Err("sigma is missing")
        } else if is_decimal_number(args[0]) {
            Ok(args[0])
        } else {
            Err("sigma is not a valid f32")
        }
    }

    open spec fn arity() -> nat {
        1
    }

    fn init_from_arg(args: Vec<String>) -> (r: Result<Self, Self::Err>) {
        if args.len() == 0 {
            return Err("sigma is missing");
        }
        let sigma = args[0].clone();
        if is_decimal_token(sigma.as_str()) {
            Ok(BlurOperation { sigma })
        } else {
            Err("sigma is not a valid f32")
        }
    }

    fn expected_arguments_count() -> (n: usize) {
        1
    }
}

/// Adds a number to every colour sample.
#[derive(Debug, Clone, Copy, PartialEq, Eq)]
pub struct BrightenOperation {
    value: i32,
}

impl View for BrightenOperation {
    type V = int;

    closed spec fn view(&self) -> int {
        self.value as int
    }
}

impl BrightenOperation {
    /// The number that is added to each sample.
    pub fn value(&self) -> (v: i32)
        ensures
            v == self@,
    {
        self.value
    }

    /// Whether `apply` is defined on `img`.
    pub fn accepts(&self, img: &DynamicImage) -> (b: bool)
        ensures
            b == self.applies_to(*img),
    {
        let kind = kind_of(img);
        kind.integer_samples() && self.value <= i32::MAX - kind.largest_sample() && (img.width()
            > 0 || img.height() <= 1)
    }
}

impl FromArgumentBuilder for BrightenOperation {
    type Err = &'static str;

    open spec fn built_from(args: Seq<Seq<char>>) -> Result<int, &'static str> {
        if args.len() == 0 {
            Err("brightness is missing")
        } else {
            match signed_value(args[0], i32::MIN as int, i32::MAX as int) {
                Some(v) => Ok(v),
                None => Err("brightness is not a valid i32"),
            }
        }
    }

    open spec fn arity() -> nat {
        1
    }

    fn init_from_arg(args: Vec<String>) -> (r: Result<Self, Self::Err>) {
        if args.len() == 0 {
            return Err("brightness is missing");
        }
        match parse_i32(args[0].as_str()) {
            Some(value) => Ok(BrightenOperation { value }),
            None => Err("brightness is not a valid i32"),
        }
    }

    fn expected_arguments_count() -> (n: usize) {
        1
    }
}

impl TransformOperation for BrightenOperation {
    /// The samples are integers, the sum of the number and the largest
    /// sample fits an `i32`, and the pixels can be walked over.
    open spec fn applies_to(&self, img: DynamicImage) -> bool {
        &&& image_kind(img).is_integer()
        &&& self@ + image_kind(img).max_sample() <= i32::MAX
        &&& is_walkable(img)
    }

    open spec fn transformed(&self, r: Raster) -> Raster {
        r.brightened(self@)
    }

    open spec fn exact_on(&self, kind: ColorKind) -> bool {
        kind.is_integer()
    }

    fn apply(&self, img: DynamicImage) -> (out: DynamicImage) {
        let out = img.brighten(self.value);
        proof {
            raster(out).lemma_same(raster(img).brightened(self@));
        }
        out
    }
}

/// Takes every colour sample from the largest sample value.
#[derive(Debug, Clone, Copy, PartialEq, Eq)]
pub struct InvertOperation {}

impl View for InvertOperation {
    type V = ();

    open spec fn view(&self) -> () {
        ()
    }
}

impl FromArgumentBuilder for InvertOperation {
    type Err = &'static str;

    open spec fn built_from(args: Seq<Seq<char>>) -> Result<(), &'static str> {
        Ok(())
    }

    open spec fn arity() -> nat {
        0
    }

    fn init_from_arg(args: Vec<String>) -> (r: Result<Self, Self::Err>) {
        Ok(InvertOperation {})
    }

    fn expected_arguments_count() -> (n: usize) {
        0
    }
}

impl TransformOperation for InvertOperation {
    open spec fn applies_to(&self, img: DynamicImage) -> bool {
        true
    }

    open spec fn transformed(&self, r: Raster) -> Raster {
        r.inverted()
    }

    open spec fn exact_on(&self, kind: ColorKind) -> bool {
        kind.is_integer()
    }

    fn apply(&self, img: DynamicImage) -> (out: DynamicImage) {
        let mut inverted = img;
        inverted.invert();
        proof {
            if image_kind(img).is_integer() {
                raster(inverted).lemma_same(raster(img).inverted());
            }
        }
        inverted
    }
}

/// Turns an image into shades of gray.
#[derive(Debug, Clone, Copy, PartialEq, Eq)]
pub struct GrayScaleOperation {}

impl View for GrayScaleOperation {
    type V = ();

    open spec fn view(&self) -> () {
        ()
    }
}

impl FromArgumentBuilder for GrayScaleOperation {
    type Err = &'static str;

    open spec fn built_from(args: Seq<Seq<char>>) -> Result<(), &'static str> {
        Ok(())
    }

    open spec fn arity() -> nat {
        0
    }

    fn init_from_arg(args: Vec<String>) -> (r: Result<Self, Self::Err>) {
        Ok(GrayScaleOperation {})
    }

    fn expected_arguments_count() -> (n: usize) {
        0
    }
}

impl GrayScaleOperation {
    /// Whether `apply` is defined on `img`.
    pub fn accepts(&self, img: &DynamicImage) -> (b: bool)
        ensures
            b == self.applies_to(*img),
    {
        match kind_of(img) {
            ColorKind::L8 | ColorKind::L16 => true,
            _ => img.width() > 0 || img.height() <= 1,
        }
    }
}

impl TransformOperation for GrayScaleOperation {
    /// The image is luminance without alpha, which is copied, or its pixels
    /// can be walked over.
    open spec fn applies_to(&self, img: DynamicImage) -> bool {
        image_kind(img) == ColorKind::L8 || image_kind(img) == ColorKind::L16 || is_walkable(img)
    }

    open spec fn transformed(&self, r: Raster) -> Raster {
        r.grayscaled()
    }

    open spec fn exact_on(&self, kind: ColorKind) -> bool {
        kind.is_integer()
    }

    fn apply(&self, img: DynamicImage) -> (out: DynamicImage) {
        let out = img.grayscale();
        proof {
            if image_kind(img).is_integer() {
                raster(out).lemma_same(raster(img).grayscaled());
            }
        }
        out
    }
}

/// The rectangle that a crop cuts out: its top left corner and its size.
pub struct Rectangle {
    pub x: nat,
    pub y: nat,
    pub width: nat,
    pub height: nat,
}

/// Cuts a rectangle out of an image. A rectangle that reaches beyond the
/// image is cut down to the part of it that lies inside.
#[derive(Debug, Clone, Copy, PartialEq, Eq)]
pub struct CropOperation {
    x: u32,
    y: u32,
    width: u32,
    height: u32,
}

impl View for CropOperation {
    type V = Rectangle;

    closed spec fn view(&self) -> Rectangle {
        Rectangle {
            x: self.x as nat,
            y: self.y as nat,
            width: self.width as nat,
            height: self.height as nat,
        }
    }
}

impl CropOperation {
    /// The column of the rectangle's left edge.
    pub fn x(&self) -> (v: u32)
        ensures
            v == self@.x,
    {
        self.x
    }

    /// The row of the rectangle's top edge.
    pub fn y(&self) -> (v: u32)
        ensures
            v == self@.y,
    {
        self.y
    }

    /// The number of columns of the rectangle.
    pub fn width(&self) -> (v: u32)
        ensures
            v == self@.width,
    {
        self.width
    }

    /// The number of rows of the rectangle.
    pub fn height(&self) -> (v: u32)
        ensures
            v == self@.height,
    {
        self.height
    }
}

impl FromArgumentBuilder for CropOperation {
    type Err = &'static str;

    open spec fn built_from(args: Seq<Seq<char>>) -> Result<Rectangle, &'static str> {
        if args.len() < 4 {
            Err("x y width height parameters are missing")
        } else {
            match unsigned_value(args[0], u32::MAX as int) {
                None => Err("x is not a u32"),
                Some(x) => match unsigned_value(args[1], u32::MAX as int) {
                    None => Err("y is not a u32"),
                    Some(y) => match unsigned_value(args[2], u32::MAX as int) {
                        None => Err("width is not a u32"),
                        Some(width) => match unsigned_value(args[3], u32::MAX as int) {
                            None => Err("height is not a u32"),
                            Some(height) => Ok(
                                Rectangle {
                                    x: x as nat,
                                    y: y as nat,
                                    width: width as nat,
                                    height: height as nat,
                                },
                            ),
                        },
                    },
                },
            }
        }
    }

    open spec fn arity() -> nat {
        4
    }

    fn init_from_arg(args: Vec<String>) -> (r: Result<Self, Self::Err>) {
        if args.len() < 4 {
            return Err("x y width height parameters are missing");
        }
        let x = match parse_u32(args[0].as_str()) {
            Some(n) => n,
            None => {
                return Err("x is not a u32");
            },
        };
        let y = match parse_u32(args[1].as_str()) {
            Some(n) => n,
            None => {
                return Err("y is not a u32");
            },
        };
        let width = match parse_u32(args[2].as_str()) {
            Some(n) => n,
            None => {
                return Err("width is not a u32");
            },
        };
        let height = match parse_u32(args[3].as_str()) {
            Some(n) => n,
            None => {
                return Err("height is not a u32");
            },
        };
        Ok(CropOperation { x, y, width, height })
    }

    fn expected_arguments_count() -> (n: usize) {
        4
    }
}

impl TransformOperation for CropOperation {
    open spec fn applies_to(&self, img: DynamicImage) -> bool {
        true
    }

    open spec fn transformed(&self, r: Raster) -> Raster {
        r.cropped(self@.x, self@.y, self@.width, self@.height)
    }

    open spec fn exact_on(&self, kind: ColorKind) -> bool {
        true
    }

    fn apply(&self, img: DynamicImage) -> (out: DynamicImage) {
        let out = img.crop_imm(self.x, self.y, self.width, self.height);
        proof {
            raster(out).lemma_same(
                raster(img).cropped(self@.x, self@.y, self@.width, self@.height),
            );
        }
        out
    }
}

/// A turn clockwise, in quarter turns.
#[derive(Debug, Clone, Copy, PartialEq, Eq)]
pub enum RotationAngle {
    R90,
    R180,
    R270,
}

impl RotationAngle {
    /// The angle that `s` names: `90`, `180` or `270`.
    pub open spec fn named(s: Seq<char>) -> Option<RotationAngle> {
        if s == "90"@ {
            Some(RotationAngle::R90)
        } else if s == "180"@ {
            Some(RotationAngle::R180)
        } else if s == "270"@ {
            Some(RotationAngle::R270)
        } else {
            None
        }
    }

    /// The raster `r` turned by this angle.
    pub open spec fn turned(self, r: Raster) -> Raster {
        match self {
            RotationAngle::R90 => r.rotated90(),
            RotationAngle::R180 => r.rotated180(),
            RotationAngle::R270 => r.rotated270(),
        }
    }

    /// The angle that makes a full turn with this one.
    pub open spec fn rest(self) -> RotationAngle {
        match self {
            RotationAngle::R90 => RotationAngle::R270,
            RotationAngle::R180 => RotationAngle::R180,
            RotationAngle::R270 => RotationAngle::R90,
        }
    }

    /// A turn by an angle and then by the rest of the full turn gives the
    /// raster that was there before: a turn by 90 and then by 270, by 180
    /// twice, by 270 and then by 90.
    pub proof fn lemma_full_turn(self, r: Raster)
        requires
            r.wf(),
        ensures
            self.rest().turned(self.turned(r)) == r,
    {
        match self {
            RotationAngle::R90 => r.lemma_quarter_then_three_quarters(),
            RotationAngle::R180 => r.lemma_half_turn_twice(),
            RotationAngle::R270 => r.lemma_three_quarters_then_quarter(),
        }
    }
}

impl FromStr for RotationAngle {
    type Err = &'static str;

    fn from_str(s: &str) -> (r: Result<RotationAngle, Self::Err>)
        ensures
            match RotationAngle::named(s@) {
                Some(angle) => r == Ok::<RotationAngle, &'static str>(angle),
                None => r == Err::<RotationAngle, &'static str>("not supported"),
            },
    {
        if token_is(s, "90") {
            Ok(RotationAngle::R90)
        } else if token_is(s, "180") {
            Ok(RotationAngle::R180)
        } else if token_is(s, "270") {
            Ok(RotationAngle::R270)
        } else {
            Err("not supported")
        }
    }
}

/// Turns an image clockwise.
#[derive(Debug, Clone, Copy, PartialEq, Eq)]
pub struct RotateOperation {
    rotation_angle: RotationAngle,
}

impl View for RotateOperation {
    type V = RotationAngle;

    closed spec fn view(&self) -> RotationAngle {
        self.rotation_angle
    }
}

impl RotateOperation {
    /// The angle of the turn.
    pub fn rotation_angle(&self) -> (angle: RotationAngle)
        ensures
            angle == self@,
    {
        self.rotation_angle
    }

    /// Whether `apply` is defined on `img`.
    pub fn accepts(&self, img: &DynamicImage) -> (b: bool)
        ensures
            b == self.applies_to(*img),
    {
        match self.rotation_angle {
            RotationAngle::R180 => true,
            _ => {
                let samples: u64 = kind_of(img).channel_count() as u64 * img.height() as u64;
                samples <= usize::MAX as u64
            },
        }
    }
}

impl FromArgumentBuilder for RotateOperation {
    type Err = &'static str;

    open spec fn built_from(args: Seq<Seq<char>>) -> Result<RotationAngle, &'static str> {
        if args.len() == 0 {
            Err("rotation is missing")
        } else {
            match RotationAngle::named(args[0]) {
                Some(angle) => Ok(angle),
                None => Err("rotation is not 90|180|270"),
            }
        }
    }

    open spec fn arity() -> nat {
        1
    }

    fn init_from_arg(args: Vec<String>) -> (r: Result<Self, Self::Err>) {
        if args.len() == 0 {
            return Err("rotation is missing");
        }
        match RotationAngle::from_str(args[0].as_str()) {
            Ok(rotation_angle) => Ok(RotateOperation { rotation_angle }),
            Err(_) => Err("rotation is not 90|180|270"),
        }
    }

    fn expected_arguments_count() -> (n: usize) {
        1
    }
}

impl TransformOperation for RotateOperation {
    /// A quarter turn makes the columns of the image the rows of a new one,
    /// and the samples of such a row must be no more than `usize` counts.
    /// Half a turn is always defined.
    open spec fn applies_to(&self, img: DynamicImage) -> bool {
        self@ == RotationAngle::R180 || image_kind(img).channels() * image_height(img)
            <= usize::MAX
    }

    open spec fn transformed(&self, r: Raster) -> Raster {
        self@.turned(r)
    }

    open spec fn exact_on(&self, kind: ColorKind) -> bool {
        true
    }

    fn apply(&self, img: DynamicImage) -> (out: DynamicImage) {
        let out = match self.rotation_angle {
            RotationAngle::R90 => img.rotate90(),
            RotationAngle::R180 => img.rotate180(),
            RotationAngle::R270 => img.rotate270(),
        };
        proof {
            raster(out).lemma_same(self@.turned(raster(img)));
        }
        out
    }
}

} // verus!
