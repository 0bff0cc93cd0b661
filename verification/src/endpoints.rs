//! The operations at the two ends of a pipeline: those that make its first
//! image and the one that takes its last.

use crate::builder::FromArgumentBuilder;
use crate::imaging::{
    image_height, image_kind, image_sample, image_width, in_image, put_rgb, raster,
};
use crate::raster::{ColorKind, Raster};
use crate::text::{parse_u8, unsigned_value};
use image::DynamicImage;
use vstd::prelude::*;

verus! {

/// An operation that makes an image of nothing but itself.
pub trait InputOperation {
    /// Makes the image.
    fn apply(&self) -> DynamicImage;
}

/// The number of columns and of rows of a generated image.
pub const GENERATED_SIDE: u32 = 800;

/// A colour of three 8-bit samples.
pub struct Color {
    pub red: u8,
    pub green: u8,
    pub blue: u8,
}

/// Makes an image of one colour.
#[derive(Debug, Clone, Copy, PartialEq, Eq)]
pub struct GenerateOperation {
    red: u8,
    green: u8,
    blue: u8,
}

impl View for GenerateOperation {
    type V = Color;

    closed spec fn view(&self) -> Color {
        Color { red: self.red, green: self.green, blue: self.blue }
    }
}

impl GenerateOperation {
    /// The red sample of the colour.
    pub fn red(&self) -> (v: u8)
        ensures
            v == self@.red,
    {
        self.red
    }

    /// The green sample of the colour.
    pub fn green(&self) -> (v: u8)
        ensures
            v == self@.green,
    {
        self.green
    }

    /// The blue sample of the colour.
    pub fn blue(&self) -> (v: u8)
        ensures
            v == self@.blue,
    {
        self.blue
    }
}

impl FromArgumentBuilder for GenerateOperation {
    type Err = &'static str;

    open spec fn built_from(args: Seq<Seq<char>>) -> Result<Color, &'static str> {
        if args.len() < 3 {
            Err("r g b parameters are missing")
        } else {
            match unsigned_value(args[0], 255) {
                None => Err("r is not a u8"),
                Some(red) => match unsigned_value(args[1], 255) {
                    None => Err("g is not a u8"),
                    Some(green) => match unsigned_value(args[2], 255) {
                        None => Err("b is not a u8"),
                        Some(blue) => Ok(
                            Color { red: red as u8, green: green as u8, blue: blue as u8 },
                        ),
                    },
                },
            }
        }
    }

    open spec fn arity() -> nat {
        3
    }

    fn init_from_arg(args: Vec<String>) -> (r: Result<Self, Self::Err>) {
        if args.len() < 3 {
            return Err("r g b parameters are missing");
        }
        let red = match parse_u8(args[0].as_str()) {
            Some(n) => n,
            None => {
                return Err("r is not a u8");
            },
        };
        let green = match parse_u8(args[1].as_str()) {
            Some(n) => n,
            None => {
                return Err("g is not a u8");
            },
        };
        let blue = match parse_u8(args[2].as_str()) {
            Some(n) => n,
            None => {
                return Err("b is not a u8");
            },
        };
        Ok(GenerateOperation { red, green, blue })
    }

    fn expected_arguments_count() -> (n: usize) {
        3
    }
}

impl InputOperation for GenerateOperation {
    /// Makes the image of 800 by 800 pixels in which every pixel has the
    /// colour of the operation.
    fn apply(&self) -> (out: DynamicImage)
        ensures
            raster(out) == Raster::solid(
                GENERATED_SIDE as nat,
                GENERATED_SIDE as nat,
                self@.red,
                self@.green,
                self@.blue,
            ),
    {
        let width: u32 = GENERATED_SIDE;
        let height: u32 = GENERATED_SIDE;
        let mut img = DynamicImage::new_rgb8(width, height);
        let mut y: u32 = 0;
        while y < height
            invariant
                y <= height,
                image_kind(img) == ColorKind::Rgb8,
                image_width(img) == width,
                image_height(img) == height,
                forall|i: int, j: int, c: int|
                    in_image(img, i, j, c) && j < y ==> #[trigger] image_sample(img, i, j, c)
                        == self.sample(c),
            decreases height - y,
        {
            let mut x: u32 = 0;
            while x < width
                invariant
                    x <= width,
                    y < height,
                    image_kind(img) == ColorKind::Rgb8,
                    image_width(img) == width,
                    image_height(img) == height,
                    forall|i: int, j: int, c: int|
                        in_image(img, i, j, c) && (j < y || (j == y && i < x))
                            ==> #[trigger] image_sample(img, i, j, c) == self.sample(c),
                decreases width - x,
            {
                put_rgb(&mut img, x, y, self.red, self.green, self.blue);
                x += 1;
            }
            y += 1;
        }
        proof {
            raster(img).lemma_same(
                Raster::solid(
                    GENERATED_SIDE as nat,
                    GENERATED_SIDE as nat,
                    self@.red,
                    self@.green,
                    self@.blue,
                ),
            );
        }
        img
    }
}

impl GenerateOperation {
    /// The sample of channel `c` of the colour.
    spec fn sample(&self, c: int) -> int {
        if c == 0 {
            self.red as int
        } else if c == 1 {
            self.green as int
        } else {
            self.blue as int
        }
    }
}

/// Makes the image of a fractal.
#[derive(Debug, Clone, Copy, PartialEq, Eq)]
pub struct FractalOperation {}

impl View for FractalOperation {
    type V = ();

    open spec fn view(&self) -> () {
        ()
    }
}

impl FromArgumentBuilder for FractalOperation {
    type Err = &'static str;

    open spec fn built_from(args: Seq<Seq<char>>) -> Result<(), &'static str> {
        Ok(())
    }

    open spec fn arity() -> nat {
        0
    }

    fn init_from_arg(args: Vec<String>) -> (r: Result<Self, Self::Err>) {
        Ok(FractalOperation {})
    }

    fn expected_arguments_count() -> (n: usize) {
        0
    }
}

/// Reads an image from a file.
#[derive(Debug, PartialEq, Eq)]
pub struct OpenFileOperation {
    infile: String,
}

impl View for OpenFileOperation {
    type V = Seq<char>;

    closed spec fn view(&self) -> Seq<char> {
        self.infile@
    }
}

impl OpenFileOperation {
    /// The path of the file.
    pub fn infile(&self) -> (path: &str)
        ensures
            path@ == self@,
    {
        self.infile.as_str()
    }
}

impl FromArgumentBuilder for OpenFileOperation {
    type Err = &'static str;

    open spec fn built_from(args: Seq<Seq<char>>) -> Result<Seq<char>, &'static str> {
        if args.len() == 0 {
            Err("input parameters are missing")
        } else {
            Ok(args[0])
        }
    }

    /// The path is no argument of a keyword: it stands for itself.
    open spec fn arity() -> nat {
        0
    }

    fn init_from_arg(args: Vec<String>) -> (r: Result<Self, Self::Err>) {
        if args.len() == 0 {
            return Err("input parameters are missing");
        }
        let infile = args[0].clone();
        Ok(OpenFileOperation { infile })
    }

    fn expected_arguments_count() -> (n: usize) {
        0
    }
}

/// Writes an image to a file.
#[derive(Debug, PartialEq, Eq)]
pub struct WriteFileOperation {
    outfile: String,
}

impl View for WriteFileOperation {
    type V = Seq<char>;

    closed spec fn view(&self) -> Seq<char> {
        self.outfile@
    }
}

impl WriteFileOperation {
    /// The path of the file.
    pub fn outfile(&self) -> (path: &str)
        ensures
            path@ == self@,
    {
        self.outfile.as_str()
    }
}

impl FromArgumentBuilder for WriteFileOperation {
    type Err = &'static str;

    open spec fn built_from(args: Seq<Seq<char>>) -> Result<Seq<char>, &'static str> {
        if args.len() == 0 {
            Err("output parameters are missing")
        } else {
            Ok(args[0])
        }
    }

    open spec fn arity() -> nat {
        1
    }

    fn init_from_arg(args: Vec<String>) -> (r: Result<Self, Self::Err>) {
        if args.len() == 0 {
            return Err("output parameters are missing");
        }
        let outfile = args[0].clone();
        Ok(WriteFileOperation { outfile })
    }

    fn expected_arguments_count() -> (n: usize) {
        1
    }
}

} // verus!
