//! An image pipeline driven by a command line. The tokens of the line name one
//! operation that makes an image, any number of operations that change it,
//! and the file that takes the result.
//!
//! `command_line` reads the tokens into a `Pipeline`; `transforms` and
//! `endpoints` hold the operations and what each does to an image; `raster`
//! is the model of an image that their contracts speak of; `text` reads
//! numbers out of arguments. The pixels are worked on by the `image` crate,
//! and `imaging` states what is taken on trust of it.

pub mod builder;
pub mod command_line;
pub mod endpoints;
pub mod imaging;
pub mod pipeline;
pub mod raster;
pub mod text;
pub mod transforms;

pub use builder::FromArgumentBuilder;
pub use endpoints::{
    FractalOperation, GenerateOperation, InputOperation, OpenFileOperation, WriteFileOperation,
};
pub use command_line::PipelineError;
pub use pipeline::{InputSource, Pipeline, Transform};
pub use transforms::{
    BlurOperation, BrightenOperation, CropOperation, GrayScaleOperation, InvertOperation,
    RotateOperation, RotationAngle, TransformOperation,
};
