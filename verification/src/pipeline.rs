//! A pipeline: one operation that makes an image, the operations that change
//! it, in their order, and one operation that takes the result.

use crate::endpoints::{
    Color, FractalOperation, GenerateOperation, OpenFileOperation, WriteFileOperation,
};
use crate::imaging::{image_kind, raster};
use crate::raster::{ColorKind, Raster};
use crate::transforms::{
    BlurOperation, BrightenOperation, CropOperation, GrayScaleOperation, InvertOperation,
    Rectangle, RotateOperation, RotationAngle, TransformOperation,
};
use image::DynamicImage;
use vstd::prelude::*;

verus! {


/// The operation that makes the first image of a pipeline.
#[derive(Debug, PartialEq, Eq)]
pub enum InputSource {
    File(OpenFileOperation),
    Generate(GenerateOperation),
    Fractal(FractalOperation),
}

/// The view of an `InputSource`.
pub enum InputModel {
    File(Seq<char>),
    Generate(Color),
    Fractal,
}

impl View for InputSource {
    type V = InputModel;

    open spec fn view(&self) -> InputModel {
        match self {
            InputSource::File(op) => InputModel::File(op@),
            InputSource::Generate(op) => InputModel::Generate(op@),
            InputSource::Fractal(_) => InputModel::Fractal,
        }
    }
}

/// An operation that changes the image of a pipeline.
#[derive(Debug, PartialEq, Eq)]
pub enum Transform {
    Blur(BlurOperation),
    Brighten(BrightenOperation),
    Crop(CropOperation),
    Rotate(RotateOperation),
    Invert(InvertOperation),
    GrayScale(GrayScaleOperation),
}

/// The view of a `Transform`.
pub enum TransformModel {
    Blur(Seq<char>),
    Brighten(int),
    Crop(Rectangle),
    Rotate(RotationAngle),
    Invert,
    GrayScale,
}

impl View for Transform {
    type V = TransformModel;

    open spec fn view(&self) -> TransformModel {
        match self {
            Transform::Blur(op) => TransformModel::Blur(op@),
            Transform::Brighten(op) => TransformModel::Brighten(op@),
            Transform::Crop(op) => TransformModel::Crop(op@),
            Transform::Rotate(op) => TransformModel::Rotate(op@),
            Transform::Invert(_) => TransformModel::Invert,
            Transform::GrayScale(_) => TransformModel::GrayScale,
        }
    }
}

impl Transform {
    /// Whether `try_apply` applies the operation to `img`. It leaves a blur
    /// to its caller, and an operation that is not defined on `img`.
    pub open spec fn applies_to(&self, img: DynamicImage) -> bool {
        match self {
            Transform::Blur(_) => false,
            Transform::Brighten(op) => op.applies_to(img),
            Transform::Crop(op) => op.applies_to(img),
            Transform::Rotate(op) => op.applies_to(img),
            Transform::Invert(op) => op.applies_to(img),
            Transform::GrayScale(op) => op.applies_to(img),
        }
    }

    /// The raster that the operation makes of the raster `r`. Of a blur this
    /// says nothing: it gives `r`.
    pub open spec fn transformed(&self, r: Raster) -> Raster {
        match self {
            Transform::Blur(_) => r,
            Transform::Brighten(op) => op.transformed(r),
            Transform::Crop(op) => op.transformed(r),
            Transform::Rotate(op) => op.transformed(r),
            Transform::Invert(op) => op.transformed(r),
            Transform::GrayScale(op) => op.transformed(r),
        }
    }

    /// Whether `transformed` gives every sample of the result for an image
    /// of the kind `kind`.
    pub open spec fn exact_on(&self, kind: ColorKind) -> bool {
        match self {
            Transform::Blur(_) => false,
            Transform::Brighten(op) => op.exact_on(kind),
            Transform::Crop(op) => op.exact_on(kind),
            Transform::Rotate(op) => op.exact_on(kind),
            Transform::Invert(op) => op.exact_on(kind),
            Transform::GrayScale(op) => op.exact_on(kind),
        }
    }

    /// The kind and the size of what the operation makes depend only on the
    /// kind and the size of what it is given.
    pub proof fn lemma_shape(&self, a: Raster, b: Raster)
        requires
            a.same_shape(b),
        ensures
            self.transformed(a).same_shape(self.transformed(b)),
    {
    }

    /// Applies the operation to `img`, or hands `img` back untouched where
    /// `applies_to` does not hold.
    pub fn try_apply(&self, img: DynamicImage) -> (r: Result<DynamicImage, DynamicImage>)
        ensures
            match r {
                Ok(out) => {
                    &&& self.applies_to(img)
                    &&& raster(out).same_shape(self.transformed(raster(img)))
                    &&& self.exact_on(image_kind(img)) ==> raster(out) == self.transformed(
                        raster(img),
                    )
                },
                Err(back) => !self.applies_to(img) && back == img,
            },
    {
        match self {
            Transform::Blur(_) => Err(img),
            Transform::Brighten(op) => {
                if op.accepts(&img) {
                    Ok(op.apply(img))
                } else {
                    Err(img)
                }
            },
            Transform::Crop(op) => Ok(op.apply(img)),
            Transform::Rotate(op) => {
                if op.accepts(&img) {
                    Ok(op.apply(img))
                } else {
                    Err(img)
                }
            },
            Transform::Invert(op) => Ok(op.apply(img)),
            Transform::GrayScale(op) => {
                if op.accepts(&img) {
                    Ok(op.apply(img))
                } else {
                    Err(img)
                }
            },
        }
    }
}

/// The raster that `transforms`, applied from first to last, make of the
/// raster `r`.
pub open spec fn transformed_by(transforms: Seq<Transform>, r: Raster) -> Raster
    decreases transforms.len(),
{
    if transforms.len() == 0 {
        r
    } else {
        transforms.last().transformed(transformed_by(transforms.drop_last(), r))
    }
}

/// Applying one run of transforms and then another is applying the two runs
/// as one.
pub proof fn lemma_transformed_by_both(first: Seq<Transform>, second: Seq<Transform>, r: Raster)
    ensures
        transformed_by(first + second, r) == transformed_by(second, transformed_by(first, r)),
    decreases second.len(),
{
    if second.len() == 0 {
        assert(first + second =~= first);
    } else {
        lemma_transformed_by_both(first, second.drop_last(), r);
        assert((first + second).drop_last() =~= first + second.drop_last());
        assert((first + second).last() == second.last());
    }
}

/// Whether each of `transforms`, applied from first to last to the raster
/// `r`, is exact on the kind of the raster that it is given.
pub open spec fn exact_run(transforms: Seq<Transform>, r: Raster) -> bool
    decreases transforms.len(),
{
    transforms.len() == 0 || (exact_run(transforms.drop_last(), r)
        && transforms.last().exact_on(transformed_by(transforms.drop_last(), r).kind))
}

/// On a raster of integer samples, transforms that hold no blur are exact.
pub proof fn lemma_exact_on_integers(transforms: Seq<Transform>, r: Raster)
    requires
        r.kind.is_integer(),
        forall|k: int| 0 <= k < transforms.len() ==> !(#[trigger] transforms[k] is Blur),
    ensures
        exact_run(transforms, r),
        transformed_by(transforms, r).kind.is_integer(),
    decreases transforms.len(),
{
    if transforms.len() > 0 {
        lemma_exact_on_integers(transforms.drop_last(), r);
    }
}

/// What a command line asks for.
#[derive(Debug, PartialEq, Eq)]
pub struct Pipeline {
    pub input: InputSource,
    pub transforms: Vec<Transform>,
    pub output: WriteFileOperation,
}

/// The view of a `Pipeline`.
pub struct PipelineModel {
    pub input: InputModel,
    pub transforms: Seq<TransformModel>,
    pub output: Seq<char>,
}

/// The views of `transforms`, in the same order.
pub open spec fn transform_views(transforms: Seq<Transform>) -> Seq<TransformModel> {
    Seq::new(transforms.len(), |i: int| transforms[i]@)
}

impl View for Pipeline {
    type V = PipelineModel;

    open spec fn view(&self) -> PipelineModel {
        PipelineModel {
            input: self.input@,
            transforms: transform_views(self.transforms@),
            output: self.output@,
        }
    }
}

impl Pipeline {
    /// Applies the transforms of the pipeline to `img` in their order,
    /// starting with the one at index `from`, up to the first that
    /// `try_apply` leaves to its caller. Returns the image so far and the
    /// index of that transform, or the number of transforms where all were
    /// applied. The image has the kind and the size that the transforms
    /// applied give it, and their raster where each of them is exact.
    pub fn apply_transforms(&self, from: usize, img: DynamicImage) -> (r: (DynamicImage, usize))
        requires
            from <= self.transforms.len(),
        ensures
            from <= r.1 <= self.transforms.len(),
            r.1 < self.transforms.len() ==> !self.transforms[r.1 as int].applies_to(r.0),
            forall|k: int| from <= k < r.1 ==> !(#[trigger] self.transforms[k] is Blur),
            raster(r.0).same_shape(
                transformed_by(self.transforms@.subrange(from as int, r.1 as int), raster(img)),
            ),
            exact_run(self.transforms@.subrange(from as int, r.1 as int), raster(img)) ==> raster(
                r.0,
            ) == transformed_by(self.transforms@.subrange(from as int, r.1 as int), raster(img)),
    {
        let mut at: usize = from;
        let mut current = img;
        assert(self.transforms@.subrange(from as int, at as int) =~= Seq::empty());
        while at < self.transforms.len()
            invariant
                from <= at <= self.transforms.len(),
                forall|k: int| from <= k < at ==> !(#[trigger] self.transforms[k] is Blur),
                raster(current).same_shape(
                    transformed_by(self.transforms@.subrange(from as int, at as int), raster(img)),
                ),
                exact_run(self.transforms@.subrange(from as int, at as int), raster(img))
                    ==> raster(current) == transformed_by(
                    self.transforms@.subrange(from as int, at as int),
                    raster(img),
                ),
            decreases self.transforms.len() - at,
        {
            match self.transforms[at].try_apply(current) {
                Ok(out) => {
                    proof {
                        let done = self.transforms@.subrange(from as int, at + 1);
                        assert(done.drop_last() =~= self.transforms@.subrange(
                            from as int,
                            at as int,
                        ));
                        assert(done.last() == self.transforms@[at as int]);
                        self.transforms@[at as int].lemma_shape(
                            raster(current),
                            transformed_by(done.drop_last(), raster(img)),
                        );
                    }
                    current = out;
                },
                Err(back) => {
                    return (back, at);
                },
            }
            at += 1;
        }
        (current, at)
    }
}

} // verus!
